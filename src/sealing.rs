use vstd::bytes::*;
use vstd::prelude::*;

verus! {

/// Length of the nonce that starts every sealed message.
pub const NONCE_LEN: usize = 12;

/// The nonce of the message numbered `counter`: four zero bytes, then the
/// counter in big-endian order.
pub open spec fn nonce_of(counter: u64) -> Seq<u8> {
    seq![0u8, 0u8, 0u8, 0u8] + spec_u64_to_le_bytes(counter).reverse()
}

/// The nonce of the message numbered `counter`.
pub fn message_nonce(counter: u64) -> (r: [u8; 12])
    ensures
        r@ == nonce_of(counter),
{
    let le = u64_to_le_bytes(counter);
    let mut nonce = [0u8; 12];
    let mut i: usize = 0;
    while i < 8
        invariant
            i <= 8,
            le@ == spec_u64_to_le_bytes(counter),
            le@.len() == 8,
            forall|j: int| 0 <= j < 4 ==> nonce@[j] == 0u8,
            forall|j: int| 4 <= j < 4 + i ==> #[trigger] nonce@[j] == le@[11 - j],
        decreases 8 - i,
    {
        nonce[4 + i] = le[7 - i];
        i += 1;
    }
    assert(nonce@ =~= nonce_of(counter));
    nonce
}

/// Advances the message counter and returns the nonce of the new value;
/// `None`, with the counter unchanged, once the counter is exhausted.
pub fn next_nonce(counter: &mut u64) -> (r: Option<[u8; 12]>)
    ensures
        *old(counter) == u64::MAX ==> r is None && *final(counter) == *old(counter),
        *old(counter) < u64::MAX ==> *final(counter) == *old(counter) + 1 && r is Some
            && r.unwrap()@ == nonce_of(*final(counter)),
{
    if *counter == u64::MAX {
        return None;
    }
    *counter = *counter + 1;
    Some(message_nonce(*counter))
}

/// A sealed message: the nonce followed by the ciphertext.
pub fn seal_frame(nonce: &[u8; 12], ciphertext: &[u8]) -> (r: Vec<u8>)
    ensures
        r@ == nonce@ + ciphertext@,
{
    let mut out = vstd::slice::slice_to_vec(nonce.as_slice());
    let mut body = vstd::slice::slice_to_vec(ciphertext);
    out.append(&mut body);
    out
}

/// Splits a sealed message into its nonce and its ciphertext; `None` when it
/// is shorter than a nonce.
pub fn open_frame(sealed: &[u8]) -> (r: Option<([u8; 12], Vec<u8>)>)
    ensures
        r is None <==> sealed@.len() < NONCE_LEN,
        r is Some ==> r.unwrap().0@ == sealed@.subrange(0, 12) && r.unwrap().1@ == sealed@.subrange(
            12,
            sealed@.len() as int,
        ),
{
    let len = sealed.len();
    if len < NONCE_LEN {
        return None;
    }
    let mut nonce = [0u8; 12];
    let mut i: usize = 0;
    while i < NONCE_LEN
        invariant
            i <= NONCE_LEN <= sealed@.len(),
            forall|j: int| 0 <= j < i ==> nonce@[j] == sealed@[j],
        decreases NONCE_LEN - i,
    {
        nonce[i] = sealed[i];
        i += 1;
    }
    assert(nonce@ =~= sealed@.subrange(0, 12));
    let body = vstd::slice::slice_to_vec(vstd::slice::slice_subrange(sealed, NONCE_LEN, len));
    Some((nonce, body))
}

} // verus!
