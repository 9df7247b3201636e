use vstd::bytes::*;
use vstd::prelude::*;
use vstd::slice::slice_to_vec;

use crate::error::DragonError;
use crate::record::AkashicRecord;

verus! {

/// The BLAKE3 digest of a byte string.
pub uninterp spec fn blake3_of(m: Seq<u8>) -> Seq<u8>;

/// Relies on `blake3::hash`: the 32-byte BLAKE3 digest of its input, which
/// depends on the input alone.
#[verifier::external_body]
fn blake3_hash(m: &[u8]) -> (r: [u8; 32])
    ensures
        r@ == blake3_of(m@),
{
    *blake3::hash(m).as_bytes()
}

/// What the chain digest of a record covers: the previous hash, then commit
/// time, phase and operation tag in little-endian order. The completion hash
/// and the padding are left out.
pub open spec fn digest_message(r: AkashicRecord) -> Seq<u8> {
    r.h_previous@ + spec_u64_to_le_bytes(r.t_commit) + spec_u32_to_le_bytes(r.t_pl)
        + spec_u16_to_le_bytes(r.h_id)
}

/// The chain digest of a record.
pub open spec fn record_digest(r: AkashicRecord) -> Seq<u8> {
    blake3_of(digest_message(r))
}

/// Builds the 46 bytes that the chain digest of a record covers.
pub fn digest_input(record: &AkashicRecord) -> (r: Vec<u8>)
    ensures
        r@ == digest_message(*record),
        r@.len() == 46,
{
    let mut out = slice_to_vec(record.h_previous.as_slice());
    let mut time = u64_to_le_bytes(record.t_commit);
    out.append(&mut time);
    let mut phase = u32_to_le_bytes(record.t_pl);
    out.append(&mut phase);
    let mut id = u16_to_le_bytes(record.h_id);
    out.append(&mut id);
    proof {
        lemma_auto_spec_u32_to_from_le_bytes();
        lemma_auto_spec_u16_to_from_le_bytes();
    }
    out
}

/// Compares a computed digest with the expected one.
pub fn check_digest(computed: &[u8; 32], expected: &[u8; 32]) -> (r: Result<(), DragonError>)
    ensures
        r is Ok <==> computed@ == expected@,
        r is Err ==> r == Err::<(), DragonError>(DragonError::ChainIntegrityViolation),
{
    let mut i: usize = 0;
    while i < 32
        invariant
            i <= 32,
            forall|j: int| 0 <= j < i ==> computed@[j] == expected@[j],
        decreases 32 - i,
    {
        if computed[i] != expected[i] {
            return Err(DragonError::ChainIntegrityViolation);
        }
        i += 1;
    }
    assert(computed@ =~= expected@);
    Ok(())
}

/// Computes and checks the chain digest of records.
pub struct ProtocolStack {}

impl ProtocolStack {
    pub fn new() -> (r: Self) {
        ProtocolStack {  }
    }

    /// The chain digest of a record.
    pub fn hash_record(&self, record: &AkashicRecord) -> (r: [u8; 32])
        ensures
            r@ == record_digest(*record),
    {
        let message = digest_input(record);
        blake3_hash(message.as_slice())
    }

    /// Succeeds exactly when `expected_hash` is the chain digest of the record.
    pub fn verify_integrity(&self, record: &AkashicRecord, expected_hash: [u8; 32]) -> (r: Result<
        (),
        DragonError,
    >)
        ensures
            r is Ok <==> record_digest(*record) == expected_hash@,
            r is Err ==> r == Err::<(), DragonError>(DragonError::ChainIntegrityViolation),
    {
        let calculated = self.hash_record(record);
        check_digest(&calculated, &expected_hash)
    }
}

/// A record verifies against its own digest: the digest that `hash_record`
/// returns for a record is one that `verify_integrity` accepts for it.
pub proof fn lemma_own_digest_verifies(r: AkashicRecord, d: [u8; 32])
    requires
        d@ == record_digest(r),
    ensures
        record_digest(r) == d@,
{
}

/// The digest does not depend on the completion hash or the padding: two
/// records that agree on the previous hash, commit time, phase and operation
/// tag have the same digest.
pub proof fn lemma_digest_ignores_completion_and_padding(r: AkashicRecord, s: AkashicRecord)
    requires
        s.h_previous == r.h_previous,
        s.t_commit == r.t_commit,
        s.t_pl == r.t_pl,
        s.h_id == r.h_id,
    ensures
        digest_message(s) == digest_message(r),
        record_digest(s) == record_digest(r),
{
}

/// A change to the previous hash, commit time, phase or operation tag changes
/// the bytes that the digest covers.
pub proof fn lemma_metadata_change_changes_digest_input(r: AkashicRecord, s: AkashicRecord)
    requires
        s.h_previous != r.h_previous || s.t_commit != r.t_commit || s.t_pl != r.t_pl || s.h_id
            != r.h_id,
    ensures
        digest_message(s) != digest_message(r),
{
    lemma_auto_spec_u64_to_from_le_bytes();
    lemma_auto_spec_u32_to_from_le_bytes();
    lemma_auto_spec_u16_to_from_le_bytes();
    if digest_message(s) == digest_message(r) {
        let e = digest_message(r);
        assert(s.h_previous@ =~= e.subrange(0, 32));
        assert(r.h_previous@ =~= e.subrange(0, 32));
        assert(spec_u64_to_le_bytes(s.t_commit) =~= e.subrange(32, 40));
        assert(spec_u64_to_le_bytes(r.t_commit) =~= e.subrange(32, 40));
        assert(spec_u32_to_le_bytes(s.t_pl) =~= e.subrange(40, 44));
        assert(spec_u32_to_le_bytes(r.t_pl) =~= e.subrange(40, 44));
        assert(spec_u16_to_le_bytes(s.h_id) =~= e.subrange(44, 46));
        assert(spec_u16_to_le_bytes(r.h_id) =~= e.subrange(44, 46));
        assert(s.h_previous =~= r.h_previous);
    }
}

} // verus!
