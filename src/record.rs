use vstd::bytes::*;
use vstd::prelude::*;
use vstd::slice::slice_to_vec;

use crate::error::{DragonError, RecordFault};

verus! {

/// Size of an encoded record in bytes.
pub const RECORD_SIZE: usize = 128;

/// Size of the data fields of a record, before the padding.
pub const DATA_SIZE: usize = 78;

/// Size of the zero padding that ends every record.
pub const PADDING_SIZE: usize = 50;

/// One ledger record: two digests, a commit time, a phase and an operation
/// tag, followed by padding that is always zero.
#[derive(Debug, Clone, Copy)]
pub struct AkashicRecord {
    /// Digest of the record's content, supplied by the caller.
    pub h_completion: [u8; 32],
    /// `h_completion` of the previous record in the caller's chain.
    pub h_previous: [u8; 32],
    /// Commit time in nanoseconds.
    pub t_commit: u64,
    /// Phase angle in hundredths of a degree.
    pub t_pl: u32,
    /// Operation tag.
    pub h_id: u16,
    /// Padding; zero in every valid record.
    pub padding: [u8; 50],
}

/// Fifty zero bytes.
pub open spec fn zero_padding() -> Seq<u8> {
    Seq::new(50, |i: int| 0u8)
}

/// The padding region of an encoded record is all zero.
pub open spec fn padding_region_is_zero(bytes: Seq<u8>) -> bool {
    forall|i: int| DATA_SIZE <= i < RECORD_SIZE ==> bytes[i] == 0u8
}

/// Copies the 32 bytes that start at `start`.
fn read_digest(bytes: &[u8], start: usize) -> (r: [u8; 32])
    requires
        start + 32 <= bytes@.len(),
    ensures
        r@ == bytes@.subrange(start as int, start + 32),
{
    let len = bytes.len();
    let mut out = [0u8; 32];
    let mut k: usize = 0;
    while k < 32
        invariant
            k <= 32,
            start + 32 <= bytes@.len() == len,
            forall|j: int| 0 <= j < k ==> out@[j] == bytes@[start + j],
        decreases 32 - k,
    {
        out[k] = bytes[start + k];
        k += 1;
    }
    assert(out@ =~= bytes@.subrange(start as int, start + 32));
    out
}

impl AkashicRecord {
    /// Size of an encoded record in bytes.
    pub const SIZE: usize = 128;

    /// Size of the data fields of a record, before the padding.
    pub const DATA_SIZE: usize = 78;

    /// The padding is all zero.
    pub open spec fn sanctified(&self) -> bool {
        self.padding@ == zero_padding()
    }

    /// The canonical 128-byte layout: both digests, then commit time, phase
    /// and operation tag in little-endian order, then fifty zero bytes
    /// (whatever the padding field holds).
    pub open spec fn encoding(&self) -> Seq<u8> {
        self.h_completion@ + self.h_previous@ + spec_u64_to_le_bytes(self.t_commit)
            + spec_u32_to_le_bytes(self.t_pl) + spec_u16_to_le_bytes(self.h_id) + zero_padding()
    }

    /// Builds a record whose padding is zero.
    pub fn new(
        h_completion: [u8; 32],
        h_previous: [u8; 32],
        t_pl: u32,
        h_id: u16,
        t_commit: u64,
    ) -> (r: Self)
        ensures
            r.h_completion == h_completion,
            r.h_previous == h_previous,
            r.t_pl == t_pl,
            r.h_id == h_id,
            r.t_commit == t_commit,
            r.sanctified(),
    {
        let r = AkashicRecord { h_completion, h_previous, t_commit, t_pl, h_id, padding: [0u8; 50] };
        assert(r.padding@ =~= zero_padding());
        r
    }

    /// Checks that every padding byte is zero.
    pub fn is_sanctified(&self) -> (r: bool)
        ensures
            r == self.sanctified(),
    {
        let mut i: usize = 0;
        while i < PADDING_SIZE
            invariant
                i <= PADDING_SIZE,
                forall|j: int| 0 <= j < i ==> self.padding@[j] == 0u8,
            decreases PADDING_SIZE - i,
        {
            if self.padding[i] != 0 {
                proof {
                    assert(self.padding@[i as int] != zero_padding()[i as int]);
                }
                return false;
            }
            i += 1;
        }
        assert(self.padding@ =~= zero_padding());
        true
    }

    /// Encodes the record into its 128-byte layout; the padding region is
    /// written as zeros whatever the padding field holds.
    pub fn as_bytes(&self) -> (r: Vec<u8>)
        ensures
            r@ == self.encoding(),
            r@.len() == RECORD_SIZE,
    {
        let mut out = slice_to_vec(self.h_completion.as_slice());
        let mut previous = slice_to_vec(self.h_previous.as_slice());
        out.append(&mut previous);
        let mut time = u64_to_le_bytes(self.t_commit);
        out.append(&mut time);
        let mut phase = u32_to_le_bytes(self.t_pl);
        out.append(&mut phase);
        let mut id = u16_to_le_bytes(self.h_id);
        out.append(&mut id);
        let ghost data = out@;
        let mut i: usize = 0;
        while i < PADDING_SIZE
            invariant
                i <= PADDING_SIZE,
                out@ == data + Seq::new(i as nat, |k: int| 0u8),
            decreases PADDING_SIZE - i,
        {
            out.push(0u8);
            i += 1;
            assert(out@ =~= data + Seq::new(i as nat, |k: int| 0u8));
        }
        proof {
            lemma_auto_spec_u64_to_from_le_bytes();
            lemma_auto_spec_u32_to_from_le_bytes();
            lemma_auto_spec_u16_to_from_le_bytes();
            assert(out@ =~= self.encoding());
        }
        out
    }

    /// Decodes a record from exactly 128 bytes whose padding region is zero.
    pub fn from_bytes(bytes: &[u8]) -> (r: Result<AkashicRecord, DragonError>)
        ensures
            bytes@.len() != RECORD_SIZE ==> r == Err::<AkashicRecord, DragonError>(
                DragonError::InvalidRecord(RecordFault::WrongSize { len: bytes@.len() as usize }),
            ),
            bytes@.len() == RECORD_SIZE && !padding_region_is_zero(bytes@) ==> r == Err::<
                AkashicRecord,
                DragonError,
            >(DragonError::InvalidRecord(RecordFault::UnsanctifiedPadding)),
            bytes@.len() == RECORD_SIZE && padding_region_is_zero(bytes@) ==> r is Ok
                && r.unwrap().encoding() == bytes@ && r.unwrap().sanctified(),
    {
        if bytes.len() != RECORD_SIZE {
            return Err(DragonError::InvalidRecord(RecordFault::WrongSize { len: bytes.len() }));
        }
        let mut i: usize = DATA_SIZE;
        while i < RECORD_SIZE
            invariant
                DATA_SIZE <= i <= RECORD_SIZE,
                bytes@.len() == RECORD_SIZE,
                forall|j: int| DATA_SIZE <= j < i ==> bytes@[j] == 0u8,
            decreases RECORD_SIZE - i,
        {
            if bytes[i] != 0 {
                return Err(DragonError::InvalidRecord(RecordFault::UnsanctifiedPadding));
            }
            i += 1;
        }
        let h_completion = read_digest(bytes, 0);
        let h_previous = read_digest(bytes, 32);
        let time = vstd::slice::slice_subrange(bytes, 64, 72);
        let phase = vstd::slice::slice_subrange(bytes, 72, 76);
        let id = vstd::slice::slice_subrange(bytes, 76, 78);
        let t_commit = u64_from_le_bytes(time);
        let t_pl = u32_from_le_bytes(phase);
        let h_id = u16_from_le_bytes(id);
        let r = AkashicRecord::new(h_completion, h_previous, t_pl, h_id, t_commit);
        proof {
            lemma_auto_spec_u64_to_from_le_bytes();
            lemma_auto_spec_u32_to_from_le_bytes();
            lemma_auto_spec_u16_to_from_le_bytes();
            assert(bytes@.subrange(78, 128) =~= zero_padding());
            assert(bytes@ =~= bytes@.subrange(0, 32) + bytes@.subrange(32, 64) + time@ + phase@
                + id@ + bytes@.subrange(78, 128));
            assert(r.encoding() =~= bytes@);
        }
        Ok(r)
    }
}

/// Two records with the same encoding agree on every field but the padding.
proof fn lemma_encoding_determines_fields(r: AkashicRecord, s: AkashicRecord)
    requires
        s.encoding() == r.encoding(),
    ensures
        s.h_completion == r.h_completion,
        s.h_previous == r.h_previous,
        s.t_commit == r.t_commit,
        s.t_pl == r.t_pl,
        s.h_id == r.h_id,
{
    lemma_auto_spec_u64_to_from_le_bytes();
    lemma_auto_spec_u32_to_from_le_bytes();
    lemma_auto_spec_u16_to_from_le_bytes();
    let e = r.encoding();
    assert(s.h_completion@ =~= e.subrange(0, 32));
    assert(r.h_completion@ =~= e.subrange(0, 32));
    assert(s.h_previous@ =~= e.subrange(32, 64));
    assert(r.h_previous@ =~= e.subrange(32, 64));
    assert(spec_u64_to_le_bytes(s.t_commit) =~= e.subrange(64, 72));
    assert(spec_u64_to_le_bytes(r.t_commit) =~= e.subrange(64, 72));
    assert(spec_u32_to_le_bytes(s.t_pl) =~= e.subrange(72, 76));
    assert(spec_u32_to_le_bytes(r.t_pl) =~= e.subrange(72, 76));
    assert(spec_u16_to_le_bytes(s.h_id) =~= e.subrange(76, 78));
    assert(spec_u16_to_le_bytes(r.h_id) =~= e.subrange(76, 78));
    assert(s.h_completion =~= r.h_completion);
    assert(s.h_previous =~= r.h_previous);
}

/// Round trip: the encoding of a record with zero padding is 128 bytes long
/// with a zero padding region, so `from_bytes` accepts it, and the only
/// record with zero padding that has this encoding is the record itself.
pub proof fn lemma_round_trip(r: AkashicRecord)
    requires
        r.sanctified(),
    ensures
        r.encoding().len() == RECORD_SIZE,
        padding_region_is_zero(r.encoding()),
        forall|s: AkashicRecord| #[trigger] s.encoding() == r.encoding() && s.sanctified() ==> s == r,
{
    lemma_auto_spec_u64_to_from_le_bytes();
    lemma_auto_spec_u32_to_from_le_bytes();
    lemma_auto_spec_u16_to_from_le_bytes();
    assert forall|s: AkashicRecord| #[trigger] s.encoding() == r.encoding() && s.sanctified() implies s
        == r by {
        lemma_encoding_determines_fields(r, s);
        assert(s.padding =~= r.padding);
    }
}

} // verus!
