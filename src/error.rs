use vstd::prelude::*;

verus! {

/// Why a byte string was refused as a record.
#[derive(Debug, Clone, Copy, PartialEq, Eq, Structural)]
pub enum RecordFault {
    /// The input did not hold exactly one record's worth of bytes.
    WrongSize { len: usize },
    /// The padding region held a non-zero byte.
    UnsanctifiedPadding,
}

/// What the three register writes of one commit reported: the number of
/// bytes written, or a negative OS error number.
#[derive(Debug, Clone, Copy, PartialEq, Eq, Structural)]
pub struct CompletionResults {
    pub work: i32,
    pub history: i32,
    pub witness: i32,
}

/// Whether truncating each register back to its pre-commit length worked.
#[derive(Debug, Clone, Copy, PartialEq, Eq, Structural)]
pub struct TruncateResults {
    pub work: bool,
    pub history: bool,
    pub witness: bool,
}

/// The errors of the ledger.
#[derive(Debug, Clone, Copy, PartialEq, Eq, Structural)]
pub enum DragonError {
    /// The storage or the I/O queue failed; the OS error number.
    Io(i32),
    /// A recomputed digest did not match the expected one.
    ChainIntegrityViolation,
    /// At least one register write was short or failed; the registers were
    /// rolled back to their lengths before the commit.
    AtomicWriteFailed(CompletionResults),
    /// A commit failed and truncating the registers back failed as well.
    RollbackFailed { writes: CompletionResults, truncated: TruncateResults },
    /// The I/O submission queue has no room for the three writes of a commit.
    QueueFull,
    /// Bytes that do not form a valid record.
    InvalidRecord(RecordFault),
    /// The registers do not hold the same whole number of records.
    RegistersDiverged { work: u64, history: u64, witness: u64 },
}

} // verus!
