use vstd::prelude::*;

use crate::error::{CompletionResults, DragonError, TruncateResults};
use crate::record::{AkashicRecord, RECORD_SIZE};

verus! {

/// OS error number for a write past the largest file size (`EFBIG`).
pub const EFBIG: i32 = 27;

/// One of the three registers that every record is written to.
#[derive(Debug, Clone, Copy, PartialEq, Eq, Structural)]
pub enum Register {
    /// Fast working storage.
    Work,
    /// Archival storage.
    History,
    /// Witness storage.
    Witness,
}

impl Register {
    /// The correlation tag of the register's write in the I/O queue.
    pub open spec fn spec_tag(self) -> u64 {
        match self {
            Register::Work => 1,
            Register::History => 2,
            Register::Witness => 3,
        }
    }

    /// The correlation tag of the register's write in the I/O queue.
    pub fn tag(&self) -> (r: u64)
        ensures
            r == self.spec_tag(),
    {
        match self {
            Register::Work => 1,
            Register::History => 2,
            Register::Witness => 3,
        }
    }
}

/// Model of one register: the records it held before the writer took it
/// over, and the records appended since, in order.
pub struct RegisterView {
    pub base: nat,
    pub records: Seq<Seq<u8>>,
}

impl RegisterView {
    /// Length of the register in bytes.
    pub open spec fn byte_len(self) -> nat {
        RECORD_SIZE as nat * (self.base + self.records.len())
    }

    /// The register after one more record.
    pub open spec fn append(self, encoding: Seq<u8>) -> RegisterView {
        RegisterView { base: self.base, records: self.records.push(encoding) }
    }
}

/// Model of the three registers.
pub struct LedgerView {
    pub work: RegisterView,
    pub history: RegisterView,
    pub witness: RegisterView,
}

impl LedgerView {
    /// Three registers that each hold `base` records, none appended yet.
    pub open spec fn resumed(base: nat) -> LedgerView {
        let r = RegisterView { base, records: Seq::empty() };
        LedgerView { work: r, history: r, witness: r }
    }

    /// Three empty registers.
    pub open spec fn empty() -> LedgerView {
        LedgerView::resumed(0)
    }

    /// One of the registers.
    pub open spec fn register(self, reg: Register) -> RegisterView {
        match reg {
            Register::Work => self.work,
            Register::History => self.history,
            Register::Witness => self.witness,
        }
    }

    /// The three registers hold the same records in the same order.
    pub open spec fn consistent(self) -> bool {
        self.work == self.history && self.work == self.witness
    }

    /// Each register can take one more record without its length passing
    /// the largest 64-bit offset.
    pub open spec fn has_room(self) -> bool {
        self.work.byte_len() + RECORD_SIZE <= u64::MAX && self.history.byte_len() + RECORD_SIZE
            <= u64::MAX && self.witness.byte_len() + RECORD_SIZE <= u64::MAX
    }

    /// All three registers after one more record.
    pub open spec fn append(self, encoding: Seq<u8>) -> LedgerView {
        LedgerView {
            work: self.work.append(encoding),
            history: self.history.append(encoding),
            witness: self.witness.append(encoding),
        }
    }
}

/// Every write of a commit reported a whole record.
pub open spec fn all_written(c: CompletionResults) -> bool {
    c.work == RECORD_SIZE && c.history == RECORD_SIZE && c.witness == RECORD_SIZE
}

/// Whether every write of a commit reported a whole record.
pub fn is_fully_written(c: &CompletionResults) -> (r: bool)
    ensures
        r == all_written(*c),
{
    c.work == 128 && c.history == 128 && c.witness == 128
}

/// The model after a commit whose writes reported `results`: the record is
/// added to all three registers when every write was whole and there was
/// room, else nothing changes.
pub open spec fn settled(v: LedgerView, encoding: Seq<u8>, results: CompletionResults) -> LedgerView {
    if all_written(results) && v.has_room() {
        v.append(encoding)
    } else {
        v
    }
}

/// One write of a commit: the record's bytes go to `register` at `offset`,
/// and its completion carries `tag`.
#[derive(Debug, Clone, Copy, PartialEq, Eq, Structural)]
pub struct WriteOp {
    pub register: Register,
    pub offset: u64,
    pub tag: u64,
}

/// The three writes of a commit and the bytes they write.
#[derive(Debug)]
pub struct CommitPlan {
    pub bytes: Vec<u8>,
    pub work: WriteOp,
    pub history: WriteOp,
    pub witness: WriteOp,
}

/// What the writer must do once the three writes of a commit have completed.
#[derive(Debug, Clone, Copy, PartialEq, Eq, Structural)]
pub enum Settlement {
    /// The record is in all three registers.
    Committed,
    /// Truncate each register back to the given length.
    RollBack { work: u64, history: u64, witness: u64 },
}

/// The tracked state of the three registers: the length of each, and a model
/// of what they hold.
pub struct LedgerState {
    work_offset: u64,
    hist_offset: u64,
    witness_offset: u64,
    model: Ghost<LedgerView>,
}

impl View for LedgerState {
    type V = LedgerView;

    closed spec fn view(&self) -> LedgerView {
        self.model@
    }
}

impl LedgerState {
    #[verifier::type_invariant]
    spec fn tracks_model(&self) -> bool {
        &&& self.model@.consistent()
        &&& self.work_offset == self.model@.work.byte_len()
        &&& self.hist_offset == self.model@.history.byte_len()
        &&& self.witness_offset == self.model@.witness.byte_len()
    }

    /// The state of three empty registers.
    pub fn new() -> (r: Self)
        ensures
            r@ == LedgerView::empty(),
            r@.consistent(),
    {
        LedgerState {
            work_offset: 0,
            hist_offset: 0,
            witness_offset: 0,
            model: Ghost(LedgerView::empty()),
        }
    }

    /// The state of three registers of the given lengths in bytes, which
    /// must be equal and a whole number of records.
    pub fn resume(work_len: u64, history_len: u64, witness_len: u64) -> (r: Result<Self, DragonError>)
        ensures
            (work_len == history_len && work_len == witness_len && work_len % 128 == 0) <==> r is Ok,
            r is Ok ==> r.unwrap()@ == LedgerView::resumed((work_len / 128) as nat)
                && r.unwrap()@.consistent(),
            r is Err ==> r == Err::<Self, DragonError>(
                DragonError::RegistersDiverged {
                    work: work_len,
                    history: history_len,
                    witness: witness_len,
                },
            ),
    {
        if work_len == history_len && work_len == witness_len && work_len % 128 == 0 {
            let ghost v = LedgerView::resumed((work_len / 128) as nat);
            Ok(
                LedgerState {
                    work_offset: work_len,
                    hist_offset: history_len,
                    witness_offset: witness_len,
                    model: Ghost(v),
                },
            )
        } else {
            Err(
                DragonError::RegistersDiverged {
                    work: work_len,
                    history: history_len,
                    witness: witness_len,
                },
            )
        }
    }

    /// The length in bytes of a register.
    pub fn offset(&self, reg: Register) -> (r: u64)
        ensures
            r == self@.register(reg).byte_len(),
    {
        proof {
            use_type_invariant(self);
        }
        match reg {
            Register::Work => self.work_offset,
            Register::History => self.hist_offset,
            Register::Witness => self.witness_offset,
        }
    }

    /// Plans a commit: the record's encoding, and one write per register at
    /// the register's current length, tagged with the register's tag. Fails
    /// with `EFBIG` where a register cannot grow by one more record.
    pub fn plan_commit(&self, record: &AkashicRecord) -> (r: Result<CommitPlan, DragonError>)
        ensures
            r is Ok <==> self@.has_room(),
            r is Err ==> r == Err::<CommitPlan, DragonError>(DragonError::Io(EFBIG)),
            r is Ok ==> ({
                let p = r.unwrap();
                &&& p.bytes@ == record.encoding()
                &&& p.work == (WriteOp {
                    register: Register::Work,
                    offset: self@.work.byte_len() as u64,
                    tag: 1,
                })
                &&& p.history == (WriteOp {
                    register: Register::History,
                    offset: self@.history.byte_len() as u64,
                    tag: 2,
                })
                &&& p.witness == (WriteOp {
                    register: Register::Witness,
                    offset: self@.witness.byte_len() as u64,
                    tag: 3,
                })
            }),
    {
        proof {
            use_type_invariant(self);
        }
        let limit: u64 = u64::MAX - 128;
        if self.work_offset > limit || self.hist_offset > limit || self.witness_offset > limit {
            return Err(DragonError::Io(EFBIG));
        }
        let bytes = record.as_bytes();
        Ok(
            CommitPlan {
                bytes,
                work: WriteOp { register: Register::Work, offset: self.work_offset, tag: 1 },
                history: WriteOp { register: Register::History, offset: self.hist_offset, tag: 2 },
                witness: WriteOp {
                    register: Register::Witness,
                    offset: self.witness_offset,
                    tag: 3,
                },
            },
        )
    }

    /// Decides a commit once its three writes have completed. When every
    /// write reported a whole record (and the registers had room), the
    /// record is added to all three registers; otherwise nothing changes and
    /// the registers must be truncated back to their tracked lengths.
    pub fn settle(&mut self, record: &AkashicRecord, results: CompletionResults) -> (r:
        Settlement)
        ensures
            final(self)@ == settled(old(self)@, record.encoding(), results),
            final(self)@.consistent(),
            (r == Settlement::Committed) <==> (all_written(results) && old(self)@.has_room()),
            r != Settlement::Committed ==> r == (Settlement::RollBack {
                work: old(self)@.work.byte_len() as u64,
                history: old(self)@.history.byte_len() as u64,
                witness: old(self)@.witness.byte_len() as u64,
            }),
    {
        proof {
            use_type_invariant(&*self);
        }
        let limit: u64 = u64::MAX - 128;
        let room = self.work_offset <= limit && self.hist_offset <= limit && self.witness_offset
            <= limit;
        if is_fully_written(&results) && room {
            let ghost next = self.model@.append(record.encoding());
            *self = LedgerState {
                work_offset: self.work_offset + 128,
                hist_offset: self.hist_offset + 128,
                witness_offset: self.witness_offset + 128,
                model: Ghost(next),
            };
            Settlement::Committed
        } else {
            Settlement::RollBack {
                work: self.work_offset,
                history: self.hist_offset,
                witness: self.witness_offset,
            }
        }
    }
}

/// The error that a failed commit reports once the registers were truncated
/// back: the write results alone when every truncation worked, and both the
/// write results and the truncation results when one did not.
pub fn rollback_outcome(writes: CompletionResults, truncated: TruncateResults) -> (r: DragonError)
    ensures
        (truncated.work && truncated.history && truncated.witness) ==> r
            == DragonError::AtomicWriteFailed(writes),
        !(truncated.work && truncated.history && truncated.witness) ==> r
            == (DragonError::RollbackFailed { writes, truncated }),
{
    if truncated.work && truncated.history && truncated.witness {
        DragonError::AtomicWriteFailed(writes)
    } else {
        DragonError::RollbackFailed { writes, truncated }
    }
}

/// The completions of a commit's three writes seen so far, correlated by tag.
#[derive(Debug, Clone, Copy)]
pub struct CompletionSet {
    pub work: Option<i32>,
    pub history: Option<i32>,
    pub witness: Option<i32>,
}

impl CompletionSet {
    /// No completion seen yet.
    pub fn new() -> (r: Self)
        ensures
            r.work is None && r.history is None && r.witness is None,
    {
        CompletionSet { work: None, history: None, witness: None }
    }

    /// Records the result of the completion tagged `user_data`. A tag that
    /// belongs to no register leaves the set unchanged and returns false.
    pub fn record(&mut self, user_data: u64, result: i32) -> (r: bool)
        ensures
            r == (1 <= user_data <= 3),
            final(self).work == (if user_data == 1 { Some(result) } else { old(self).work }),
            final(self).history == (if user_data == 2 { Some(result) } else { old(self).history }),
            final(self).witness == (if user_data == 3 { Some(result) } else { old(self).witness }),
    {
        if user_data == 1 {
            self.work = Some(result);
            true
        } else if user_data == 2 {
            self.history = Some(result);
            true
        } else if user_data == 3 {
            self.witness = Some(result);
            true
        } else {
            false
        }
    }

    /// All three writes have completed.
    pub fn is_complete(&self) -> (r: bool)
        ensures
            r == (self.work is Some && self.history is Some && self.witness is Some),
    {
        self.work.is_some() && self.history.is_some() && self.witness.is_some()
    }

    /// The three results, once all three writes have completed.
    pub fn results(&self) -> (r: Option<CompletionResults>)
        ensures
            r is Some <==> (self.work is Some && self.history is Some && self.witness is Some),
            r is Some ==> r.unwrap() == (CompletionResults {
                work: self.work.unwrap(),
                history: self.history.unwrap(),
                witness: self.witness.unwrap(),
            }),
    {
        match (self.work, self.history, self.witness) {
            (Some(work), Some(history), Some(witness)) => Some(
                CompletionResults { work, history, witness },
            ),
            _ => None,
        }
    }
}

/// The model after a run of successful commits of the given encodings, in
/// order.
pub open spec fn after_commits(v: LedgerView, encodings: Seq<Seq<u8>>) -> LedgerView
    decreases encodings.len(),
{
    if encodings.len() == 0 {
        v
    } else {
        after_commits(v, encodings.drop_last()).append(encodings.last())
    }
}

/// Successful commits append to every register alike: after them each
/// register holds its earlier records followed by the committed ones, in
/// commit order, and the registers still agree.
pub proof fn lemma_commits_append(v: LedgerView, encodings: Seq<Seq<u8>>)
    requires
        v.consistent(),
    ensures
        after_commits(v, encodings).consistent(),
        forall|reg: Register|
            #![auto]
            after_commits(v, encodings).register(reg).base == v.register(reg).base
                && after_commits(v, encodings).register(reg).records == v.register(reg).records
                + encodings,
    decreases encodings.len(),
{
    if encodings.len() > 0 {
        lemma_commits_append(v, encodings.drop_last());
        assert forall|reg: Register|
            #![auto]
            after_commits(v, encodings).register(reg).records == v.register(reg).records
                + encodings by {
            assert(v.register(reg).records + encodings =~= (v.register(reg).records
                + encodings.drop_last()).push(encodings.last()));
        }
    } else {
        assert forall|reg: Register|
            #![auto]
            after_commits(v, encodings).register(reg).records == v.register(reg).records
                + encodings by {
            assert(v.register(reg).records + encodings =~= v.register(reg).records);
        }
    }
}

/// Atomicity on success: after N successful commits on three empty
/// registers, each register is exactly 128 * N bytes long and holds the N
/// records in the order they were committed.
pub proof fn lemma_successful_commits(encodings: Seq<Seq<u8>>)
    ensures
        after_commits(LedgerView::empty(), encodings).consistent(),
        forall|reg: Register|
            #![auto]
            after_commits(LedgerView::empty(), encodings).register(reg).byte_len() == RECORD_SIZE
                * encodings.len() && after_commits(LedgerView::empty(), encodings).register(
                reg,
            ).records == encodings,
{
    lemma_commits_append(LedgerView::empty(), encodings);
    assert forall|reg: Register|
        #![auto]
        after_commits(LedgerView::empty(), encodings).register(reg).byte_len() == RECORD_SIZE
            * encodings.len() && after_commits(LedgerView::empty(), encodings).register(
            reg,
        ).records == encodings by {
        assert(LedgerView::empty().register(reg).records + encodings =~= encodings);
        assert(after_commits(LedgerView::empty(), encodings).register(reg).base == 0);
    }
}

/// A successful commit is an append: when every write reported a whole
/// record and the registers had room, settling adds the record to all three.
pub proof fn lemma_settled_success(v: LedgerView, encoding: Seq<u8>, results: CompletionResults)
    requires
        all_written(results),
        v.has_room(),
    ensures
        settled(v, encoding, results) == after_commits(v, seq![encoding]),
{
    let one = seq![encoding];
    assert(one.drop_last() =~= Seq::<Seq<u8>>::empty());
    assert(after_commits(v, one.drop_last()) == v);
    assert(one.last() == encoding);
}

/// Atomicity on failure: when any write of a commit is short (in particular
/// exactly one), no register changes, so each keeps the length it had
/// before the commit.
pub proof fn lemma_failed_commit_keeps_registers(
    v: LedgerView,
    encoding: Seq<u8>,
    results: CompletionResults,
)
    requires
        !all_written(results),
    ensures
        settled(v, encoding, results) == v,
        forall|reg: Register|
            #![auto]
            settled(v, encoding, results).register(reg).byte_len() == v.register(reg).byte_len(),
{
}

/// What to do before enqueuing the three writes of a commit.
#[derive(Debug, Clone, Copy, PartialEq, Eq, Structural)]
pub enum QueueAction {
    /// There is room: enqueue the writes.
    Enqueue,
    /// Submit what is pending first, then look again.
    Drain,
    /// Still no room after draining: report `QueueFull`.
    Full,
}

/// Decides how to make room for a commit's three writes in a submission
/// queue with `free_slots` free entries; `drained` tells whether pending
/// entries were already submitted for this commit.
pub fn queue_action(free_slots: usize, drained: bool) -> (r: QueueAction)
    ensures
        free_slots >= 3 ==> r == QueueAction::Enqueue,
        free_slots < 3 && !drained ==> r == QueueAction::Drain,
        free_slots < 3 && drained ==> r == QueueAction::Full,
{
    if free_slots >= 3 {
        QueueAction::Enqueue
    } else if !drained {
        QueueAction::Drain
    } else {
        QueueAction::Full
    }
}

} // verus!
