//! A durable record ledger: a fixed 128-byte record and its codec, a phase
//! clock, a digest chain over record metadata, and the decision core of a
//! writer that appends every record to three registers all-or-nothing.
//! Alongside: a phase-locked task arena, GF(2^8) tables, and the framing of
//! sealed messages.

pub mod chain;
pub mod error;
pub mod galois;
pub mod phase;
pub mod record;
pub mod scheduler;
pub mod sealing;
pub mod tsc_clock;
pub mod writer;

pub use chain::{check_digest, digest_input, ProtocolStack};
pub use error::{CompletionResults, DragonError, RecordFault, TruncateResults};
pub use galois::GF256;
pub use phase::{DjedClock, PhaseAngle, DJED_FREQUENCY_HZ, DJED_PERIOD_NS, FULL_TURN};
pub use record::{AkashicRecord, DATA_SIZE, PADDING_SIZE, RECORD_SIZE};
pub use tsc_clock::{
    current_phase_hundredths, read_tick_count, read_tsc_ns, tick_to_nanoseconds, TSC_FREQUENCY_HZ,
};
pub use writer::{
    is_fully_written, queue_action, rollback_outcome, CommitPlan, CompletionSet, LedgerState,
    QueueAction, Register, Settlement, WriteOp, EFBIG,
};
pub use scheduler::{
    copy_hash, execute_hieroglyph, phase_diff, ScheduleError, Scheduler, TaskControlBlock,
    TaskState, AKASHIC_COMMIT, MAX_TASKS, PHASE_TOLERANCE, TICK_PERIOD_NS,
};
pub use sealing::{message_nonce, next_nonce, open_frame, seal_frame, NONCE_LEN};
