use dragon_tools::{
    is_fully_written, queue_action, rollback_outcome, AkashicRecord, CompletionResults,
    CompletionSet, DragonError, LedgerState, QueueAction, Register, Settlement, TruncateResults,
    WriteOp, EFBIG,
};

fn whole() -> CompletionResults {
    CompletionResults { work: 128, history: 128, witness: 128 }
}

fn offsets(state: &LedgerState) -> (u64, u64, u64) {
    (
        state.offset(Register::Work),
        state.offset(Register::History),
        state.offset(Register::Witness),
    )
}

#[test]
fn plan_targets_current_offsets_with_distinct_tags() {
    let state = LedgerState::new();
    let record = AkashicRecord::new([1u8; 32], [2u8; 32], 12345, 0x0001, 1234567890);
    let plan = state.plan_commit(&record).unwrap();
    assert_eq!(plan.bytes, record.as_bytes());
    assert_eq!(plan.work, WriteOp { register: Register::Work, offset: 0, tag: 1 });
    assert_eq!(plan.history, WriteOp { register: Register::History, offset: 0, tag: 2 });
    assert_eq!(plan.witness, WriteOp { register: Register::Witness, offset: 0, tag: 3 });
    assert_eq!(Register::History.tag(), 2);
}

#[test]
fn ten_successful_commits_grow_each_register_by_ten_records() {
    let mut state = LedgerState::new();
    for i in 0..10u8 {
        let record = AkashicRecord::new([i; 32], [(i + 1) % 255; 32], i as u32 * 1000, i as u16, 1234567890 + i as u64);
        let plan = state.plan_commit(&record).unwrap();
        assert_eq!(plan.work.offset, 128 * i as u64);
        assert_eq!(state.settle(&record, whole()), Settlement::Committed);
    }
    assert_eq!(offsets(&state), (1280, 1280, 1280));
}

#[test]
fn scenario_commit_into_empty_registers() {
    let mut state = LedgerState::new();
    let record = AkashicRecord::new([0xAA; 32], [0xBB; 32], 9000, 1, 1000);
    state.plan_commit(&record).unwrap();
    assert_eq!(state.settle(&record, whole()), Settlement::Committed);
    assert_eq!(offsets(&state), (128, 128, 128));
}

#[test]
fn one_short_write_rolls_back_every_register() {
    let mut state = LedgerState::new();
    let record = AkashicRecord::new([3u8; 32], [4u8; 32], 100, 7, 55);
    assert_eq!(state.settle(&record, whole()), Settlement::Committed);
    let shorts = [
        CompletionResults { work: 64, history: 128, witness: 128 },
        CompletionResults { work: 128, history: 0, witness: 128 },
        CompletionResults { work: 128, history: 128, witness: -5 },
    ];
    for results in shorts {
        assert!(!is_fully_written(&results));
        assert_eq!(
            state.settle(&record, results),
            Settlement::RollBack { work: 128, history: 128, witness: 128 }
        );
        assert_eq!(offsets(&state), (128, 128, 128));
    }
}

#[test]
fn rollback_outcome_keeps_both_failures_apart() {
    let writes = CompletionResults { work: 128, history: 12, witness: 128 };
    let all = TruncateResults { work: true, history: true, witness: true };
    assert_eq!(rollback_outcome(writes, all), DragonError::AtomicWriteFailed(writes));
    let one = TruncateResults { work: true, history: false, witness: true };
    assert_eq!(
        rollback_outcome(writes, one),
        DragonError::RollbackFailed { writes, truncated: one }
    );
}

#[test]
fn completions_are_correlated_by_tag_in_any_order() {
    let mut set = CompletionSet::new();
    assert!(!set.is_complete());
    assert!(set.record(3, 128));
    assert!(!set.record(7, 1));
    assert!(!set.record(0, 1));
    assert!(set.record(1, 64));
    assert_eq!(set.results(), None);
    assert!(set.record(2, -4));
    assert!(set.is_complete());
    assert_eq!(set.results(), Some(CompletionResults { work: 64, history: -4, witness: 128 }));
}

#[test]
fn queue_pressure_drains_before_reporting_full() {
    assert_eq!(queue_action(128, false), QueueAction::Enqueue);
    assert_eq!(queue_action(3, true), QueueAction::Enqueue);
    assert_eq!(queue_action(2, false), QueueAction::Drain);
    assert_eq!(queue_action(0, true), QueueAction::Full);
}

#[test]
fn resume_requires_equal_whole_registers() {
    let state = LedgerState::resume(256, 256, 256).unwrap();
    assert_eq!(offsets(&state), (256, 256, 256));
    assert_eq!(
        LedgerState::resume(256, 128, 256).err(),
        Some(DragonError::RegistersDiverged { work: 256, history: 128, witness: 256 })
    );
    assert_eq!(
        LedgerState::resume(100, 100, 100).err(),
        Some(DragonError::RegistersDiverged { work: 100, history: 100, witness: 100 })
    );
}

#[test]
fn full_registers_refuse_a_commit() {
    let top = u64::MAX - 127;
    let mut state = LedgerState::resume(top, top, top).unwrap();
    let record = AkashicRecord::new([0u8; 32], [0u8; 32], 0, 0, 0);
    assert_eq!(state.plan_commit(&record).unwrap_err(), DragonError::Io(EFBIG));
    assert_eq!(
        state.settle(&record, whole()),
        Settlement::RollBack { work: top, history: top, witness: top }
    );
}
