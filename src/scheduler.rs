use vstd::prelude::*;

use crate::phase::{phase_of_elapsed, FULL_TURN};
use crate::tsc_clock::{current_phase_hundredths, read_tsc_ns, tsc_ns};

verus! {

/// Number of task slots.
pub const MAX_TASKS: usize = 16;

/// How far, in hundredths of a degree, the phase may be from a task's target
/// for the task to run.
pub const PHASE_TOLERANCE: u16 = 50;

/// Operation tag of a task that commits its payload hash to the ledger.
pub const AKASHIC_COMMIT: u16 = 0x0180;

/// Time from one timer tick to the next, in nanoseconds.
pub const TICK_PERIOD_NS: u64 = 142_857_000;

/// The life of a task slot.
#[derive(Debug, Clone, Copy, PartialEq, Eq, Structural)]
pub enum TaskState {
    Idle,
    Waiting,
    Ready,
    Done,
}

/// A task slot: a task that waits for the clock to reach a phase.
#[derive(Debug, Clone, Copy)]
pub struct TaskControlBlock {
    pub task_id: u64,
    /// Target phase in hundredths of a degree.
    pub target_phase: u16,
    pub state: TaskState,
    pub hieroglyph_id: u16,
    pub payload_hash: [u8; 32],
}

impl TaskControlBlock {
    /// An idle, empty slot.
    pub fn new() -> (r: Self)
        ensures
            r.task_id == 0,
            r.target_phase == 0,
            r.state == TaskState::Idle,
            r.hieroglyph_id == 0,
            r.payload_hash@ == Seq::new(32, |i: int| 0u8),
    {
        let r = TaskControlBlock {
            task_id: 0,
            target_phase: 0,
            state: TaskState::Idle,
            hieroglyph_id: 0,
            payload_hash: [0u8; 32],
        };
        assert(r.payload_hash@ =~= Seq::new(32, |i: int| 0u8));
        r
    }
}

/// Why a task could not be scheduled.
#[derive(Debug, Clone, Copy, PartialEq, Eq, Structural)]
pub enum ScheduleError {
    /// Every slot is taken.
    NoFreeSlots,
}

/// Distance between two phases around the circle: the smaller of the
/// direct difference and what is left of a full turn (0 where the
/// difference exceeds a full turn).
pub open spec fn phase_distance(current: u16, target: u16) -> nat {
    let d = if current >= target { current - target } else { target - current };
    let wrap = if d <= FULL_TURN { FULL_TURN - d } else { 0 };
    if d <= wrap { d as nat } else { wrap as nat }
}

/// Copies a 32-byte hash.
pub fn copy_hash(src: &[u8; 32], dst: &mut [u8; 32])
    ensures
        final(dst)@ == src@,
{
    let mut i: usize = 0;
    while i < 32
        invariant
            i <= 32,
            forall|j: int| 0 <= j < i ==> dst@[j] == src@[j],
        decreases 32 - i,
    {
        dst[i] = src[i];
        i += 1;
    }
    assert(dst@ =~= src@);
}

/// Distance between the current phase and a target phase.
pub fn phase_diff(current: u16, target: u16) -> (r: u16)
    ensures
        r == phase_distance(current, target),
{
    let diff = if current >= target { current - target } else { target - current };
    let wrap = 36000u16.saturating_sub(diff);
    if diff <= wrap { diff } else { wrap }
}

/// A waiting task runs at this phase.
pub open spec fn fires(t: TaskControlBlock, phase: u16) -> bool {
    t.state == TaskState::Waiting && phase_distance(phase, t.target_phase) <= PHASE_TOLERANCE
}

/// A task slot after a timer tick at `phase`.
pub open spec fn after_tick(t: TaskControlBlock, phase: u16) -> TaskControlBlock {
    if fires(t, phase) {
        TaskControlBlock { state: TaskState::Done, ..t }
    } else {
        t
    }
}

/// The payload hashes that the ledger commits of the tasks among `tasks`
/// that run at `phase`, in slot order.
pub open spec fn commits_fired(tasks: Seq<TaskControlBlock>, phase: u16) -> Seq<[u8; 32]>
    decreases tasks.len(),
{
    if tasks.len() == 0 {
        Seq::empty()
    } else {
        let earlier = commits_fired(tasks.drop_last(), phase);
        let t = tasks.last();
        if fires(t, phase) && t.hieroglyph_id == AKASHIC_COMMIT {
            earlier.push(t.payload_hash)
        } else {
            earlier
        }
    }
}

/// Runs a ready task: a commit task hands back its payload hash for the
/// ledger; every task ends done.
pub fn execute_hieroglyph(task: &mut TaskControlBlock) -> (r: Option<[u8; 32]>)
    ensures
        *final(task) == (TaskControlBlock { state: TaskState::Done, ..*old(task) }),
        r == (if old(task).hieroglyph_id == AKASHIC_COMMIT {
            Some(old(task).payload_hash)
        } else {
            None
        }),
{
    let r = if task.hieroglyph_id == AKASHIC_COMMIT {
        let mut hash = [0u8; 32];
        copy_hash(&task.payload_hash, &mut hash);
        assert(hash =~= task.payload_hash);
        Some(hash)
    } else {
        None
    };
    task.state = TaskState::Done;
    r
}

/// A fixed arena of task slots that wait for the phase clock.
pub struct Scheduler {
    tasks: [TaskControlBlock; 16],
    next_tick_ns: u64,
}

impl View for Scheduler {
    type V = Seq<TaskControlBlock>;

    closed spec fn view(&self) -> Seq<TaskControlBlock> {
        self.tasks@
    }
}

impl Scheduler {
    /// The time of the next timer tick in nanoseconds.
    pub closed spec fn spec_next_tick(&self) -> u64 {
        self.next_tick_ns
    }

    /// Sixteen idle slots.
    pub fn new() -> (r: Self)
        ensures
            r@.len() == MAX_TASKS,
            forall|i: int| 0 <= i < MAX_TASKS ==> #[trigger] r@[i].state == TaskState::Idle,
            r.spec_next_tick() == 0,
    {
        let t = TaskControlBlock::new();
        Scheduler { tasks: [t; 16], next_tick_ns: 0 }
    }

    /// The task in a slot.
    pub fn task(&self, slot: usize) -> (r: TaskControlBlock)
        requires
            slot < MAX_TASKS,
        ensures
            r == self@[slot as int],
    {
        self.tasks[slot]
    }

    /// The time of the next timer tick in nanoseconds.
    pub fn next_tick(&self) -> (r: u64)
        ensures
            r == self.spec_next_tick(),
    {
        self.next_tick_ns
    }

    /// The first idle slot.
    pub fn find_free_slot(&self) -> (r: Result<usize, ScheduleError>)
        ensures
            r is Ok ==> r.unwrap() < MAX_TASKS && self@[r.unwrap() as int].state == TaskState::Idle
                && forall|j: int| 0 <= j < r.unwrap() ==> #[trigger] self@[j].state
                != TaskState::Idle,
            r is Err ==> r == Err::<usize, ScheduleError>(ScheduleError::NoFreeSlots) && forall|
                j: int,
            |
                0 <= j < MAX_TASKS ==> #[trigger] self@[j].state != TaskState::Idle,
    {
        let mut i: usize = 0;
        while i < MAX_TASKS
            invariant
                i <= MAX_TASKS,
                forall|j: int| 0 <= j < i ==> #[trigger] self@[j].state != TaskState::Idle,
            decreases MAX_TASKS - i,
        {
            if self.tasks[i].state == TaskState::Idle {
                return Ok(i);
            }
            i += 1;
        }
        Err(ScheduleError::NoFreeSlots)
    }

    /// Puts a task in the first idle slot, waiting for `target_phase`;
    /// returns the slot, which is also the task's id.
    pub fn wait_for_phase(&mut self, target_phase: u16, hieroglyph_id: u16, hash: [u8; 32]) -> (r:
        Result<usize, ScheduleError>)
        ensures
            final(self).spec_next_tick() == old(self).spec_next_tick(),
            r is Err ==> r == Err::<usize, ScheduleError>(ScheduleError::NoFreeSlots)
                && *final(self) == *old(self) && forall|j: int|
                0 <= j < MAX_TASKS ==> #[trigger] old(self)@[j].state != TaskState::Idle,
            r is Ok ==> {
                let slot = r.unwrap();
                &&& slot < MAX_TASKS
                &&& old(self)@[slot as int].state == TaskState::Idle
                &&& forall|j: int| 0 <= j < slot ==> #[trigger] old(self)@[j].state != TaskState::Idle
                &&& final(self)@ == old(self)@.update(
                    slot as int,
                    TaskControlBlock {
                        task_id: slot as u64,
                        target_phase,
                        state: TaskState::Waiting,
                        hieroglyph_id,
                        payload_hash: hash,
                    },
                )
            },
    {
        let slot = match self.find_free_slot() {
            Ok(slot) => slot,
            Err(e) => return Err(e),
        };
        let mut payload_hash = [0u8; 32];
        copy_hash(&hash, &mut payload_hash);
        assert(payload_hash =~= hash);
        self.tasks[slot] = TaskControlBlock {
            task_id: slot as u64,
            target_phase,
            state: TaskState::Waiting,
            hieroglyph_id,
            payload_hash,
        };
        Ok(slot)
    }

    /// Runs every waiting task whose target is within the tolerance of
    /// `current_phase`, in slot order, and returns the payload hashes that
    /// its commit tasks hand to the ledger.
    pub fn unblock_phase_tasks(&mut self, current_phase: u16) -> (r: Vec<[u8; 32]>)
        ensures
            final(self).spec_next_tick() == old(self).spec_next_tick(),
            final(self)@ == old(self)@.map_values(|t: TaskControlBlock| after_tick(t, current_phase)),
            r@ == commits_fired(old(self)@, current_phase),
    {
        let ghost start = self.tasks@;
        let mut fired: Vec<[u8; 32]> = Vec::new();
        let mut i: usize = 0;
        while i < MAX_TASKS
            invariant
                i <= MAX_TASKS,
                start.len() == MAX_TASKS,
                self.tasks@.len() == MAX_TASKS,
                self.next_tick_ns == old(self).next_tick_ns,
                start == old(self)@,
                forall|j: int| 0 <= j < i ==> #[trigger] self.tasks@[j] == after_tick(start[j], current_phase),
                forall|j: int| i <= j < MAX_TASKS ==> #[trigger] self.tasks@[j] == start[j],
                fired@ == commits_fired(start.subrange(0, i as int), current_phase),
            decreases MAX_TASKS - i,
        {
            let mut task = self.tasks[i];
            proof {
                assert(start.subrange(0, i + 1).drop_last() =~= start.subrange(0, i as int));
            }
            if task.state == TaskState::Waiting {
                let diff = phase_diff(current_phase, task.target_phase);
                if diff <= PHASE_TOLERANCE {
                    task.state = TaskState::Ready;
                    match execute_hieroglyph(&mut task) {
                        Some(hash) => fired.push(hash),
                        None => {},
                    }
                    self.tasks[i] = task;
                }
            }
            i += 1;
        }
        proof {
            assert(start.subrange(0, MAX_TASKS as int) =~= start);
            assert(self.tasks@ =~= start.map_values(|t: TaskControlBlock| after_tick(t, current_phase)));
        }
        fired
    }

    /// Sets the next timer tick one tick period after `now_ns`.
    pub fn update_next_tick(&mut self, now_ns: u64)
        requires
            now_ns + TICK_PERIOD_NS <= u64::MAX,
        ensures
            final(self)@ == old(self)@,
            final(self).spec_next_tick() == now_ns + TICK_PERIOD_NS,
    {
        self.next_tick_ns = now_ns + TICK_PERIOD_NS;
    }

    /// Handles a timer tick at a time-stamp-counter reading taken by the
    /// caller: runs the tasks due at the current phase and schedules the
    /// next tick. Returns the payload hashes to commit.
    pub fn djed_timer_handler(&mut self, tsc: u64) -> (r: Vec<[u8; 32]>)
        ensures
            final(self)@ == old(self)@.map_values(
                |t: TaskControlBlock| after_tick(t, phase_of_elapsed(tsc_ns(tsc)) as u16),
            ),
            r@ == commits_fired(old(self)@, phase_of_elapsed(tsc_ns(tsc)) as u16),
            final(self).spec_next_tick() == tsc_ns(tsc) + TICK_PERIOD_NS,
    {
        let current_phase = current_phase_hundredths(tsc);
        let fired = self.unblock_phase_tasks(current_phase);
        let now = read_tsc_ns(tsc);
        assert(now <= tsc);
        self.update_next_tick(now);
        fired
    }
}

} // verus!
