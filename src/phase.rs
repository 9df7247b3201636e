use vstd::prelude::*;

verus! {

/// Frequency of the phase clock.
pub const DJED_FREQUENCY_HZ: u64 = 7;

/// One period of the phase clock in nanoseconds (about 142.857 ms).
pub const DJED_PERIOD_NS: u64 = 1_000_000_000 / DJED_FREQUENCY_HZ;

/// A full turn in hundredths of a degree.
pub const FULL_TURN: u32 = 36000;

/// Nanoseconds from `t_ref` to `t`, counted modulo 2^64 as the clock's
/// wrapping subtraction does.
pub open spec fn elapsed_ns(t_ref: u64, t: u64) -> nat {
    if t >= t_ref {
        (t - t_ref) as nat
    } else {
        (t + 0x1_0000_0000_0000_0000 - t_ref) as nat
    }
}

/// The phase, in hundredths of a degree, after `delta` nanoseconds:
/// the position within the current period scaled to a full turn, rounded down.
pub open spec fn phase_of_elapsed(delta: nat) -> nat {
    ((delta % (DJED_PERIOD_NS as nat)) * (FULL_TURN as nat)) / (DJED_PERIOD_NS as nat)
}

/// The phase at time `t` of a clock anchored at `t_ref`.
pub open spec fn phase_hundredths(t_ref: u64, t: u64) -> nat {
    phase_of_elapsed(elapsed_ns(t_ref, t))
}

proof fn lemma_phase_below_full_turn(delta: nat)
    ensures
        phase_of_elapsed(delta) < FULL_TURN,
{
    let p = DJED_PERIOD_NS as nat;
    let rem = delta % p;
    assert(rem < p);
    assert(rem * 36000 < p * 36000) by (nonlinear_arith)
        requires
            rem < p,
    ;
    assert((rem * 36000) / p < 36000) by (nonlinear_arith)
        requires
            rem * 36000 < p * 36000,
            p > 0,
    ;
}

/// Computes the phase of `delta` nanoseconds.
pub(crate) fn phase_from_elapsed(delta: u64) -> (r: u32)
    ensures
        r == phase_of_elapsed(delta as nat),
        r < FULL_TURN,
{
    proof {
        lemma_phase_below_full_turn(delta as nat);
    }
    let remainder = delta % DJED_PERIOD_NS;
    let wide = (remainder as u128) * (FULL_TURN as u128);
    (wide / (DJED_PERIOD_NS as u128)) as u32
}

/// A phase angle in hundredths of a degree, always in `[0, 36000)`.
#[derive(Debug, Clone, Copy, PartialEq, Eq, Structural)]
pub struct PhaseAngle {
    hundredths: u32,
}

impl View for PhaseAngle {
    type V = nat;

    closed spec fn view(&self) -> nat {
        self.hundredths as nat
    }
}

impl PhaseAngle {
    #[verifier::type_invariant]
    spec fn below_full_turn(&self) -> bool {
        self.hundredths < FULL_TURN
    }

    /// The phase angle of `value` hundredths of a degree, reduced modulo a
    /// full turn.
    pub fn from_u32(value: u32) -> (r: Self)
        ensures
            r@ == value % FULL_TURN,
    {
        PhaseAngle { hundredths: value % FULL_TURN }
    }

    /// The angle in hundredths of a degree.
    pub fn to_u32(&self) -> (r: u32)
        ensures
            r == self@,
            r < FULL_TURN,
    {
        proof {
            use_type_invariant(self);
        }
        self.hundredths
    }
}

/// The system time in nanoseconds since the Unix epoch, or `None` for a
/// clock set before the epoch.
/// Relies on `std::time::SystemTime::elapsed`; the value depends on the
/// moment of the call, so nothing is stated of it.
#[verifier::external_body]
fn epoch_elapsed_ns() -> (r: Option<u64>) {
    std::time::UNIX_EPOCH.elapsed().ok().map(|d| d.as_nanos() as u64)
}

/// A clock that maps time to a cyclic phase, anchored at a reference time.
#[derive(Debug, Clone, Copy)]
pub struct DjedClock {
    t_ref: u64,
}

impl View for DjedClock {
    type V = u64;

    /// The reference time in nanoseconds.
    closed spec fn view(&self) -> u64 {
        self.t_ref
    }
}

impl DjedClock {
    /// A clock anchored at the current time.
    pub fn new() -> (r: Self) {
        DjedClock { t_ref: Self::now_ns() }
    }

    /// A clock anchored at `t_ref` nanoseconds.
    pub fn with_reference(t_ref: u64) -> (r: Self)
        ensures
            r@ == t_ref,
    {
        DjedClock { t_ref }
    }

    /// The reference time in nanoseconds.
    pub fn reference(&self) -> (r: u64)
        ensures
            r == self@,
    {
        self.t_ref
    }

    /// The phase at the current time.
    pub fn calculate_phase(&self) -> (r: PhaseAngle)
        ensures
            exists|t: u64| r@ == #[trigger] phase_hundredths(self@, t),
    {
        let now = Self::now_ns();
        let r = self.calculate_phase_at(now);
        assert(r@ == phase_hundredths(self@, now));
        r
    }

    /// The phase at `timestamp_ns`: the time since the reference, modulo one
    /// period, as a fraction of a full turn.
    pub fn calculate_phase_at(&self, timestamp_ns: u64) -> (r: PhaseAngle)
        ensures
            r@ == phase_hundredths(self@, timestamp_ns),
    {
        let delta = timestamp_ns.wrapping_sub(self.t_ref);
        PhaseAngle { hundredths: phase_from_elapsed(delta) }
    }

    /// The current time in nanoseconds since the Unix epoch; 0 where the
    /// system clock is set before the epoch.
    pub fn now_ns() -> (r: u64) {
        match epoch_elapsed_ns() {
            Some(t) => t,
            None => 0,
        }
    }
}

/// Within one period after the reference time the phase never decreases.
pub proof fn lemma_phase_monotonic_within_period(t0: u64, a: u64, b: u64)
    requires
        t0 <= a <= b,
        b - t0 < DJED_PERIOD_NS,
    ensures
        phase_hundredths(t0, a) <= phase_hundredths(t0, b),
{
    let p = DJED_PERIOD_NS as nat;
    let da = (a - t0) as nat;
    let db = (b - t0) as nat;
    vstd::arithmetic::div_mod::lemma_small_mod(da, p);
    vstd::arithmetic::div_mod::lemma_small_mod(db, p);
    assert(da * 36000 <= db * 36000) by (nonlinear_arith)
        requires
            da <= db,
    ;
    vstd::arithmetic::div_mod::lemma_div_is_ordered((da * 36000) as int, (db * 36000) as int, p as int);
}

/// Phase at fixed points of a period: zero at the reference time and one
/// period later, and exactly half a turn half a period later.
pub proof fn lemma_phase_landmarks(t0: u64)
    requires
        t0 + DJED_PERIOD_NS <= u64::MAX,
    ensures
        phase_hundredths(t0, t0) == 0,
        phase_hundredths(t0, (t0 + DJED_PERIOD_NS) as u64) == 0,
        phase_hundredths(t0, (t0 + DJED_PERIOD_NS / 2) as u64) == 18000,
{
    assert(DJED_PERIOD_NS == 142857142);
    assert(phase_of_elapsed(0) == 0);
    assert(phase_of_elapsed(142857142) == 0);
    assert(71428571nat % 142857142nat == 71428571nat);
    assert(71428571nat * 36000nat == 2571428556000nat);
    vstd::arithmetic::div_mod::lemma_fundamental_div_mod_converse(
        2571428556000int,
        142857142int,
        18000int,
        0int,
    );
    assert(phase_of_elapsed(71428571) == 18000);
}

} // verus!
