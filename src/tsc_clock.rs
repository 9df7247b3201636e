use vstd::prelude::*;

use crate::phase::{phase_from_elapsed, phase_of_elapsed, DJED_PERIOD_NS};

verus! {

/// The time-stamp counter's assumed frequency.
pub const TSC_FREQUENCY_HZ: u64 = 2_000_000_000;

/// Nanoseconds for a time-stamp-counter reading.
pub open spec fn tsc_ns(tsc: u64) -> nat {
    (tsc as nat * 1_000_000_000) / (TSC_FREQUENCY_HZ as nat)
}

/// Converts a time-stamp-counter reading, taken by the caller, into
/// nanoseconds, multiplying in 128 bits before dividing.
pub fn read_tsc_ns(tsc: u64) -> (r: u64)
    ensures
        r == tsc_ns(tsc),
{
    let wide = (tsc as u128) * 1_000_000_000u128;
    let ns = wide / (TSC_FREQUENCY_HZ as u128);
    assert(ns <= tsc) by (nonlinear_arith)
        requires
            wide == tsc * 1_000_000_000,
            ns == wide / 2_000_000_000,
    ;
    ns as u64
}

/// The phase, in hundredths of a degree, at a time-stamp-counter reading
/// taken by the caller, with the counter's zero as reference.
pub fn current_phase_hundredths(tsc: u64) -> (r: u16)
    ensures
        r == phase_of_elapsed(tsc_ns(tsc)),
        r < 36000,
{
    let ns = read_tsc_ns(tsc);
    phase_from_elapsed(ns) as u16
}

/// The length of `ticks` clock periods in nanoseconds.
pub fn tick_to_nanoseconds(ticks: u64) -> (r: u64)
    requires
        ticks * DJED_PERIOD_NS <= u64::MAX,
    ensures
        r == ticks * DJED_PERIOD_NS,
{
    ticks * DJED_PERIOD_NS
}

/// The number of whole clock periods at a time-stamp-counter reading taken
/// by the caller.
pub fn read_tick_count(tsc: u64) -> (r: u64)
    ensures
        r == tsc_ns(tsc) / (DJED_PERIOD_NS as nat),
{
    let ns = read_tsc_ns(tsc);
    ns / DJED_PERIOD_NS
}

} // verus!
