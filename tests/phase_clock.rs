use dragon_tools::{
    current_phase_hundredths, read_tick_count, read_tsc_ns, tick_to_nanoseconds, DjedClock,
    PhaseAngle, DJED_PERIOD_NS,
};

#[test]
fn period_is_a_seventh_of_a_second() {
    assert_eq!(DJED_PERIOD_NS, 142_857_142);
}

#[test]
fn phase_landmarks_within_one_period() {
    let t0 = 1_700_000_000_000_000_000u64;
    let clock = DjedClock::with_reference(t0);
    assert_eq!(clock.reference(), t0);
    assert_eq!(clock.calculate_phase_at(t0).to_u32(), 0);
    assert_eq!(clock.calculate_phase_at(t0 + DJED_PERIOD_NS).to_u32(), 0);
    assert_eq!(clock.calculate_phase_at(t0 + DJED_PERIOD_NS / 2).to_u32(), 18000);
    assert_eq!(clock.calculate_phase_at(t0 + DJED_PERIOD_NS / 4).to_u32(), 8999);
    assert_eq!(clock.calculate_phase_at(t0 + DJED_PERIOD_NS - 1).to_u32(), 35999);
}

#[test]
fn phase_before_the_reference_wraps() {
    let clock = DjedClock::with_reference(10);
    // 2^64 - 10 nanoseconds elapsed modulo the period.
    let delta = 0u64.wrapping_sub(10) % DJED_PERIOD_NS;
    let expected = ((delta as u128 * 36000) / DJED_PERIOD_NS as u128) as u32;
    assert_eq!(clock.calculate_phase_at(0).to_u32(), expected);
}

#[test]
fn current_phase_is_in_range() {
    let clock = DjedClock::new();
    assert!(clock.calculate_phase().to_u32() < 36000);
    assert!(DjedClock::now_ns() > 0);
}

#[test]
fn phase_angle_reduces_modulo_a_turn() {
    assert_eq!(PhaseAngle::from_u32(27050).to_u32(), 27050);
    assert_eq!(PhaseAngle::from_u32(36000).to_u32(), 0);
    assert_eq!(PhaseAngle::from_u32(36000 + 9000).to_u32(), 9000);
}

#[test]
fn counter_conversions() {
    assert_eq!(read_tsc_ns(2_000_000_000), 1_000_000_000);
    assert_eq!(read_tsc_ns(3), 1);
    assert_eq!(read_tsc_ns(u64::MAX), u64::MAX / 2);
    assert_eq!(tick_to_nanoseconds(7), 999_999_994);
    assert_eq!(read_tick_count(2 * 142_857_142 * 3), 3);
    assert_eq!(current_phase_hundredths(0), 0);
    // Half a period of nanoseconds is twice as many counter cycles.
    assert_eq!(current_phase_hundredths(142_857_142), 18000);
}
