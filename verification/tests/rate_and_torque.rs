use cycle_fit::power::TorqueAccumulator;
use cycle_fit::revolution::{checked_rpm_and_new_count, RevolutionData, RotationSource};

#[test]
fn rate_across_time_register_wraparound() {
    // Counts 100 -> 105 while the 1/1024 s time register wraps its
    // 64-second period: 60000 ticks -> 500 ticks.
    let previous = RevolutionData { revolution_count: 100, last_event_ticks: 60000 };
    let current = RevolutionData { revolution_count: 105, last_event_ticks: 500 };
    let (rpm, delta) =
        checked_rpm_and_new_count(&previous, &current, RotationSource::Crank).unwrap();
    assert_eq!(delta, 5);
    assert!(rpm > 0);
    // 5 revolutions in 6036 ticks = 5 / (6036/1024) * 60 = 50.88... rpm.
    assert_eq!(rpm, 51);
}

#[test]
fn rate_is_absent_for_identical_counts() {
    let previous = RevolutionData { revolution_count: 100, last_event_ticks: 60000 };
    let same_time = RevolutionData { revolution_count: 100, last_event_ticks: 60000 };
    let later_time = RevolutionData { revolution_count: 100, last_event_ticks: 500 };
    assert_eq!(checked_rpm_and_new_count(&previous, &same_time, RotationSource::Crank), None);
    assert_eq!(checked_rpm_and_new_count(&previous, &later_time, RotationSource::Crank), None);
}

#[test]
fn rate_is_absent_for_equal_event_times() {
    // A duplicate notification: new count, identical event time.
    let previous = RevolutionData { revolution_count: 100, last_event_ticks: 2048 };
    let current = RevolutionData { revolution_count: 101, last_event_ticks: 2048 };
    assert_eq!(checked_rpm_and_new_count(&previous, &current, RotationSource::Crank), None);
}

#[test]
fn rate_crank_count_wraps_at_16_bits() {
    // A crank counter stored widened to 32 bits wraps at 2^16.
    let previous = RevolutionData { revolution_count: 0xFFFF, last_event_ticks: 0 };
    let current = RevolutionData { revolution_count: 2, last_event_ticks: 1024 };
    let (rpm, delta) =
        checked_rpm_and_new_count(&previous, &current, RotationSource::Crank).unwrap();
    assert_eq!(delta, 3);
    // 3 revolutions in one second.
    assert_eq!(rpm, 180);
}

#[test]
fn rate_wheel_count_wraps_at_32_bits() {
    let previous = RevolutionData { revolution_count: 0xFFFF_FFFF, last_event_ticks: 0 };
    let current = RevolutionData { revolution_count: 1, last_event_ticks: 1024 };
    let (rpm, delta) =
        checked_rpm_and_new_count(&previous, &current, RotationSource::Wheel).unwrap();
    assert_eq!(delta, 2);
    assert_eq!(rpm, 120);
}

#[test]
fn torque_accumulator_never_adds_a_negative_contribution() {
    // Readings of 2040 N·m then 10 N·m, in raw 1/32 N·m units: the
    // register wrapped, so the contribution is 10 - 2040 + 2048 = 18 N·m.
    let mut acc = TorqueAccumulator::new();
    acc.observe(2040 * 32);
    let seeded = acc.total_raw;
    acc.observe(10 * 32);
    assert_eq!(acc.total_raw - seeded, 18 * 32);
    assert!(acc.total_raw >= seeded);
}

#[test]
fn torque_accumulator_first_reading_only_seeds() {
    let mut acc = TorqueAccumulator::new();
    assert_eq!(acc.total_raw, 0);
    acc.observe(1234);
    assert_eq!(acc.total_raw, 0);
    assert_eq!(acc.prev_raw, Some(1234));
    acc.observe(1250);
    assert_eq!(acc.total_raw, 16);
}
