use cycle_fit::csc::{csc_payload_valid, parse_csc_measurement};
use cycle_fit::heart_rate::{hrm_payload_valid, parse_hrm};
use cycle_fit::power::{cpm_payload_valid, parse_cycling_power_measurement};
use cycle_fit::revolution::{RevolutionData, RotationSource};

#[test]
fn parse_hrm_with_rr_intervals_only() {
    // Flags 0b10000: 8-bit bpm, no contact feature, no energy; the rest
    // of the payload is consumed as RR pairs.
    let data = vec![0b10000, 70, 10, 1, 11, 2];
    let m = parse_hrm(&data);
    assert_eq!(m.bpm, 70);
    assert_eq!(m.sensor_contact, None);
    assert_eq!(m.energy_expended, None);
    // 266/1024 s and 523/1024 s, oldest first, as raw 1/1024 s units.
    assert_eq!(m.rr_intervals, vec![266, 523]);
}

#[test]
fn parse_hrm_16bit_bpm_contact_and_energy() {
    // Flags: 16-bit bpm (bit 0), contact detected (bit 1), contact
    // feature supported (bit 2), energy present (bit 3).
    let data = vec![0b1111, 0x2c, 0x01, 0x10, 0x27, 5, 0];
    let m = parse_hrm(&data);
    assert_eq!(m.bpm, 300);
    assert_eq!(m.sensor_contact, Some(true));
    assert_eq!(m.energy_expended, Some(10000));
    assert_eq!(m.rr_intervals, vec![5]);
}

#[test]
fn parse_hrm_contact_feature_absent_is_not_false() {
    // Bit 2 clear: the contact feature is unsupported, so the field is
    // absent even though bit 1 is clear too.
    let without_feature = parse_hrm(&vec![0b00000, 80]);
    assert_eq!(without_feature.sensor_contact, None);
    // Bit 2 set with bit 1 clear: supported, and no contact.
    let no_contact = parse_hrm(&vec![0b00100, 80]);
    assert_eq!(no_contact.sensor_contact, Some(false));
}

#[test]
fn parse_hrm_drops_trailing_odd_byte() {
    let m = parse_hrm(&vec![0b00000, 64, 7, 0, 99]);
    assert_eq!(m.rr_intervals, vec![7]);
}

#[test]
fn hrm_payload_valid_rejects_truncated_payloads() {
    assert!(!hrm_payload_valid(&vec![]));
    // 16-bit bpm declared but only one bpm byte present.
    assert!(!hrm_payload_valid(&vec![0b1, 70]));
    // Energy declared but missing.
    assert!(!hrm_payload_valid(&vec![0b1000, 70, 1]));
    assert!(hrm_payload_valid(&vec![0b0, 70]));
}

#[test]
fn parse_csc_with_wheel_and_crank() {
    let data = vec![0b11, 1, 2, 3, 4, 5, 6, 7, 8, 9, 10];
    let m = parse_csc_measurement(&data);
    assert_eq!(
        m.wheel,
        Some(RevolutionData { revolution_count: 0x04030201, last_event_ticks: 0x0605 })
    );
    assert_eq!(
        m.crank,
        Some(RevolutionData { revolution_count: 0x0807, last_event_ticks: 0x0A09 })
    );
}

#[test]
fn parse_csc_crank_only_starts_right_after_flags() {
    let data = vec![0b10, 7, 8, 9, 10];
    let m = parse_csc_measurement(&data);
    assert_eq!(m.wheel, None);
    assert_eq!(
        m.crank,
        Some(RevolutionData { revolution_count: 0x0807, last_event_ticks: 0x0A09 })
    );
}

#[test]
fn csc_payload_valid_rejects_truncated_payloads() {
    assert!(!csc_payload_valid(&vec![]));
    assert!(!csc_payload_valid(&vec![0b01, 1, 2, 3, 4, 5]));
    assert!(csc_payload_valid(&vec![0b01, 1, 2, 3, 4, 5, 6]));
    assert!(!csc_payload_valid(&vec![0b11, 1, 2, 3, 4, 5, 6, 7, 8, 9]));
}

#[test]
fn parse_cycling_power_with_balance_torque_wheel_and_crank() {
    // Flags select pedal balance, accumulated torque (wheel source),
    // wheel revolution data and crank revolution data.
    let data = vec![
        0b110101, 0, // flags (little-endian 16 bits)
        2, 1, // instantaneous power
        99, // balance, half-percent units (49.5%)
        1, 2, // torque, 1/32 N·m units
        1, 2, 3, 4, 1, 2, // wheel revolutions + event time
        1, 2, 1, 2, // crank revolutions + event time
    ];
    let m = parse_cycling_power_measurement(&data);
    assert_eq!(m.instantaneous_power, 0x0102);
    assert_eq!(m.pedal_power_balance, Some(99));
    let torque = m.accumulated_torque.unwrap();
    assert_eq!(torque.source, RotationSource::Wheel);
    assert_eq!(torque.magnitude_raw, 0x0201);
    assert_eq!(
        m.wheel_revolution_data,
        Some(RevolutionData { revolution_count: 0x04030201, last_event_ticks: 0x0201 })
    );
    assert_eq!(
        m.crank_revolution_data,
        Some(RevolutionData { revolution_count: 0x0201, last_event_ticks: 0x0201 })
    );
}

#[test]
fn parse_cycling_power_negative_power_and_crank_torque() {
    // Only torque present, source bit set: crank.
    let data = vec![0b1100, 0, 0xff, 0xff, 0x20, 0x00];
    let m = parse_cycling_power_measurement(&data);
    assert_eq!(m.instantaneous_power, -1);
    assert_eq!(m.pedal_power_balance, None);
    let torque = m.accumulated_torque.unwrap();
    assert_eq!(torque.source, RotationSource::Crank);
    assert_eq!(torque.magnitude_raw, 0x20);
    assert_eq!(m.wheel_revolution_data, None);
    assert_eq!(m.crank_revolution_data, None);
}

#[test]
fn cpm_payload_valid_rejects_truncated_payloads() {
    assert!(!cpm_payload_valid(&vec![]));
    assert!(!cpm_payload_valid(&vec![0, 0, 2]));
    assert!(cpm_payload_valid(&vec![0, 0, 2, 1]));
    assert!(!cpm_payload_valid(&vec![0b1, 0, 2, 1]));
    assert!(cpm_payload_valid(&vec![0b1, 0, 2, 1, 99]));
}

#[test]
fn decoders_depend_only_on_the_declared_bytes() {
    // Decoding is a pure function of the payload: the same bytes decode
    // the same way, and bytes beyond what the flags declare change
    // nothing.
    let csc = vec![0b10, 7, 8, 9, 10];
    let mut csc_with_trailing = csc.clone();
    csc_with_trailing.push(0xEE);
    assert_eq!(parse_csc_measurement(&csc), parse_csc_measurement(&csc));
    assert_eq!(parse_csc_measurement(&csc), parse_csc_measurement(&csc_with_trailing));

    let cpm = vec![0b1, 0, 2, 1, 99];
    let mut cpm_with_trailing = cpm.clone();
    cpm_with_trailing.push(0xEE);
    assert_eq!(parse_cycling_power_measurement(&cpm), parse_cycling_power_measurement(&cpm));
    assert_eq!(
        parse_cycling_power_measurement(&cpm),
        parse_cycling_power_measurement(&cpm_with_trailing)
    );

    // For heart rate every complete trailing pair is an RR interval, so
    // only an odd leftover byte is undeclared.
    let hrm = vec![0b0, 64, 7, 0];
    let mut hrm_with_odd_byte = hrm.clone();
    hrm_with_odd_byte.push(0xEE);
    assert_eq!(parse_hrm(&hrm), parse_hrm(&hrm));
    assert_eq!(parse_hrm(&hrm), parse_hrm(&hrm_with_odd_byte));
}
