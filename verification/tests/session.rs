use cycle_fit::fit::to_file;
use cycle_fit::session::{
    sample_valid, session_to_fit, session_to_records, RawSample, Uuid,
    CSC_MEASUREMENT_UUID, CYCLING_POWER_MEASUREMENT_UUID, HEART_RATE_MEASUREMENT_UUID,
};

const SESSION_KEY: u64 = 1583801576;

fn hr_sample(elapsed_secs: u64, bpm: u8) -> RawSample {
    RawSample {
        uuid: Uuid::B16(HEART_RATE_MEASUREMENT_UUID),
        elapsed_secs,
        payload: vec![0, bpm],
    }
}

fn power_sample(elapsed_secs: u64, watts: u16) -> RawSample {
    RawSample {
        uuid: Uuid::B16(CYCLING_POWER_MEASUREMENT_UUID),
        elapsed_secs,
        payload: vec![0, 0, (watts % 256) as u8, (watts / 256) as u8],
    }
}

fn crank_sample(elapsed_secs: u64, revolutions: u16, ticks: u16) -> RawSample {
    RawSample {
        uuid: Uuid::B16(CSC_MEASUREMENT_UUID),
        elapsed_secs,
        payload: vec![
            0b10,
            (revolutions % 256) as u8,
            (revolutions / 256) as u8,
            (ticks % 256) as u8,
            (ticks / 256) as u8,
        ],
    }
}

#[test]
fn aggregates_one_second_of_samples_into_one_record() {
    let samples = vec![hr_sample(0, 120), power_sample(0, 180)];
    let records = session_to_records(SESSION_KEY, &samples);
    assert_eq!(records.len(), 1);
    assert_eq!(records[0].seconds_since_unix_epoch, 1583801576);
    assert_eq!(records[0].heart_rate, Some(120));
    assert_eq!(records[0].power, Some(180));
    assert_eq!(records[0].cadence, None);
}

#[test]
fn flushes_the_final_in_progress_record_at_end_of_input() {
    // The last second of a session must not be dropped: a sample stream
    // ending mid-second still yields a record for that second.
    let samples = vec![hr_sample(0, 120), hr_sample(1, 121)];
    let records = session_to_records(SESSION_KEY, &samples);
    assert_eq!(records.len(), 2);
    assert_eq!(records[1].seconds_since_unix_epoch, 1583801577);
    assert_eq!(records[1].heart_rate, Some(121));
}

#[test]
fn back_fills_power_from_the_carry_forward() {
    let samples = vec![power_sample(0, 200), hr_sample(1, 130), hr_sample(2, 131)];
    let records = session_to_records(SESSION_KEY, &samples);
    assert_eq!(records.len(), 3);
    assert_eq!(records[0].power, Some(200));
    // No power sample fell into the later seconds; the last wattage is
    // carried forward when each record is finalized.
    assert_eq!(records[1].power, Some(200));
    assert_eq!(records[2].power, Some(200));
}

#[test]
fn derives_cadence_from_consecutive_crank_samples() {
    // 3 revolutions in 2048 ticks (2 s) = 90 rpm.
    let samples = vec![crank_sample(0, 100, 0), crank_sample(2, 103, 2048)];
    let records = session_to_records(SESSION_KEY, &samples);
    assert_eq!(records.len(), 2);
    // The first crank sample has no predecessor, so no cadence.
    assert_eq!(records[0].cadence, None);
    assert_eq!(records[1].cadence, Some(90));
}

#[test]
fn crank_sample_without_new_revolutions_leaves_cadence_unset() {
    let samples = vec![crank_sample(0, 100, 0), crank_sample(1, 100, 1024)];
    let records = session_to_records(SESSION_KEY, &samples);
    assert_eq!(records.len(), 2);
    assert_eq!(records[1].cadence, None);
}

#[test]
fn unrecognized_characteristics_are_skipped() {
    let samples = vec![
        hr_sample(0, 120),
        RawSample { uuid: Uuid::B16(0x2A19), elapsed_secs: 0, payload: vec![99] },
        RawSample { uuid: Uuid::B128(7), elapsed_secs: 0, payload: vec![] },
    ];
    let records = session_to_records(SESSION_KEY, &samples);
    assert_eq!(records.len(), 1);
    assert_eq!(records[0].heart_rate, Some(120));
}

#[test]
fn empty_session_exports_an_empty_file() {
    assert_eq!(session_to_fit(SESSION_KEY, &Vec::new()), to_file(&Vec::new()));
}

#[test]
fn session_to_fit_encodes_the_aggregated_records() {
    let samples = vec![hr_sample(0, 120), power_sample(0, 180)];
    let records = session_to_records(SESSION_KEY, &samples);
    assert_eq!(session_to_fit(SESSION_KEY, &samples), to_file(&records));
}

#[test]
fn sample_valid_tests_the_aggregator_preconditions() {
    assert!(sample_valid(SESSION_KEY, &hr_sample(0, 120)));
    // Truncated heart-rate payload.
    assert!(!sample_valid(
        SESSION_KEY,
        &RawSample {
            uuid: Uuid::B16(HEART_RATE_MEASUREMENT_UUID),
            elapsed_secs: 0,
            payload: vec![],
        },
    ));
    // A CSC payload without crank data cannot feed the cadence pipeline.
    assert!(!sample_valid(
        SESSION_KEY,
        &RawSample {
            uuid: Uuid::B16(CSC_MEASUREMENT_UUID),
            elapsed_secs: 0,
            payload: vec![0b01, 1, 2, 3, 4, 5, 6],
        },
    ));
    assert!(sample_valid(SESSION_KEY, &crank_sample(0, 1, 2)));
    // A second that no longer fits the record's 32-bit field.
    assert!(!sample_valid(0xFFFF_FFFF, &hr_sample(1, 120)));
    // Unknown characteristics carry no decoding obligation.
    assert!(sample_valid(
        SESSION_KEY,
        &RawSample { uuid: Uuid::B128(7), elapsed_secs: 0, payload: vec![] },
    ));
}
