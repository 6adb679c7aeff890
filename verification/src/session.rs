//! Session aggregator: folds the time-ordered stream of raw samples stored
//! for one session into one-record-per-second FIT summary records, and
//! hands them to the encoder.
//!
//! Samples arrive in ascending time order (the storage key order). Each
//! sample lands in the record for its whole second; when a sample opens a
//! new second the previous record is finalized — its power back-filled
//! with the last seen wattage if no power sample fell into that second —
//! and appended to the output. The record still in progress after the last
//! sample is flushed the same way, so the final second of a session is
//! never dropped.

use vstd::prelude::*;

use crate::csc::{csc_crank, csc_has_crank, csc_payload_valid, csc_well_formed,
    parse_csc_measurement};
use crate::fit::{FitRecord, fit_file_bytes, to_file};
use crate::heart_rate::{hrm_bpm, hrm_payload_valid, hrm_well_formed, parse_hrm};
use crate::power::{cpm_payload_valid, cpm_power, cpm_well_formed, parse_cycling_power_measurement};
use crate::revolution::{RevolutionData, RotationSource, spec_rpm_and_new_count,
    checked_rpm_and_new_count};

verus! {

/// A BLE characteristic identifier: the 16-bit short form or the full
/// 128-bit form.
#[derive(Debug, Clone, Copy, PartialEq, Eq, Structural)]
pub enum Uuid {
    B16(u16),
    B128(u128),
}

/// The Heart Rate Measurement characteristic.
pub const HEART_RATE_MEASUREMENT_UUID: u16 = 0x2A37;

/// The Cycling Power Measurement characteristic.
pub const CYCLING_POWER_MEASUREMENT_UUID: u16 = 0x2A63;

/// The CSC Measurement characteristic.
pub const CSC_MEASUREMENT_UUID: u16 = 0x2A5B;

/// One stored notification: which characteristic it came from, how long
/// after session start it arrived (whole seconds), and its raw payload.
#[derive(Debug, Clone, PartialEq)]
pub struct RawSample {
    pub uuid: Uuid,
    pub elapsed_secs: u64,
    pub payload: Vec<u8>,
}

/// The mathematical value of a stored sample.
pub struct RawSampleView {
    pub uuid: Uuid,
    pub elapsed_secs: u64,
    pub payload: Seq<u8>,
}

impl View for RawSample {
    type V = RawSampleView;

    open spec fn view(&self) -> RawSampleView {
        RawSampleView { uuid: self.uuid, elapsed_secs: self.elapsed_secs, payload: self.payload@ }
    }
}

/// The aggregator's rolling state: the record in progress, the
/// carry-forward power, the previous crank sample, and the finished
/// records so far.
pub struct AggState {
    pub current: Option<FitRecord>,
    pub last_power: u16,
    pub last_crank: Option<RevolutionData>,
    pub records: Seq<FitRecord>,
}

/// The state at aggregation start.
pub open spec fn initial_state() -> AggState {
    AggState { current: None, last_power: 0, last_crank: None, records: Seq::empty() }
}

/// A fresh record for a new second, with every optional field unset.
pub open spec fn empty_record(t: u32) -> FitRecord {
    FitRecord {
        seconds_since_unix_epoch: t,
        power: None,
        heart_rate: None,
        cadence: None,
        latitude: None,
        longitude: None,
        altitude: None,
        distance: None,
        speed: None,
    }
}

/// A finalized record: if no power sample fell into its second, the power
/// is back-filled with the carried-forward wattage.
pub open spec fn backfill_power(r: FitRecord, last_power: u16) -> FitRecord {
    if r.power is None {
        FitRecord { power: Some(last_power), ..r }
    } else {
        r
    }
}

/// The Unix second a sample belongs to (the u32 field wraps modulo 2^32).
pub open spec fn sample_second(session_key: u64, s: RawSampleView) -> u32 {
    (((session_key + s.elapsed_secs) as int) % 0x1_0000_0000) as u32
}

/// The finished records after a sample for second t arrives: unchanged
/// while t matches the record in progress, else that record finalized and
/// appended.
pub open spec fn records_after_rollover(st: AggState, t: u32) -> Seq<FitRecord> {
    match st.current {
        None => st.records,
        Some(r) => if r.seconds_since_unix_epoch == t {
            st.records
        } else {
            st.records.push(backfill_power(r, st.last_power))
        },
    }
}

/// The record a sample for second t accumulates into: the one in progress
/// when the second matches, else a fresh one.
pub open spec fn record_for_second(st: AggState, t: u32) -> FitRecord {
    match st.current {
        None => empty_record(t),
        Some(r) => if r.seconds_since_unix_epoch == t {
            r
        } else {
            empty_record(t)
        },
    }
}

/// A BPM reading truncated to the record's 8-bit field.
pub open spec fn bpm_field(payload: Seq<u8>) -> u8 {
    (hrm_bpm(payload) % 0x100) as u8
}

/// An instantaneous power reading reinterpreted as the record's unsigned
/// 16-bit field (two's complement).
pub open spec fn power_field(p: i16) -> u16 {
    if p >= 0 {
        p as u16
    } else {
        (p + 0x1_0000) as u16
    }
}

/// A rounded RPM truncated to the record's 8-bit field.
pub open spec fn cadence_field(rpm: u64) -> u8 {
    (rpm % 0x100) as u8
}

/// How one sample advances the aggregator: the sample's second is
/// computed, the record in progress rolls over if that second is new, and
/// the sample's decoded value lands in the open record — heart rate sets
/// the BPM, power sets the wattage and the carry-forward, a crank sample
/// sets the cadence when a rate can be derived against the previous crank
/// sample and reseeds that sample either way. A sample from any other
/// characteristic only rolls the record over.
pub open spec fn apply_sample(session_key: u64, st: AggState, s: RawSampleView) -> AggState {
    let t = sample_second(session_key, s);
    let recs = records_after_rollover(st, t);
    let r = record_for_second(st, t);
    if s.uuid == Uuid::B16(HEART_RATE_MEASUREMENT_UUID) {
        AggState {
            current: Some(FitRecord { heart_rate: Some(bpm_field(s.payload)), ..r }),
            last_power: st.last_power,
            last_crank: st.last_crank,
            records: recs,
        }
    } else if s.uuid == Uuid::B16(CYCLING_POWER_MEASUREMENT_UUID) {
        let p = power_field(cpm_power(s.payload));
        AggState {
            current: Some(FitRecord { power: Some(p), ..r }),
            last_power: p,
            last_crank: st.last_crank,
            records: recs,
        }
    } else if s.uuid == Uuid::B16(CSC_MEASUREMENT_UUID) {
        match csc_crank(s.payload) {
            Some(b) => {
                let cad = match st.last_crank {
                    Some(a) => match spec_rpm_and_new_count(RotationSource::Crank, a, b) {
                        Some(rc) => Some(cadence_field(rc.0)),
                        None => r.cadence,
                    },
                    None => r.cadence,
                };
                AggState {
                    current: Some(FitRecord { cadence: cad, ..r }),
                    last_power: st.last_power,
                    last_crank: Some(b),
                    records: recs,
                }
            },
            None => AggState {
                current: Some(r),
                last_power: st.last_power,
                last_crank: st.last_crank,
                records: recs,
            },
        }
    } else {
        AggState {
            current: Some(r),
            last_power: st.last_power,
            last_crank: st.last_crank,
            records: recs,
        }
    }
}

/// The aggregator state after a whole sample sequence.
pub open spec fn run_samples(session_key: u64, ss: Seq<RawSampleView>) -> AggState
    decreases ss.len(),
{
    if ss.len() == 0 {
        initial_state()
    } else {
        apply_sample(session_key, run_samples(session_key, ss.drop_last()), ss.last())
    }
}

/// The summary records for a sample sequence: the fold of every sample,
/// with the record still in progress at end of input flushed
/// unconditionally, so the final second is kept.
pub open spec fn aggregate_records(session_key: u64, ss: Seq<RawSampleView>) -> Seq<FitRecord> {
    let st = run_samples(session_key, ss);
    match st.current {
        None => st.records,
        Some(r) => st.records.push(backfill_power(r, st.last_power)),
    }
}

/// The views of a stored sample sequence.
pub open spec fn sample_views(ss: Seq<RawSample>) -> Seq<RawSampleView> {
    ss.map_values(|s: RawSample| s@)
}

/// What the aggregator asks of each stored sample: its second fits the
/// record's 32-bit field, and its payload is well-formed for its
/// characteristic — a CSC payload must carry crank data, since the
/// session pipeline derives cadence from it.
pub open spec fn sample_well_formed(session_key: u64, s: RawSampleView) -> bool {
    &&& session_key + s.elapsed_secs < 0x1_0000_0000
    &&& s.uuid == Uuid::B16(HEART_RATE_MEASUREMENT_UUID) ==> hrm_well_formed(s.payload)
    &&& s.uuid == Uuid::B16(CYCLING_POWER_MEASUREMENT_UUID) ==> cpm_well_formed(s.payload)
    &&& s.uuid == Uuid::B16(CSC_MEASUREMENT_UUID) ==> csc_well_formed(s.payload) && csc_has_crank(
        s.payload[0],
    )
}

/// Whether a stored sample meets the aggregator's precondition, so that
/// an unverified caller can test it before aggregating.
pub fn sample_valid(session_key: u64, sample: &RawSample) -> (r: bool)
    ensures
        r == sample_well_formed(session_key, sample@),
{
    if session_key > 0xFFFF_FFFFu64 || sample.elapsed_secs > 0xFFFF_FFFFu64
        || session_key + sample.elapsed_secs >= 0x1_0000_0000 {
        return false;
    }
    match sample.uuid {
        Uuid::B16(c) => {
            if c == HEART_RATE_MEASUREMENT_UUID {
                hrm_payload_valid(&sample.payload)
            } else if c == CYCLING_POWER_MEASUREMENT_UUID {
                cpm_payload_valid(&sample.payload)
            } else if c == CSC_MEASUREMENT_UUID {
                csc_payload_valid(&sample.payload) && sample.payload.len() >= 1 && (sample.payload[0]
                    / 2) % 2 == 1
            } else {
                true
            }
        },
        Uuid::B128(_) => true,
    }
}

fn empty_record_at(t: u32) -> (r: FitRecord)
    ensures
        r == empty_record(t),
{
    FitRecord {
        seconds_since_unix_epoch: t,
        power: None,
        heart_rate: None,
        cadence: None,
        latitude: None,
        longitude: None,
        altitude: None,
        distance: None,
        speed: None,
    }
}

/// Folds one session's stored samples, in their storage order, into
/// per-second summary records.
pub fn session_to_records(session_key: u64, samples: &Vec<RawSample>) -> (r: Vec<FitRecord>)
    requires
        forall|i: int|
            #![auto]
            0 <= i < samples@.len() ==> sample_well_formed(session_key, samples@[i]@),
    ensures
        r@ == aggregate_records(session_key, sample_views(samples@)),
{
    let ghost views = sample_views(samples@);
    let mut records: Vec<FitRecord> = Vec::new();
    let mut current: Option<FitRecord> = None;
    let mut last_power: u16 = 0;
    let mut last_crank: Option<RevolutionData> = None;

    let mut i: usize = 0;
    while i < samples.len()
        invariant
            forall|j: int|
                #![auto]
                0 <= j < samples@.len() ==> sample_well_formed(session_key, samples@[j]@),
            views == sample_views(samples@),
            i <= samples@.len(),
            records@ == run_samples(session_key, views.take(i as int)).records,
            current == run_samples(session_key, views.take(i as int)).current,
            last_power == run_samples(session_key, views.take(i as int)).last_power,
            last_crank == run_samples(session_key, views.take(i as int)).last_crank,
        decreases samples@.len() - i,
    {
        let ghost st = run_samples(session_key, views.take(i as int));
        let sample = &samples[i];
        proof {
            assert(views.take(i + 1).drop_last() =~= views.take(i as int));
            assert(views.take(i + 1).last() == samples@[i as int]@);
        }
        let t = (session_key + sample.elapsed_secs) as u32;
        assert(t == sample_second(session_key, samples@[i as int]@));

        let mut r: FitRecord = match current {
            Some(mut r0) => {
                if r0.seconds_since_unix_epoch == t {
                    r0
                } else {
                    if r0.power.is_none() {
                        r0.power = Some(last_power);
                    }
                    records.push(r0);
                    empty_record_at(t)
                }
            },
            None => empty_record_at(t),
        };
        assert(records@ == records_after_rollover(st, t));
        assert(r == record_for_second(st, t));

        match sample.uuid {
            Uuid::B16(c) => {
                if c == HEART_RATE_MEASUREMENT_UUID {
                    let m = parse_hrm(&sample.payload);
                    r.heart_rate = Some((m.bpm % 0x100) as u8);
                } else if c == CYCLING_POWER_MEASUREMENT_UUID {
                    let m = parse_cycling_power_measurement(&sample.payload);
                    let p: u16 = if m.instantaneous_power >= 0 {
                        m.instantaneous_power as u16
                    } else {
                        (m.instantaneous_power as i32 + 0x1_0000) as u16
                    };
                    assert(p == power_field(cpm_power(sample.payload@)));
                    last_power = p;
                    r.power = Some(p);
                } else if c == CSC_MEASUREMENT_UUID {
                    let m = parse_csc_measurement(&sample.payload);
                    if let Some(b) = m.crank {
                        if let Some(a) = last_crank {
                            if let Some(rc) = checked_rpm_and_new_count(
                                &a,
                                &b,
                                RotationSource::Crank,
                            ) {
                                r.cadence = Some((rc.0 % 0x100) as u8);
                            }
                        }
                        last_crank = Some(b);
                    }
                }
            },
            Uuid::B128(_) => {},
        }
        current = Some(r);
        proof {
            let st1 = apply_sample(session_key, st, samples@[i as int]@);
            assert(records@ == st1.records);
            assert(current == st1.current);
            assert(last_power == st1.last_power);
            assert(last_crank == st1.last_crank);
        }
        i += 1;
    }
    proof {
        assert(views.take(samples@.len() as int) =~= views);
    }
    match current {
        Some(mut r0) => {
            if r0.power.is_none() {
                r0.power = Some(last_power);
            }
            records.push(r0);
        },
        None => {},
    }
    records
}

/// Whether a record sequence carries non-decreasing timestamps.
pub open spec fn seconds_non_decreasing(rs: Seq<FitRecord>) -> bool {
    forall|i: int, j: int|
        #![auto]
        0 <= i <= j < rs.len() ==> rs[i].seconds_since_unix_epoch <= rs[j].seconds_since_unix_epoch
}

/// Whether a sample sequence arrives in non-decreasing time order, as the
/// storage key ordering guarantees.
pub open spec fn elapsed_non_decreasing(ss: Seq<RawSampleView>) -> bool {
    forall|i: int, j: int| #![auto] 0 <= i <= j < ss.len() ==> ss[i].elapsed_secs <= ss[j].elapsed_secs
}

proof fn lemma_run_samples_in_order(session_key: u64, ss: Seq<RawSampleView>)
    requires
        forall|i: int| #![auto] 0 <= i < ss.len() ==> sample_well_formed(session_key, ss[i]),
        elapsed_non_decreasing(ss),
    ensures
        seconds_non_decreasing(run_samples(session_key, ss).records),
        run_samples(session_key, ss).current matches Some(r) ==> forall|i: int|
            #![auto]
            0 <= i < run_samples(session_key, ss).records.len() ==> run_samples(
                session_key,
                ss,
            ).records[i].seconds_since_unix_epoch <= r.seconds_since_unix_epoch,
        ss.len() > 0 ==> (run_samples(session_key, ss).current matches Some(r)
            && r.seconds_since_unix_epoch == sample_second(session_key, ss.last())),
        ss.len() == 0 ==> run_samples(session_key, ss).current is None,
    decreases ss.len(),
{
    if ss.len() > 0 {
        let prefix = ss.drop_last();
        let s = ss.last();
        assert(forall|i: int| #![auto] 0 <= i < prefix.len() ==> prefix[i] == ss[i]);
        lemma_run_samples_in_order(session_key, prefix);
        let stp = run_samples(session_key, prefix);
        let t = sample_second(session_key, s);
        assert(sample_well_formed(session_key, s));
        assert(session_key + s.elapsed_secs == (session_key + s.elapsed_secs) as int
            % 0x1_0000_0000);
        if prefix.len() > 0 {
            let sp = prefix.last();
            assert(sp == ss[ss.len() - 2]);
            assert(sp.elapsed_secs <= s.elapsed_secs);
            assert(sample_well_formed(session_key, sp));
            assert(session_key + sp.elapsed_secs == (session_key + sp.elapsed_secs) as int
                % 0x1_0000_0000);
            assert(sample_second(session_key, sp) <= t);
        }
        let st = apply_sample(session_key, stp, s);
        assert(st == run_samples(session_key, ss));
        assert(st.records == records_after_rollover(stp, t));
        assert(st.current matches Some(r) && r.seconds_since_unix_epoch == t);

        assert(seconds_non_decreasing(st.records));
    }
}

/// The aggregator's summary records carry non-decreasing timestamps
/// whenever the samples arrive in non-decreasing time order, as the
/// storage iteration guarantees; the encoder's definition-reuse
/// optimization relies on this ordering.
pub proof fn lemma_aggregate_records_in_order(session_key: u64, ss: Seq<RawSampleView>)
    requires
        forall|i: int| #![auto] 0 <= i < ss.len() ==> sample_well_formed(session_key, ss[i]),
        elapsed_non_decreasing(ss),
    ensures
        seconds_non_decreasing(aggregate_records(session_key, ss)),
{
    lemma_run_samples_in_order(session_key, ss);
}

/// Exports one session's stored samples as complete FIT file bytes:
/// aggregation followed by encoding.
pub fn session_to_fit(session_key: u64, samples: &Vec<RawSample>) -> (r: Vec<u8>)
    requires
        forall|i: int|
            #![auto]
            0 <= i < samples@.len() ==> sample_well_formed(session_key, samples@[i]@),
    ensures
        r@ == fit_file_bytes(aggregate_records(session_key, sample_views(samples@))),
{
    let records = session_to_records(session_key, samples);
    to_file(&records)
}

} // verus!
