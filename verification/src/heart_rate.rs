//! Decoder for the BLE Heart Rate Measurement characteristic payload.
//!
//! Layout, driven by the flags byte at offset 0: bit 0 selects an 8-bit or
//! little-endian 16-bit BPM field; bit 2 says whether the sensor-contact
//! feature is present at all (if so, bit 1 carries the contact boolean);
//! bit 3 says whether a little-endian 16-bit energy-expended field follows
//! the BPM. All remaining bytes are consumed pairwise as little-endian
//! 16-bit RR-interval values in units of 1/1024 s, oldest first; a trailing
//! odd byte is silently dropped.

use vstd::prelude::*;

use crate::bytes::{le16, read_le16};

verus! {

/// One decoded heart-rate notification. RR intervals are the raw register
/// values: units of 1/1024 s, oldest first.
#[derive(Debug, Clone, PartialEq)]
pub struct HeartRateMeasurement {
    pub bpm: u16,
    /// None when the sensor does not support contact detection at all.
    pub sensor_contact: Option<bool>,
    /// Cumulative energy expended in joules, wrapping at 2^16.
    pub energy_expended: Option<u16>,
    /// RR intervals in units of 1/1024 s, oldest first.
    pub rr_intervals: Vec<u16>,
}

/// Flags bit 0: BPM is a little-endian 16-bit field rather than one byte.
pub open spec fn hrm_bpm_is_16bit(flags: u8) -> bool {
    flags % 2 == 1
}

/// Flags bit 2: the sensor-contact feature is supported.
pub open spec fn hrm_has_contact(flags: u8) -> bool {
    (flags / 4) % 2 == 1
}

/// Flags bit 1: skin contact is detected (meaningful only when the
/// contact feature is supported).
pub open spec fn hrm_contact_detected(flags: u8) -> bool {
    (flags / 2) % 2 == 1
}

/// Flags bit 3: an energy-expended field follows the BPM.
pub open spec fn hrm_has_energy(flags: u8) -> bool {
    (flags / 8) % 2 == 1
}

/// Byte length of the BPM field.
pub open spec fn hrm_bpm_len(flags: u8) -> int {
    if hrm_bpm_is_16bit(flags) {
        2int
    } else {
        1int
    }
}

/// Offset of the first RR-interval byte: everything after the flags, the
/// BPM and the energy field, if present.
pub open spec fn hrm_rr_start(flags: u8) -> int {
    1 + hrm_bpm_len(flags) + if hrm_has_energy(flags) {
        2int
    } else {
        0int
    }
}

/// Whether a payload is long enough for every field its flags declare.
pub open spec fn hrm_well_formed(b: Seq<u8>) -> bool {
    b.len() >= 1 && b.len() >= hrm_rr_start(b[0])
}

/// The decoded BPM value.
pub open spec fn hrm_bpm(b: Seq<u8>) -> u16 {
    if hrm_bpm_is_16bit(b[0]) {
        le16(b[1], b[2])
    } else {
        b[1] as u16
    }
}

/// The decoded sensor-contact field: absent when the feature is
/// unsupported, not merely false.
pub open spec fn hrm_sensor_contact(b: Seq<u8>) -> Option<bool> {
    if hrm_has_contact(b[0]) {
        Some(hrm_contact_detected(b[0]))
    } else {
        None
    }
}

/// The decoded energy-expended field, when present.
pub open spec fn hrm_energy(b: Seq<u8>) -> Option<u16> {
    if hrm_has_energy(b[0]) {
        Some(le16(b[1 + hrm_bpm_len(b[0])], b[2 + hrm_bpm_len(b[0])]))
    } else {
        None
    }
}

/// How many complete RR-interval pairs the payload carries.
pub open spec fn hrm_rr_count(b: Seq<u8>) -> int {
    (b.len() - hrm_rr_start(b[0])) / 2
}

/// The decoded RR intervals, in stream order (oldest first), as raw
/// 1/1024 s register values.
pub open spec fn hrm_rr_intervals(b: Seq<u8>) -> Seq<u16> {
    Seq::new(
        hrm_rr_count(b) as nat,
        |i: int| le16(b[hrm_rr_start(b[0]) + 2 * i], b[hrm_rr_start(b[0]) + 2 * i + 1]),
    )
}

/// Whether a payload is long enough for every field its flags declare,
/// so that the decoder's precondition can be tested at the trust
/// boundary before decoding.
pub fn hrm_payload_valid(data: &Vec<u8>) -> (r: bool)
    ensures
        r == hrm_well_formed(data@),
{
    if data.len() < 1 {
        return false;
    }
    let flags = data[0];
    let mut need: usize = 2;
    if flags % 2 == 1 {
        need += 1;
    }
    if (flags / 8) % 2 == 1 {
        need += 2;
    }
    data.len() >= need
}

/// Decodes a Heart Rate Measurement payload. The payload must be
/// well-formed for its flags; decoding is then total and the result is a
/// function of the payload bytes alone.
pub fn parse_hrm(data: &Vec<u8>) -> (r: HeartRateMeasurement)
    requires
        hrm_well_formed(data@),
    ensures
        r.bpm == hrm_bpm(data@),
        r.sensor_contact == hrm_sensor_contact(data@),
        r.energy_expended == hrm_energy(data@),
        r.rr_intervals@ == hrm_rr_intervals(data@),
{
    let flags = data[0];
    let is_16bit = flags % 2 == 1;
    let bpm: u16 = if is_16bit {
        read_le16(data[1], data[2])
    } else {
        data[1] as u16
    };
    let sensor_contact: Option<bool> = if (flags / 4) % 2 == 1 {
        Some((flags / 2) % 2 == 1)
    } else {
        None
    };
    let bpm_end: usize = if is_16bit {
        3
    } else {
        2
    };
    let (energy_expended, rr_start): (Option<u16>, usize) = if (flags / 8) % 2 == 1 {
        (Some(read_le16(data[bpm_end], data[bpm_end + 1])), bpm_end + 2)
    } else {
        (None, bpm_end)
    };
    assert(rr_start == hrm_rr_start(flags));

    let mut rr_intervals: Vec<u16> = Vec::new();
    let n = data.len();
    let count = (n - rr_start) / 2;
    let mut k: usize = 0;
    while k < count
        invariant
            hrm_well_formed(data@),
            flags == data@[0],
            rr_start == hrm_rr_start(flags),
            count == hrm_rr_count(data@),
            n == data@.len(),
            rr_start + 2 * count <= n,
            k <= count,
            rr_intervals@ =~= hrm_rr_intervals(data@).take(k as int),
        decreases count - k,
    {
        let lo = data[rr_start + 2 * k];
        let hi = data[rr_start + 2 * k + 1];
        rr_intervals.push(read_le16(lo, hi));
        k += 1;
    }
    assert(rr_intervals@ =~= hrm_rr_intervals(data@));

    HeartRateMeasurement { bpm, sensor_contact, energy_expended, rr_intervals }
}

/// The decoder's result depends only on the bytes its flags declare: two
/// payloads of the same length that agree on the flags byte, the fixed
/// fields and every complete RR pair decode identically, whatever a
/// trailing odd byte holds.
pub proof fn lemma_hrm_reads_only_declared_bytes(b1: Seq<u8>, b2: Seq<u8>)
    requires
        hrm_well_formed(b1),
        b1.len() == b2.len(),
        b1.take(hrm_rr_start(b1[0]) + 2 * hrm_rr_count(b1)) =~= b2.take(
            hrm_rr_start(b1[0]) + 2 * hrm_rr_count(b1),
        ),
    ensures
        hrm_well_formed(b2),
        hrm_bpm(b1) == hrm_bpm(b2),
        hrm_sensor_contact(b1) == hrm_sensor_contact(b2),
        hrm_energy(b1) == hrm_energy(b2),
        hrm_rr_intervals(b1) == hrm_rr_intervals(b2),
{
    let n = hrm_rr_start(b1[0]) + 2 * hrm_rr_count(b1);
    assert(forall|i: int| 0 <= i < n ==> b1[i] == b2[i]) by {
        assert(forall|i: int| 0 <= i < n ==> b1.take(n)[i] == b1[i] && b2.take(n)[i] == b2[i]);
    }
    assert(b1[0] == b2[0]);
    assert(hrm_rr_intervals(b1) =~= hrm_rr_intervals(b2));
}

} // verus!
