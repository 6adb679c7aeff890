//! Decoder for the BLE Cycling Power Measurement characteristic payload,
//! and the wraparound-aware accumulated-torque totalizer.
//!
//! Layout: a 16-bit flags field at offset 0 (all bits used here live in
//! its low byte), then the signed little-endian 16-bit instantaneous power
//! at offset 2. Optional fields follow in a fixed declared order, each
//! present only when its flag bit is set, at offsets accumulated from the
//! sizes of the preceding present fields: pedal power balance (1 byte,
//! half-percent units; bit 0), accumulated torque (little-endian 16 bits,
//! 1/32 N·m units; bit 2, with bit 3 naming the source, 0 = wheel,
//! 1 = crank), wheel revolution data (4-byte count plus 2-byte event time
//! in 1/2048 s ticks; bit 4 — note the divisor differs from the CSC
//! service's 1/1024 s), and crank revolution data (2-byte count plus
//! 2-byte event time in 1/1024 s ticks; bit 5).

use vstd::prelude::*;

use crate::bytes::{le16, le32, read_le16, read_le32};
use crate::revolution::{RevolutionData, RotationSource, wrapping_delta};

verus! {

/// An accumulated-torque reading: which rotating part it integrates, and
/// the raw magnitude register in 1/32 N·m units (so the register's period
/// is 2048 N·m).
#[derive(Debug, Clone, Copy, PartialEq, Eq, Structural)]
pub struct AccumulatedTorque {
    pub source: RotationSource,
    pub magnitude_raw: u16,
}

/// One decoded cycling-power notification. Scalar fields carry the raw
/// register units: balance in half percent, torque in 1/32 N·m.
#[derive(Debug, Clone, Copy, PartialEq, Eq, Structural)]
pub struct CyclingPowerMeasurement {
    /// Instantaneous power in watts.
    pub instantaneous_power: i16,
    /// Pedal power balance in raw half-percent units.
    pub pedal_power_balance: Option<u8>,
    /// Accumulated torque: its source and raw magnitude.
    pub accumulated_torque: Option<AccumulatedTorque>,
    /// Wheel revolution data; event time in 1/2048 s ticks.
    pub wheel_revolution_data: Option<RevolutionData>,
    /// Crank revolution data; event time in 1/1024 s ticks, encoded
    /// identically to the CSC service's crank data.
    pub crank_revolution_data: Option<RevolutionData>,
}

/// Flags bit 0: pedal power balance is present.
pub open spec fn cpm_has_balance(flags: u8) -> bool {
    flags % 2 == 1
}

/// Flags bit 2: accumulated torque is present.
pub open spec fn cpm_has_torque(flags: u8) -> bool {
    (flags / 4) % 2 == 1
}

/// Flags bit 3: the accumulated-torque source, 0 = wheel, 1 = crank.
pub open spec fn cpm_torque_source(flags: u8) -> RotationSource {
    if (flags / 8) % 2 == 1 {
        RotationSource::Crank
    } else {
        RotationSource::Wheel
    }
}

/// Flags bit 4: wheel revolution data is present.
pub open spec fn cpm_has_wheel(flags: u8) -> bool {
    (flags / 16) % 2 == 1
}

/// Flags bit 5: crank revolution data is present.
pub open spec fn cpm_has_crank(flags: u8) -> bool {
    (flags / 32) % 2 == 1
}

/// Offset of the accumulated-torque field.
pub open spec fn cpm_torque_offset(flags: u8) -> int {
    4 + if cpm_has_balance(flags) {
        1int
    } else {
        0int
    }
}

/// Offset of the wheel revolution data.
pub open spec fn cpm_wheel_offset(flags: u8) -> int {
    cpm_torque_offset(flags) + if cpm_has_torque(flags) {
        2int
    } else {
        0int
    }
}

/// Offset of the crank revolution data.
pub open spec fn cpm_crank_offset(flags: u8) -> int {
    cpm_wheel_offset(flags) + if cpm_has_wheel(flags) {
        6int
    } else {
        0int
    }
}

/// Total byte length the flags declare.
pub open spec fn cpm_total_len(flags: u8) -> int {
    cpm_crank_offset(flags) + if cpm_has_crank(flags) {
        4int
    } else {
        0int
    }
}

/// Whether a payload is long enough for every field its flags declare.
pub open spec fn cpm_well_formed(b: Seq<u8>) -> bool {
    b.len() >= 4 && b.len() >= cpm_total_len(b[0])
}

/// The decoded instantaneous power: a signed little-endian 16-bit value
/// at offset 2.
pub open spec fn cpm_power(b: Seq<u8>) -> i16 {
    le16(b[2], b[3]) as i16
}

/// The decoded pedal power balance, when present, in half-percent units.
pub open spec fn cpm_balance(b: Seq<u8>) -> Option<u8> {
    if cpm_has_balance(b[0]) {
        Some(b[4])
    } else {
        None
    }
}

/// The decoded accumulated torque, when present: source and raw 1/32 N·m
/// magnitude.
pub open spec fn cpm_torque(b: Seq<u8>) -> Option<AccumulatedTorque> {
    let o = cpm_torque_offset(b[0]);
    if cpm_has_torque(b[0]) {
        Some(
            AccumulatedTorque {
                source: cpm_torque_source(b[0]),
                magnitude_raw: le16(b[o], b[o + 1]),
            },
        )
    } else {
        None
    }
}

/// The decoded wheel revolution data, when present (event time in
/// 1/2048 s ticks).
pub open spec fn cpm_wheel(b: Seq<u8>) -> Option<RevolutionData> {
    let o = cpm_wheel_offset(b[0]);
    if cpm_has_wheel(b[0]) {
        Some(
            RevolutionData {
                revolution_count: le32(b[o], b[o + 1], b[o + 2], b[o + 3]),
                last_event_ticks: le16(b[o + 4], b[o + 5]),
            },
        )
    } else {
        None
    }
}

/// The decoded crank revolution data, when present (event time in
/// 1/1024 s ticks).
pub open spec fn cpm_crank(b: Seq<u8>) -> Option<RevolutionData> {
    let o = cpm_crank_offset(b[0]);
    if cpm_has_crank(b[0]) {
        Some(
            RevolutionData {
                revolution_count: le16(b[o], b[o + 1]) as u32,
                last_event_ticks: le16(b[o + 2], b[o + 3]),
            },
        )
    } else {
        None
    }
}

/// Whether a payload is long enough for every field its flags declare,
/// so that the decoder's precondition can be tested at the trust
/// boundary before decoding.
pub fn cpm_payload_valid(data: &Vec<u8>) -> (r: bool)
    ensures
        r == cpm_well_formed(data@),
{
    if data.len() < 4 {
        return false;
    }
    let flags = data[0];
    let mut need: usize = 4;
    if flags % 2 == 1 {
        need += 1;
    }
    if (flags / 4) % 2 == 1 {
        need += 2;
    }
    if (flags / 16) % 2 == 1 {
        need += 6;
    }
    if (flags / 32) % 2 == 1 {
        need += 4;
    }
    data.len() >= need
}

/// Decodes a Cycling Power Measurement payload. The payload must be
/// well-formed for its flags; decoding is then total and the result is a
/// function of the payload bytes alone.
pub fn parse_cycling_power_measurement(data: &Vec<u8>) -> (r: CyclingPowerMeasurement)
    requires
        cpm_well_formed(data@),
    ensures
        r.instantaneous_power == cpm_power(data@),
        r.pedal_power_balance == cpm_balance(data@),
        r.accumulated_torque == cpm_torque(data@),
        r.wheel_revolution_data == cpm_wheel(data@),
        r.crank_revolution_data == cpm_crank(data@),
{
    let flags = data[0];
    let instantaneous_power = read_le16(data[2], data[3]) as i16;

    let pedal_power_balance: Option<u8> = if flags % 2 == 1 {
        Some(data[4])
    } else {
        None
    };
    let mut o: usize = if flags % 2 == 1 {
        5
    } else {
        4
    };
    assert(o == cpm_torque_offset(flags));

    let accumulated_torque: Option<AccumulatedTorque> = if (flags / 4) % 2 == 1 {
        let source = if (flags / 8) % 2 == 1 {
            RotationSource::Crank
        } else {
            RotationSource::Wheel
        };
        let magnitude_raw = read_le16(data[o], data[o + 1]);
        o += 2;
        Some(AccumulatedTorque { source, magnitude_raw })
    } else {
        None
    };
    assert(o == cpm_wheel_offset(flags));

    let wheel_revolution_data: Option<RevolutionData> = if (flags / 16) % 2 == 1 {
        let rd = RevolutionData {
            revolution_count: read_le32(data[o], data[o + 1], data[o + 2], data[o + 3]),
            last_event_ticks: read_le16(data[o + 4], data[o + 5]),
        };
        o += 6;
        Some(rd)
    } else {
        None
    };
    assert(o == cpm_crank_offset(flags));

    let crank_revolution_data: Option<RevolutionData> = if (flags / 32) % 2 == 1 {
        Some(
            RevolutionData {
                revolution_count: read_le16(data[o], data[o + 1]) as u32,
                last_event_ticks: read_le16(data[o + 2], data[o + 3]),
            },
        )
    } else {
        None
    };

    CyclingPowerMeasurement {
        instantaneous_power,
        pedal_power_balance,
        accumulated_torque,
        wheel_revolution_data,
        crank_revolution_data,
    }
}

/// The decoder's result depends only on the bytes its flags declare: two
/// payloads that agree on the prefix the flags lay claim to decode
/// identically, whatever any trailing bytes hold.
pub proof fn lemma_cpm_reads_only_declared_bytes(b1: Seq<u8>, b2: Seq<u8>)
    requires
        cpm_well_formed(b1),
        b2.len() >= cpm_total_len(b1[0]),
        b1.take(cpm_total_len(b1[0])) =~= b2.take(cpm_total_len(b1[0])),
    ensures
        cpm_well_formed(b2),
        cpm_power(b1) == cpm_power(b2),
        cpm_balance(b1) == cpm_balance(b2),
        cpm_torque(b1) == cpm_torque(b2),
        cpm_wheel(b1) == cpm_wheel(b2),
        cpm_crank(b1) == cpm_crank(b2),
{
    let n = cpm_total_len(b1[0]);
    assert(forall|i: int| 0 <= i < n ==> b1[i] == b2[i]) by {
        assert(forall|i: int| 0 <= i < n ==> b1.take(n)[i] == b1[i] && b2.take(n)[i] == b2[i]);
    }
    assert(b1[0] == b2[0]);
}

/// What one new reading adds to the accumulated-torque total: nothing for
/// the first reading of a stream, else the wraparound difference from the
/// previous reading over the register's 2^16 raw-unit period.
pub open spec fn torque_delta(prev: Option<u16>, raw: u16) -> int {
    match prev {
        None => 0,
        Some(a) => wrapping_delta(0x1_0000, a as int, raw as int),
    }
}

/// Running total of accumulated torque for one sensor stream, in raw
/// 1/32 N·m units, wraparound-aware. External mechanical energy in joules
/// is 2 * pi * total / 32.
#[derive(Debug, Clone, Copy, PartialEq, Eq, Structural)]
pub struct TorqueAccumulator {
    /// The previous raw reading, seeding the next difference.
    pub prev_raw: Option<u16>,
    /// The running total in raw 1/32 N·m units; never decreases.
    pub total_raw: u64,
}

impl TorqueAccumulator {
    /// A fresh accumulator at session or stream start.
    pub fn new() -> (r: TorqueAccumulator)
        ensures
            r.prev_raw is None,
            r.total_raw == 0,
    {
        TorqueAccumulator { prev_raw: None, total_raw: 0 }
    }

    /// Feeds the next accumulated-torque register reading. The first
    /// reading of a stream only seeds the previous value; every later one
    /// adds its wraparound difference from its predecessor, which is
    /// never negative, so the total never decreases.
    pub fn observe(&mut self, raw: u16)
        requires
            old(self).total_raw + 0xFFFF <= u64::MAX,
        ensures
            final(self).prev_raw == Some(raw),
            final(self).total_raw == old(self).total_raw + torque_delta(old(self).prev_raw, raw),
            final(self).total_raw >= old(self).total_raw,
    {
        match self.prev_raw {
            None => {},
            Some(a) => {
                let delta: u32 = if raw >= a {
                    (raw - a) as u32
                } else {
                    raw as u32 + 0x1_0000 - a as u32
                };
                self.total_raw = self.total_raw + delta as u64;
            },
        }
        self.prev_raw = Some(raw);
    }
}

} // verus!
