//! Decoder for the BLE Cycling Speed and Cadence (CSC) Measurement
//! characteristic payload.
//!
//! Layout, driven by the flags byte at offset 0: bit 0 says wheel
//! revolution data is present (little-endian 4-byte cumulative count, then
//! 2-byte event time in 1/1024 s ticks); bit 1 says crank revolution data
//! is present (little-endian 2-byte cumulative count, zero-extended to 32
//! bits, then 2-byte event time in 1/1024 s ticks), immediately after the
//! wheel data when both are present.

use vstd::prelude::*;

use crate::bytes::{le16, le32, read_le16, read_le32};
use crate::revolution::RevolutionData;

verus! {

/// One decoded CSC notification.
#[derive(Debug, Clone, Copy, PartialEq, Eq, Structural)]
pub struct CscMeasurement {
    pub wheel: Option<RevolutionData>,
    pub crank: Option<RevolutionData>,
}

/// Flags bit 0: wheel revolution data is present.
pub open spec fn csc_has_wheel(flags: u8) -> bool {
    flags % 2 == 1
}

/// Flags bit 1: crank revolution data is present.
pub open spec fn csc_has_crank(flags: u8) -> bool {
    (flags / 2) % 2 == 1
}

/// Offset of the crank data: right after the flags, and after the wheel
/// data when that is present.
pub open spec fn csc_crank_offset(flags: u8) -> int {
    1 + if csc_has_wheel(flags) {
        6int
    } else {
        0int
    }
}

/// Total byte length the flags declare.
pub open spec fn csc_total_len(flags: u8) -> int {
    csc_crank_offset(flags) + if csc_has_crank(flags) {
        4int
    } else {
        0int
    }
}

/// Whether a payload is long enough for every field its flags declare.
pub open spec fn csc_well_formed(b: Seq<u8>) -> bool {
    b.len() >= 1 && b.len() >= csc_total_len(b[0])
}

/// The decoded wheel revolution data, when present.
pub open spec fn csc_wheel(b: Seq<u8>) -> Option<RevolutionData> {
    if csc_has_wheel(b[0]) {
        Some(
            RevolutionData {
                revolution_count: le32(b[1], b[2], b[3], b[4]),
                last_event_ticks: le16(b[5], b[6]),
            },
        )
    } else {
        None
    }
}

/// The decoded crank revolution data, when present; the 16-bit count is
/// zero-extended to the wider field.
pub open spec fn csc_crank(b: Seq<u8>) -> Option<RevolutionData> {
    let o = csc_crank_offset(b[0]);
    if csc_has_crank(b[0]) {
        Some(
            RevolutionData {
                revolution_count: le16(b[o], b[o + 1]) as u32,
                last_event_ticks: le16(b[o + 2], b[o + 3]),
            },
        )
    } else {
        None
    }
}

/// Whether a payload is long enough for every field its flags declare,
/// so that the decoder's precondition can be tested at the trust
/// boundary before decoding.
pub fn csc_payload_valid(data: &Vec<u8>) -> (r: bool)
    ensures
        r == csc_well_formed(data@),
{
    if data.len() < 1 {
        return false;
    }
    let flags = data[0];
    let mut need: usize = 1;
    if flags % 2 == 1 {
        need += 6;
    }
    if (flags / 2) % 2 == 1 {
        need += 4;
    }
    data.len() >= need
}

/// Decodes a CSC Measurement payload. The payload must be well-formed for
/// its flags; decoding is then total and the result is a function of the
/// payload bytes alone.
pub fn parse_csc_measurement(data: &Vec<u8>) -> (r: CscMeasurement)
    requires
        csc_well_formed(data@),
    ensures
        r.wheel == csc_wheel(data@),
        r.crank == csc_crank(data@),
{
    let flags = data[0];
    let wheel: Option<RevolutionData> = if flags % 2 == 1 {
        Some(
            RevolutionData {
                revolution_count: read_le32(data[1], data[2], data[3], data[4]),
                last_event_ticks: read_le16(data[5], data[6]),
            },
        )
    } else {
        None
    };
    let o: usize = if flags % 2 == 1 {
        7
    } else {
        1
    };
    let crank: Option<RevolutionData> = if (flags / 2) % 2 == 1 {
        Some(
            RevolutionData {
                revolution_count: read_le16(data[o], data[o + 1]) as u32,
                last_event_ticks: read_le16(data[o + 2], data[o + 3]),
            },
        )
    } else {
        None
    };
    CscMeasurement { wheel, crank }
}

/// The decoder's result depends only on the bytes its flags declare: two
/// payloads that agree on the prefix the flags lay claim to decode
/// identically, whatever any trailing bytes hold.
pub proof fn lemma_csc_reads_only_declared_bytes(b1: Seq<u8>, b2: Seq<u8>)
    requires
        csc_well_formed(b1),
        b2.len() >= csc_total_len(b1[0]),
        b1.take(csc_total_len(b1[0])) =~= b2.take(csc_total_len(b1[0])),
    ensures
        csc_well_formed(b2),
        csc_wheel(b1) == csc_wheel(b2),
        csc_crank(b1) == csc_crank(b2),
{
    let n = csc_total_len(b1[0]);
    assert(forall|i: int| 0 <= i < n ==> b1[i] == b2[i]) by {
        assert(forall|i: int| 0 <= i < n ==> b1.take(n)[i] == b1[i] && b2.take(n)[i] == b2[i]);
    }
    assert(b1[0] == b2[0]);
}

} // verus!
