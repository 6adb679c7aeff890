//! FIT binary encoder: serializes per-second summary records into a complete
//! FIT file (header, definition/data messages, trailing CRC-16), bit-exactly.
//!
//! Optional record fields are stored already scaled to their FIT wire
//! representation: latitude and longitude in semicircles (degrees times
//! 2^29 / 45), altitude in units of 1/5 m offset by 500 m, distance in
//! centimetres, speed in millimetres per second.

use vstd::prelude::*;

use crate::bytes::{push_u16_le, push_u32_le, u16_le, u32_le};

verus! {

/// One per-second summary record of a recorded session.
#[derive(Debug, Clone, Copy, PartialEq, Eq, Structural)]
pub struct FitRecord {
    pub seconds_since_unix_epoch: u32,
    /// Wattage.
    pub power: Option<u16>,
    /// BPM.
    pub heart_rate: Option<u8>,
    /// RPM.
    pub cadence: Option<u8>,
    /// GPS latitude in semicircles.
    pub latitude: Option<i32>,
    /// GPS longitude in semicircles.
    pub longitude: Option<i32>,
    /// GPS altitude, 5 * (metres + 500).
    pub altitude: Option<u16>,
    /// Cumulative distance in centimetres.
    pub distance: Option<u32>,
    /// Instantaneous speed in millimetres per second.
    pub speed: Option<u16>,
}

/// Offset of the FIT epoch (1989-12-31T00:00:00Z) from the Unix epoch.
pub const FIT_EPOCH_OFFSET: u32 = 631065600;

/// A record timestamp rebased from the Unix epoch to the FIT epoch,
/// wrapping modulo 2^32.
pub open spec fn fit_epoch_seconds(s: u32) -> u32 {
    if s >= FIT_EPOCH_OFFSET {
        (s - FIT_EPOCH_OFFSET) as u32
    } else {
        (s + 0x1_0000_0000 - FIT_EPOCH_OFFSET) as u32
    }
}

/// The 12-byte file header: header length, protocol version, profile
/// version, message-section byte length (modulo 2^32), and the ASCII
/// signature ".FIT".
pub open spec fn header_bytes(data_len: int) -> Seq<u8> {
    seq![12u8, 0x20, 0xeb, 0x07] + u32_le((data_len % 0x1_0000_0000) as u32)
        + seq![0x2e, 0x46, 0x49, 0x54]
}

/// How many fields a record's definition message declares: the timestamp
/// plus one per populated optional field.
pub open spec fn field_count(r: FitRecord) -> int {
    1 + (if r.latitude is Some { 1int } else { 0 }) + (if r.longitude is Some { 1int } else { 0 })
        + (if r.altitude is Some { 1int } else { 0 }) + (if r.power is Some { 1int } else { 0 })
        + (if r.heart_rate is Some { 1int } else { 0 }) + (if r.cadence is Some { 1int } else { 0 })
        + (if r.distance is Some { 1int } else { 0 }) + (if r.speed is Some { 1int } else { 0 })
}

/// One field-definition triplet (field number, byte size, base type),
/// present only when the field is populated.
pub open spec fn def_field(present: bool, num: u8, size: u8, ty: u8) -> Seq<u8> {
    if present {
        seq![num, size, ty]
    } else {
        Seq::empty()
    }
}

/// The definition message announcing a record's shape: the fixed prologue
/// for local message type 0 / global message number 20, the field count,
/// then one triplet per present field in the fixed declared order.
pub open spec fn def_bytes(r: FitRecord) -> Seq<u8> {
    seq![0x40u8, 0, 0, 20, 0, field_count(r) as u8, 253, 4, 0x86]
        + def_field(r.latitude is Some, 0, 4, 0x85) + def_field(r.longitude is Some, 1, 4, 0x85)
        + def_field(r.altitude is Some, 2, 2, 0x84) + def_field(r.power is Some, 7, 2, 0x84)
        + def_field(r.heart_rate is Some, 3, 1, 2) + def_field(r.cadence is Some, 4, 1, 2)
        + def_field(r.distance is Some, 5, 4, 0x86) + def_field(r.speed is Some, 6, 2, 0x84)
}

/// A present 32-bit field's little-endian bytes, or nothing.
pub open spec fn opt_u32_field(o: Option<u32>) -> Seq<u8> {
    match o {
        Some(v) => u32_le(v),
        None => Seq::empty(),
    }
}

/// A present signed 32-bit field's little-endian bytes (two's complement),
/// or nothing.
pub open spec fn opt_i32_field(o: Option<i32>) -> Seq<u8> {
    match o {
        Some(v) => u32_le(v as u32),
        None => Seq::empty(),
    }
}

/// A present 16-bit field's little-endian bytes, or nothing.
pub open spec fn opt_u16_field(o: Option<u16>) -> Seq<u8> {
    match o {
        Some(v) => u16_le(v),
        None => Seq::empty(),
    }
}

/// A present single-byte field, or nothing.
pub open spec fn opt_u8_field(o: Option<u8>) -> Seq<u8> {
    match o {
        Some(v) => seq![v],
        None => Seq::empty(),
    }
}

/// The data message carrying a record's values: message type byte, the
/// FIT-epoch timestamp, then each present field little-endian in the same
/// order as its definition.
pub open spec fn data_bytes(r: FitRecord) -> Seq<u8> {
    seq![0u8] + u32_le(fit_epoch_seconds(r.seconds_since_unix_epoch))
        + opt_i32_field(r.latitude) + opt_i32_field(r.longitude) + opt_u16_field(r.altitude)
        + opt_u16_field(r.power) + opt_u8_field(r.heart_rate) + opt_u8_field(r.cadence)
        + opt_u32_field(r.distance) + opt_u16_field(r.speed)
}

/// Whether two records populate exactly the same set of optional fields,
/// and so share one definition message.
pub open spec fn same_shape(a: FitRecord, b: FitRecord) -> bool {
    &&& (a.power is Some) == (b.power is Some)
    &&& (a.heart_rate is Some) == (b.heart_rate is Some)
    &&& (a.cadence is Some) == (b.cadence is Some)
    &&& (a.latitude is Some) == (b.latitude is Some)
    &&& (a.longitude is Some) == (b.longitude is Some)
    &&& (a.altitude is Some) == (b.altitude is Some)
    &&& (a.distance is Some) == (b.distance is Some)
    &&& (a.speed is Some) == (b.speed is Some)
}

/// The bytes the i-th record contributes to the message section: its data
/// message, preceded by a definition message exactly when it is the first
/// record or its shape differs from its predecessor's.
pub open spec fn message_bytes(rs: Seq<FitRecord>, i: int) -> Seq<u8> {
    if i == 0 || !same_shape(rs[i - 1], rs[i]) {
        def_bytes(rs[i]) + data_bytes(rs[i])
    } else {
        data_bytes(rs[i])
    }
}

/// The message section for the first n records.
pub open spec fn messages_bytes(rs: Seq<FitRecord>, n: int) -> Seq<u8>
    decreases n,
{
    if n <= 0 {
        Seq::empty()
    } else {
        messages_bytes(rs, n - 1) + message_bytes(rs, n - 1)
    }
}

/// The FIT CRC-16 nibble lookup table.
pub open spec fn crc_table(i: int) -> u16 {
    if i == 0 {
        0x0000
    } else if i == 1 {
        0xcc01
    } else if i == 2 {
        0xd801
    } else if i == 3 {
        0x1400
    } else if i == 4 {
        0xf001
    } else if i == 5 {
        0x3c00
    } else if i == 6 {
        0x2800
    } else if i == 7 {
        0xe401
    } else if i == 8 {
        0xa001
    } else if i == 9 {
        0x6c00
    } else if i == 10 {
        0x7800
    } else if i == 11 {
        0xb401
    } else if i == 12 {
        0x5000
    } else if i == 13 {
        0x9c01
    } else if i == 14 {
        0x8801
    } else {
        0x4400
    }
}

/// One CRC step over a 4-bit nibble.
pub open spec fn crc_nibble(crc: u16, nib: u16) -> u16 {
    ((crc / 16) as u16) ^ crc_table((crc % 16) as int) ^ crc_table(nib as int)
}

/// One CRC step over a byte: low nibble first, then high nibble.
pub open spec fn crc_byte(crc: u16, byte: u8) -> u16 {
    crc_nibble(crc_nibble(crc, (byte % 16) as u16), (byte / 16) as u16)
}

/// The FIT CRC-16 of a byte sequence, starting from 0.
pub open spec fn crc16(s: Seq<u8>) -> u16
    decreases s.len(),
{
    if s.len() == 0 {
        0
    } else {
        crc_byte(crc16(s.drop_last()), s.last())
    }
}

/// The complete file: header, message section, and the CRC of both,
/// little-endian, as the final two bytes.
pub open spec fn fit_file_bytes(rs: Seq<FitRecord>) -> Seq<u8> {
    let body = messages_bytes(rs, rs.len() as int);
    let prefix = header_bytes(body.len() as int) + body;
    prefix + u16_le(crc16(prefix))
}

/// A definition message is emitted for a record exactly when its shape
/// differs from its predecessor's; records of equal shape reuse the
/// previous definition both logically and in the byte stream.
pub proof fn lemma_definition_reuse(rs: Seq<FitRecord>, i: int)
    requires
        0 < i < rs.len(),
    ensures
        same_shape(rs[i - 1], rs[i]) ==> message_bytes(rs, i) == data_bytes(rs[i]),
        !same_shape(rs[i - 1], rs[i]) ==> message_bytes(rs, i) == def_bytes(rs[i]) + data_bytes(
            rs[i],
        ),
{
}

fn make_header(length: usize) -> (r: Vec<u8>)
    ensures
        r@ == header_bytes(length as int),
{
    let len32 = ((length as u64) % 0x1_0000_0000) as u32;
    let mut bytes: Vec<u8> = Vec::new();
    bytes.push(12);
    bytes.push(0x20);
    bytes.push(0xeb);
    bytes.push(0x07);
    push_u32_le(&mut bytes, len32);
    bytes.push(0x2e);
    bytes.push(0x46);
    bytes.push(0x49);
    bytes.push(0x54);
    assert(bytes@ =~= header_bytes(length as int));
    bytes
}

/// Appends one field-definition triplet when the field is present.
fn push_def_field(out: &mut Vec<u8>, present: bool, num: u8, size: u8, ty: u8)
    ensures
        final(out)@ == old(out)@ + def_field(present, num, size, ty),
{
    if present {
        out.push(num);
        out.push(size);
        out.push(ty);
        assert(out@ =~= old(out)@ + def_field(present, num, size, ty));
    } else {
        assert(out@ =~= old(out)@ + def_field(present, num, size, ty));
    }
}

fn record_def(record: &FitRecord) -> (r: Vec<u8>)
    ensures
        r@ == def_bytes(*record),
{
    let mut count: u8 = 1;
    if record.latitude.is_some() {
        count += 1;
    }
    if record.longitude.is_some() {
        count += 1;
    }
    if record.altitude.is_some() {
        count += 1;
    }
    if record.power.is_some() {
        count += 1;
    }
    if record.heart_rate.is_some() {
        count += 1;
    }
    if record.cadence.is_some() {
        count += 1;
    }
    if record.distance.is_some() {
        count += 1;
    }
    if record.speed.is_some() {
        count += 1;
    }
    assert(count == field_count(*record));

    let mut bytes: Vec<u8> = Vec::new();
    bytes.push(0x40);
    bytes.push(0);
    bytes.push(0);
    bytes.push(20);
    bytes.push(0);
    bytes.push(count);
    bytes.push(253);
    bytes.push(4);
    bytes.push(0x86);
    assert(bytes@ =~= seq![0x40u8, 0, 0, 20, 0, field_count(*record) as u8, 253, 4, 0x86]);
    push_def_field(&mut bytes, record.latitude.is_some(), 0, 4, 0x85);
    push_def_field(&mut bytes, record.longitude.is_some(), 1, 4, 0x85);
    push_def_field(&mut bytes, record.altitude.is_some(), 2, 2, 0x84);
    push_def_field(&mut bytes, record.power.is_some(), 7, 2, 0x84);
    push_def_field(&mut bytes, record.heart_rate.is_some(), 3, 1, 2);
    push_def_field(&mut bytes, record.cadence.is_some(), 4, 1, 2);
    push_def_field(&mut bytes, record.distance.is_some(), 5, 4, 0x86);
    push_def_field(&mut bytes, record.speed.is_some(), 6, 2, 0x84);
    bytes
}

/// Appends a present 32-bit field's bytes.
fn push_opt_u32(out: &mut Vec<u8>, o: Option<u32>)
    ensures
        final(out)@ == old(out)@ + opt_u32_field(o),
{
    match o {
        Some(v) => push_u32_le(out, v),
        None => {
            assert(out@ =~= old(out)@ + opt_u32_field(o));
        },
    }
}

/// Appends a present signed 32-bit field's bytes (two's complement).
fn push_opt_i32(out: &mut Vec<u8>, o: Option<i32>)
    ensures
        final(out)@ == old(out)@ + opt_i32_field(o),
{
    match o {
        Some(v) => push_u32_le(out, #[verifier::truncate] (v as u32)),
        None => {
            assert(out@ =~= old(out)@ + opt_i32_field(o));
        },
    }
}

/// Appends a present 16-bit field's bytes.
fn push_opt_u16(out: &mut Vec<u8>, o: Option<u16>)
    ensures
        final(out)@ == old(out)@ + opt_u16_field(o),
{
    match o {
        Some(v) => push_u16_le(out, v),
        None => {
            assert(out@ =~= old(out)@ + opt_u16_field(o));
        },
    }
}

/// Appends a present single-byte field.
fn push_opt_u8(out: &mut Vec<u8>, o: Option<u8>)
    ensures
        final(out)@ == old(out)@ + opt_u8_field(o),
{
    match o {
        Some(v) => {
            out.push(v);
            assert(out@ =~= old(out)@ + opt_u8_field(o));
        },
        None => {
            assert(out@ =~= old(out)@ + opt_u8_field(o));
        },
    }
}

fn record_to_bytes(record: &FitRecord) -> (r: Vec<u8>)
    ensures
        r@ == data_bytes(*record),
{
    let s = record.seconds_since_unix_epoch;
    let ts: u32 = if s >= FIT_EPOCH_OFFSET {
        s - FIT_EPOCH_OFFSET
    } else {
        (s as u64 + 0x1_0000_0000 - FIT_EPOCH_OFFSET as u64) as u32
    };
    assert(ts == fit_epoch_seconds(s));
    let mut bytes: Vec<u8> = Vec::new();
    bytes.push(0);
    push_u32_le(&mut bytes, ts);
    assert(bytes@ =~= seq![0u8] + u32_le(fit_epoch_seconds(record.seconds_since_unix_epoch)));
    push_opt_i32(&mut bytes, record.latitude);
    push_opt_i32(&mut bytes, record.longitude);
    push_opt_u16(&mut bytes, record.altitude);
    push_opt_u16(&mut bytes, record.power);
    push_opt_u8(&mut bytes, record.heart_rate);
    push_opt_u8(&mut bytes, record.cadence);
    push_opt_u32(&mut bytes, record.distance);
    push_opt_u16(&mut bytes, record.speed);
    bytes
}

/// Whether two records populate the same set of optional fields.
fn shapes_equal(a: &FitRecord, b: &FitRecord) -> (r: bool)
    ensures
        r == same_shape(*a, *b),
{
    a.power.is_some() == b.power.is_some() && a.heart_rate.is_some() == b.heart_rate.is_some()
        && a.cadence.is_some() == b.cadence.is_some() && a.latitude.is_some()
        == b.latitude.is_some() && a.longitude.is_some() == b.longitude.is_some()
        && a.altitude.is_some() == b.altitude.is_some() && a.distance.is_some()
        == b.distance.is_some() && a.speed.is_some() == b.speed.is_some()
}

fn crc_table_at(i: u16) -> (r: u16)
    requires
        i < 16,
    ensures
        r == crc_table(i as int),
{
    if i == 0 {
        0x0000
    } else if i == 1 {
        0xcc01
    } else if i == 2 {
        0xd801
    } else if i == 3 {
        0x1400
    } else if i == 4 {
        0xf001
    } else if i == 5 {
        0x3c00
    } else if i == 6 {
        0x2800
    } else if i == 7 {
        0xe401
    } else if i == 8 {
        0xa001
    } else if i == 9 {
        0x6c00
    } else if i == 10 {
        0x7800
    } else if i == 11 {
        0xb401
    } else if i == 12 {
        0x5000
    } else if i == 13 {
        0x9c01
    } else if i == 14 {
        0x8801
    } else {
        0x4400
    }
}

fn calculate_crc(blob: &Vec<u8>) -> (r: u16)
    ensures
        r == crc16(blob@),
{
    let mut crc: u16 = 0;
    let mut i: usize = 0;
    while i < blob.len()
        invariant
            i <= blob.len(),
            crc == crc16(blob@.take(i as int)),
        decreases blob.len() - i,
    {
        let byte = blob[i];
        let t1 = crc_table_at(crc % 16);
        let c1 = (crc / 16) ^ t1 ^ crc_table_at(byte as u16 % 16);
        let t2 = crc_table_at(c1 % 16);
        let c2 = (c1 / 16) ^ t2 ^ crc_table_at(byte as u16 / 16);
        proof {
            assert(blob@.take(i + 1).drop_last() =~= blob@.take(i as int));
            assert(blob@.take(i + 1).last() == blob@[i as int]);
            assert((byte as u16 % 16) as int == ((byte % 16) as u16) as int);
            assert((byte as u16 / 16) as int == ((byte / 16) as u16) as int);
        }
        crc = c2;
        i += 1;
    }
    proof {
        assert(blob@.take(blob.len() as int) =~= blob@);
    }
    crc
}

fn to_file_inner(list: &Vec<FitRecord>) -> (r: Vec<u8>)
    ensures
        r@ == messages_bytes(list@, list@.len() as int),
{
    let mut bytes: Vec<u8> = Vec::new();
    let mut i: usize = 0;
    while i < list.len()
        invariant
            i <= list.len(),
            bytes@ == messages_bytes(list@, i as int),
        decreases list.len() - i,
    {
        let need_def = if i == 0 {
            true
        } else {
            !shapes_equal(&list[i - 1], &list[i])
        };
        if need_def {
            let mut d = record_def(&list[i]);
            bytes.append(&mut d);
        }
        let mut m = record_to_bytes(&list[i]);
        bytes.append(&mut m);
        proof {
            assert(bytes@ == messages_bytes(list@, i as int) + message_bytes(list@, i as int));
        }
        i += 1;
    }
    bytes
}

/// Serializes a sequence of summary records into complete FIT file bytes.
/// The encoder is total: it accepts any record sequence, including the
/// empty one.
pub fn to_file(list: &Vec<FitRecord>) -> (r: Vec<u8>)
    ensures
        r@ == fit_file_bytes(list@),
{
    let mut record_buffer = to_file_inner(list);
    let ghost body = record_buffer@;
    let mut bytes = make_header(record_buffer.len());
    bytes.append(&mut record_buffer);
    assert(bytes@ == header_bytes(body.len() as int) + body);
    let crc = calculate_crc(&bytes);
    bytes.push((crc % 0x100) as u8);
    bytes.push((crc / 0x100) as u8);
    assert(bytes@ =~= (header_bytes(body.len() as int) + body) + u16_le(crc));
    bytes
}

} // verus!
