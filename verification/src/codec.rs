//! The fixed-size binary framing protocol spoken with the peripheral.
//!
//! A frame is always exactly 32 bytes on the wire: byte 0 is a
//! transport-level report-ID prefix (constant, value 0), bytes 1..32 carry
//! the record serialized in a stable fixed-width little-endian layout
//! (serial, then a variant discriminant, then the variant's fields in
//! declaration order), zero-padded to the end of the frame. Decoding
//! ignores the report-ID byte and any trailing padding.

use vstd::prelude::*;

use crate::record::{Record, RecordData};

verus! {

/// Total size of one wire frame, report-ID byte included.
pub const FRAME_LEN: usize = 32;

/// Usable payload bytes of a frame, after the report-ID byte.
pub const PAYLOAD_LEN: usize = 31;

/// A record whose serialized payload would exceed the 31 usable bytes.
/// The defined variant set never produces one (`lemma_record_always_fits`),
/// so the library never constructs this error; it exists so callers of the
/// write path can name the failure class.
#[derive(Clone, Copy, PartialEq, Eq, Structural, Debug)]
pub struct EncodeError {}

/// Why a frame failed to decode.
#[derive(Clone, Copy, PartialEq, Eq, Structural, Debug)]
pub enum DecodeError {
    /// The input is not exactly one 32-byte frame (e.g. a truncated read).
    WrongLength,
    /// The variant discriminant is outside the defined variant set.
    UnknownVariant,
    /// A boolean field holds a byte other than 0 or 1.
    InvalidBool,
}

/// The wire byte of a boolean field.
pub open spec fn bool_byte(b: bool) -> u8 {
    if b {
        1
    } else {
        0
    }
}

/// Little-endian bytes of a 16-bit integer.
pub open spec fn u16_le_bytes(v: u16) -> Seq<u8> {
    seq![(v % 256) as u8, ((v / 256) % 256) as u8]
}

/// Little-endian bytes of a 32-bit integer.
pub open spec fn u32_le_bytes(v: u32) -> Seq<u8> {
    seq![
        (v % 256) as u8,
        ((v / 256) % 256) as u8,
        ((v / 65536) % 256) as u8,
        ((v / 16777216) % 256) as u8,
    ]
}

/// The 16-bit integer spelled by two little-endian bytes.
pub open spec fn u16_from_le(b0: u8, b1: u8) -> u16 {
    (b0 + 256 * b1) as u16
}

/// The 32-bit integer spelled by four little-endian bytes.
pub open spec fn u32_from_le(b0: u8, b1: u8, b2: u8, b3: u8) -> u32 {
    (b0 + 256 * b1 + 65536 * b2 + 16777216 * b3) as u32
}

/// The wire discriminant of each variant: its position in the declaration
/// order of `RecordData`, as a 32-bit integer.
pub open spec fn discriminant_of(d: RecordData) -> u32 {
    match d {
        RecordData::Empty => 0,
        RecordData::Ping => 1,
        RecordData::Pong => 2,
        RecordData::BatteryRequest => 3,
        RecordData::BatteryResponse { .. } => 4,
        RecordData::SetLedMeter { .. } => 5,
        RecordData::SetOutputMuteState(_) => 6,
        RecordData::SetInputMuteState(_) => 7,
        RecordData::ToggleOutputMute => 8,
        RecordData::ToggleInputMute => 9,
    }
}

/// The serialized field bytes of a variant, in declaration order.
pub open spec fn field_bytes(d: RecordData) -> Seq<u8> {
    match d {
        RecordData::BatteryResponse { percent, voltage } => seq![percent] + u16_le_bytes(voltage),
        RecordData::SetLedMeter {
            percent,
            warning_threshold,
            danger_threshold,
            invert,
            linger_time,
        } => seq![percent, warning_threshold, danger_threshold, bool_byte(invert)]
            + u16_le_bytes(linger_time),
        RecordData::SetOutputMuteState(b) => seq![bool_byte(b)],
        RecordData::SetInputMuteState(b) => seq![bool_byte(b)],
        _ => seq![],
    }
}

/// The serialized record, before padding: serial, discriminant, fields.
pub open spec fn spec_payload(r: Record) -> Seq<u8> {
    u32_le_bytes(r.serial) + u32_le_bytes(discriminant_of(r.data)) + field_bytes(r.data)
}

/// The canonical 32-byte frame of a record: report-ID byte 0, the payload,
/// zero padding up to the frame length.
pub open spec fn spec_frame(r: Record) -> Seq<u8> {
    seq![0u8] + spec_payload(r) + Seq::new((31 - spec_payload(r).len()) as nat, |i: int| 0u8)
}

/// What decoding a byte sequence yields. The report-ID byte and any bytes
/// past the variant's serialized fields are ignored.
pub open spec fn spec_decode(f: Seq<u8>) -> Result<Record, DecodeError> {
    if f.len() != 32 {
        Err(DecodeError::WrongLength)
    } else {
        let serial = u32_from_le(f[1], f[2], f[3], f[4]);
        let disc = u32_from_le(f[5], f[6], f[7], f[8]);
        if disc == 0 {
            Ok(Record { serial, data: RecordData::Empty })
        } else if disc == 1 {
            Ok(Record { serial, data: RecordData::Ping })
        } else if disc == 2 {
            Ok(Record { serial, data: RecordData::Pong })
        } else if disc == 3 {
            Ok(Record { serial, data: RecordData::BatteryRequest })
        } else if disc == 4 {
            Ok(Record {
                serial,
                data: RecordData::BatteryResponse {
                    percent: f[9],
                    voltage: u16_from_le(f[10], f[11]),
                },
            })
        } else if disc == 5 {
            if f[12] <= 1 {
                Ok(Record {
                    serial,
                    data: RecordData::SetLedMeter {
                        percent: f[9],
                        warning_threshold: f[10],
                        danger_threshold: f[11],
                        invert: f[12] == 1,
                        linger_time: u16_from_le(f[13], f[14]),
                    },
                })
            } else {
                Err(DecodeError::InvalidBool)
            }
        } else if disc == 6 {
            if f[9] <= 1 {
                Ok(Record { serial, data: RecordData::SetOutputMuteState(f[9] == 1) })
            } else {
                Err(DecodeError::InvalidBool)
            }
        } else if disc == 7 {
            if f[9] <= 1 {
                Ok(Record { serial, data: RecordData::SetInputMuteState(f[9] == 1) })
            } else {
                Err(DecodeError::InvalidBool)
            }
        } else if disc == 8 {
            Ok(Record { serial, data: RecordData::ToggleOutputMute })
        } else if disc == 9 {
            Ok(Record { serial, data: RecordData::ToggleInputMute })
        } else {
            Err(DecodeError::UnknownVariant)
        }
    }
}

/// Every variant's serialized payload is between 8 and 14 bytes.
pub proof fn lemma_payload_len(r: Record)
    ensures
        8 <= spec_payload(r).len() <= 14,
{
    match r.data {
        RecordData::BatteryResponse { .. } => {},
        RecordData::SetLedMeter { .. } => {},
        RecordData::SetOutputMuteState(_) => {},
        RecordData::SetInputMuteState(_) => {},
        _ => {},
    }
}

/// The protocol invariant: every record of the defined variant set fits in
/// the 31 usable payload bytes, so its frame is exactly 32 bytes and
/// encoding cannot fail.
pub proof fn lemma_record_always_fits(r: Record)
    ensures
        spec_payload(r).len() <= 31,
        spec_frame(r).len() == 32,
{
    lemma_payload_len(r);
}

proof fn lemma_u16_round_trip(v: u16)
    ensures
        u16_from_le((v % 256) as u8, ((v / 256) % 256) as u8) == v,
{
    assert((v % 256) + 256 * ((v / 256) % 256) == v) by (bit_vector);
}

proof fn lemma_u32_round_trip(v: u32)
    ensures
        u32_from_le(
            (v % 256) as u8,
            ((v / 256) % 256) as u8,
            ((v / 65536) % 256) as u8,
            ((v / 16777216) % 256) as u8,
        ) == v,
{
    assert((v % 256) + 256 * ((v / 256) % 256) + 65536 * ((v / 65536) % 256) + 16777216 * ((v
        / 16777216) % 256) == v) by (bit_vector);
}

/// Padding tolerance: any 32-byte frame whose payload bytes begin with the
/// serialization of a record decodes to that record, whatever its report-ID
/// byte and its trailing bytes hold.
pub proof fn lemma_padding_tolerance(r: Record, f: Seq<u8>)
    requires
        f.len() == 32,
        f.subrange(1, 1 + spec_payload(r).len() as int) == spec_payload(r),
    ensures
        spec_decode(f) == Ok::<Record, DecodeError>(r),
{
    let p = spec_payload(r);
    lemma_payload_len(r);
    assert forall|i: int| 1 <= i < 1 + p.len() implies f[i] == p[i - 1] by {
        assert(f.subrange(1, 1 + p.len() as int)[i - 1] == f[i]);
    }
    let a = u32_le_bytes(r.serial);
    let b = u32_le_bytes(discriminant_of(r.data));
    let c = field_bytes(r.data);
    assert(f[1] == a[0] && f[2] == a[1] && f[3] == a[2] && f[4] == a[3]);
    assert(f[5] == b[0] && f[6] == b[1] && f[7] == b[2] && f[8] == b[3]);
    lemma_u32_round_trip(r.serial);
    assert(u32_from_le(f[1], f[2], f[3], f[4]) == r.serial);
    lemma_u32_round_trip(discriminant_of(r.data));
    assert(u32_from_le(f[5], f[6], f[7], f[8]) == discriminant_of(r.data));
    match r.data {
        RecordData::BatteryResponse { percent, voltage } => {
            assert(f[9] == c[0] && f[10] == c[1] && f[11] == c[2]);
            assert(f[9] == percent);
            lemma_u16_round_trip(voltage);
            assert(u16_from_le(f[10], f[11]) == voltage);
        },
        RecordData::SetLedMeter {
            percent,
            warning_threshold,
            danger_threshold,
            invert,
            linger_time,
        } => {
            assert(f[9] == c[0] && f[10] == c[1] && f[11] == c[2] && f[12] == c[3] && f[13] == c[4]
                && f[14] == c[5]);
            assert(f[9] == percent);
            assert(f[10] == warning_threshold);
            assert(f[11] == danger_threshold);
            assert(f[12] == bool_byte(invert));
            lemma_u16_round_trip(linger_time);
            assert(u16_from_le(f[13], f[14]) == linger_time);
        },
        RecordData::SetOutputMuteState(m) => {
            assert(f[9] == c[0]);
            assert(f[9] == bool_byte(m));
        },
        RecordData::SetInputMuteState(m) => {
            assert(f[9] == c[0]);
            assert(f[9] == bool_byte(m));
        },
        _ => {},
    }
}

/// Round trip: the canonical frame of any record decodes back to it.
pub proof fn lemma_round_trip(r: Record)
    ensures
        spec_decode(spec_frame(r)) == Ok::<Record, DecodeError>(r),
{
    lemma_payload_len(r);
    let f = spec_frame(r);
    assert(f.subrange(1, 1 + spec_payload(r).len() as int) =~= spec_payload(r));
    lemma_padding_tolerance(r, f);
}

fn push_u16_le(out: &mut Vec<u8>, v: u16)
    ensures
        final(out)@ == old(out)@ + u16_le_bytes(v),
{
    out.push((v % 256) as u8);
    out.push(((v / 256) % 256) as u8);
    assert(out@ =~= old(out)@ + u16_le_bytes(v));
}

fn push_u32_le(out: &mut Vec<u8>, v: u32)
    ensures
        final(out)@ == old(out)@ + u32_le_bytes(v),
{
    out.push((v % 256) as u8);
    out.push(((v / 256) % 256) as u8);
    out.push(((v / 65536) % 256) as u8);
    out.push(((v / 16777216) % 256) as u8);
    assert(out@ =~= old(out)@ + u32_le_bytes(v));
}

fn discriminant_code(d: &RecordData) -> (c: u32)
    ensures
        c == discriminant_of(*d),
{
    match d {
        RecordData::Empty => 0,
        RecordData::Ping => 1,
        RecordData::Pong => 2,
        RecordData::BatteryRequest => 3,
        RecordData::BatteryResponse { .. } => 4,
        RecordData::SetLedMeter { .. } => 5,
        RecordData::SetOutputMuteState(_) => 6,
        RecordData::SetInputMuteState(_) => 7,
        RecordData::ToggleOutputMute => 8,
        RecordData::ToggleInputMute => 9,
    }
}

/// Encode a record as its canonical 32-byte frame: report-ID byte 0, the
/// serialized payload, zero padding. Never fails for the defined variant
/// set (`lemma_record_always_fits`).
pub fn encode(r: &Record) -> (frame: Vec<u8>)
    ensures
        frame@ == spec_frame(*r),
        frame@.len() == 32,
{
    let mut out: Vec<u8> = Vec::new();
    out.push(0u8);
    push_u32_le(&mut out, r.serial);
    push_u32_le(&mut out, discriminant_code(&r.data));
    match r.data {
        RecordData::BatteryResponse { percent, voltage } => {
            out.push(percent);
            push_u16_le(&mut out, voltage);
        },
        RecordData::SetLedMeter {
            percent,
            warning_threshold,
            danger_threshold,
            invert,
            linger_time,
        } => {
            out.push(percent);
            out.push(warning_threshold);
            out.push(danger_threshold);
            out.push(if invert { 1u8 } else { 0u8 });
            push_u16_le(&mut out, linger_time);
        },
        RecordData::SetOutputMuteState(b) => {
            out.push(if b { 1u8 } else { 0u8 });
        },
        RecordData::SetInputMuteState(b) => {
            out.push(if b { 1u8 } else { 0u8 });
        },
        _ => {},
    }
    assert(out@ =~= seq![0u8] + spec_payload(*r));
    proof {
        lemma_payload_len(*r);
    }
    while out.len() < 32
        invariant
            1 + spec_payload(*r).len() <= out@.len() <= 32,
            out@.subrange(0, 1 + spec_payload(*r).len() as int) == seq![0u8] + spec_payload(*r),
            forall|i: int| 1 + spec_payload(*r).len() <= i < out@.len() ==> out@[i] == 0u8,
        decreases 32 - out@.len(),
    {
        out.push(0u8);
    }
    assert(out@ =~= spec_frame(*r));
    out
}

fn read_u16_le(frame: &[u8], i: usize) -> (v: u16)
    requires
        i + 2 <= frame@.len(),
    ensures
        v == u16_from_le(frame@[i as int], frame@[i + 1]),
{
    let b0 = frame[i];
    let b1 = frame[i + 1];
    (b0 as u16) + 256 * (b1 as u16)
}

fn read_u32_le(frame: &[u8], i: usize) -> (v: u32)
    requires
        i + 4 <= frame@.len(),
    ensures
        v == u32_from_le(frame@[i as int], frame@[i + 1], frame@[i + 2], frame@[i + 3]),
{
    let b0 = frame[i];
    let b1 = frame[i + 1];
    let b2 = frame[i + 2];
    let b3 = frame[i + 3];
    (b0 as u32) + 256 * (b1 as u32) + 65536 * (b2 as u32) + 16777216 * (b3 as u32)
}

/// Decode one 32-byte frame into a record. The report-ID byte and trailing
/// padding are ignored; input of any other length is rejected as truncated
/// or malformed, an undefined discriminant and an out-of-range boolean byte
/// are rejected as malformed.
pub fn decode(frame: &[u8]) -> (res: Result<Record, DecodeError>)
    ensures
        res == spec_decode(frame@),
{
    if frame.len() != 32 {
        return Err(DecodeError::WrongLength);
    }
    let serial = read_u32_le(frame, 1);
    let disc = read_u32_le(frame, 5);
    if disc == 0 {
        Ok(Record { serial, data: RecordData::Empty })
    } else if disc == 1 {
        Ok(Record { serial, data: RecordData::Ping })
    } else if disc == 2 {
        Ok(Record { serial, data: RecordData::Pong })
    } else if disc == 3 {
        Ok(Record { serial, data: RecordData::BatteryRequest })
    } else if disc == 4 {
        let percent = frame[9];
        let voltage = read_u16_le(frame, 10);
        Ok(Record { serial, data: RecordData::BatteryResponse { percent, voltage } })
    } else if disc == 5 {
        let invert_byte = frame[12];
        if invert_byte > 1 {
            return Err(DecodeError::InvalidBool);
        }
        let percent = frame[9];
        let warning_threshold = frame[10];
        let danger_threshold = frame[11];
        let linger_time = read_u16_le(frame, 13);
        Ok(Record {
            serial,
            data: RecordData::SetLedMeter {
                percent,
                warning_threshold,
                danger_threshold,
                invert: invert_byte == 1,
                linger_time,
            },
        })
    } else if disc == 6 {
        let b = frame[9];
        if b > 1 {
            return Err(DecodeError::InvalidBool);
        }
        Ok(Record { serial, data: RecordData::SetOutputMuteState(b == 1) })
    } else if disc == 7 {
        let b = frame[9];
        if b > 1 {
            return Err(DecodeError::InvalidBool);
        }
        Ok(Record { serial, data: RecordData::SetInputMuteState(b == 1) })
    } else if disc == 8 {
        Ok(Record { serial, data: RecordData::ToggleOutputMute })
    } else if disc == 9 {
        Ok(Record { serial, data: RecordData::ToggleInputMute })
    } else {
        Err(DecodeError::UnknownVariant)
    }
}

} // verus!
