//! Decoding of one device event record.
//!
//! A record is `EVENT_SIZE` bytes: an opaque 16-byte timestamp, then the
//! event kind (`u16`), the event code (`u16`) and the value (`i32`), each in
//! little-endian byte order. This is the layout of the Linux `input_event`
//! structure on 64-bit little-endian hosts.

use vstd::prelude::*;

verus! {

/// Width in bytes of one event record.
pub const EVENT_SIZE: usize = 24;

/// Byte offset of the event kind within a record.
pub const KIND_OFFSET: usize = 16;

/// Byte offset of the event code within a record.
pub const CODE_OFFSET: usize = 18;

/// Byte offset of the event value within a record.
pub const VALUE_OFFSET: usize = 20;

/// Kind of a sync marker: commit the latched axis values.
pub const KIND_SYNC: u16 = 0;

/// Kind of an absolute axis update.
pub const KIND_DATA: u16 = 3;

/// Code of an update of the x axis.
pub const CODE_X: u16 = 0;

/// Code of an update of the y axis.
pub const CODE_Y: u16 = 1;

/// One decoded device event.
#[derive(Clone, Copy, Debug, PartialEq, Eq, Structural)]
pub struct RawEvent {
    pub kind: u16,
    pub code: u16,
    pub value: i32,
}

/// The unsigned integer held in little-endian order by `b[at]` and `b[at + 1]`.
pub open spec fn le_u16(b: Seq<u8>, at: int) -> int {
    b[at] as int + 256 * b[at + 1] as int
}

/// The unsigned integer held in little-endian order by the four bytes from `b[at]`.
pub open spec fn le_u32(b: Seq<u8>, at: int) -> int {
    b[at] as int + 256 * b[at + 1] as int + 65536 * b[at + 2] as int + 16777216 * b[at + 3] as int
}

/// The two's complement reading of a 32-bit unsigned integer.
pub open spec fn signed32(u: int) -> int {
    if u < 0x8000_0000 {
        u
    } else {
        u - 0x1_0000_0000
    }
}

/// Decodes the record at the start of `buf`.
///
/// Fails, with `None`, when `buf` is shorter than one record. Bytes past the
/// first record are not read.
pub fn decode_event(buf: &[u8]) -> (r: Option<RawEvent>)
    ensures
        r is Some <==> buf@.len() >= EVENT_SIZE,
        r matches Some(e) ==> e.kind as int == le_u16(buf@, KIND_OFFSET as int)
            && e.code as int == le_u16(buf@, CODE_OFFSET as int)
            && e.value as int == signed32(le_u32(buf@, VALUE_OFFSET as int)),
{
    if buf.len() < EVENT_SIZE {
        return None;
    }
    let kind: u16 = buf[KIND_OFFSET] as u16 + 256 * (buf[KIND_OFFSET + 1] as u16);
    let code: u16 = buf[CODE_OFFSET] as u16 + 256 * (buf[CODE_OFFSET + 1] as u16);
    let raw: u32 = buf[VALUE_OFFSET] as u32
        + 256 * (buf[VALUE_OFFSET + 1] as u32)
        + 65536 * (buf[VALUE_OFFSET + 2] as u32)
        + 16777216 * (buf[VALUE_OFFSET + 3] as u32);
    let value: i32 = if raw < 0x8000_0000 {
        raw as i32
    } else {
        ((raw - 0x8000_0000) as i32) - 0x7fff_ffff - 1
    };
    Some(RawEvent { kind, code, value })
}

} // verus!
