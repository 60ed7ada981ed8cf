use vstd::prelude::*;
use crate::controller_state::FormatError;

verus! {

/// Size in bytes of one raw input-event record.
pub const RECORD_SIZE: usize = 24;

/// A raw input-event record. Its byte layout, all fields little-endian and
/// without padding: `tv_sec` (u64), `tv_usec` (u64), `ev_type` (u16),
/// `code` (u16), `value` (i32).
#[derive(Debug, Clone, Copy, PartialEq, Eq, Structural)]
pub struct RawEventRecord {
    pub tv_sec: u64,
    pub tv_usec: u64,
    pub ev_type: u16,
    pub code: u16,
    pub value: i32,
}

/// Unsigned value of the two little-endian bytes of `b` at `at`.
pub open spec fn le16(b: Seq<u8>, at: int) -> int {
    b[at] + 256 * b[at + 1]
}

/// Unsigned value of the four little-endian bytes of `b` at `at`.
pub open spec fn le32(b: Seq<u8>, at: int) -> int {
    le16(b, at) + 65536 * le16(b, at + 2)
}

/// Unsigned value of the eight little-endian bytes of `b` at `at`.
pub open spec fn le64(b: Seq<u8>, at: int) -> int {
    le32(b, at) + 4294967296 * le32(b, at + 4)
}

/// The record that a `RECORD_SIZE`-byte buffer holds.
pub open spec fn record_of(b: Seq<u8>) -> RawEventRecord {
    RawEventRecord {
        tv_sec: le64(b, 0) as u64,
        tv_usec: le64(b, 8) as u64,
        ev_type: le16(b, 16) as u16,
        code: le16(b, 18) as u16,
        value: (le32(b, 20) as u32) as i32,
    }
}

/// Decoding of a raw record; fails unless exactly `RECORD_SIZE` bytes are given.
pub open spec fn decode_record_spec(b: Seq<u8>) -> Result<RawEventRecord, FormatError> {
    if b.len() != RECORD_SIZE {
        Err(FormatError { expected: RECORD_SIZE, found: b.len() as usize })
    } else {
        Ok(record_of(b))
    }
}

fn read_u16(b: &[u8], at: usize) -> (r: u16)
    requires
        at + 2 <= b@.len(),
    ensures
        r == le16(b@, at as int),
{
    b[at] as u16 + (b[at + 1] as u16) * 256
}

fn read_u32(b: &[u8], at: usize) -> (r: u32)
    requires
        at + 4 <= b@.len() <= usize::MAX,
    ensures
        r == le32(b@, at as int),
{
    let lo = read_u16(b, at);
    let hi = read_u16(b, at + 2);
    lo as u32 + (hi as u32) * 65536
}

fn read_u64(b: &[u8], at: usize) -> (r: u64)
    requires
        at + 8 <= b@.len() <= usize::MAX,
    ensures
        r == le64(b@, at as int),
{
    let lo = read_u32(b, at);
    let hi = read_u32(b, at + 4);
    lo as u64 + (hi as u64) * 4294967296
}

impl RawEventRecord {
    /// Decodes one record field by field; any length but `RECORD_SIZE` is a
    /// `FormatError`, since a partial record would misalign all that follow.
    pub fn decode(bytes: &[u8]) -> (r: Result<RawEventRecord, FormatError>)
        ensures
            r == decode_record_spec(bytes@),
    {
        if bytes.len() != RECORD_SIZE {
            return Err(FormatError { expected: RECORD_SIZE, found: bytes.len() });
        }
        let tv_sec = read_u64(bytes, 0);
        let tv_usec = read_u64(bytes, 8);
        let ev_type = read_u16(bytes, 16);
        let code = read_u16(bytes, 18);
        let value = read_u32(bytes, 20) as i32;
        Ok(RawEventRecord { tv_sec, tv_usec, ev_type, code, value })
    }
}

} // verus!
