use vstd::prelude::*;

verus! {

/// Size in bytes of the wide encoding of a `ControllerState`.
pub const WIDE_SIZE: usize = 4;

/// Size in bytes of the narrow encoding of an `ArduinoControllerState`.
pub const NARROW_SIZE: usize = 2;

/// Factor applied to an axis before the narrowing division.
pub const NARROW_SCALE: i32 = 128;

/// Calibration constant of the narrowing conversion: an axis value `v`
/// becomes `v * 128 / 1256` (truncated toward zero).
pub const NARROW_DIVISOR: i16 = 1256;

/// Quotient of `a / b` rounded toward zero, as Rust's `/` computes it (`b > 0`).
pub open spec fn trunc_div(a: int, b: int) -> int {
    if a >= 0 {
        a / b
    } else {
        -((-a) / b)
    }
}

/// Full-precision state of the two thumbsticks.
#[derive(Debug, Clone, Copy, PartialEq, Eq, Structural)]
pub struct ControllerState {
    pub left_thumb: i16,
    pub right_thumb: i16,
}

/// Reduced-precision state for constrained receivers.
#[derive(Debug, Clone, Copy, PartialEq, Eq, Structural)]
pub struct ArduinoControllerState {
    pub left_thumb: i8,
    pub right_thumb: i8,
}

/// Error for a byte buffer whose length is not the one a record needs.
#[derive(Debug, Clone, Copy, PartialEq, Eq, Structural)]
pub struct FormatError {
    pub expected: usize,
    pub found: usize,
}

impl Default for ControllerState {
    fn default() -> (r: ControllerState)
        ensures
            r == (ControllerState { left_thumb: 0, right_thumb: 0 }),
    {
        ControllerState { left_thumb: 0, right_thumb: 0 }
    }
}

impl Default for ArduinoControllerState {
    fn default() -> (r: ArduinoControllerState)
        ensures
            r == (ArduinoControllerState { left_thumb: 0, right_thumb: 0 }),
    {
        ArduinoControllerState { left_thumb: 0, right_thumb: 0 }
    }
}

/// Narrowing of one axis: `v * 128 / divisor` toward zero; 0 where the
/// product leaves the `i16` range or the quotient leaves the `i8` range.
pub open spec fn narrow_axis_spec(v: i16, divisor: i16) -> i8 {
    let m = v * NARROW_SCALE;
    if m < i16::MIN || m > i16::MAX {
        0
    } else {
        let q = trunc_div(m, divisor as int);
        if q < i8::MIN || q > i8::MAX {
            0
        } else {
            q as i8
        }
    }
}

pub open spec fn narrow_spec(s: ControllerState, divisor: i16) -> ArduinoControllerState {
    ArduinoControllerState {
        left_thumb: narrow_axis_spec(s.left_thumb, divisor),
        right_thumb: narrow_axis_spec(s.right_thumb, divisor),
    }
}

/// Narrows one axis value with the given calibration divisor.
pub fn narrow_axis(v: i16, divisor: i16) -> (r: i8)
    requires
        divisor > 0,
    ensures
        r == narrow_axis_spec(v, divisor),
        i8::MIN <= r <= i8::MAX,
{
    let m: i32 = v as i32 * NARROW_SCALE;
    if m < i16::MIN as i32 || m > i16::MAX as i32 {
        return 0;
    }
    let d: i32 = divisor as i32;
    let q: i32 = if m >= 0 {
        m / d
    } else {
        -((-m) / d)
    };
    if q < i8::MIN as i32 || q > i8::MAX as i32 {
        0
    } else {
        q as i8
    }
}

impl ArduinoControllerState {
    /// Narrows both axes with the calibration constant `NARROW_DIVISOR`.
    pub fn from_controller_state(state: &ControllerState) -> (r: ArduinoControllerState)
        ensures
            r == narrow_spec(*state, NARROW_DIVISOR),
            i8::MIN <= r.left_thumb <= i8::MAX,
            i8::MIN <= r.right_thumb <= i8::MAX,
    {
        Self::from_controller_state_with(state, NARROW_DIVISOR)
    }

    /// Narrows both axes with a given calibration divisor.
    pub fn from_controller_state_with(state: &ControllerState, divisor: i16) -> (r:
        ArduinoControllerState)
        requires
            divisor > 0,
        ensures
            r == narrow_spec(*state, divisor),
    {
        ArduinoControllerState {
            left_thumb: narrow_axis(state.left_thumb, divisor),
            right_thumb: narrow_axis(state.right_thumb, divisor),
        }
    }
}

/// Little-endian bytes of an `i16`: low byte first.
pub open spec fn i16_le(v: i16) -> Seq<u8> {
    seq![v as u8, (v >> 8u16) as u8]
}

/// The `i16` whose little-endian bytes are `lo`, `hi`.
pub open spec fn i16_from_le(lo: u8, hi: u8) -> i16 {
    ((lo as u16) | ((hi as u16) << 8u16)) as i16
}

/// Wide encoding: `left_thumb` then `right_thumb`, each as two little-endian bytes.
pub open spec fn encode_wide_spec(s: ControllerState) -> Seq<u8> {
    i16_le(s.left_thumb) + i16_le(s.right_thumb)
}

/// Decoding of the wide encoding; fails unless exactly four bytes are given.
pub open spec fn decode_wide_spec(b: Seq<u8>) -> Result<ControllerState, FormatError> {
    if b.len() != WIDE_SIZE {
        Err(FormatError { expected: WIDE_SIZE, found: b.len() as usize })
    } else {
        Ok(
            ControllerState {
                left_thumb: i16_from_le(b[0], b[1]),
                right_thumb: i16_from_le(b[2], b[3]),
            },
        )
    }
}

/// Narrow encoding: the two `i8` fields as bytes, `left_thumb` first.
pub open spec fn encode_narrow_spec(s: ArduinoControllerState) -> Seq<u8> {
    seq![s.left_thumb as u8, s.right_thumb as u8]
}

proof fn lemma_i16_le_round_trip(v: i16)
    ensures
        i16_from_le(i16_le(v)[0], i16_le(v)[1]) == v,
{
    assert((((v as u8) as u16) | ((((v >> 8u16) as u8) as u16) << 8u16)) as i16 == v)
        by (bit_vector);
}

/// Decoding the wide encoding of any state gives that state back.
pub proof fn lemma_wide_round_trip(s: ControllerState)
    ensures
        decode_wide_spec(encode_wide_spec(s)) == Ok::<ControllerState, FormatError>(s),
{
    lemma_i16_le_round_trip(s.left_thumb);
    lemma_i16_le_round_trip(s.right_thumb);
    let b = encode_wide_spec(s);
    assert(b[0] == i16_le(s.left_thumb)[0]);
    assert(b[1] == i16_le(s.left_thumb)[1]);
    assert(b[2] == i16_le(s.right_thumb)[0]);
    assert(b[3] == i16_le(s.right_thumb)[1]);
}

fn push_i16_le(out: &mut Vec<u8>, v: i16)
    ensures
        final(out)@ == old(out)@ + i16_le(v),
{
    out.push(v as u8);
    out.push((v >> 8u16) as u8);
    assert(final(out)@ =~= old(out)@ + i16_le(v));
}

fn i16_from_bytes(lo: u8, hi: u8) -> (r: i16)
    ensures
        r == i16_from_le(lo, hi),
{
    ((lo as u16) | ((hi as u16) << 8u16)) as i16
}

impl ControllerState {
    /// Wide encoding of this state (four bytes).
    pub fn encode_wide(&self) -> (r: Vec<u8>)
        ensures
            r@ == encode_wide_spec(*self),
            r@.len() == WIDE_SIZE,
    {
        let mut out: Vec<u8> = Vec::new();
        push_i16_le(&mut out, self.left_thumb);
        push_i16_le(&mut out, self.right_thumb);
        out
    }

    /// Reads a state from its wide encoding; any length but four is a `FormatError`.
    pub fn decode_wide(bytes: &[u8]) -> (r: Result<ControllerState, FormatError>)
        ensures
            r == decode_wide_spec(bytes@),
    {
        if bytes.len() != WIDE_SIZE {
            return Err(FormatError { expected: WIDE_SIZE, found: bytes.len() });
        }
        Ok(ControllerState {
            left_thumb: i16_from_bytes(bytes[0], bytes[1]),
            right_thumb: i16_from_bytes(bytes[2], bytes[3]),
        })
    }
}

impl ArduinoControllerState {
    /// Narrow encoding of this state (two bytes).
    pub fn encode_narrow(&self) -> (r: Vec<u8>)
        ensures
            r@ == encode_narrow_spec(*self),
            r@.len() == NARROW_SIZE,
    {
        let mut out: Vec<u8> = Vec::new();
        out.push(self.left_thumb as u8);
        out.push(self.right_thumb as u8);
        assert(out@ =~= encode_narrow_spec(*self));
        out
    }
}

} // verus!
