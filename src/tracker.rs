use vstd::prelude::*;
use crate::controller_state::{trunc_div, ControllerState, FormatError};
use crate::event::{decode_record_spec, RawEventRecord};

verus! {

/// Event type of an absolute-axis motion.
pub const EV_ABS: u16 = 3;

/// Axis code of the left thumbstick.
pub const ABS_LEFT: u16 = 1;

/// Axis code of the right thumbstick.
pub const ABS_RIGHT: u16 = 4;

/// Dead-zone threshold used unless another is configured.
pub const DEFAULT_DEAD_ZONE: i16 = 25;

/// Largest magnitude of the source's native axis range.
pub const SOURCE_MAX: i32 = 32767;

/// Largest magnitude of the rescaled axis range.
pub const TARGET_MAX: i32 = 255;

/// A record moves one of the two thumbstick axes.
pub open spec fn is_axis_motion(r: RawEventRecord) -> bool {
    r.ev_type == EV_ABS && (r.code == ABS_LEFT || r.code == ABS_RIGHT)
}

/// `value * 255 / 32767` toward zero; `None` where the product leaves the
/// `i32` range or the quotient leaves the `i16` range.
pub open spec fn rescale(value: i32) -> Option<i16> {
    let m = value * TARGET_MAX;
    if m < i32::MIN || m > i32::MAX {
        None
    } else {
        let q = trunc_div(m, SOURCE_MAX as int);
        if q < i16::MIN || q > i16::MAX {
            None
        } else {
            Some(q as i16)
        }
    }
}

/// A value strictly inside `(-dead_zone, dead_zone)` becomes 0.
pub open spec fn apply_dead_zone(v: i16, dead_zone: i16) -> i16 {
    if -dead_zone < v && v < dead_zone {
        0
    } else {
        v
    }
}

/// The axis value a raw value stands for, after rescaling and the dead zone.
pub open spec fn reading(value: i32, dead_zone: i16) -> Option<i16> {
    match rescale(value) {
        Some(v) => Some(apply_dead_zone(v, dead_zone)),
        None => None,
    }
}

/// The stored value of the axis that `code` names.
pub open spec fn axis_value(s: ControllerState, code: u16) -> i16 {
    if code == ABS_LEFT {
        s.left_thumb
    } else {
        s.right_thumb
    }
}

/// `s` with the axis that `code` names set to `v`.
pub open spec fn with_axis(s: ControllerState, code: u16, v: i16) -> ControllerState {
    if code == ABS_LEFT {
        ControllerState { left_thumb: v, ..s }
    } else {
        ControllerState { right_thumb: v, ..s }
    }
}

/// The update that a record causes on state `s`: the new state where an axis
/// value changes, `None` where the record is filtered out or changes nothing.
pub open spec fn next_state(s: ControllerState, r: RawEventRecord, dead_zone: i16) -> Option<
    ControllerState,
> {
    if !is_axis_motion(r) {
        None
    } else {
        match reading(r.value, dead_zone) {
            None => None,
            Some(v) => if axis_value(s, r.code) == v {
                None
            } else {
                Some(with_axis(s, r.code, v))
            },
        }
    }
}

/// The state after a record has been applied to `s`.
pub open spec fn state_after(
    s: ControllerState,
    r: RawEventRecord,
    dead_zone: i16,
) -> ControllerState {
    match next_state(s, r, dead_zone) {
        Some(n) => n,
        None => s,
    }
}

/// The state after a sequence of records, applied in order.
pub open spec fn run(s: ControllerState, rs: Seq<RawEventRecord>, dead_zone: i16) -> ControllerState
    decreases rs.len(),
{
    if rs.len() == 0 {
        s
    } else {
        run(state_after(s, rs[0], dead_zone), rs.drop_first(), dead_zone)
    }
}

/// The updates emitted while a sequence of records is applied, in order.
pub open spec fn emitted(s: ControllerState, rs: Seq<RawEventRecord>, dead_zone: i16) -> Seq<
    ControllerState,
>
    decreases rs.len(),
{
    if rs.len() == 0 {
        Seq::empty()
    } else {
        let head = match next_state(s, rs[0], dead_zone) {
            Some(n) => seq![n],
            None => Seq::empty(),
        };
        head + emitted(state_after(s, rs[0], dead_zone), rs.drop_first(), dead_zone)
    }
}

/// A record that is filtered out, or whose reading equals the stored value.
pub open spec fn repeats_stored(s: ControllerState, r: RawEventRecord, dead_zone: i16) -> bool {
    is_axis_motion(r) ==> match reading(r.value, dead_zone) {
        None => true,
        Some(v) => v == axis_value(s, r.code),
    }
}

/// A record that is not an axis motion of a known axis emits nothing and
/// leaves the state as it was.
pub proof fn lemma_foreign_record_ignored(s: ControllerState, r: RawEventRecord, dead_zone: i16)
    requires
        !is_axis_motion(r),
    ensures
        next_state(s, r, dead_zone) is None,
        state_after(s, r, dead_zone) == s,
{
}

/// A sequence of records each of which repeats the stored value (or is
/// filtered out) emits no update and leaves the state as it was.
pub proof fn lemma_repeats_emit_nothing(s: ControllerState, rs: Seq<RawEventRecord>, dead_zone: i16)
    requires
        forall|i: int| 0 <= i < rs.len() ==> repeats_stored(s, #[trigger] rs[i], dead_zone),
    ensures
        emitted(s, rs, dead_zone) == Seq::<ControllerState>::empty(),
        run(s, rs, dead_zone) == s,
    decreases rs.len(),
{
    if rs.len() > 0 {
        assert(repeats_stored(s, rs[0], dead_zone));
        assert(next_state(s, rs[0], dead_zone) is None);
        let rest = rs.drop_first();
        assert forall|i: int| 0 <= i < rest.len() implies repeats_stored(
            s,
            #[trigger] rest[i],
            dead_zone,
        ) by {
            assert(rest[i] == rs[i + 1]);
        }
        lemma_repeats_emit_nothing(s, rest, dead_zone);
        assert(emitted(s, rs, dead_zone) =~= Seq::<ControllerState>::empty());
    }
}

/// Applying the same record a second time emits nothing.
pub proof fn lemma_repeat_record_idle(s: ControllerState, r: RawEventRecord, dead_zone: i16)
    ensures
        next_state(state_after(s, r, dead_zone), r, dead_zone) is None,
{
}

/// A raw value whose rescaled magnitude is below the dead zone is stored as 0,
/// whatever its sign.
pub proof fn lemma_dead_zone_zeroes(s: ControllerState, r: RawEventRecord, dead_zone: i16)
    requires
        is_axis_motion(r),
        rescale(r.value) is Some,
        -dead_zone < rescale(r.value)->Some_0 < dead_zone,
    ensures
        axis_value(state_after(s, r, dead_zone), r.code) == 0,
{
}

/// Tracks the two thumbstick axes across a stream of raw records.
#[derive(Debug, Clone, Copy, PartialEq, Eq, Structural)]
pub struct ControllerStateTracker {
    pub state: ControllerState,
    pub dead_zone: i16,
}

fn rescale_value(value: i32) -> (r: Option<i16>)
    ensures
        r == rescale(value),
{
    let m: i64 = value as i64 * TARGET_MAX as i64;
    if m < i32::MIN as i64 || m > i32::MAX as i64 {
        return None;
    }
    let d: i64 = SOURCE_MAX as i64;
    let q: i64 = if m >= 0 {
        m / d
    } else {
        -((-m) / d)
    };
    if q < i16::MIN as i64 || q > i16::MAX as i64 {
        None
    } else {
        Some(q as i16)
    }
}

impl ControllerStateTracker {
    /// A tracker at state (0, 0) with the default dead zone.
    pub fn new() -> (r: ControllerStateTracker)
        ensures
            r.state == (ControllerState { left_thumb: 0, right_thumb: 0 }),
            r.dead_zone == DEFAULT_DEAD_ZONE,
    {
        ControllerStateTracker {
            state: ControllerState { left_thumb: 0, right_thumb: 0 },
            dead_zone: DEFAULT_DEAD_ZONE,
        }
    }

    /// A tracker at state (0, 0) with the given dead zone.
    pub fn with_dead_zone(dead_zone: i16) -> (r: ControllerStateTracker)
        ensures
            r.state == (ControllerState { left_thumb: 0, right_thumb: 0 }),
            r.dead_zone == dead_zone,
    {
        ControllerStateTracker {
            state: ControllerState { left_thumb: 0, right_thumb: 0 },
            dead_zone,
        }
    }

    /// Applies one record: returns the new state where an axis changed, and
    /// `None` where the record was filtered out or repeated the stored value.
    pub fn apply(&mut self, record: &RawEventRecord) -> (r: Option<ControllerState>)
        ensures
            r == next_state(old(self).state, *record, old(self).dead_zone),
            final(self).state == state_after(old(self).state, *record, old(self).dead_zone),
            final(self).dead_zone == old(self).dead_zone,
    {
        if record.ev_type != EV_ABS || (record.code != ABS_LEFT && record.code != ABS_RIGHT) {
            return None;
        }
        let v = match rescale_value(record.value) {
            Some(v) => v,
            None => return None,
        };
        let dz: i32 = self.dead_zone as i32;
        let value: i16 = if -dz < v as i32 && (v as i32) < dz {
            0
        } else {
            v
        };
        if record.code == ABS_LEFT {
            if self.state.left_thumb == value {
                return None;
            }
            self.state.left_thumb = value;
        } else {
            if self.state.right_thumb == value {
                return None;
            }
            self.state.right_thumb = value;
        }
        Some(self.state)
    }

    /// Decodes one raw record and applies it; a buffer of the wrong length is
    /// a `FormatError` and leaves the tracker as it was.
    pub fn feed(&mut self, bytes: &[u8]) -> (r: Result<Option<ControllerState>, FormatError>)
        ensures
            match decode_record_spec(bytes@) {
                Err(e) => {
                    &&& r == Err::<Option<ControllerState>, FormatError>(e)
                    &&& *final(self) == *old(self)
                },
                Ok(rec) => {
                    &&& r == Ok::<Option<ControllerState>, FormatError>(
                        next_state(old(self).state, rec, old(self).dead_zone),
                    )
                    &&& final(self).state == state_after(old(self).state, rec, old(self).dead_zone)
                    &&& final(self).dead_zone == old(self).dead_zone
                },
            },
    {
        match RawEventRecord::decode(bytes) {
            Err(e) => Err(e),
            Ok(rec) => Ok(self.apply(&rec)),
        }
    }
}

} // verus!
