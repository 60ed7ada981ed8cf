use controller_relay::controller_state::ControllerState;
use controller_relay::event::{RawEventRecord, RECORD_SIZE};
use controller_relay::tracker::{ControllerStateTracker, ABS_LEFT, ABS_RIGHT, DEFAULT_DEAD_ZONE, EV_ABS};

fn record(ev_type: u16, code: u16, value: i32) -> RawEventRecord {
    RawEventRecord { tv_sec: 7, tv_usec: 9, ev_type, code, value }
}

fn record_bytes(tv_sec: u64, tv_usec: u64, ev_type: u16, code: u16, value: i32) -> Vec<u8> {
    let mut b = Vec::new();
    b.extend_from_slice(&tv_sec.to_le_bytes());
    b.extend_from_slice(&tv_usec.to_le_bytes());
    b.extend_from_slice(&ev_type.to_le_bytes());
    b.extend_from_slice(&code.to_le_bytes());
    b.extend_from_slice(&value.to_le_bytes());
    b
}

#[test]
fn new_tracker_starts_at_zero_with_default_dead_zone() {
    let t = ControllerStateTracker::new();
    assert_eq!(t.state, ControllerState { left_thumb: 0, right_thumb: 0 });
    assert_eq!(t.dead_zone, DEFAULT_DEAD_ZONE);
    assert_eq!(DEFAULT_DEAD_ZONE, 25);
}

#[test]
fn full_left_deflection_then_repeat_gives_no_update() {
    let mut t = ControllerStateTracker::new();
    let r = record(EV_ABS, ABS_LEFT, 32767);
    assert_eq!(t.apply(&r), Some(ControllerState { left_thumb: 255, right_thumb: 0 }));
    assert_eq!(t.state.left_thumb, 255);
    assert_eq!(t.apply(&r), None);
    assert_eq!(t.state.left_thumb, 255);
}

#[test]
fn zero_on_zero_axis_gives_no_update() {
    let mut t = ControllerStateTracker::new();
    assert_eq!(t.apply(&record(EV_ABS, ABS_LEFT, 0)), None);
    assert_eq!(t.state, ControllerState { left_thumb: 0, right_thumb: 0 });
}

#[test]
fn foreign_codes_and_types_leave_state_unchanged() {
    let mut t = ControllerStateTracker::new();
    t.apply(&record(EV_ABS, ABS_RIGHT, -32767));
    let before = t.state;
    for code in [0u16, 2, 3, 5, 16, 17, 304] {
        assert_eq!(t.apply(&record(EV_ABS, code, 32767)), None);
    }
    for ev_type in [0u16, 1, 2, 4] {
        assert_eq!(t.apply(&record(ev_type, ABS_LEFT, 32767)), None);
        assert_eq!(t.apply(&record(ev_type, ABS_RIGHT, 32767)), None);
    }
    assert_eq!(t.state, before);
}

#[test]
fn right_axis_updates_independently() {
    let mut t = ControllerStateTracker::new();
    assert_eq!(t.apply(&record(EV_ABS, ABS_LEFT, 16384)), Some(ControllerState { left_thumb: 127, right_thumb: 0 }));
    assert_eq!(t.apply(&record(EV_ABS, ABS_RIGHT, -32768)), Some(ControllerState { left_thumb: 127, right_thumb: -255 }));
    assert_eq!(t.apply(&record(EV_ABS, ABS_RIGHT, -32767)), None);
}

#[test]
fn dead_zone_forces_small_values_to_zero_either_sign() {
    let mut t = ControllerStateTracker::new();
    t.apply(&record(EV_ABS, ABS_LEFT, 20000));
    assert_eq!(t.state.left_thumb, 155);
    // 3200 * 255 / 32767 = 24, inside the dead zone
    assert_eq!(t.apply(&record(EV_ABS, ABS_LEFT, 3200)), Some(ControllerState { left_thumb: 0, right_thumb: 0 }));
    t.apply(&record(EV_ABS, ABS_LEFT, 20000));
    assert_eq!(t.apply(&record(EV_ABS, ABS_LEFT, -3200)), Some(ControllerState { left_thumb: 0, right_thumb: 0 }));
    // 3213 * 255 / 32767 = 25, the boundary is outside the dead zone
    assert_eq!(t.apply(&record(EV_ABS, ABS_LEFT, 3213)), Some(ControllerState { left_thumb: 25, right_thumb: 0 }));
    assert_eq!(t.apply(&record(EV_ABS, ABS_LEFT, -3213)), Some(ControllerState { left_thumb: -25, right_thumb: 0 }));
}

#[test]
fn oscillation_across_dead_zone_emits_every_crossing() {
    let mut t = ControllerStateTracker::new();
    for _ in 0..3 {
        assert!(t.apply(&record(EV_ABS, ABS_LEFT, 3213)).is_some());
        assert!(t.apply(&record(EV_ABS, ABS_LEFT, 3200)).is_some());
    }
}

#[test]
fn custom_dead_zone_is_used() {
    let mut t = ControllerStateTracker::with_dead_zone(0);
    assert_eq!(t.apply(&record(EV_ABS, ABS_LEFT, 200)), Some(ControllerState { left_thumb: 1, right_thumb: 0 }));
    let mut t = ControllerStateTracker::with_dead_zone(200);
    assert_eq!(t.apply(&record(EV_ABS, ABS_LEFT, 20000)), None);
}

#[test]
fn unrepresentable_rescale_is_a_no_op() {
    let mut t = ControllerStateTracker::new();
    // the product with 255 leaves the i32 range
    assert_eq!(t.apply(&record(EV_ABS, ABS_LEFT, i32::MAX)), None);
    assert_eq!(t.apply(&record(EV_ABS, ABS_LEFT, i32::MIN)), None);
    // the quotient leaves the i16 range: 8421000 * 255 / 32767 = 65534
    assert_eq!(t.apply(&record(EV_ABS, ABS_LEFT, 8421000)), None);
    // the largest value whose rescale fits
    assert_eq!(t.apply(&record(EV_ABS, ABS_LEFT, 4210623)), Some(ControllerState { left_thumb: 32767, right_thumb: 0 }));
    assert_eq!(t.apply(&record(EV_ABS, ABS_RIGHT, 4210624)), None);
    assert_eq!(t.state.right_thumb, 0);
}

#[test]
fn decode_reads_fields_little_endian() {
    let b = record_bytes(0x0102030405060708, 42, 3, 4, -1234567);
    assert_eq!(b.len(), RECORD_SIZE);
    let r = RawEventRecord::decode(&b).unwrap();
    assert_eq!(r, RawEventRecord { tv_sec: 0x0102030405060708, tv_usec: 42, ev_type: 3, code: 4, value: -1234567 });
}

#[test]
fn decode_rejects_wrong_lengths() {
    let b = record_bytes(1, 2, 3, 1, 5);
    let e = RawEventRecord::decode(&b[..23]).unwrap_err();
    assert_eq!((e.expected, e.found), (24, 23));
    let mut long = b.clone();
    long.push(0);
    assert_eq!(RawEventRecord::decode(&long).unwrap_err().found, 25);
    assert_eq!(RawEventRecord::decode(&[]).unwrap_err().found, 0);
}

#[test]
fn feed_decodes_and_applies() {
    let mut t = ControllerStateTracker::new();
    assert_eq!(t.feed(&record_bytes(1, 2, 3, 4, 32767)), Ok(Some(ControllerState { left_thumb: 0, right_thumb: 255 })));
    assert_eq!(t.feed(&record_bytes(1, 3, 3, 4, 32767)), Ok(None));
    assert_eq!(t.feed(&record_bytes(1, 3, 3, 0, 32767)), Ok(None));
    let short = t.feed(&[0u8; 10]);
    assert_eq!(short.unwrap_err().found, 10);
    assert_eq!(t.state, ControllerState { left_thumb: 0, right_thumb: 255 });
}
