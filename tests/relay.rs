use controller_relay::relay::{InputFormat, OutputMode, Relay, RelayAction, RelayError, RelayEvent};
use controller_relay::tracker::ControllerStateTracker;

fn expect_write(a: RelayAction) -> (usize, Vec<u8>) {
    match a {
        RelayAction::Write { sink, bytes } => (sink, bytes),
        other => panic!("expected a write, got {:?}", other),
    }
}

#[test]
fn update_is_written_to_every_sink_in_order() {
    let mut r = Relay::new(InputFormat::Wide, OutputMode::Narrow, 3);
    let (sink, bytes) = expect_write(r.step(RelayEvent::Chunk(vec![0xFF, 0x00, 0x01, 0xFF])));
    assert_eq!((sink, bytes.clone()), (0, vec![25, 0xE7]));
    let (sink, b1) = expect_write(r.step(RelayEvent::Written));
    assert_eq!((sink, &b1), (1, &bytes));
    let (sink, b2) = expect_write(r.step(RelayEvent::Written));
    assert_eq!((sink, &b2), (2, &bytes));
    assert!(matches!(r.step(RelayEvent::Written), RelayAction::Read));
    assert!(!r.is_stopped());
}

#[test]
fn failed_write_on_second_of_two_sinks_stops_the_loop() {
    let mut r = Relay::new(InputFormat::Wide, OutputMode::Wide, 2);
    let mut delivered: Vec<Vec<u8>> = vec![Vec::new(), Vec::new()];
    // first update reaches both sinks
    let (s, b) = expect_write(r.step(RelayEvent::Chunk(vec![1, 0, 2, 0])));
    delivered[s] = b;
    let (s, b) = expect_write(r.step(RelayEvent::Written));
    delivered[s] = b;
    assert!(matches!(r.step(RelayEvent::Written), RelayAction::Read));
    // second update: sink 0 takes it, sink 1 fails
    let (s, b) = expect_write(r.step(RelayEvent::Chunk(vec![3, 0, 4, 0])));
    assert_eq!(s, 0);
    delivered[s] = b;
    let (s, _) = expect_write(r.step(RelayEvent::Written));
    assert_eq!(s, 1);
    let stop = r.step(RelayEvent::WriteFailed);
    assert!(matches!(stop, RelayAction::Stop(RelayError::WriteFailed { sink: 1 })));
    assert!(r.is_stopped());
    // nothing more is attempted
    assert!(matches!(r.step(RelayEvent::Chunk(vec![5, 0, 6, 0])), RelayAction::Stop(RelayError::WriteFailed { sink: 1 })));
    assert!(matches!(r.step(RelayEvent::Written), RelayAction::Stop(_)));
    assert_eq!(delivered[0], vec![3, 0, 4, 0]);
    assert_eq!(delivered[1], vec![1, 0, 2, 0]);
}

#[test]
fn short_read_stops_the_loop() {
    let mut r = Relay::new(InputFormat::Wide, OutputMode::Text, 1);
    let a = r.step(RelayEvent::Chunk(vec![1, 2, 3]));
    assert!(matches!(a, RelayAction::Stop(RelayError::ShortRead { expected: 4, found: 3 })));
    assert!(r.is_stopped());
    assert!(matches!(r.step(RelayEvent::Chunk(vec![1, 2, 3, 4])), RelayAction::Stop(RelayError::ShortRead { expected: 4, found: 3 })));
}

#[test]
fn text_mode_writes_a_line() {
    let mut r = Relay::new(InputFormat::Wide, OutputMode::Text, 1);
    let (_, b) = expect_write(r.step(RelayEvent::Chunk(vec![0xFF, 0x00, 0x00, 0x00])));
    assert_eq!(b, b"ControllerState { left_thumb: 255, right_thumb: 0 }\n".to_vec());
}

#[test]
fn out_of_turn_events_repeat_the_pending_action() {
    let mut r = Relay::new(InputFormat::Wide, OutputMode::Wide, 2);
    assert!(matches!(r.step(RelayEvent::Written), RelayAction::Read));
    assert!(matches!(r.step(RelayEvent::WriteFailed), RelayAction::Read));
    let (s, b) = expect_write(r.step(RelayEvent::Chunk(vec![1, 0, 0, 0])));
    let (s2, b2) = expect_write(r.step(RelayEvent::Chunk(vec![9, 9, 9, 9])));
    assert_eq!((s, b), (s2, b2));
}

fn record_bytes(ev_type: u16, code: u16, value: i32) -> Vec<u8> {
    let mut b = Vec::new();
    b.extend_from_slice(&1u64.to_le_bytes());
    b.extend_from_slice(&2u64.to_le_bytes());
    b.extend_from_slice(&ev_type.to_le_bytes());
    b.extend_from_slice(&code.to_le_bytes());
    b.extend_from_slice(&value.to_le_bytes());
    b
}

#[test]
fn raw_input_goes_through_the_tracker() {
    let mut r = Relay::new(InputFormat::RawEvents(ControllerStateTracker::new()), OutputMode::Wide, 2);
    assert_eq!(r.chunk_size(), 24);
    // a record of another axis touches no sink
    assert!(matches!(r.step(RelayEvent::Chunk(record_bytes(3, 0, 32767))), RelayAction::Read));
    // a synchronisation event touches no sink
    assert!(matches!(r.step(RelayEvent::Chunk(record_bytes(0, 0, 0))), RelayAction::Read));
    let (s, b) = expect_write(r.step(RelayEvent::Chunk(record_bytes(3, 1, 32767))));
    assert_eq!((s, b), (0, vec![0xFF, 0x00, 0x00, 0x00]));
    let (s, _) = expect_write(r.step(RelayEvent::Written));
    assert_eq!(s, 1);
    assert!(matches!(r.step(RelayEvent::Written), RelayAction::Read));
    // the same value again gives no update
    assert!(matches!(r.step(RelayEvent::Chunk(record_bytes(3, 1, 32767))), RelayAction::Read));
    match &r.input {
        InputFormat::RawEvents(t) => assert_eq!(t.state.left_thumb, 255),
        InputFormat::Wide => panic!("input format changed"),
    }
}

#[test]
fn short_raw_record_stops_the_loop() {
    let mut r = Relay::new(InputFormat::RawEvents(ControllerStateTracker::new()), OutputMode::Narrow, 1);
    let a = r.step(RelayEvent::Chunk(vec![0u8; 4]));
    assert!(matches!(a, RelayAction::Stop(RelayError::ShortRead { expected: 24, found: 4 })));
}

#[test]
fn wide_input_reads_four_byte_chunks() {
    assert_eq!(Relay::new(InputFormat::Wide, OutputMode::Wide, 1).chunk_size(), 4);
}
