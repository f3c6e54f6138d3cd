//! Tests of the per-tick input window and its redundant wire message.

use lightyear::input::{message_length, InputManager};
use lightyear::input_buffer::{InputBuffer, InputData, InputMessage};
use lightyear::tick::Tick;

fn filled_buffer(pairs: &[(u16, u16)]) -> InputBuffer<u16> {
    let mut buffer: InputBuffer<u16> = InputBuffer::default();
    for &(tick, value) in pairs {
        buffer.set(Tick(tick), Some(value));
    }
    buffer
}

#[test]
fn set_then_get_round_trip() {
    let mut buffer: InputBuffer<u16> = InputBuffer::default();
    buffer.set(Tick(5), Some(7));
    assert_eq!(buffer.get(Tick(5)), Some(7));
    assert_eq!(buffer.get(Tick(4)), None);
    assert_eq!(buffer.get(Tick(6)), None);
    buffer.set(Tick(8), Some(9));
    assert_eq!(buffer.get(Tick(6)), None);
    assert_eq!(buffer.get(Tick(7)), None);
    assert_eq!(buffer.get(Tick(8)), Some(9));
    // overwrite inside the window
    buffer.set(Tick(6), Some(1));
    assert_eq!(buffer.get(Tick(6)), Some(1));
    // a write before the window start is ignored
    buffer.set(Tick(4), Some(2));
    assert_eq!(buffer.get(Tick(4)), None);
    assert_eq!(buffer.get(Tick(5)), Some(7));
}

#[test]
fn write_order_independence() {
    // writes at two distinct retained ticks commute, whatever the order
    let base: Vec<(u16, u16)> = vec![(100, 1), (101, 2), (102, 3), (103, 4)];
    let mut one = filled_buffer(&base);
    let mut two = filled_buffer(&base);
    one.set(Tick(101), Some(50));
    one.set(Tick(103), Some(60));
    two.set(Tick(103), Some(60));
    two.set(Tick(101), Some(50));
    for t in 98..106u16 {
        assert_eq!(one.get(Tick(t)), two.get(Tick(t)));
    }
    assert_eq!(one.get(Tick(101)), Some(50));
    assert_eq!(one.get(Tick(103)), Some(60));
}

#[test]
fn window_wraps_around_tick_circle() {
    let mut buffer: InputBuffer<u16> = InputBuffer::default();
    buffer.set(Tick(65534), Some(10));
    buffer.set(Tick(0), Some(11));
    buffer.set(Tick(1), Some(12));
    assert_eq!(buffer.get(Tick(65534)), Some(10));
    assert_eq!(buffer.get(Tick(65535)), None);
    assert_eq!(buffer.get(Tick(0)), Some(11));
    assert_eq!(buffer.get(Tick(1)), Some(12));
    let message = buffer.create_message(Tick(1), 4);
    assert_eq!(
        message.decode(),
        vec![Some(10), None, Some(11), Some(12)]
    );
}

#[test]
fn message_round_trip_with_absent_runs() {
    let mut buffer: InputBuffer<u16> = InputBuffer::default();
    buffer.set(Tick(10), Some(1));
    buffer.set(Tick(14), Some(1));
    // window [9, 14]: absent, 1, absent, absent, absent, 1
    let message = buffer.create_message(Tick(14), 6);
    assert_eq!(message.end_tick, Tick(14));
    assert_eq!(
        message.inputs,
        vec![
            InputData::Absent,
            InputData::Input(1),
            InputData::Absent,
            InputData::SameAsPrecedent,
            InputData::SameAsPrecedent,
            InputData::Input(1),
        ]
    );
    assert_eq!(
        message.decode(),
        vec![None, Some(1), None, None, None, Some(1)]
    );
    assert!(!message.is_empty());
}

#[test]
fn message_encodes_equal_run_as_markers() {
    let mut buffer: InputBuffer<u16> = InputBuffer::default();
    buffer.set(Tick(20), Some(5));
    buffer.set(Tick(21), Some(5));
    buffer.set(Tick(22), Some(5));
    let message = buffer.create_message(Tick(22), 3);
    assert_eq!(
        message.inputs,
        vec![
            InputData::Input(5),
            InputData::SameAsPrecedent,
            InputData::SameAsPrecedent,
        ]
    );
    assert_eq!(message.decode(), vec![Some(5), Some(5), Some(5)]);
}

#[test]
fn all_absent_message_is_empty() {
    let buffer: InputBuffer<u16> = InputBuffer::default();
    let message = buffer.create_message(Tick(5), 4);
    assert!(message.is_empty());
    assert_eq!(message.decode(), vec![None, None, None, None]);
    // decoding an explicit marker-only message gives absent throughout
    let handmade: InputMessage<u16> = InputMessage {
        end_tick: Tick(9),
        inputs: vec![InputData::SameAsPrecedent, InputData::SameAsPrecedent],
    };
    assert!(handmade.is_empty());
    assert_eq!(handmade.decode(), vec![None, None]);
}

#[test]
fn pop_drains_up_to_tick() {
    let mut buffer = filled_buffer(&[(10, 1), (11, 2), (12, 3), (13, 4)]);
    // before the window start: nothing happens
    assert_eq!(buffer.pop(Tick(9)), None);
    assert_eq!(buffer.get(Tick(10)), Some(1));
    // inside the window: returns the entry, drops everything at or before
    assert_eq!(buffer.pop(Tick(11)), Some(2));
    assert_eq!(buffer.get(Tick(10)), None);
    assert_eq!(buffer.get(Tick(11)), None);
    assert_eq!(buffer.get(Tick(12)), Some(3));
    assert_eq!(buffer.start_tick, Some(Tick(12)));
    // past the window end: clears everything
    assert_eq!(buffer.pop(Tick(20)), None);
    assert_eq!(buffer.get(Tick(12)), None);
    assert_eq!(buffer.start_tick, Some(Tick(21)));
}

#[test]
fn message_length_follows_redundancy_policy() {
    assert_eq!(message_length(3, 2), 9);
    assert_eq!(message_length(1, 0), 1);
    assert_eq!(message_length(1, 10), 11);
    assert_eq!(message_length(5, 3), 20);
}

#[test]
fn dropped_messages_are_covered_by_the_next() {
    // send interval of 3 ticks, redundancy 2: each message covers 9 ticks
    let mut buffer: InputBuffer<u16> = InputBuffer::default();
    for t in 0..=18u16 {
        buffer.set(Tick(t), Some(t * 10));
    }
    let len = message_length(3, 2);
    // the server last received the message ending at tick 9; the messages
    // ending at 12 and 15 are lost; the one ending at 18 arrives
    let delivered = buffer.create_message(Tick(18), len);
    let window = delivered.decode();
    // it still covers every tick after 9; the window holds ticks [10, 18]
    for t in 10..=18u16 {
        assert_eq!(window[(t - 10) as usize], Some(t * 10));
    }
    assert_eq!(window.len(), 9);
}

#[test]
fn rebase_shifts_window_with_ticks() {
    let mut manager: InputManager<u16> = InputManager::default();
    manager.add_input(1, Tick(100));
    manager.add_input(2, Tick(101));
    manager.add_input(3, Tick(102));
    assert_eq!(manager.input_buffer.start_tick, Some(Tick(100)));
    // the local tick source was rebased from 100 to 105: a delta of +5
    manager.receive_tick_event(Tick(100), Tick(105));
    assert_eq!(manager.input_buffer.start_tick, Some(Tick(105)));
    assert_eq!(manager.get_input(Tick(105)), Some(1));
    assert_eq!(manager.get_input(Tick(106)), Some(2));
    assert_eq!(manager.get_input(Tick(107)), Some(3));
    assert_eq!(manager.get_input(Tick(100)), None);
}

#[test]
fn prepare_input_message_builds_and_evicts() {
    let mut manager: InputManager<u16> = InputManager::default();
    manager.add_input(7, Tick(30));
    manager.add_input(8, Tick(31));
    manager.add_input(9, Tick(32));
    let message = manager
        .prepare_input_message(Tick(32), 1, 2, Tick(30))
        .expect("a window with inputs is sent");
    assert_eq!(message.end_tick, Tick(32));
    assert_eq!(message.decode(), vec![Some(7), Some(8), Some(9)]);
    // entries up to the interpolation cursor tick are gone, later ones stay
    assert_eq!(manager.get_input(Tick(30)), None);
    assert_eq!(manager.get_input(Tick(31)), Some(8));
    assert_eq!(manager.get_input(Tick(32)), Some(9));
}

#[test]
fn prepare_input_message_skips_empty_window() {
    let mut manager: InputManager<u16> = InputManager::default();
    let message = manager.prepare_input_message(Tick(10), 2, 1, Tick(5));
    assert!(message.is_none());
}
