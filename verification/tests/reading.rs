use std::collections::VecDeque;

use cc_switch_tui::input::{
    DrainStep, InputReader, InputReducer, ScrollDirection, UiInput, WheelGestureId,
    DEFAULT_MAX_REDUCED_INPUTS, WHEEL_GESTURE_QUIET,
};
use cc_switch_tui::key::{
    normalize_key_event, Event, KeyCode, KeyEvent, KeyEventKind, KeyModifiers, MouseEventKind,
};

const MILLISECOND: u64 = 1_000_000;
const SECOND: u64 = 1_000_000_000;

fn wheel(direction: ScrollDirection) -> Event {
    match direction {
        ScrollDirection::Up => Event::Mouse(MouseEventKind::ScrollUp),
        ScrollDirection::Down => Event::Mouse(MouseEventKind::ScrollDown),
    }
}

fn key(code: KeyCode) -> Event {
    Event::Key(KeyEvent::new(code, KeyModifiers::none()))
}

fn resize(width: u16, height: u16) -> Event {
    Event::Resize { width, height }
}

fn wheel_parts(input: UiInput) -> (ScrollDirection, u32, WheelGestureId) {
    match input {
        UiInput::Wheel {
            direction,
            steps,
            gesture,
        } => (direction, steps, gesture),
        other => panic!("expected wheel input, got {other:?}"),
    }
}

/// One pass over a queue of events that are there at once.
fn read_batch(reader: &mut InputReader, events: &mut VecDeque<Event>, now: u64) -> Vec<UiInput> {
    let mut step = reader.on_poll(!events.is_empty(), now);
    loop {
        step = match step {
            DrainStep::Read => {
                let event = events.pop_front().expect("an event is available");
                reader.on_event(event, now)
            }
            DrainStep::Probe => reader.on_poll(!events.is_empty(), now),
            DrainStep::Finish => break,
        };
    }
    reader.take_batch()
}

#[test]
fn backlog_cut_by_drain_limit_keeps_one_gesture() {
    let mut source = VecDeque::from([
        wheel(ScrollDirection::Down),
        wheel(ScrollDirection::Down),
        wheel(ScrollDirection::Down),
    ]);
    let mut reader = InputReader::with_limits(2, SECOND);

    let first = read_batch(&mut reader, &mut source, 0);
    let (_, first_steps, first_gesture) = wheel_parts(first[0]);
    assert_eq!(first_steps, 2);
    assert!(reader.reducer.empty_since.is_none());

    let second = read_batch(&mut reader, &mut source, 0);
    let (_, second_steps, second_gesture) = wheel_parts(second[0]);
    assert_eq!(second_steps, 1);
    assert_eq!(first_gesture, second_gesture);
    assert!(reader.reducer.empty_since.is_some());
}

#[test]
fn key_stops_raw_drain_so_later_input_stays_available_for_terminal_handoff() {
    let mut source = VecDeque::from([
        wheel(ScrollDirection::Down),
        key(KeyCode::Char('e')),
        key(KeyCode::Char('x')),
    ]);
    let mut reader = InputReader::with_limits(256, SECOND);

    let first = read_batch(&mut reader, &mut source, 0);
    assert_eq!(first.len(), 2);
    assert!(matches!(first[0], UiInput::Wheel { steps: 1, .. }));
    assert!(matches!(
        first[1],
        UiInput::Key(KeyEvent {
            code: KeyCode::Char('e'),
            ..
        })
    ));
    assert_eq!(source.len(), 1);

    let second = read_batch(&mut reader, &mut source, 0);
    assert!(matches!(
        second.as_slice(),
        [UiInput::Key(KeyEvent {
            code: KeyCode::Char('x'),
            ..
        })]
    ));
}

#[test]
fn elapsed_time_without_second_empty_confirmation_does_not_end_gesture() {
    let start = SECOND;
    let mut reducer = InputReducer::default();
    reducer.push_event(wheel(ScrollDirection::Down));
    let (_, _, first_gesture) = wheel_parts(reducer.take_inputs()[0]);
    assert!(!reducer.confirm_source_empty(start));

    reducer.push_event(wheel(ScrollDirection::Down));
    let (_, _, later_gesture) = wheel_parts(reducer.take_inputs()[0]);
    assert_eq!(first_gesture, later_gesture);
}

#[test]
fn quiet_window_needs_two_empty_observations_and_then_allocates_new_id() {
    let start = SECOND;
    let mut reducer = InputReducer::default();
    reducer.push_event(wheel(ScrollDirection::Down));
    let (_, _, first_gesture) = wheel_parts(reducer.take_inputs()[0]);

    assert!(!reducer.confirm_source_empty(start));
    assert!(!reducer.confirm_source_empty(start + WHEEL_GESTURE_QUIET - MILLISECOND));
    assert!(reducer.confirm_source_empty(start + WHEEL_GESTURE_QUIET));

    reducer.push_event(wheel(ScrollDirection::Down));
    let (_, _, second_gesture) = wheel_parts(reducer.take_inputs()[0]);
    assert_ne!(first_gesture, second_gesture);
    assert_eq!(first_gesture.raw() + 1, second_gesture.raw());
}

#[test]
fn key_resize_and_direction_changes_preserve_order_and_segment_wheels() {
    let mut reducer = InputReducer::default();
    for event in [
        wheel(ScrollDirection::Down),
        wheel(ScrollDirection::Down),
        key(KeyCode::Char('x')),
        wheel(ScrollDirection::Down),
        resize(80, 24),
        resize(100, 30),
        wheel(ScrollDirection::Up),
        wheel(ScrollDirection::Down),
    ] {
        reducer.push_event(event);
    }

    let inputs = reducer.take_inputs();
    assert_eq!(inputs.len(), 6);
    let (direction, steps, first_gesture) = wheel_parts(inputs[0]);
    assert_eq!((direction, steps), (ScrollDirection::Down, 2));
    assert_eq!(
        inputs[1],
        UiInput::Key(KeyEvent::new(KeyCode::Char('x'), KeyModifiers::none()))
    );
    let (direction, steps, second_gesture) = wheel_parts(inputs[2]);
    assert_eq!((direction, steps), (ScrollDirection::Down, 1));
    assert_ne!(first_gesture, second_gesture);
    assert_eq!(
        inputs[3],
        UiInput::Resize {
            width: 100,
            height: 30,
        }
    );
    assert_eq!(
        inputs[4],
        UiInput::Wheel {
            direction: ScrollDirection::Up,
            steps: 1,
            gesture: second_gesture,
        }
    );
    assert_eq!(
        inputs[5],
        UiInput::Wheel {
            direction: ScrollDirection::Down,
            steps: 1,
            gesture: second_gesture,
        }
    );
}

#[test]
fn mouse_movement_is_ignored_and_does_not_break_visible_wheel_coalescing() {
    let mut reducer = InputReducer::default();
    reducer.push_event(wheel(ScrollDirection::Down));
    reducer.push_event(Event::Mouse(MouseEventKind::Other));
    reducer.push_event(wheel(ScrollDirection::Down));

    let inputs = reducer.take_inputs();
    assert_eq!(inputs.len(), 1);
    let (direction, steps, _) = wheel_parts(inputs[0]);
    assert_eq!((direction, steps), (ScrollDirection::Down, 2));
}

#[test]
fn consecutive_resizes_keep_latest_size_but_never_cross_a_key() {
    let mut reducer = InputReducer::default();
    reducer.push_event(resize(80, 24));
    reducer.push_event(resize(90, 25));
    reducer.push_event(key(KeyCode::Enter));
    reducer.push_event(resize(100, 30));
    reducer.push_event(resize(120, 40));

    assert_eq!(
        reducer.take_inputs(),
        vec![
            UiInput::Resize {
                width: 90,
                height: 25,
            },
            UiInput::Key(KeyEvent::new(KeyCode::Enter, KeyModifiers::none())),
            UiInput::Resize {
                width: 120,
                height: 40,
            },
        ]
    );
}

#[test]
fn released_keys_are_passed_over() {
    let mut reducer = InputReducer::default();
    reducer.push_event(Event::Key(KeyEvent {
        kind: KeyEventKind::Release,
        ..KeyEvent::new(KeyCode::Enter, KeyModifiers::none())
    }));
    assert!(reducer.take_inputs().is_empty());
}

#[test]
fn the_first_poll_waits_no_longer_than_the_gesture() {
    let mut reader = InputReader::new();
    let mut source = VecDeque::from([wheel(ScrollDirection::Down)]);
    assert_eq!(reader.wait_timeout(SECOND, 5), SECOND);

    let _ = read_batch(&mut reader, &mut source, 5);
    assert_eq!(reader.wait_timeout(SECOND, 5), WHEEL_GESTURE_QUIET);
    assert_eq!(reader.wait_timeout(7, 5), 7);
}

#[test]
fn a_batch_is_short_and_a_key_is_its_last_input() {
    let mut source = VecDeque::new();
    for _ in 0..20 {
        source.push_back(wheel(ScrollDirection::Down));
        source.push_back(wheel(ScrollDirection::Up));
    }
    source.push_back(key(KeyCode::Char('a')));
    source.push_back(wheel(ScrollDirection::Down));
    let mut reader = InputReader::new();

    let lengths: Vec<usize> = (0..4)
        .map(|_| {
            let inputs = read_batch(&mut reader, &mut source, 0);
            let keys = inputs
                .iter()
                .position(|input| matches!(input, UiInput::Key(_)));
            assert!(keys.is_none() || keys == Some(inputs.len() - 1));
            inputs.len()
        })
        .collect();
    assert_eq!(
        lengths,
        vec![DEFAULT_MAX_REDUCED_INPUTS, DEFAULT_MAX_REDUCED_INPUTS, 9, 1]
    );
}

#[test]
fn a_limit_of_none_still_reads_one_event() {
    let mut reader = InputReader::with_limits(0, SECOND);
    let mut source = VecDeque::from([resize(1, 2), key(KeyCode::Esc)]);
    assert_eq!(
        read_batch(&mut reader, &mut source, 0),
        vec![UiInput::Resize {
            width: 1,
            height: 2
        }]
    );
    assert_eq!(source.len(), 1);
}

#[test]
fn normalize_ctrl_h_becomes_backspace() {
    let key = KeyEvent::new(KeyCode::Char('h'), KeyModifiers::control());
    let normalized = normalize_key_event(key);
    assert_eq!(normalized.code, KeyCode::Backspace);
    assert!(!normalized.modifiers.control);
}

#[test]
fn normalize_plain_h_unchanged() {
    let key = KeyEvent::new(KeyCode::Char('h'), KeyModifiers::none());
    assert_eq!(normalize_key_event(key), key);
}

#[test]
fn normalize_real_backspace_unchanged() {
    let key = KeyEvent::new(KeyCode::Backspace, KeyModifiers::none());
    assert_eq!(normalize_key_event(key), key);
}
