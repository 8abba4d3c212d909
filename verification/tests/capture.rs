use click_capture::capture::{ClickEvent, InputEvent, PointerState};
use click_capture::engine::Engine;
use click_capture::session::SessionStatus;

#[test]
fn scenario_start_move_press_stop_press() {
    let mut engine = Engine::new();
    let mut pointer = PointerState::new();

    assert_eq!(engine.start_recording(1000), Ok(()));
    assert_eq!(engine.status(), SessionStatus::Recording);

    let moved = pointer.handle_event(
        engine.status(),
        InputEvent::Move { x: 10.0f64.to_bits(), y: 20.0f64.to_bits() },
        1001,
    );
    assert_eq!(moved, None);

    let clicked = pointer.handle_event(engine.status(), InputEvent::PrimaryPress, 1002);
    assert_eq!(
        clicked,
        Some(ClickEvent { x: 10.0f64.to_bits(), y: 20.0f64.to_bits(), timestamp: 1002 })
    );
    let click = clicked.unwrap();
    assert_eq!(f64::from_bits(click.x), 10.0);
    assert_eq!(f64::from_bits(click.y), 20.0);

    assert_eq!(engine.stop_recording(), Ok(()));
    let after_stop = pointer.handle_event(engine.status(), InputEvent::PrimaryPress, 1003);
    assert_eq!(after_stop, None);
}

#[test]
fn press_while_idle_emits_nothing() {
    let mut pointer = PointerState::new();
    let _ = pointer.handle_event(
        SessionStatus::Idle,
        InputEvent::Move { x: 3.0f64.to_bits(), y: 4.0f64.to_bits() },
        5,
    );
    let r = pointer.handle_event(SessionStatus::Idle, InputEvent::PrimaryPress, 6);
    assert_eq!(r, None);
}

#[test]
fn press_while_recording_emits_last_observed_coordinates() {
    let mut pointer = PointerState::new();
    let _ = pointer.handle_event(
        SessionStatus::Recording,
        InputEvent::Move { x: 7.5f64.to_bits(), y: 8.25f64.to_bits() },
        10,
    );
    let _ = pointer.handle_event(
        SessionStatus::Recording,
        InputEvent::Move { x: 1.5f64.to_bits(), y: 2.5f64.to_bits() },
        11,
    );
    let r = pointer.handle_event(SessionStatus::Recording, InputEvent::PrimaryPress, 12);
    assert_eq!(
        r,
        Some(ClickEvent { x: 1.5f64.to_bits(), y: 2.5f64.to_bits(), timestamp: 12 })
    );
}

#[test]
fn press_before_any_move_uses_origin() {
    let mut pointer = PointerState::new();
    let r = pointer.handle_event(SessionStatus::Recording, InputEvent::PrimaryPress, 1);
    assert_eq!(r, Some(ClickEvent { x: 0, y: 0, timestamp: 1 }));
    assert_eq!(f64::from_bits(0), 0.0);
}

#[test]
fn move_updates_tracker_without_emitting() {
    let mut pointer = PointerState::new();
    let r = pointer.handle_event(
        SessionStatus::Recording,
        InputEvent::Move { x: 100.0f64.to_bits(), y: 200.0f64.to_bits() },
        1,
    );
    assert_eq!(r, None);
    assert_eq!(pointer.last_x, 100.0f64.to_bits());
    assert_eq!(pointer.last_y, 200.0f64.to_bits());
}

#[test]
fn other_events_are_ignored() {
    let mut pointer = PointerState::new();
    let before = pointer;
    let r = pointer.handle_event(SessionStatus::Recording, InputEvent::Other, 9);
    assert_eq!(r, None);
    assert_eq!(pointer, before);
}

#[test]
fn emission_timestamps_are_non_decreasing() {
    let mut pointer = PointerState::new();
    let first = pointer
        .handle_event(SessionStatus::Recording, InputEvent::PrimaryPress, 50)
        .unwrap();
    let second = pointer
        .handle_event(SessionStatus::Recording, InputEvent::PrimaryPress, 75)
        .unwrap();
    assert!(first.timestamp <= second.timestamp);
    assert_eq!(first.timestamp, 50);
    assert_eq!(second.timestamp, 75);
}
