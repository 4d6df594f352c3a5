use duangler::input_source::controller::{EventBuffer, InputController};
use duangler::input_source::event::LocalInputEvent;
use duangler::transport::protocol::{InputEvent, KeyCode};

const MS: u64 = 1_000_000;

fn down(key: KeyCode) -> LocalInputEvent {
    LocalInputEvent::KeyDown { key }
}

fn up(key: KeyCode) -> LocalInputEvent {
    LocalInputEvent::KeyUp { key }
}

#[test]
fn double_tap_of_right_ctrl_starts_relaying() {
    let mut c = InputController::new();
    assert_eq!(c.on_input_event(down(KeyCode::RightCtrl), 0), (None, false));
    assert_eq!(c.on_input_event(up(KeyCode::RightCtrl), 50 * MS), (None, false));
    assert_eq!(c.on_input_event(down(KeyCode::RightCtrl), 100 * MS), (None, false));
    assert_eq!(c.on_input_event(up(KeyCode::RightCtrl), 150 * MS), (None, true));
    // relaying now
    assert_eq!(
        c.on_input_event(down(KeyCode::A), 1000 * MS),
        (Some(InputEvent::KeyDown { key: KeyCode::A }), true)
    );
    assert_eq!(
        c.on_input_event(up(KeyCode::A), 1010 * MS),
        (Some(InputEvent::KeyUp { key: KeyCode::A }), true)
    );
}

#[test]
fn second_double_tap_stops_relaying() {
    let mut c = InputController::new();
    for (i, e) in [down(KeyCode::RightCtrl), up(KeyCode::RightCtrl), down(KeyCode::RightCtrl), up(KeyCode::RightCtrl)]
        .into_iter()
        .enumerate()
    {
        c.on_input_event(e, i as u64 * 10 * MS);
    }
    let t = 2000 * MS;
    assert_eq!(
        c.on_input_event(down(KeyCode::RightCtrl), t),
        (Some(InputEvent::KeyDown { key: KeyCode::RightCtrl }), true)
    );
    assert_eq!(
        c.on_input_event(up(KeyCode::RightCtrl), t + 10 * MS),
        (Some(InputEvent::KeyUp { key: KeyCode::RightCtrl }), true)
    );
    assert_eq!(
        c.on_input_event(down(KeyCode::RightCtrl), t + 20 * MS),
        (Some(InputEvent::KeyDown { key: KeyCode::RightCtrl }), true)
    );
    assert_eq!(
        c.on_input_event(up(KeyCode::RightCtrl), t + 30 * MS),
        (Some(InputEvent::KeyUp { key: KeyCode::RightCtrl }), false)
    );
}

#[test]
fn slow_double_tap_does_not_toggle() {
    let mut c = InputController::new();
    c.on_input_event(down(KeyCode::RightCtrl), 0);
    c.on_input_event(up(KeyCode::RightCtrl), 100 * MS);
    c.on_input_event(down(KeyCode::RightCtrl), 200 * MS);
    assert_eq!(c.on_input_event(up(KeyCode::RightCtrl), 400 * MS), (None, false));
}

#[test]
fn double_tap_of_another_key_does_not_toggle() {
    let mut c = InputController::new();
    c.on_input_event(down(KeyCode::LeftCtrl), 0);
    c.on_input_event(up(KeyCode::LeftCtrl), 10 * MS);
    c.on_input_event(down(KeyCode::LeftCtrl), 20 * MS);
    assert_eq!(c.on_input_event(up(KeyCode::LeftCtrl), 30 * MS), (None, false));
}

#[test]
fn time_of_newest_event_is_accepted() {
    let mut c = InputController::new();
    assert!(c.accepts_time(0));
    c.on_input_event(down(KeyCode::A), 10 * MS);
    assert!(c.accepts_time(10 * MS));
    assert!(!c.accepts_time(9 * MS));
}

#[test]
fn held_key_does_not_hide_a_double_tap() {
    let mut c = InputController::new();
    assert_eq!(c.on_input_event(down(KeyCode::A), 0), (None, false));
    assert_eq!(c.on_input_event(down(KeyCode::RightCtrl), 10 * MS), (None, false));
    assert_eq!(c.on_input_event(up(KeyCode::RightCtrl), 20 * MS), (None, false));
    assert_eq!(c.on_input_event(down(KeyCode::RightCtrl), 30 * MS), (None, false));
    assert_eq!(c.on_input_event(up(KeyCode::RightCtrl), 40 * MS), (None, true));
}

#[test]
fn recent_pressed_keys_skip_held_keys() {
    let mut b = EventBuffer::default();
    b.push_input_event(down(KeyCode::A), 1);
    b.push_input_event(down(KeyCode::B), 2);
    b.push_input_event(up(KeyCode::B), 3);
    let mut keys = b.recent_pressed_keys(None);
    assert_eq!(keys.next(), Some((KeyCode::B, 3)));
    assert_eq!(keys.next(), None);
    let mut keys = b.recent_pressed_keys(Some(2));
    assert_eq!(keys.next(), None);
}

#[test]
fn double_tap_after_typing_and_a_pause_toggles() {
    let mut c = InputController::new();
    c.on_input_event(down(KeyCode::H), 0);
    c.on_input_event(up(KeyCode::H), 20 * MS);
    c.on_input_event(down(KeyCode::I), 40 * MS);
    c.on_input_event(up(KeyCode::I), 60 * MS);
    let t = 500 * MS;
    assert_eq!(c.on_input_event(down(KeyCode::RightCtrl), t), (None, false));
    assert_eq!(c.on_input_event(up(KeyCode::RightCtrl), t + 10 * MS), (None, false));
    assert_eq!(c.on_input_event(down(KeyCode::RightCtrl), t + 20 * MS), (None, false));
    assert_eq!(c.on_input_event(up(KeyCode::RightCtrl), t + 30 * MS), (None, true));
}
