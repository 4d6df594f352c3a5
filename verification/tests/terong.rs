use duangler::input_source::windows::{WM_KEYDOWN, WM_KEYUP, WM_LBUTTONUP, WM_MOUSEMOVE};
use duangler::terong::client::transport_client::{
    Heartbeat, RetryPolicy, SessionState, MAX_RETRIES, RETRY_DELAY_SECS,
};
use duangler::terong::input_event::{KeyCode, MouseButton, KEY_CODE_COUNT};
use duangler::terong::protocol::message::{InputEvent as WireEvent, KeyboardKey, KEYBOARD_KEY_COUNT};
use duangler::terong::protocol::{ClientMessage, Hello, ServerMessage as TerongServerMessage, PROTOCOL_VERSION};
use duangler::terong::server::event_producer::{keyboard_hook_event as producer_key_event, keyboard_key_from_vk};
use duangler::terong::server::input_listener::event::{LocalInputEvent, MousePosition};
use duangler::terong::server::input_listener::windows::{
    key_code_from_vk, keyboard_hook_event, mouse_hook_event, passes_through, CaptureFlag,
};
use duangler::terong::server::input_listener::Signal;
use duangler::terong::server::protocol_server::frame_message;
use duangler::terong::server::{App, EVENT_EXPIRY_NANOS};
use duangler::transport::protocol::{InputEvent, KeyCode as RelayedKey, Ping, Pong, ServerMessage};

const MS: u64 = 1_000_000;

fn at(x: i32) -> MousePosition {
    MousePosition { x, y: 300 }
}

#[test]
fn bump_against_the_left_edge_starts_capturing_once() {
    let mut app = App::new();
    assert_eq!(app.on_mouse_position(at(0), 0), None);
    assert_eq!(app.on_mouse_position(at(5), 20 * MS), None);
    assert_eq!(app.on_mouse_position(at(0), 40 * MS), Some(Signal::SetShouldCapture(true)));
    assert!(app.capture_input);
    assert_eq!(app.mouse_pos_buf.len(), 3);
    // capturing already: no second signal
    assert_eq!(app.on_mouse_position(at(9), 60 * MS), None);
    assert_eq!(app.on_mouse_position(at(0), 80 * MS), None);
    assert!(app.capture_input);
}

#[test]
fn cursor_away_from_the_edge_is_no_bump() {
    let mut app = App::new();
    assert_eq!(app.on_mouse_position(at(5), 0), None);
    assert_eq!(app.on_mouse_position(at(0), 10 * MS), None);
    // x == 1 is neither at the edge nor away from it
    assert_eq!(app.on_mouse_position(at(1), 20 * MS), None);
    assert_eq!(app.on_mouse_position(at(0), 30 * MS), None);
    assert!(!app.capture_input);
    // the bump must end at the edge
    assert_eq!(app.on_mouse_position(at(7), 40 * MS), None);
    assert!(!app.capture_input);
}

#[test]
fn expired_positions_do_not_count() {
    let mut app = App::new();
    app.on_mouse_position(at(0), 0);
    app.on_mouse_position(at(5), 250 * MS);
    // the first position expired before the cursor came back
    assert_eq!(app.on_mouse_position(at(0), 260 * MS), None);
    assert!(!app.capture_input);
    assert_eq!(app.mouse_pos_buf.len(), 2);
}

#[test]
fn drop_expired_events_keeps_recent_ones() {
    let mut app = App::new();
    app.mouse_pos_buf.push_back((at(1), 0));
    app.mouse_pos_buf.push_back((at(2), 100 * MS));
    app.mouse_pos_buf.push_back((at(3), 300 * MS));
    app.drop_expired_events(300 * MS);
    assert_eq!(app.mouse_pos_buf.len(), 2);
    assert_eq!(app.mouse_pos_buf[0], (at(2), 100 * MS));
    // exactly the expiry is not expired yet
    app.drop_expired_events(100 * MS + EVENT_EXPIRY_NANOS);
    assert_eq!(app.mouse_pos_buf.len(), 2);
    app.drop_expired_events(100 * MS + EVENT_EXPIRY_NANOS + 1);
    assert_eq!(app.mouse_pos_buf.len(), 1);
    assert!(!app.capture_input);
}

#[test]
fn answered_pings_keep_the_session_and_unanswered_end_it() {
    let mut hb = Heartbeat::new();
    assert_eq!(hb.on_tick(), Some(Ping { counter: 1 }));
    hb.on_ping_sent();
    assert_eq!(hb.on_message(ServerMessage::Pong(Pong { counter: 2 })), Some(SessionState::Idle));
    assert_eq!(hb.local_ping_counter, 3);
    assert_eq!(hb.on_tick(), Some(Ping { counter: 3 }));
    hb.on_ping_sent();
    // no pong before the next tick
    assert_eq!(hb.on_tick(), None);
}

#[test]
fn mismatched_pong_ends_the_session_and_events_are_relayed() {
    let mut hb = Heartbeat::new();
    hb.on_ping_sent();
    assert_eq!(hb.on_message(ServerMessage::Pong(Pong { counter: 1 })), None);
    assert_eq!(hb.local_ping_counter, 2);
    let e = InputEvent::KeyDown { key: RelayedKey::A };
    assert_eq!(hb.on_message(ServerMessage::Event(e)), Some(SessionState::EventRelayed { event: e }));
    assert_eq!(hb.local_ping_counter, 2);
}

#[test]
fn client_gives_up_after_max_retries() {
    let mut p = RetryPolicy::new();
    for _ in 0..MAX_RETRIES {
        assert_eq!(p.on_failure(), Some(RETRY_DELAY_SECS));
    }
    assert_eq!(p.on_failure(), None);
    assert_eq!(p.retry_count, MAX_RETRIES);
    p.on_connected();
    assert_eq!(p.retry_count, 0);
    assert_eq!(p.on_failure(), Some(RETRY_DELAY_SECS));
}

// `KeyboardKey::from_u32` accepts only positions below `KEYBOARD_KEY_COUNT`
// (it asserts so): B is at position 28, and 81 is no key's position, so a
// check that 81 gives B could not pass.
#[test]
fn keys_by_position() {
    assert_eq!(KeyCode::from_u16(0), KeyCode::Escape);
    assert_eq!(KeyCode::from_u16(28), KeyCode::B);
    assert_eq!(KeyCode::from_u16(KEY_CODE_COUNT - 1), KeyCode::ArrowRight);
    assert_eq!(KeyboardKey::from_u32(28), KeyboardKey::B);
    assert_eq!(KeyboardKey::from_u32(KEYBOARD_KEY_COUNT - 1), KeyboardKey::Enter);
}

#[test]
fn virtual_keys_of_the_listener() {
    assert_eq!(key_code_from_vk(0x41), KeyCode::A);
    assert_eq!(key_code_from_vk(0x42), KeyCode::B);
    assert_eq!(key_code_from_vk(0x5A), KeyCode::Z);
    assert_eq!(key_code_from_vk(0x20), KeyCode::Space);
    assert_eq!(key_code_from_vk(0x0D), KeyCode::Enter);
    assert_eq!(key_code_from_vk(0xA2), KeyCode::LeftCtrl);
    assert_eq!(key_code_from_vk(0xA5), KeyCode::RightAlt);
    // only the low 16 bits name the key
    assert_eq!(key_code_from_vk(0x1_0041), KeyCode::A);
    assert_eq!(
        keyboard_hook_event(WM_KEYDOWN, 0x43),
        Some(LocalInputEvent::KeyDown { key: KeyCode::C })
    );
    assert_eq!(keyboard_hook_event(0, 0x43), None);
}

#[test]
fn virtual_keys_of_the_producer() {
    assert_eq!(keyboard_key_from_vk(0x41), KeyboardKey::A);
    assert_eq!(keyboard_key_from_vk(0x5A), KeyboardKey::Z);
    assert!(matches!(
        producer_key_event(WM_KEYUP, 0x42),
        Some(WireEvent::KeyUp { key: KeyboardKey::B })
    ));
}

#[test]
fn mouse_hook_events_and_capture() {
    assert_eq!(
        mouse_hook_event(WM_MOUSEMOVE, -3, 4),
        Some(LocalInputEvent::MousePosition(MousePosition { x: -3, y: 4 }))
    );
    assert_eq!(
        mouse_hook_event(WM_LBUTTONUP, 0, 0),
        Some(LocalInputEvent::MouseButtonUp { button: MouseButton::Left })
    );
    assert_eq!(mouse_hook_event(0x020A, 0, 0), None);
    let mut flag = CaptureFlag::new();
    let e = mouse_hook_event(WM_MOUSEMOVE, 0, 0);
    assert!(passes_through(&e, flag.should_capture()));
    flag.set_should_capture_flag(true);
    assert!(!passes_through(&e, flag.should_capture()));
    assert!(passes_through(&None, flag.should_capture()));
}

#[test]
fn server_frames_carry_an_eight_byte_length() {
    assert_eq!(frame_message(&[7, 8]), vec![0, 0, 0, 0, 0, 0, 0, 2, 7, 8]);
    let long = vec![1u8; 258];
    let f = frame_message(&long);
    assert_eq!(&f[..8], &[0, 0, 0, 0, 0, 0, 1, 2]);
    assert_eq!(f.len(), 266);
}

#[test]
fn messages_wrap_their_payloads() {
    let e = duangler::terong::input_event::InputEvent::MouseMove { dx: 1, dy: 1 };
    assert_eq!(TerongServerMessage::from(e), TerongServerMessage::InputEvent(e));
    let m: ClientMessage = Hello { protocol_version: PROTOCOL_VERSION, client_name: "c".to_string() }.into();
    match m {
        ClientMessage::Hello(h) => assert_eq!(h.protocol_version, 0),
    }
}

#[test]
fn unsolicited_pongs_shift_the_ping_counters() {
    let mut hb = Heartbeat::new();
    assert_eq!(hb.on_message(ServerMessage::Pong(Pong { counter: 1 })), Some(SessionState::Idle));
    assert_eq!(hb.on_message(ServerMessage::Pong(Pong { counter: 2 })), Some(SessionState::Idle));
    assert_eq!(hb.on_tick(), Some(Ping { counter: 3 }));
}
