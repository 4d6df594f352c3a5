use duangler::client::input_consumer::{to_consumer_events, KEY_SPACE};
use duangler::client::input_sink::{to_linux_events, virtual_device_key_codes};
use duangler::input_source::event::LocalInputEvent;
use duangler::input_source::linux::{map_keyboard_event, map_mouse_event};
use duangler::input_source::windows::{
    get_mouse_button, get_screen_center, get_scroll_direction, keyboard_hook_event,
    InputSourceState, LocalEventMapper, WM_KEYDOWN, WM_KEYUP, WM_LBUTTONDOWN, WM_MOUSEMOVE,
    WM_MOUSEWHEEL, WM_XBUTTONDOWN,
};
use duangler::input_source::event::{MouseMovement, MousePosition};
use duangler::transport::protocol::input_event::linux::{
    EvKey, EventCode, LinuxInputEvent, REL_WHEEL, REL_X, REL_Y, SYN_REPORT,
};
use duangler::transport::protocol::input_event::windows::VirtualKey;
use duangler::transport::protocol::{
    InputEvent, KeyCode, MouseButton, MouseScrollDirection, KEY_CODE_COUNT,
};

#[test]
fn key_codes_round_trip_through_their_repr() {
    for n in 0..KEY_CODE_COUNT {
        let k = KeyCode::from_repr(n).unwrap();
        assert_eq!(k.to_repr(), n);
    }
    assert_eq!(KeyCode::from_repr(KEY_CODE_COUNT), None);
    assert_eq!(KeyCode::from_repr(0), Some(KeyCode::Escape));
    assert_eq!(MouseButton::from_repr(4), Some(MouseButton::Mouse5));
    assert_eq!(MouseButton::from_repr(5), None);
}

#[test]
fn linux_codes_of_keys_and_buttons() {
    assert_eq!(KeyCode::A.to_linux_code(), 30);
    assert_eq!(KeyCode::Space.to_linux_code(), 57);
    assert_eq!(KeyCode::from_ev_key(EvKey(30)), Some(KeyCode::A));
    assert_eq!(KeyCode::from_ev_key(EvKey(0x110)), None);
    assert_eq!(MouseButton::Left.to_linux_code(), 0x110);
    assert_eq!(MouseButton::from_ev_key(EvKey(0x110)), Some(MouseButton::Left));
    assert_eq!(MouseButton::from_ev_key(EvKey(30)), None);
}

#[test]
fn replay_of_a_key_press_reads_back_as_the_same_press() {
    let local = LocalInputEvent::KeyDown { key: KeyCode::Q };
    let relayed = local.into_input_event().unwrap();
    let replay = to_linux_events(relayed);
    assert_eq!(replay.len(), 2);
    assert_eq!(map_keyboard_event(&replay[0]), Some(local));
    assert_eq!(
        replay[1],
        LinuxInputEvent { event_code: EventCode::Syn(SYN_REPORT), value: 0 }
    );
    let local = LocalInputEvent::MouseButtonUp { button: MouseButton::Middle };
    let replay = to_linux_events(local.into_input_event().unwrap());
    assert_eq!(map_keyboard_event(&replay[0]), Some(local));
}

#[test]
fn replay_of_an_upward_scroll_reads_back_as_the_same_scroll() {
    let local = LocalInputEvent::MouseScroll { direction: MouseScrollDirection::Up { clicks: 3 } };
    let replay = to_linux_events(local.into_input_event().unwrap());
    assert_eq!(replay[0], LinuxInputEvent { event_code: EventCode::Rel(REL_WHEEL), value: 3 });
    assert_eq!(map_mouse_event(&replay[0]), Some(local));
}

#[test]
fn replay_of_a_downward_scroll_reads_back_truncated() {
    let local = LocalInputEvent::MouseScroll { direction: MouseScrollDirection::Down { clicks: 1 } };
    let replay = to_linux_events(local.into_input_event().unwrap());
    assert_eq!(replay[0], LinuxInputEvent { event_code: EventCode::Rel(REL_WHEEL), value: -1 });
    assert_eq!(
        map_mouse_event(&replay[0]),
        Some(LocalInputEvent::MouseScroll { direction: MouseScrollDirection::Down { clicks: 255 } })
    );
}

#[test]
fn replay_of_a_movement() {
    let replay = to_linux_events(InputEvent::MouseMove { dx: -4, dy: 9 });
    assert_eq!(
        replay,
        vec![
            LinuxInputEvent { event_code: EventCode::Rel(REL_X), value: -4 },
            LinuxInputEvent { event_code: EventCode::Rel(REL_Y), value: 9 },
            LinuxInputEvent { event_code: EventCode::Syn(SYN_REPORT), value: 0 },
        ]
    );
}

#[test]
fn unknown_linux_events_are_ignored() {
    assert_eq!(
        map_keyboard_event(&LinuxInputEvent { event_code: EventCode::Key(EvKey(30)), value: 7 }),
        None
    );
    assert_eq!(
        map_mouse_event(&LinuxInputEvent { event_code: EventCode::Rel(REL_WHEEL), value: 0 }),
        None
    );
    assert_eq!(
        map_mouse_event(&LinuxInputEvent { event_code: EventCode::Rel(REL_X), value: 5 }),
        None
    );
}

#[test]
fn virtual_device_enables_every_button_then_every_key() {
    let codes = virtual_device_key_codes();
    assert_eq!(codes.len(), 5 + KEY_CODE_COUNT as usize);
    assert_eq!(codes[0], EvKey(0x110));
    assert_eq!(codes[5], EvKey(KeyCode::Escape.to_linux_code()));
}

#[test]
fn consumer_replays_movements_and_the_space_bar() {
    let es = to_consumer_events(duangler::protocol::InputEvent::MouseMove { dx: 1, dy: 2 });
    assert_eq!(es.len(), 3);
    assert_eq!(es[1], LinuxInputEvent { event_code: EventCode::Rel(REL_Y), value: 2 });
    let es = to_consumer_events(duangler::protocol::InputEvent::KeyDown {
        key: duangler::protocol::KeyCode::A,
    });
    assert_eq!(
        es,
        vec![
            LinuxInputEvent { event_code: EventCode::Key(EvKey(KEY_SPACE)), value: 1 },
            LinuxInputEvent { event_code: EventCode::Syn(SYN_REPORT), value: 0 },
        ]
    );
}

#[test]
fn windows_virtual_keys() {
    assert_eq!(KeyCode::from_virtual_key(VirtualKey(0x41)), Some(KeyCode::A));
    assert_eq!(KeyCode::A.to_virtual_key(), 0x41);
    assert_eq!(KeyCode::from_virtual_key(VirtualKey(0x07)), None);
    assert_eq!(
        keyboard_hook_event(WM_KEYDOWN, 0x41),
        Some(LocalInputEvent::KeyDown { key: KeyCode::A })
    );
    assert_eq!(
        keyboard_hook_event(WM_KEYUP, 0x41),
        Some(LocalInputEvent::KeyUp { key: KeyCode::A })
    );
}

#[test]
fn windows_mouse_data() {
    assert_eq!(get_mouse_button(0x0001_0000), Some(MouseButton::Mouse4));
    assert_eq!(get_mouse_button(0x0002_0000), Some(MouseButton::Mouse5));
    assert_eq!(get_mouse_button(0x0003_0000), None);
    // one click up, two clicks down, less than a click
    assert_eq!(get_scroll_direction(120 << 16), Some(MouseScrollDirection::Up { clicks: 1 }));
    assert_eq!(
        get_scroll_direction(((-240i16) as u16 as u32) << 16),
        Some(MouseScrollDirection::Down { clicks: 2 })
    );
    assert_eq!(get_scroll_direction(60 << 16), None);
    assert_eq!(get_screen_center(1920, 1080), (960, 540));
    assert_eq!(get_screen_center(-3, -1), (-1, 0));
}

#[test]
fn windows_hooks_and_cursor_lock() {
    let mut s = InputSourceState::new(MousePosition { x: 100, y: 100 });
    assert!(!s.consume_input());
    assert_eq!(
        s.mouse_hook_event(WM_MOUSEMOVE, 10, 20, 0),
        Some(LocalInputEvent::MousePosition(MousePosition { x: 10, y: 20 }))
    );
    assert_eq!(
        s.mouse_hook_event(WM_LBUTTONDOWN, 0, 0, 0),
        Some(LocalInputEvent::MouseButtonDown { button: MouseButton::Left })
    );
    assert_eq!(
        s.mouse_hook_event(WM_XBUTTONDOWN, 0, 0, 0x0002_0000),
        Some(LocalInputEvent::MouseButtonDown { button: MouseButton::Mouse5 })
    );
    assert_eq!(
        s.mouse_hook_event(WM_MOUSEWHEEL, 0, 0, 120 << 16),
        Some(LocalInputEvent::MouseScroll { direction: MouseScrollDirection::Up { clicks: 1 } })
    );
    assert_eq!(s.lock_cursor(MousePosition { x: 5, y: 6 }), None);
    assert_eq!(s.update_consume_input(true), None);
    assert_eq!(s.lock_cursor(MousePosition { x: 5, y: 6 }), Some(MousePosition { x: 100, y: 100 }));
    assert_eq!(s.lock_cursor(MousePosition { x: 7, y: 8 }), Some(MousePosition { x: 100, y: 100 }));
    // while consuming, moves are reported relative to the locked position
    assert_eq!(
        s.mouse_hook_event(WM_MOUSEMOVE, 103, 98, 0),
        Some(LocalInputEvent::MouseMove(MouseMovement { dx: 3, dy: -2 }))
    );
    assert_eq!(s.update_consume_input(false), Some(MousePosition { x: 5, y: 6 }));
    assert_eq!(s.get_cursor_locked_pos(), MousePosition { x: 100, y: 100 });
}

#[test]
fn repeated_key_downs_become_repeats() {
    let mut m = LocalEventMapper::new();
    let a = LocalInputEvent::KeyDown { key: KeyCode::A };
    assert_eq!(m.map(a), a);
    assert_eq!(m.map(a), LocalInputEvent::KeyRepeat { key: KeyCode::A });
    assert_eq!(m.map(LocalInputEvent::KeyUp { key: KeyCode::A }), LocalInputEvent::KeyUp { key: KeyCode::A });
    assert_eq!(m.map(a), a);
}

#[test]
fn cursor_is_restored_once_where_consuming_began() {
    let locked = MousePosition { x: 50, y: 50 };
    let mut s = InputSourceState::new(locked);
    assert_eq!(s.lock_cursor(MousePosition { x: 1, y: 1 }), None);
    assert_eq!(s.update_consume_input(true), None);
    assert_eq!(s.lock_cursor(MousePosition { x: 2, y: 2 }), Some(locked));
    assert_eq!(s.update_consume_input(true), None);
    assert_eq!(s.lock_cursor(MousePosition { x: 3, y: 3 }), Some(locked));
    assert_eq!(s.update_consume_input(false), Some(MousePosition { x: 2, y: 2 }));
    assert!(!s.consume_input());
    assert_eq!(s.lock_cursor(MousePosition { x: 4, y: 4 }), None);
    assert_eq!(s.update_consume_input(false), None);
}
