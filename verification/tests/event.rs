use duangler::input_source::event::{LocalInputEvent, MouseMovement, MousePosition};
use duangler::server::input_listener::event::MousePosition as ServerMousePosition;
use duangler::terong::server::input_listener::event::MousePosition as TerongMousePosition;
use duangler::transport::protocol::{InputEvent, KeyCode, MouseButton};

#[test]
fn test_delta_to() {
    assert_eq!(
        ServerMousePosition { x: 1, y: 1 }.delta_to(&ServerMousePosition { x: -1, y: -1 }),
        (-2, -2)
    );
}

#[test]
fn event_test_delta_to() {
    let from = MousePosition { x: 1, y: 1 };
    assert_eq!(from.delta_to(&from), (0, 0).into());
    assert_eq!(
        from.delta_to(&MousePosition { x: 1, y: -1 }),
        (0, -2).into()
    );
    assert_eq!(
        from.delta_to(&MousePosition { x: -1, y: -1 }),
        (-2, -2).into()
    );
    assert_eq!(
        from.delta_to(&MousePosition { x: -1, y: 1 }),
        (-2, 0).into()
    );

    let from = MousePosition { x: 1, y: -1 };
    assert_eq!(from.delta_to(&from), (0, 0).into());
    assert_eq!(
        from.delta_to(&MousePosition { x: -1, y: -1 }),
        (-2, 0).into()
    );
    assert_eq!(
        from.delta_to(&MousePosition { x: -1, y: 1 }),
        (-2, 2).into()
    );
    assert_eq!(
        from.delta_to(&MousePosition { x: 1, y: 1 }),
        (0, 2).into()
    );
}

#[test]
fn terong_delta_to_is_the_movement_between_positions() {
    let from = TerongMousePosition { x: 10, y: -3 };
    assert_eq!(from.delta_to(TerongMousePosition { x: 4, y: 7 }), (-6, 10));
    assert_eq!(from.delta_to(from), (0, 0));
}

#[test]
fn movement_converts_from_a_pair() {
    let m: MouseMovement = (3, -4).into();
    assert_eq!(m, MouseMovement { dx: 3, dy: -4 });
    let p: MousePosition = (7, 8).into();
    assert_eq!(p, MousePosition { x: 7, y: 8 });
}

#[test]
fn positions_are_not_relayed() {
    let e = LocalInputEvent::MousePosition(MousePosition { x: 5, y: 5 });
    assert_eq!(e.into_input_event(), None);
}

#[test]
fn inputs_are_relayed_as_protocol_events() {
    assert_eq!(
        LocalInputEvent::MouseMove(MouseMovement { dx: 1, dy: -1 }).into_input_event(),
        Some(InputEvent::MouseMove { dx: 1, dy: -1 })
    );
    assert_eq!(
        LocalInputEvent::KeyRepeat { key: KeyCode::A }.into_input_event(),
        Some(InputEvent::KeyRepeat { key: KeyCode::A })
    );
    assert_eq!(
        LocalInputEvent::MouseButtonUp { button: MouseButton::Right }.into_input_event(),
        Some(InputEvent::MouseButtonUp { button: MouseButton::Right })
    );
}
