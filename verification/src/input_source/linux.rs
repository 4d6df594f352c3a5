//! Mapping of Linux input events read from evdev devices.

use super::event::LocalInputEvent;
use crate::transport::protocol::input_event::linux::{EventCode, LinuxInputEvent, REL_WHEEL};
use crate::transport::protocol::{KeyCode, MouseButton, MouseScrollDirection};
use vstd::prelude::*;

verus! {

/// The local event described by an event of a keyboard device.
///
/// `EV_KEY` events with value 1 (down), 0 (up) or 2 (repeat) of a known key,
/// and with value 1 or 0 of a known mouse button, are mapped; anything else is
/// ignored.
pub open spec fn keyboard_event(x: LinuxInputEvent) -> Option<LocalInputEvent> {
    match x.event_code {
        EventCode::Key(ev_key) => {
            let btn = MouseButton::of_linux_code(ev_key.0);
            let key = KeyCode::of_linux_code(ev_key.0);
            match (x.value, btn, key) {
                (1, Some(button), None) => Some(LocalInputEvent::MouseButtonDown { button }),
                (0, Some(button), None) => Some(LocalInputEvent::MouseButtonUp { button }),
                (1, None, Some(key)) => Some(LocalInputEvent::KeyDown { key }),
                (2, None, Some(key)) => Some(LocalInputEvent::KeyRepeat { key }),
                (0, None, Some(key)) => Some(LocalInputEvent::KeyUp { key }),
                _ => None,
            }
        },
        _ => None,
    }
}

/// The local event described by an event of a mouse device: the wheel turned
/// by `value` clicks, upwards when positive; the number of clicks is the
/// value truncated to `u8`.
pub open spec fn mouse_event(x: LinuxInputEvent) -> Option<LocalInputEvent> {
    match x.event_code {
        EventCode::Rel(code) => if code == REL_WHEEL {
            if x.value < 0 {
                Some(
                    LocalInputEvent::MouseScroll {
                        direction: MouseScrollDirection::Down { clicks: x.value as u8 },
                    },
                )
            } else if x.value == 0 {
                None
            } else {
                Some(
                    LocalInputEvent::MouseScroll {
                        direction: MouseScrollDirection::Up { clicks: x.value as u8 },
                    },
                )
            }
        } else {
            None
        },
        _ => None,
    }
}

pub fn map_keyboard_event(x: &LinuxInputEvent) -> (r: Option<LocalInputEvent>)
    ensures
        r == keyboard_event(*x),
{
    let LinuxInputEvent { event_code, value } = *x;
    match event_code {
        EventCode::Key(ev_key) => {
            let btn = MouseButton::from_ev_key(ev_key);
            let key = KeyCode::from_ev_key(ev_key);
            match (value, btn, key) {
                (1, Some(button), None) => Some(LocalInputEvent::MouseButtonDown { button }),
                (0, Some(button), None) => Some(LocalInputEvent::MouseButtonUp { button }),
                (1, None, Some(key)) => Some(LocalInputEvent::KeyDown { key }),
                (2, None, Some(key)) => Some(LocalInputEvent::KeyRepeat { key }),
                (0, None, Some(key)) => Some(LocalInputEvent::KeyUp { key }),
                _ => None,
            }
        },
        _ => None,
    }
}

pub fn map_mouse_event(x: &LinuxInputEvent) -> (r: Option<LocalInputEvent>)
    ensures
        r == mouse_event(*x),
{
    let LinuxInputEvent { event_code, value } = *x;
    match event_code {
        EventCode::Rel(code) => {
            if code == REL_WHEEL {
                if value < 0 {
                    Some(
                        LocalInputEvent::MouseScroll {
                            direction: MouseScrollDirection::Down { clicks: value as u8 },
                        },
                    )
                } else if value == 0 {
                    None
                } else {
                    Some(
                        LocalInputEvent::MouseScroll {
                            direction: MouseScrollDirection::Up { clicks: value as u8 },
                        },
                    )
                }
            } else {
                None
            }
        },
        _ => None,
    }
}

} // verus!
