use crate::protocol::input_event::{KeyCode, MouseButton};
use vstd::prelude::*;

verus! {

/// An input event observed on the server's own devices.
#[derive(Clone, Copy, PartialEq, Eq, Debug, Structural)]
pub enum LocalInputEvent {
    MousePosition(MousePosition),
    MouseButtonDown { button: MouseButton },
    MouseButtonUp { button: MouseButton },
    MouseScroll {},
    KeyDown { key: KeyCode },
    KeyUp { key: KeyCode },
}

/// Absolute position of the mouse cursor on the server's screen.
#[derive(Clone, Copy, PartialEq, Eq, Debug, Structural)]
pub struct MousePosition {
    pub x: i32,
    pub y: i32,
}

impl MousePosition {
    /// Movement that takes the cursor from `self` to `other`.
    pub fn delta_to(&self, other: &Self) -> (r: (i32, i32))
        requires
            i32::MIN <= other.x - self.x <= i32::MAX,
            i32::MIN <= other.y - self.y <= i32::MAX,
        ensures
            r.0 == other.x - self.x,
            r.1 == other.y - self.y,
    {
        let MousePosition { x: x1, y: y1 } = *self;
        let MousePosition { x: x2, y: y2 } = *other;
        let x = x2 - x1;
        let y = y2 - y1;
        (x, y)
    }
}

} // verus!
