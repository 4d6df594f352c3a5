use crate::transport::protocol::{InputEvent, KeyCode, MouseButton, MouseScrollDirection};
use vstd::prelude::*;

verus! {

/// An input event as observed on the server host machine.
#[derive(Clone, Copy, PartialEq, Eq, Debug, Structural)]
pub enum LocalInputEvent {
    MousePosition(MousePosition),
    MouseMove(MouseMovement),
    MouseButtonDown { button: MouseButton },
    MouseButtonUp { button: MouseButton },
    MouseScroll { direction: MouseScrollDirection },
    KeyDown { key: KeyCode },
    KeyRepeat { key: KeyCode },
    KeyUp { key: KeyCode },
}

/// Relative mouse movement.
#[derive(Clone, Copy, PartialEq, Eq, Debug, Structural)]
pub struct MouseMovement {
    pub dx: i16,
    pub dy: i16,
}

impl From<(i16, i16)> for MouseMovement {
    fn from(xy: (i16, i16)) -> (r: Self) {
        let (dx, dy) = xy;
        MouseMovement { dx, dy }
    }
}

impl vstd::std_specs::convert::FromSpecImpl<(i16, i16)> for MouseMovement {
    open spec fn obeys_from_spec() -> bool {
        true
    }

    open spec fn from_spec(xy: (i16, i16)) -> Self {
        MouseMovement { dx: xy.0, dy: xy.1 }
    }
}

impl Default for MouseMovement {
    fn default() -> (r: Self)
        ensures
            r == (MouseMovement { dx: 0, dy: 0 }),
    {
        MouseMovement { dx: 0, dy: 0 }
    }
}

/// Absolute mouse cursor position.
#[derive(Clone, Copy, PartialEq, Eq, Debug, Structural)]
pub struct MousePosition {
    pub x: i16,
    pub y: i16,
}

impl From<(i16, i16)> for MousePosition {
    fn from(xy: (i16, i16)) -> (r: Self) {
        let (x, y) = xy;
        MousePosition { x, y }
    }
}

impl vstd::std_specs::convert::FromSpecImpl<(i16, i16)> for MousePosition {
    open spec fn obeys_from_spec() -> bool {
        true
    }

    open spec fn from_spec(xy: (i16, i16)) -> Self {
        MousePosition { x: xy.0, y: xy.1 }
    }
}

impl Default for MousePosition {
    fn default() -> (r: Self)
        ensures
            r == (MousePosition { x: 0, y: 0 }),
    {
        MousePosition { x: 0, y: 0 }
    }
}

impl MousePosition {
    /// Movement that takes the cursor from `self` to `other`.
    pub fn delta_to(&self, other: &Self) -> (r: MouseMovement)
        requires
            i16::MIN <= other.x - self.x <= i16::MAX,
            i16::MIN <= other.y - self.y <= i16::MAX,
        ensures
            r.dx == other.x - self.x,
            r.dy == other.y - self.y,
    {
        let MousePosition { x: x1, y: y1 } = *self;
        let MousePosition { x: x2, y: y2 } = *other;
        let dx = x2 - x1;
        let dy = y2 - y1;
        MouseMovement { dx, dy }
    }
}

impl LocalInputEvent {
    /// The protocol event that relays this local event, if it is relayed at all.
    ///
    /// Absolute cursor positions are local to the server screen and have no
    /// protocol counterpart.
    pub open spec fn relayed(self) -> Option<InputEvent> {
        match self {
            LocalInputEvent::MousePosition(_) => None,
            LocalInputEvent::MouseMove(m) => Some(InputEvent::MouseMove { dx: m.dx, dy: m.dy }),
            LocalInputEvent::MouseButtonDown { button } => Some(
                InputEvent::MouseButtonDown { button },
            ),
            LocalInputEvent::MouseButtonUp { button } => Some(InputEvent::MouseButtonUp { button }),
            LocalInputEvent::MouseScroll { direction } => Some(
                InputEvent::MouseScroll { direction },
            ),
            LocalInputEvent::KeyDown { key } => Some(InputEvent::KeyDown { key }),
            LocalInputEvent::KeyRepeat { key } => Some(InputEvent::KeyRepeat { key }),
            LocalInputEvent::KeyUp { key } => Some(InputEvent::KeyUp { key }),
        }
    }

    /// Converts local input event into protocol input event.
    pub fn into_input_event(self) -> (r: Option<InputEvent>)
        ensures
            r == self.relayed(),
    {
        match self {
            LocalInputEvent::MouseMove(MouseMovement { dx, dy }) => Some(
                InputEvent::MouseMove { dx, dy },
            ),
            LocalInputEvent::MouseButtonDown { button } => Some(
                InputEvent::MouseButtonDown { button },
            ),
            LocalInputEvent::MouseButtonUp { button } => Some(InputEvent::MouseButtonUp { button }),
            LocalInputEvent::MouseScroll { direction } => Some(
                InputEvent::MouseScroll { direction },
            ),
            LocalInputEvent::KeyDown { key } => Some(InputEvent::KeyDown { key }),
            LocalInputEvent::KeyRepeat { key } => Some(InputEvent::KeyRepeat { key }),
            LocalInputEvent::KeyUp { key } => Some(InputEvent::KeyUp { key }),
            _ => None,
        }
    }
}

/// Relaying keeps what an event says: a movement keeps its amounts, a button
/// or key event its button or key and whether it went down, repeated or up,
/// and a scroll its direction and clicks. Only absolute cursor positions are
/// not relayed, and distinct events relay as distinct protocol events.
pub proof fn lemma_relayed_keeps_the_event(e: LocalInputEvent, f: LocalInputEvent)
    ensures
        e.relayed() is None <==> e is MousePosition,
        e matches LocalInputEvent::MouseMove(m) ==> e.relayed() == Some(
            InputEvent::MouseMove { dx: m.dx, dy: m.dy },
        ),
        e matches LocalInputEvent::MouseButtonDown { button } ==> e.relayed() == Some(
            InputEvent::MouseButtonDown { button },
        ),
        e matches LocalInputEvent::MouseButtonUp { button } ==> e.relayed() == Some(
            InputEvent::MouseButtonUp { button },
        ),
        e matches LocalInputEvent::MouseScroll { direction } ==> e.relayed() == Some(
            InputEvent::MouseScroll { direction },
        ),
        e matches LocalInputEvent::KeyDown { key } ==> e.relayed() == Some(InputEvent::KeyDown { key }),
        e matches LocalInputEvent::KeyRepeat { key } ==> e.relayed() == Some(
            InputEvent::KeyRepeat { key },
        ),
        e matches LocalInputEvent::KeyUp { key } ==> e.relayed() == Some(InputEvent::KeyUp { key }),
        e.relayed() is Some && e.relayed() == f.relayed() ==> e == f,
{
}

} // verus!
