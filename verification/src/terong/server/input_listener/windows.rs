//! Mapping of the Windows low-level hook events to input events, and whether
//! a hooked event reaches the rest of the system.

use crate::input_source::windows::{WM_KEYDOWN, WM_KEYUP, WM_LBUTTONDOWN, WM_LBUTTONUP, WM_MOUSEMOVE};
use crate::terong::input_event::{KeyCode, MouseButton};
use crate::terong::server::input_listener::event::{LocalInputEvent, MousePosition};
use vstd::prelude::*;

verus! {

/// Virtual-key code of the Enter key.
pub const VK_RETURN: u16 = 0x0D;

/// Virtual-key code of the space bar.
pub const VK_SPACE: u16 = 0x20;

/// Virtual-key code of the A key; the letters follow in order up to Z.
pub const VK_A: u16 = 0x41;

/// Virtual-key code of the Z key.
pub const VK_Z: u16 = 0x5A;

/// Virtual-key code of the left Ctrl key.
pub const VK_LCONTROL: u16 = 0xA2;

/// Virtual-key code of the right Ctrl key.
pub const VK_RCONTROL: u16 = 0xA3;

/// Virtual-key code of the left Alt key.
pub const VK_LMENU: u16 = 0xA4;

/// Virtual-key code of the right Alt key.
pub const VK_RMENU: u16 = 0xA5;

/// The key of a virtual-key code, for the codes that are handled.
pub open spec fn key_code_of_vk(vk: u16) -> Option<KeyCode> {
    if vk == VK_SPACE {
        Some(KeyCode::Space)
    } else if vk == VK_RETURN {
        Some(KeyCode::Enter)
    } else if VK_A <= vk <= VK_Z {
        KeyCode::of_ordinal((vk - VK_A + KeyCode::A.ordinal()) as u16)
    } else if vk == VK_LCONTROL {
        Some(KeyCode::LeftCtrl)
    } else if vk == VK_RCONTROL {
        Some(KeyCode::RightCtrl)
    } else if vk == VK_LMENU {
        Some(KeyCode::LeftAlt)
    } else if vk == VK_RMENU {
        Some(KeyCode::RightAlt)
    } else {
        None
    }
}

/// Maps a virtual-key code (its low 16 bits) to a key.
pub fn key_code_from_vk(vk_code: u32) -> (r: KeyCode)
    requires
        key_code_of_vk(vk_code as u16) is Some,
    ensures
        key_code_of_vk(vk_code as u16) == Some(r),
{
    let vk_code = vk_code as u16;
    if vk_code == VK_SPACE {
        KeyCode::Space
    } else if vk_code == VK_RETURN {
        KeyCode::Enter
    } else if VK_A <= vk_code && vk_code <= VK_Z {
        let key_a: u16 = 27;
        assert(key_a == KeyCode::A.ordinal());
        let key = vk_code - (VK_A - key_a);
        KeyCode::from_u16(key)
    } else if vk_code == VK_LCONTROL {
        KeyCode::LeftCtrl
    } else if vk_code == VK_RCONTROL {
        KeyCode::RightCtrl
    } else if vk_code == VK_LMENU {
        KeyCode::LeftAlt
    } else {
        KeyCode::RightAlt
    }
}

/// Distinct handled virtual-key codes map to distinct keys, and the letters
/// keep their order.
pub proof fn lemma_key_code_of_vk_injective(a: u16, b: u16)
    requires
        key_code_of_vk(a) is Some,
        key_code_of_vk(a) == key_code_of_vk(b),
    ensures
        a == b,
{
    let ka = key_code_of_vk(a)->0;
    ka.lemma_ordinal_inverse();
    if VK_A <= a <= VK_Z {
        assert(ka.ordinal() == a - VK_A + 27);
    }
    if VK_A <= b <= VK_Z {
        assert(ka.ordinal() == b - VK_A + 27);
    }
}

/// The input event of a low-level mouse hook event: its message and the
/// cursor position.
pub open spec fn mouse_hook_event_of(message: u32, x: i32, y: i32) -> Option<LocalInputEvent> {
    if message == WM_MOUSEMOVE {
        Some(LocalInputEvent::MousePosition(MousePosition { x, y }))
    } else if message == WM_LBUTTONDOWN {
        Some(LocalInputEvent::MouseButtonDown { button: MouseButton::Left })
    } else if message == WM_LBUTTONUP {
        Some(LocalInputEvent::MouseButtonUp { button: MouseButton::Left })
    } else {
        None
    }
}

pub fn mouse_hook_event(message: u32, x: i32, y: i32) -> (r: Option<LocalInputEvent>)
    ensures
        r == mouse_hook_event_of(message, x, y),
{
    if message == WM_MOUSEMOVE {
        Some(LocalInputEvent::MousePosition(MousePosition { x, y }))
    } else if message == WM_LBUTTONDOWN {
        Some(LocalInputEvent::MouseButtonDown { button: MouseButton::Left })
    } else if message == WM_LBUTTONUP {
        Some(LocalInputEvent::MouseButtonUp { button: MouseButton::Left })
    } else {
        None
    }
}

/// The input event of a low-level keyboard hook event: its message and the
/// virtual-key code.
pub open spec fn keyboard_hook_event_of(message: u32, vk_code: u32) -> Option<LocalInputEvent> {
    let key = key_code_of_vk(vk_code as u16)->0;
    if message == WM_KEYDOWN {
        Some(LocalInputEvent::KeyDown { key })
    } else if message == WM_KEYUP {
        Some(LocalInputEvent::KeyUp { key })
    } else {
        None
    }
}

pub fn keyboard_hook_event(message: u32, vk_code: u32) -> (r: Option<LocalInputEvent>)
    requires
        key_code_of_vk(vk_code as u16) is Some,
    ensures
        r == keyboard_hook_event_of(message, vk_code),
{
    let key = key_code_from_vk(vk_code);
    if message == WM_KEYDOWN {
        Some(LocalInputEvent::KeyDown { key })
    } else if message == WM_KEYUP {
        Some(LocalInputEvent::KeyUp { key })
    } else {
        None
    }
}

/// A hooked event reaches the rest of the system unless it was mapped to an
/// input event while the listener captures the user's inputs.
pub fn passes_through(event: &Option<LocalInputEvent>, should_capture: bool) -> (r: bool)
    ensures
        r == !(event is Some && should_capture),
{
    !(event.is_some() && should_capture)
}

/// Whether the hooks capture the user's inputs, shared by the hook
/// procedures and the listener.
#[derive(Clone, Copy, PartialEq, Eq, Debug, Structural)]
pub struct CaptureFlag {
    pub value: bool,
}

impl CaptureFlag {
    /// Inputs pass through until told otherwise.
    pub fn new() -> (r: Self)
        ensures
            !r.value,
    {
        CaptureFlag { value: false }
    }

    pub fn should_capture(&self) -> (r: bool)
        ensures
            r == self.value,
    {
        self.value
    }

    pub fn set_should_capture_flag(&mut self, x: bool)
        ensures
            final(self).value == x,
    {
        self.value = x;
    }
}

} // verus!
