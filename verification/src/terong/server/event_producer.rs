//! Mapping of the Windows keyboard hook events to the input events written on
//! the wire.

use crate::input_source::windows::{WM_KEYDOWN, WM_KEYUP};
use crate::terong::protocol::message::{InputEvent, KeyboardKey};
use crate::terong::server::input_listener::windows::{VK_A, VK_Z};
use vstd::prelude::*;

verus! {

/// The key of a virtual-key code: the letters A to Z, in order.
pub open spec fn keyboard_key_of_vk(vk_code: u32) -> Option<KeyboardKey> {
    if VK_A <= vk_code <= VK_Z {
        KeyboardKey::of_ordinal((vk_code - VK_A + KeyboardKey::A.ordinal()) as u32)
    } else {
        None
    }
}

/// Maps the virtual-key code of a letter to its key.
pub fn keyboard_key_from_vk(vk_code: u32) -> (r: KeyboardKey)
    requires
        keyboard_key_of_vk(vk_code) is Some,
    ensures
        keyboard_key_of_vk(vk_code) == Some(r),
{
    let key_a: u32 = 27;
    assert(key_a == KeyboardKey::A.ordinal());
    let d: u32 = 0x41 - key_a;
    let key = vk_code - d;
    KeyboardKey::from_u32(key)
}

/// The input event of a keyboard hook event: its message and the
/// virtual-key code.
pub open spec fn keyboard_hook_event_of(message: u32, vk_code: u32) -> Option<InputEvent> {
    let key = keyboard_key_of_vk(vk_code)->0;
    if message == WM_KEYDOWN {
        Some(InputEvent::KeyDown { key })
    } else if message == WM_KEYUP {
        Some(InputEvent::KeyUp { key })
    } else {
        None
    }
}

pub fn keyboard_hook_event(message: u32, vk_code: u32) -> (r: Option<InputEvent>)
    requires
        keyboard_key_of_vk(vk_code) is Some,
    ensures
        r == keyboard_hook_event_of(message, vk_code),
{
    let key = keyboard_key_from_vk(vk_code);
    if message == WM_KEYDOWN {
        Some(InputEvent::KeyDown { key })
    } else if message == WM_KEYUP {
        Some(InputEvent::KeyUp { key })
    } else {
        None
    }
}

} // verus!
