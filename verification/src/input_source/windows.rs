//! Mapping of the events reported by the Windows low level mouse and keyboard
//! hooks, and the state shared between the hooks and the message loop.

use super::event::{LocalInputEvent, MouseMovement, MousePosition};
use crate::transport::protocol::input_event::windows::VirtualKey;
use crate::transport::protocol::{KeyCode, MouseButton, MouseScrollDirection};
use vstd::prelude::*;

verus! {

pub const WM_KEYDOWN: u32 = 0x0100;

pub const WM_KEYUP: u32 = 0x0101;

pub const WM_SYSKEYDOWN: u32 = 0x0104;

pub const WM_SYSKEYUP: u32 = 0x0105;

pub const WM_MOUSEMOVE: u32 = 0x0200;

pub const WM_LBUTTONDOWN: u32 = 0x0201;

pub const WM_LBUTTONUP: u32 = 0x0202;

pub const WM_RBUTTONDOWN: u32 = 0x0204;

pub const WM_RBUTTONUP: u32 = 0x0205;

pub const WM_MBUTTONDOWN: u32 = 0x0207;

pub const WM_MBUTTONUP: u32 = 0x0208;

pub const WM_MOUSEWHEEL: u32 = 0x020A;

pub const WM_XBUTTONDOWN: u32 = 0x020B;

pub const WM_XBUTTONUP: u32 = 0x020C;

/// Wheel movement of one click.
pub const WHEEL_DELTA: i16 = 120;

/// Extra button code of the first X button (back).
pub const XBUTTON1: u16 = 0x0001;

/// Extra button code of the second X button (forward).
pub const XBUTTON2: u16 = 0x0002;

/// The high-order word of a hook's mouse data.
pub open spec fn high_word(data: u32) -> u16 {
    (data / 0x10000) as u16
}

/// The extra mouse button named by the high-order word of `data`.
pub open spec fn mouse_button_of(data: u32) -> Option<MouseButton> {
    if high_word(data) == XBUTTON1 {
        Some(MouseButton::Mouse4)
    } else if high_word(data) == XBUTTON2 {
        Some(MouseButton::Mouse5)
    } else {
        None
    }
}

pub fn get_mouse_button(data: u32) -> (r: Option<MouseButton>)
    ensures
        r == mouse_button_of(data),
{
    let value = (data / 0x10000) as u16;
    if value == XBUTTON1 {
        Some(MouseButton::Mouse4)
    } else if value == XBUTTON2 {
        Some(MouseButton::Mouse5)
    } else {
        None
    }
}

/// Wheel rotation of a hook's mouse data: its high-order word as a signed
/// number.
pub open spec fn wheel_delta(data: u32) -> i16 {
    high_word(data) as i16
}

/// Scroll of a wheel rotation: whole clicks, rounded toward zero, upwards when
/// positive; the number of clicks is truncated to `u8`.
pub open spec fn scroll_direction(delta: i16) -> Option<MouseScrollDirection> {
    let clicks = delta as int / WHEEL_DELTA as int;
    // rounding toward zero
    let clicks = if delta < 0 && delta as int % WHEEL_DELTA as int != 0 {
        clicks + 1
    } else {
        clicks
    };
    if clicks < 0 {
        Some(MouseScrollDirection::Down { clicks: (-clicks) as u8 })
    } else if clicks == 0 {
        None
    } else {
        Some(MouseScrollDirection::Up { clicks: clicks as u8 })
    }
}

pub fn get_scroll_direction(data: u32) -> (r: Option<MouseScrollDirection>)
    ensures
        r == scroll_direction(wheel_delta(data)),
{
    let delta = (data / 0x10000) as u16 as i16;
    let clicks = delta / WHEEL_DELTA;
    assert(clicks == (if delta < 0 && delta as int % WHEEL_DELTA as int != 0 {
        delta as int / WHEEL_DELTA as int + 1
    } else {
        delta as int / WHEEL_DELTA as int
    }));
    if clicks < 0 {
        Some(MouseScrollDirection::Down { clicks: (-clicks) as u8 })
    } else if clicks == 0 {
        None
    } else {
        Some(MouseScrollDirection::Up { clicks: clicks as u8 })
    }
}

/// Maps repeated key-down events into key-repeat events.
#[derive(Clone, Debug)]
pub struct LocalEventMapper {
    prev_event: Option<LocalInputEvent>,
}

/// `new_event` as mapped after `prev_event`: a key-down of the key that went
/// down in the previous event is a key repeat.
pub open spec fn key_repeat_of(prev_event: Option<LocalInputEvent>, new_event: LocalInputEvent) -> LocalInputEvent {
    match (prev_event, new_event) {
        (Some(LocalInputEvent::KeyDown { key: prev_key }), LocalInputEvent::KeyDown { key }) => {
            if key == prev_key {
                LocalInputEvent::KeyRepeat { key }
            } else {
                new_event
            }
        },
        _ => new_event,
    }
}

impl LocalEventMapper {
    /// The previous event handed to [`LocalEventMapper::map`], as received.
    pub closed spec fn prev(&self) -> Option<LocalInputEvent> {
        self.prev_event
    }

    pub fn new() -> (r: Self)
        ensures
            r.prev() is None,
    {
        LocalEventMapper { prev_event: None }
    }

    pub fn map(&mut self, event: LocalInputEvent) -> (r: LocalInputEvent)
        ensures
            r == key_repeat_of(old(self).prev(), event),
            final(self).prev() == Some(event),
    {
        let o = self.map_key_repeat(event);
        self.prev_event = Some(event);
        o
    }

    /// Maps repeated key down events into key repeat event.
    pub fn map_key_repeat(&self, new_event: LocalInputEvent) -> (r: LocalInputEvent)
        ensures
            r == key_repeat_of(self.prev(), new_event),
    {
        match (self.prev_event, new_event) {
            (Some(LocalInputEvent::KeyDown { key: prev_key }), LocalInputEvent::KeyDown { key }) => {
                if key == prev_key {
                    LocalInputEvent::KeyRepeat { key }
                } else {
                    new_event
                }
            },
            _ => new_event,
        }
    }
}

/// Holding a key down is reported by the hook as repeated key-down events; the
/// mapper turns every one after the first into a key repeat, while the key
/// stays down.
pub proof fn lemma_held_key_repeats(m: Option<LocalInputEvent>, key: KeyCode)
    ensures
        key_repeat_of(Some(LocalInputEvent::KeyDown { key }), LocalInputEvent::KeyDown { key })
            == (LocalInputEvent::KeyRepeat { key }),
        m is None ==> key_repeat_of(m, LocalInputEvent::KeyDown { key })
            == (LocalInputEvent::KeyDown { key }),
{
}

/// Half of `n`, rounded toward zero (Rust's integer division).
pub open spec fn half_toward_zero(n: i32) -> int {
    if n < 0 && n % 2 != 0 {
        n / 2 + 1
    } else {
        n / 2
    }
}

/// Coordinate of the center of a work area whose right and bottom edges are
/// at `right` and `bottom`, truncated to `i16`.
pub open spec fn center_of(right: i32, bottom: i32) -> (i16, i16) {
    (half_toward_zero(right) as i16, half_toward_zero(bottom) as i16)
}

/// Returns coordinate for the center of the screen, given the work area's
/// right and bottom edges.
pub fn get_screen_center(right: i32, bottom: i32) -> (r: (i16, i16))
    ensures
        r == center_of(right, bottom),
{
    let x = (right / 2) as i16;
    let y = (bottom / 2) as i16;
    (x, y)
}

/// What the message loop knows of the cursor lock: whether inputs are
/// consumed, where the cursor is held meanwhile, and where it was when
/// consuming started.
#[derive(Clone, Copy, Debug)]
pub struct CursorLock {
    pub consuming: bool,
    pub locked_pos: MousePosition,
    pub saved_pos: Option<MousePosition>,
}

/// Before waiting for a message, with the cursor at `cursor`: while inputs
/// are consumed the cursor is moved to the locked position (the move is the
/// second result), and the first such cursor position is remembered.
pub open spec fn lock_step(s: CursorLock, cursor: MousePosition) -> (CursorLock, Option<MousePosition>) {
    if s.consuming {
        (
            CursorLock {
                saved_pos: if s.saved_pos is None {
                    Some(cursor)
                } else {
                    s.saved_pos
                },
                ..s
            },
            Some(s.locked_pos),
        )
    } else {
        (s, None)
    }
}

/// After the controller decided whether inputs are consumed: when consuming
/// stops, the remembered position is where the cursor is put back (the
/// second result), and it is forgotten.
pub open spec fn consume_step(s: CursorLock, consume: bool) -> (CursorLock, Option<MousePosition>) {
    if s.consuming && !consume {
        (CursorLock { consuming: false, saved_pos: None, ..s }, s.saved_pos)
    } else {
        (CursorLock { consuming: consume, ..s }, None)
    }
}

/// One turn of the message loop: the lock before waiting with the cursor at
/// `cursor`, then the controller's decision `consume`. Yields the new state,
/// the move of the lock and the restoring move.
pub open spec fn loop_turn(s: CursorLock, cursor: MousePosition, consume: bool) -> (
    CursorLock,
    Option<MousePosition>,
    Option<MousePosition>,
) {
    let (s1, lock_move) = lock_step(s, cursor);
    let (s2, restore) = consume_step(s1, consume);
    (s2, lock_move, restore)
}

/// The state after turns that all decide to keep consuming, with the cursor
/// at `cursors` before each wait.
pub open spec fn consuming_turns(s: CursorLock, cursors: Seq<MousePosition>) -> CursorLock
    decreases cursors.len(),
{
    if cursors.len() == 0 {
        s
    } else {
        consuming_turns(loop_turn(s, cursors[0], true).0, cursors.drop_first())
    }
}

/// The moves of the lock during those turns.
pub open spec fn consuming_moves(s: CursorLock, cursors: Seq<MousePosition>) -> Seq<Option<MousePosition>>
    decreases cursors.len(),
{
    if cursors.len() == 0 {
        Seq::empty()
    } else {
        seq![loop_turn(s, cursors[0], true).1] + consuming_moves(
            loop_turn(s, cursors[0], true).0,
            cursors.drop_first(),
        )
    }
}

proof fn lemma_consuming_turns(s: CursorLock, cursors: Seq<MousePosition>)
    requires
        s.consuming,
        s.saved_pos is Some,
    ensures
        consuming_turns(s, cursors) == s,
        forall|i: int|
            0 <= i < cursors.len() ==> #[trigger] consuming_moves(s, cursors)[i] == Some(
                s.locked_pos,
            ),
        consuming_moves(s, cursors).len() == cursors.len(),
    decreases cursors.len(),
{
    if cursors.len() > 0 {
        lemma_consuming_turns(s, cursors.drop_first());
        assert(loop_turn(s, cursors[0], true).0 == s);
        let tail = consuming_moves(s, cursors.drop_first());
        assert forall|i: int| 0 <= i < cursors.len() implies #[trigger] consuming_moves(s, cursors)[i]
            == Some(s.locked_pos) by {
            if i > 0 {
                assert(consuming_moves(s, cursors)[i] == tail[i - 1]);
            }
        }
    }
}

/// The cursor lock over one period of consuming: the turn that starts
/// consuming does not move the cursor; every later turn moves it to the
/// locked position before waiting; the turn that stops consuming puts the
/// cursor back where it was at the first lock, once, and the loop is back
/// in a state like the one it started from.
pub proof fn lemma_cursor_lock_period(
    s: CursorLock,
    start: MousePosition,
    cursors: Seq<MousePosition>,
    last: MousePosition,
)
    requires
        !s.consuming,
        s.saved_pos is None,
    ensures
        ({
            let (s1, m1, r1) = loop_turn(s, start, true);
            let s2 = consuming_turns(s1, cursors);
            let (s3, m3, r3) = loop_turn(s2, last, false);
            &&& m1 is None && r1 is None && s1.consuming
            &&& forall|i: int|
                0 <= i < cursors.len() ==> #[trigger] consuming_moves(s1, cursors)[i] == Some(
                    s.locked_pos,
                )
            &&& m3 == Some(s.locked_pos)
            &&& r3 == Some(
                if cursors.len() > 0 {
                    cursors[0]
                } else {
                    last
                },
            )
            &&& s3 == s
        }),
{
    let (s1, m1, r1) = loop_turn(s, start, true);
    if cursors.len() > 0 {
        let t = loop_turn(s1, cursors[0], true).0;
        assert(t.saved_pos == Some(cursors[0]));
        lemma_consuming_turns(t, cursors.drop_first());
        assert(consuming_turns(s1, cursors) == t);
        let tail = consuming_moves(t, cursors.drop_first());
        assert forall|i: int| 0 <= i < cursors.len() implies #[trigger] consuming_moves(s1, cursors)[i]
            == Some(s.locked_pos) by {
            if i > 0 {
                assert(consuming_moves(s1, cursors)[i] == tail[i - 1]);
            }
        }
    }
}

/// State shared by the hooks and the message loop of the input source.
#[derive(Clone, Copy, Debug)]
pub struct InputSourceState {
    /// Inputs are consumed: the hooks swallow them and the cursor is locked.
    consume_input: bool,
    /// Position at which the cursor is held while inputs are consumed.
    cursor_locked_pos: MousePosition,
    /// Position of the cursor when consuming started, to restore it later.
    old_cursor_pos: Option<MousePosition>,
}

impl InputSourceState {
    pub closed spec fn consuming(&self) -> bool {
        self.consume_input
    }

    pub closed spec fn locked_pos(&self) -> MousePosition {
        self.cursor_locked_pos
    }

    pub closed spec fn saved_pos(&self) -> Option<MousePosition> {
        self.old_cursor_pos
    }

    /// The cursor lock held by this state.
    pub open spec fn lock_state(&self) -> CursorLock {
        CursorLock {
            consuming: self.consuming(),
            locked_pos: self.locked_pos(),
            saved_pos: self.saved_pos(),
        }
    }

    pub fn new(cursor_locked_pos: MousePosition) -> (r: Self)
        ensures
            !r.consuming(),
            r.locked_pos() == cursor_locked_pos,
            r.saved_pos() is None,
    {
        InputSourceState { consume_input: false, cursor_locked_pos, old_cursor_pos: None }
    }

    /// Returns `true` if we should consume inputs.
    pub fn consume_input(&self) -> (r: bool)
        ensures
            r == self.consuming(),
    {
        self.consume_input
    }

    /// Updates `consume_input()` value.
    pub fn set_consume_input(&mut self, value: bool)
        ensures
            final(self).consuming() == value,
            final(self).locked_pos() == old(self).locked_pos(),
            final(self).saved_pos() == old(self).saved_pos(),
    {
        self.consume_input = value;
    }

    pub fn get_cursor_locked_pos(&self) -> (r: MousePosition)
        ensures
            r == self.locked_pos(),
    {
        self.cursor_locked_pos
    }

    /// Before waiting for a message: while consuming inputs, remembers the
    /// cursor position `cursor_pos` if none is remembered yet and returns the
    /// position the cursor must be moved to.
    pub fn lock_cursor(&mut self, cursor_pos: MousePosition) -> (r: Option<MousePosition>)
        ensures
            final(self).consuming() == old(self).consuming(),
            final(self).locked_pos() == old(self).locked_pos(),
            old(self).consuming() ==> r == Some(old(self).locked_pos()) && final(self).saved_pos()
                == (if old(self).saved_pos() is None {
                Some(cursor_pos)
            } else {
                old(self).saved_pos()
            }),
            !old(self).consuming() ==> r is None && final(self).saved_pos() == old(self).saved_pos(),
            (final(self).lock_state(), r) == lock_step(old(self).lock_state(), cursor_pos),
    {
        if self.consume_input {
            // capture cursor position, so we can restore it later
            if self.old_cursor_pos.is_none() {
                self.old_cursor_pos = Some(cursor_pos);
            }
            Some(self.cursor_locked_pos)
        } else {
            None
        }
    }

    /// After the controller decided whether inputs should be consumed: switches
    /// consuming to `should_consume_input` and, when consuming stops, returns
    /// the remembered cursor position to restore.
    pub fn update_consume_input(&mut self, should_consume_input: bool) -> (r: Option<MousePosition>)
        ensures
            final(self).consuming() == should_consume_input,
            final(self).locked_pos() == old(self).locked_pos(),
            (old(self).consuming() && !should_consume_input) ==> r == old(self).saved_pos()
                && final(self).saved_pos() is None,
            !(old(self).consuming() && !should_consume_input) ==> r is None
                && final(self).saved_pos() == old(self).saved_pos(),
            (final(self).lock_state(), r) == consume_step(old(self).lock_state(), should_consume_input),
    {
        let mut restore = None;
        if should_consume_input != self.consume_input {
            // consuming input is turned off, restore old cursor position
            if !should_consume_input {
                restore = self.old_cursor_pos.take();
            }
            self.set_consume_input(should_consume_input);
        }
        restore
    }

    /// The local event described by a mouse hook event: the message code, the
    /// cursor position and the mouse data.
    pub fn mouse_hook_event(&self, message: u32, pt_x: i32, pt_y: i32, mouse_data: u32) -> (r:
        Option<LocalInputEvent>)
        requires
            message == WM_MOUSEMOVE && self.consuming() ==> {
                &&& i16::MIN <= pt_x as i16 - self.locked_pos().x <= i16::MAX
                &&& i16::MIN <= pt_y as i16 - self.locked_pos().y <= i16::MAX
            },
        ensures
            r == mouse_hook_event_of(message, pt_x, pt_y, mouse_data, self.consuming(), self.locked_pos()),
    {
        // map hook event to input event
        match message {
            WM_MOUSEMOVE => {
                let x = pt_x as i16;
                let y = pt_y as i16;
                let pos = MousePosition { x, y };
                if self.consume_input() {
                    let movement = self.get_cursor_locked_pos().delta_to(&pos);
                    Some(LocalInputEvent::MouseMove(movement))
                } else {
                    Some(LocalInputEvent::MousePosition(pos))
                }
            },
            WM_LBUTTONDOWN => Some(LocalInputEvent::MouseButtonDown { button: MouseButton::Left }),
            WM_LBUTTONUP => Some(LocalInputEvent::MouseButtonUp { button: MouseButton::Left }),
            WM_RBUTTONDOWN => Some(LocalInputEvent::MouseButtonDown { button: MouseButton::Right }),
            WM_RBUTTONUP => Some(LocalInputEvent::MouseButtonUp { button: MouseButton::Right }),
            WM_MBUTTONDOWN => Some(LocalInputEvent::MouseButtonDown { button: MouseButton::Middle }),
            WM_MBUTTONUP => Some(LocalInputEvent::MouseButtonUp { button: MouseButton::Middle }),
            WM_XBUTTONDOWN => match get_mouse_button(mouse_data) {
                Some(button) => Some(LocalInputEvent::MouseButtonDown { button }),
                None => None,
            },
            WM_XBUTTONUP => match get_mouse_button(mouse_data) {
                Some(button) => Some(LocalInputEvent::MouseButtonUp { button }),
                None => None,
            },
            WM_MOUSEWHEEL => match get_scroll_direction(mouse_data) {
                Some(direction) => Some(LocalInputEvent::MouseScroll { direction }),
                None => None,
            },
            _ => None,
        }
    }
}

/// The local event described by a mouse hook event. A cursor move is reported
/// as a position, or, while inputs are consumed, as a movement away from the
/// locked position; coordinates are truncated to `i16`.
pub open spec fn mouse_hook_event_of(
    message: u32,
    pt_x: i32,
    pt_y: i32,
    mouse_data: u32,
    consuming: bool,
    locked: MousePosition,
) -> Option<LocalInputEvent> {
    if message == WM_MOUSEMOVE {
        let pos = MousePosition { x: pt_x as i16, y: pt_y as i16 };
        if consuming {
            Some(
                LocalInputEvent::MouseMove(
                    MouseMovement { dx: (pos.x - locked.x) as i16, dy: (pos.y - locked.y) as i16 },
                ),
            )
        } else {
            Some(LocalInputEvent::MousePosition(pos))
        }
    } else if message == WM_LBUTTONDOWN {
        Some(LocalInputEvent::MouseButtonDown { button: MouseButton::Left })
    } else if message == WM_LBUTTONUP {
        Some(LocalInputEvent::MouseButtonUp { button: MouseButton::Left })
    } else if message == WM_RBUTTONDOWN {
        Some(LocalInputEvent::MouseButtonDown { button: MouseButton::Right })
    } else if message == WM_RBUTTONUP {
        Some(LocalInputEvent::MouseButtonUp { button: MouseButton::Right })
    } else if message == WM_MBUTTONDOWN {
        Some(LocalInputEvent::MouseButtonDown { button: MouseButton::Middle })
    } else if message == WM_MBUTTONUP {
        Some(LocalInputEvent::MouseButtonUp { button: MouseButton::Middle })
    } else if message == WM_XBUTTONDOWN {
        match mouse_button_of(mouse_data) {
            Some(button) => Some(LocalInputEvent::MouseButtonDown { button }),
            None => None,
        }
    } else if message == WM_XBUTTONUP {
        match mouse_button_of(mouse_data) {
            Some(button) => Some(LocalInputEvent::MouseButtonUp { button }),
            None => None,
        }
    } else if message == WM_MOUSEWHEEL {
        match scroll_direction(wheel_delta(mouse_data)) {
            Some(direction) => Some(LocalInputEvent::MouseScroll { direction }),
            None => None,
        }
    } else {
        None
    }
}

/// The key named by a hook's virtual key code, truncated to 16 bits.
pub open spec fn hook_key(vk_code: u32) -> Option<KeyCode> {
    KeyCode::of_virtual_key(vk_code as u16)
}

/// The local event described by a keyboard hook event; key messages must name
/// a known key.
pub open spec fn keyboard_hook_event_of(message: u32, vk_code: u32) -> Option<LocalInputEvent> {
    if message == WM_KEYDOWN || message == WM_SYSKEYDOWN {
        Some(LocalInputEvent::KeyDown { key: hook_key(vk_code)->0 })
    } else if message == WM_KEYUP || message == WM_SYSKEYUP {
        Some(LocalInputEvent::KeyUp { key: hook_key(vk_code)->0 })
    } else {
        None
    }
}

/// Maps a keyboard hook event: its message code and virtual key code.
pub fn keyboard_hook_event(message: u32, vk_code: u32) -> (r: Option<LocalInputEvent>)
    requires
        (message == WM_KEYDOWN || message == WM_SYSKEYDOWN || message == WM_KEYUP || message
            == WM_SYSKEYUP) ==> hook_key(vk_code) is Some,
    ensures
        r == keyboard_hook_event_of(message, vk_code),
{
    match message {
        WM_KEYDOWN | WM_SYSKEYDOWN => {
            let key = KeyCode::from_virtual_key(VirtualKey(vk_code as u16));
            match key {
                Some(key) => Some(LocalInputEvent::KeyDown { key }),
                None => None,
            }
        },
        WM_KEYUP | WM_SYSKEYUP => {
            let key = KeyCode::from_virtual_key(VirtualKey(vk_code as u16));
            match key {
                Some(key) => Some(LocalInputEvent::KeyUp { key }),
                None => None,
            }
        },
        _ => None,
    }
}

/// Each button message reports its own button: the left, right and middle
/// button messages the left, right and middle buttons, an X button message
/// the fourth or fifth button named by its data; a down message a button
/// going down and the matching up message the same button going up. The
/// cursor position, the lock and the other data play no part.
pub proof fn lemma_button_messages_keep_their_button(
    x: i32,
    y: i32,
    data: u32,
    consuming: bool,
    locked: MousePosition,
)
    ensures
        mouse_hook_event_of(WM_LBUTTONDOWN, x, y, data, consuming, locked) == Some(
            LocalInputEvent::MouseButtonDown { button: MouseButton::Left },
        ),
        mouse_hook_event_of(WM_LBUTTONUP, x, y, data, consuming, locked) == Some(
            LocalInputEvent::MouseButtonUp { button: MouseButton::Left },
        ),
        mouse_hook_event_of(WM_RBUTTONDOWN, x, y, data, consuming, locked) == Some(
            LocalInputEvent::MouseButtonDown { button: MouseButton::Right },
        ),
        mouse_hook_event_of(WM_RBUTTONUP, x, y, data, consuming, locked) == Some(
            LocalInputEvent::MouseButtonUp { button: MouseButton::Right },
        ),
        mouse_hook_event_of(WM_MBUTTONDOWN, x, y, data, consuming, locked) == Some(
            LocalInputEvent::MouseButtonDown { button: MouseButton::Middle },
        ),
        mouse_hook_event_of(WM_MBUTTONUP, x, y, data, consuming, locked) == Some(
            LocalInputEvent::MouseButtonUp { button: MouseButton::Middle },
        ),
        data / 0x10000 == XBUTTON1 ==> mouse_hook_event_of(WM_XBUTTONDOWN, x, y, data, consuming, locked)
            == Some(LocalInputEvent::MouseButtonDown { button: MouseButton::Mouse4 })
            && mouse_hook_event_of(WM_XBUTTONUP, x, y, data, consuming, locked) == Some(
            LocalInputEvent::MouseButtonUp { button: MouseButton::Mouse4 },
        ),
        data / 0x10000 == XBUTTON2 ==> mouse_hook_event_of(WM_XBUTTONDOWN, x, y, data, consuming, locked)
            == Some(LocalInputEvent::MouseButtonDown { button: MouseButton::Mouse5 })
            && mouse_hook_event_of(WM_XBUTTONUP, x, y, data, consuming, locked) == Some(
            LocalInputEvent::MouseButtonUp { button: MouseButton::Mouse5 },
        ),
{
}

/// A cursor move is reported where the cursor is, or, while inputs are
/// consumed, as the distance the cursor moved away from the locked position;
/// a wheel turn is reported as the whole clicks it turned, up or down
/// (counted in a `u8`).
pub proof fn lemma_moves_and_wheel_keep_their_amounts(
    x: i32,
    y: i32,
    data: u32,
    consuming: bool,
    locked: MousePosition,
)
    requires
        i16::MIN <= x <= i16::MAX,
        i16::MIN <= y <= i16::MAX,
    ensures
        !consuming ==> mouse_hook_event_of(WM_MOUSEMOVE, x, y, data, consuming, locked) == Some(
            LocalInputEvent::MousePosition(MousePosition { x: x as i16, y: y as i16 }),
        ),
        consuming && i16::MIN <= x - locked.x <= i16::MAX && i16::MIN <= y - locked.y <= i16::MAX
            ==> (mouse_hook_event_of(WM_MOUSEMOVE, x, y, data, consuming, locked) matches Some(
            LocalInputEvent::MouseMove(m),
        ) && m.dx == x - locked.x && m.dy == y - locked.y),
        wheel_delta(data) >= WHEEL_DELTA ==> (mouse_hook_event_of(
            WM_MOUSEWHEEL,
            x,
            y,
            data,
            consuming,
            locked,
        ) matches Some(LocalInputEvent::MouseScroll { direction: MouseScrollDirection::Up { clicks } })
            && clicks == (wheel_delta(data) / WHEEL_DELTA) as u8),
        wheel_delta(data) <= -WHEEL_DELTA ==> (mouse_hook_event_of(
            WM_MOUSEWHEEL,
            x,
            y,
            data,
            consuming,
            locked,
        ) matches Some(LocalInputEvent::MouseScroll { direction: MouseScrollDirection::Down { clicks } })
            && clicks == ((-wheel_delta(data)) / WHEEL_DELTA as int) as u8),
        -WHEEL_DELTA < wheel_delta(data) < WHEEL_DELTA ==> mouse_hook_event_of(
            WM_MOUSEWHEEL,
            x,
            y,
            data,
            consuming,
            locked,
        ) is None,
{
    let w = wheel_delta(data) as int;
    if w <= -120 {
        assert((-w) / 120 == -(if w % 120 != 0 { w / 120 + 1 } else { w / 120 }));
    }
}

/// A key-down message, `WM_KEYDOWN` or `WM_SYSKEYDOWN`, reports the hooked
/// key going down, and a key-up message, `WM_KEYUP` or `WM_SYSKEYUP`, the
/// same key going up: the key whose virtual-key code the hook reported.
/// Other messages report nothing.
pub proof fn lemma_key_messages_keep_direction_and_key(message: u32, vk_code: u32)
    requires
        hook_key(vk_code) is Some,
    ensures
        message == WM_KEYDOWN || message == WM_SYSKEYDOWN ==> (keyboard_hook_event_of(
            message,
            vk_code,
        ) matches Some(LocalInputEvent::KeyDown { key }) && key.virtual_key() == vk_code as u16),
        message == WM_KEYUP || message == WM_SYSKEYUP ==> (keyboard_hook_event_of(
            message,
            vk_code,
        ) matches Some(LocalInputEvent::KeyUp { key }) && key.virtual_key() == vk_code as u16),
        !(message == WM_KEYDOWN || message == WM_SYSKEYDOWN || message == WM_KEYUP || message
            == WM_SYSKEYUP) ==> keyboard_hook_event_of(message, vk_code) is None,
        keyboard_hook_event_of(WM_KEYDOWN, vk_code) == keyboard_hook_event_of(WM_SYSKEYDOWN, vk_code),
        keyboard_hook_event_of(WM_KEYUP, vk_code) == keyboard_hook_event_of(WM_SYSKEYUP, vk_code),
{
    KeyCode::lemma_of_virtual_key_sound(vk_code as u16);
}

} // verus!
