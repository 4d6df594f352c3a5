//! Conversion between keys and mouse buttons and Linux input event codes.

use super::{KeyCode, MouseButton};
use vstd::prelude::*;

verus! {

/// A Linux `EV_KEY` event code.
#[derive(Clone, Copy, PartialEq, Eq, Debug, Structural)]
pub struct EvKey(pub u16);

/// `EV_REL` code of horizontal movement.
pub const REL_X: u16 = 0;

/// `EV_REL` code of vertical movement.
pub const REL_Y: u16 = 1;

/// `EV_REL` code of the mouse wheel.
pub const REL_WHEEL: u16 = 8;

/// `EV_SYN` code that ends a group of events.
pub const SYN_REPORT: u16 = 0;

/// Type and code of a Linux input event.
#[derive(Clone, Copy, PartialEq, Eq, Debug, Structural)]
pub enum EventCode {
    /// `EV_SYN` with its code.
    Syn(u16),
    /// `EV_KEY` with its code.
    Key(EvKey),
    /// `EV_REL` with its code.
    Rel(u16),
    /// An event of another type.
    Other,
}

/// A Linux input event, without its time stamp.
#[derive(Clone, Copy, PartialEq, Eq, Debug, Structural)]
pub struct LinuxInputEvent {
    pub event_code: EventCode,
    pub value: i32,
}

impl KeyCode {
    /// Linux `EV_KEY` code of the key.
    pub open spec fn linux_code(self) -> u16 {
        match self {
            KeyCode::Escape => 1,
            KeyCode::F1 => 59,
            KeyCode::F2 => 60,
            KeyCode::F3 => 61,
            KeyCode::F4 => 62,
            KeyCode::F5 => 63,
            KeyCode::F6 => 64,
            KeyCode::F7 => 65,
            KeyCode::F8 => 66,
            KeyCode::F9 => 67,
            KeyCode::F10 => 68,
            KeyCode::F11 => 87,
            KeyCode::F12 => 88,
            KeyCode::PrintScreen => 210,
            KeyCode::ScrollLock => 70,
            KeyCode::PauseBreak => 119,
            KeyCode::Grave => 41,
            KeyCode::D1 => 2,
            KeyCode::D2 => 3,
            KeyCode::D3 => 4,
            KeyCode::D4 => 5,
            KeyCode::D5 => 6,
            KeyCode::D6 => 7,
            KeyCode::D7 => 8,
            KeyCode::D8 => 9,
            KeyCode::D9 => 10,
            KeyCode::D0 => 11,
            KeyCode::Minus => 12,
            KeyCode::Equal => 13,
            KeyCode::A => 30,
            KeyCode::B => 48,
            KeyCode::C => 46,
            KeyCode::D => 32,
            KeyCode::E => 18,
            KeyCode::F => 33,
            KeyCode::G => 34,
            KeyCode::H => 35,
            KeyCode::I => 23,
            KeyCode::J => 36,
            KeyCode::K => 37,
            KeyCode::L => 38,
            KeyCode::M => 50,
            KeyCode::N => 49,
            KeyCode::O => 24,
            KeyCode::P => 25,
            KeyCode::Q => 16,
            KeyCode::R => 19,
            KeyCode::S => 31,
            KeyCode::T => 20,
            KeyCode::U => 22,
            KeyCode::V => 47,
            KeyCode::W => 17,
            KeyCode::X => 45,
            KeyCode::Y => 21,
            KeyCode::Z => 44,
            KeyCode::LeftBrace => 26,
            KeyCode::RightBrace => 27,
            KeyCode::SemiColon => 39,
            KeyCode::Apostrophe => 40,
            KeyCode::Comma => 51,
            KeyCode::Dot => 52,
            KeyCode::Slash => 53,
            KeyCode::Backspace => 14,
            KeyCode::BackSlash => 43,
            KeyCode::Enter => 28,
            KeyCode::Space => 57,
            KeyCode::Tab => 15,
            KeyCode::CapsLock => 58,
            KeyCode::LeftShift => 42,
            KeyCode::RightShift => 54,
            KeyCode::LeftCtrl => 29,
            KeyCode::RightCtrl => 97,
            KeyCode::LeftAlt => 56,
            KeyCode::RightAlt => 100,
            KeyCode::LeftMeta => 125,
            KeyCode::RightMeta => 126,
            KeyCode::Insert => 110,
            KeyCode::Delete => 111,
            KeyCode::Home => 102,
            KeyCode::End => 107,
            KeyCode::PageUp => 104,
            KeyCode::PageDown => 109,
            KeyCode::Up => 103,
            KeyCode::Left => 105,
            KeyCode::Down => 108,
            KeyCode::Right => 106,
        }
    }

    /// The variant whose `linux_code` is `n`, if any.
    pub open spec fn of_linux_code(n: u16) -> Option<KeyCode> {
        match n {
            1 => Some(KeyCode::Escape),
            59 => Some(KeyCode::F1),
            60 => Some(KeyCode::F2),
            61 => Some(KeyCode::F3),
            62 => Some(KeyCode::F4),
            63 => Some(KeyCode::F5),
            64 => Some(KeyCode::F6),
            65 => Some(KeyCode::F7),
            66 => Some(KeyCode::F8),
            67 => Some(KeyCode::F9),
            68 => Some(KeyCode::F10),
            87 => Some(KeyCode::F11),
            88 => Some(KeyCode::F12),
            210 => Some(KeyCode::PrintScreen),
            70 => Some(KeyCode::ScrollLock),
            119 => Some(KeyCode::PauseBreak),
            41 => Some(KeyCode::Grave),
            2 => Some(KeyCode::D1),
            3 => Some(KeyCode::D2),
            4 => Some(KeyCode::D3),
            5 => Some(KeyCode::D4),
            6 => Some(KeyCode::D5),
            7 => Some(KeyCode::D6),
            8 => Some(KeyCode::D7),
            9 => Some(KeyCode::D8),
            10 => Some(KeyCode::D9),
            11 => Some(KeyCode::D0),
            12 => Some(KeyCode::Minus),
            13 => Some(KeyCode::Equal),
            30 => Some(KeyCode::A),
            48 => Some(KeyCode::B),
            46 => Some(KeyCode::C),
            32 => Some(KeyCode::D),
            18 => Some(KeyCode::E),
            33 => Some(KeyCode::F),
            34 => Some(KeyCode::G),
            35 => Some(KeyCode::H),
            23 => Some(KeyCode::I),
            36 => Some(KeyCode::J),
            37 => Some(KeyCode::K),
            38 => Some(KeyCode::L),
            50 => Some(KeyCode::M),
            49 => Some(KeyCode::N),
            24 => Some(KeyCode::O),
            25 => Some(KeyCode::P),
            16 => Some(KeyCode::Q),
            19 => Some(KeyCode::R),
            31 => Some(KeyCode::S),
            20 => Some(KeyCode::T),
            22 => Some(KeyCode::U),
            47 => Some(KeyCode::V),
            17 => Some(KeyCode::W),
            45 => Some(KeyCode::X),
            21 => Some(KeyCode::Y),
            44 => Some(KeyCode::Z),
            26 => Some(KeyCode::LeftBrace),
            27 => Some(KeyCode::RightBrace),
            39 => Some(KeyCode::SemiColon),
            40 => Some(KeyCode::Apostrophe),
            51 => Some(KeyCode::Comma),
            52 => Some(KeyCode::Dot),
            53 => Some(KeyCode::Slash),
            14 => Some(KeyCode::Backspace),
            43 => Some(KeyCode::BackSlash),
            28 => Some(KeyCode::Enter),
            57 => Some(KeyCode::Space),
            15 => Some(KeyCode::Tab),
            58 => Some(KeyCode::CapsLock),
            42 => Some(KeyCode::LeftShift),
            54 => Some(KeyCode::RightShift),
            29 => Some(KeyCode::LeftCtrl),
            97 => Some(KeyCode::RightCtrl),
            56 => Some(KeyCode::LeftAlt),
            100 => Some(KeyCode::RightAlt),
            125 => Some(KeyCode::LeftMeta),
            126 => Some(KeyCode::RightMeta),
            110 => Some(KeyCode::Insert),
            111 => Some(KeyCode::Delete),
            102 => Some(KeyCode::Home),
            107 => Some(KeyCode::End),
            104 => Some(KeyCode::PageUp),
            109 => Some(KeyCode::PageDown),
            103 => Some(KeyCode::Up),
            105 => Some(KeyCode::Left),
            108 => Some(KeyCode::Down),
            106 => Some(KeyCode::Right),
            _ => None,
        }
    }

    /// `of_linux_code` is a left inverse of `linux_code`; hence `linux_code` is injective.
    pub proof fn lemma_linux_code_inverse(self)
        ensures
            KeyCode::of_linux_code(self.linux_code()) == Some(self),
    {
    }

    /// `of_linux_code` maps a value to a variant only when it is that variant's `linux_code`.
    pub proof fn lemma_of_linux_code_sound(n: u16)
        ensures
            KeyCode::of_linux_code(n) matches Some(k) ==> k.linux_code() == n,
    {
    }

    pub fn to_linux_code(self) -> (r: u16)
        ensures
            r == self.linux_code(),
    {
        match self {
            KeyCode::Escape => 1,
            KeyCode::F1 => 59,
            KeyCode::F2 => 60,
            KeyCode::F3 => 61,
            KeyCode::F4 => 62,
            KeyCode::F5 => 63,
            KeyCode::F6 => 64,
            KeyCode::F7 => 65,
            KeyCode::F8 => 66,
            KeyCode::F9 => 67,
            KeyCode::F10 => 68,
            KeyCode::F11 => 87,
            KeyCode::F12 => 88,
            KeyCode::PrintScreen => 210,
            KeyCode::ScrollLock => 70,
            KeyCode::PauseBreak => 119,
            KeyCode::Grave => 41,
            KeyCode::D1 => 2,
            KeyCode::D2 => 3,
            KeyCode::D3 => 4,
            KeyCode::D4 => 5,
            KeyCode::D5 => 6,
            KeyCode::D6 => 7,
            KeyCode::D7 => 8,
            KeyCode::D8 => 9,
            KeyCode::D9 => 10,
            KeyCode::D0 => 11,
            KeyCode::Minus => 12,
            KeyCode::Equal => 13,
            KeyCode::A => 30,
            KeyCode::B => 48,
            KeyCode::C => 46,
            KeyCode::D => 32,
            KeyCode::E => 18,
            KeyCode::F => 33,
            KeyCode::G => 34,
            KeyCode::H => 35,
            KeyCode::I => 23,
            KeyCode::J => 36,
            KeyCode::K => 37,
            KeyCode::L => 38,
            KeyCode::M => 50,
            KeyCode::N => 49,
            KeyCode::O => 24,
            KeyCode::P => 25,
            KeyCode::Q => 16,
            KeyCode::R => 19,
            KeyCode::S => 31,
            KeyCode::T => 20,
            KeyCode::U => 22,
            KeyCode::V => 47,
            KeyCode::W => 17,
            KeyCode::X => 45,
            KeyCode::Y => 21,
            KeyCode::Z => 44,
            KeyCode::LeftBrace => 26,
            KeyCode::RightBrace => 27,
            KeyCode::SemiColon => 39,
            KeyCode::Apostrophe => 40,
            KeyCode::Comma => 51,
            KeyCode::Dot => 52,
            KeyCode::Slash => 53,
            KeyCode::Backspace => 14,
            KeyCode::BackSlash => 43,
            KeyCode::Enter => 28,
            KeyCode::Space => 57,
            KeyCode::Tab => 15,
            KeyCode::CapsLock => 58,
            KeyCode::LeftShift => 42,
            KeyCode::RightShift => 54,
            KeyCode::LeftCtrl => 29,
            KeyCode::RightCtrl => 97,
            KeyCode::LeftAlt => 56,
            KeyCode::RightAlt => 100,
            KeyCode::LeftMeta => 125,
            KeyCode::RightMeta => 126,
            KeyCode::Insert => 110,
            KeyCode::Delete => 111,
            KeyCode::Home => 102,
            KeyCode::End => 107,
            KeyCode::PageUp => 104,
            KeyCode::PageDown => 109,
            KeyCode::Up => 103,
            KeyCode::Left => 105,
            KeyCode::Down => 108,
            KeyCode::Right => 106,
        }
    }

    /// The variant whose `linux_code` is given, if any.
    pub fn from_ev_key(x: EvKey) -> (r: Option<KeyCode>)
        ensures
            r == KeyCode::of_linux_code(x.0),
            r matches Some(k) ==> k.linux_code() == x.0,
            r is None <==> forall|k: KeyCode| k.linux_code() != x.0,
    {
        proof {
            KeyCode::lemma_of_linux_code_sound(x.0);
            assert forall|k: KeyCode| k.linux_code() == x.0 implies KeyCode::of_linux_code(x.0) == Some(k) by {
                k.lemma_linux_code_inverse();
            }
        }
        match x.0 {
            1 => Some(KeyCode::Escape),
            59 => Some(KeyCode::F1),
            60 => Some(KeyCode::F2),
            61 => Some(KeyCode::F3),
            62 => Some(KeyCode::F4),
            63 => Some(KeyCode::F5),
            64 => Some(KeyCode::F6),
            65 => Some(KeyCode::F7),
            66 => Some(KeyCode::F8),
            67 => Some(KeyCode::F9),
            68 => Some(KeyCode::F10),
            87 => Some(KeyCode::F11),
            88 => Some(KeyCode::F12),
            210 => Some(KeyCode::PrintScreen),
            70 => Some(KeyCode::ScrollLock),
            119 => Some(KeyCode::PauseBreak),
            41 => Some(KeyCode::Grave),
            2 => Some(KeyCode::D1),
            3 => Some(KeyCode::D2),
            4 => Some(KeyCode::D3),
            5 => Some(KeyCode::D4),
            6 => Some(KeyCode::D5),
            7 => Some(KeyCode::D6),
            8 => Some(KeyCode::D7),
            9 => Some(KeyCode::D8),
            10 => Some(KeyCode::D9),
            11 => Some(KeyCode::D0),
            12 => Some(KeyCode::Minus),
            13 => Some(KeyCode::Equal),
            30 => Some(KeyCode::A),
            48 => Some(KeyCode::B),
            46 => Some(KeyCode::C),
            32 => Some(KeyCode::D),
            18 => Some(KeyCode::E),
            33 => Some(KeyCode::F),
            34 => Some(KeyCode::G),
            35 => Some(KeyCode::H),
            23 => Some(KeyCode::I),
            36 => Some(KeyCode::J),
            37 => Some(KeyCode::K),
            38 => Some(KeyCode::L),
            50 => Some(KeyCode::M),
            49 => Some(KeyCode::N),
            24 => Some(KeyCode::O),
            25 => Some(KeyCode::P),
            16 => Some(KeyCode::Q),
            19 => Some(KeyCode::R),
            31 => Some(KeyCode::S),
            20 => Some(KeyCode::T),
            22 => Some(KeyCode::U),
            47 => Some(KeyCode::V),
            17 => Some(KeyCode::W),
            45 => Some(KeyCode::X),
            21 => Some(KeyCode::Y),
            44 => Some(KeyCode::Z),
            26 => Some(KeyCode::LeftBrace),
            27 => Some(KeyCode::RightBrace),
            39 => Some(KeyCode::SemiColon),
            40 => Some(KeyCode::Apostrophe),
            51 => Some(KeyCode::Comma),
            52 => Some(KeyCode::Dot),
            53 => Some(KeyCode::Slash),
            14 => Some(KeyCode::Backspace),
            43 => Some(KeyCode::BackSlash),
            28 => Some(KeyCode::Enter),
            57 => Some(KeyCode::Space),
            15 => Some(KeyCode::Tab),
            58 => Some(KeyCode::CapsLock),
            42 => Some(KeyCode::LeftShift),
            54 => Some(KeyCode::RightShift),
            29 => Some(KeyCode::LeftCtrl),
            97 => Some(KeyCode::RightCtrl),
            56 => Some(KeyCode::LeftAlt),
            100 => Some(KeyCode::RightAlt),
            125 => Some(KeyCode::LeftMeta),
            126 => Some(KeyCode::RightMeta),
            110 => Some(KeyCode::Insert),
            111 => Some(KeyCode::Delete),
            102 => Some(KeyCode::Home),
            107 => Some(KeyCode::End),
            104 => Some(KeyCode::PageUp),
            109 => Some(KeyCode::PageDown),
            103 => Some(KeyCode::Up),
            105 => Some(KeyCode::Left),
            108 => Some(KeyCode::Down),
            106 => Some(KeyCode::Right),
            _ => None,
        }
    }
}

impl From<KeyCode> for EvKey {
    fn from(x: KeyCode) -> (r: Self) {
        EvKey(x.to_linux_code())
    }
}

impl vstd::std_specs::convert::FromSpecImpl<KeyCode> for EvKey {
    open spec fn obeys_from_spec() -> bool {
        true
    }

    open spec fn from_spec(x: KeyCode) -> Self {
        EvKey(x.linux_code())
    }
}

impl MouseButton {
    /// Linux `EV_KEY` code of the button.
    pub open spec fn linux_code(self) -> u16 {
        match self {
            MouseButton::Left => 272,
            MouseButton::Right => 273,
            MouseButton::Middle => 274,
            MouseButton::Mouse4 => 275,
            MouseButton::Mouse5 => 276,
        }
    }

    /// The variant whose `linux_code` is `n`, if any.
    pub open spec fn of_linux_code(n: u16) -> Option<MouseButton> {
        match n {
            272 => Some(MouseButton::Left),
            273 => Some(MouseButton::Right),
            274 => Some(MouseButton::Middle),
            275 => Some(MouseButton::Mouse4),
            276 => Some(MouseButton::Mouse5),
            _ => None,
        }
    }

    /// `of_linux_code` is a left inverse of `linux_code`; hence `linux_code` is injective.
    pub proof fn lemma_linux_code_inverse(self)
        ensures
            MouseButton::of_linux_code(self.linux_code()) == Some(self),
    {
    }

    /// `of_linux_code` maps a value to a variant only when it is that variant's `linux_code`.
    pub proof fn lemma_of_linux_code_sound(n: u16)
        ensures
            MouseButton::of_linux_code(n) matches Some(k) ==> k.linux_code() == n,
    {
    }

    pub fn to_linux_code(self) -> (r: u16)
        ensures
            r == self.linux_code(),
    {
        match self {
            MouseButton::Left => 272,
            MouseButton::Right => 273,
            MouseButton::Middle => 274,
            MouseButton::Mouse4 => 275,
            MouseButton::Mouse5 => 276,
        }
    }

    /// The variant whose `linux_code` is given, if any.
    pub fn from_ev_key(x: EvKey) -> (r: Option<MouseButton>)
        ensures
            r == MouseButton::of_linux_code(x.0),
            r matches Some(k) ==> k.linux_code() == x.0,
            r is None <==> forall|k: MouseButton| k.linux_code() != x.0,
    {
        proof {
            MouseButton::lemma_of_linux_code_sound(x.0);
            assert forall|k: MouseButton| k.linux_code() == x.0 implies MouseButton::of_linux_code(x.0) == Some(k) by {
                k.lemma_linux_code_inverse();
            }
        }
        match x.0 {
            272 => Some(MouseButton::Left),
            273 => Some(MouseButton::Right),
            274 => Some(MouseButton::Middle),
            275 => Some(MouseButton::Mouse4),
            276 => Some(MouseButton::Mouse5),
            _ => None,
        }
    }
}

impl From<MouseButton> for EvKey {
    fn from(x: MouseButton) -> (r: Self) {
        EvKey(x.to_linux_code())
    }
}

impl vstd::std_specs::convert::FromSpecImpl<MouseButton> for EvKey {
    open spec fn obeys_from_spec() -> bool {
        true
    }

    open spec fn from_spec(x: MouseButton) -> Self {
        EvKey(x.linux_code())
    }
}

/// No key shares its Linux event code with a mouse button.
pub proof fn lemma_key_and_button_codes_disjoint(k: KeyCode, b: MouseButton)
    ensures
        k.linux_code() != b.linux_code(),
{
}


/// Linux `EV_KEY` codes, as `linux/input-event-codes.h` names them.
pub const KEY_ESC: u16 = 1;
pub const KEY_1: u16 = 2;
pub const KEY_2: u16 = 3;
pub const KEY_3: u16 = 4;
pub const KEY_4: u16 = 5;
pub const KEY_5: u16 = 6;
pub const KEY_6: u16 = 7;
pub const KEY_7: u16 = 8;
pub const KEY_8: u16 = 9;
pub const KEY_9: u16 = 10;
pub const KEY_0: u16 = 11;
pub const KEY_MINUS: u16 = 12;
pub const KEY_EQUAL: u16 = 13;
pub const KEY_BACKSPACE: u16 = 14;
pub const KEY_TAB: u16 = 15;
pub const KEY_Q: u16 = 16;
pub const KEY_W: u16 = 17;
pub const KEY_E: u16 = 18;
pub const KEY_R: u16 = 19;
pub const KEY_T: u16 = 20;
pub const KEY_Y: u16 = 21;
pub const KEY_U: u16 = 22;
pub const KEY_I: u16 = 23;
pub const KEY_O: u16 = 24;
pub const KEY_P: u16 = 25;
pub const KEY_LEFTBRACE: u16 = 26;
pub const KEY_RIGHTBRACE: u16 = 27;
pub const KEY_ENTER: u16 = 28;
pub const KEY_LEFTCTRL: u16 = 29;
pub const KEY_A: u16 = 30;
pub const KEY_S: u16 = 31;
pub const KEY_D: u16 = 32;
pub const KEY_F: u16 = 33;
pub const KEY_G: u16 = 34;
pub const KEY_H: u16 = 35;
pub const KEY_J: u16 = 36;
pub const KEY_K: u16 = 37;
pub const KEY_L: u16 = 38;
pub const KEY_SEMICOLON: u16 = 39;
pub const KEY_APOSTROPHE: u16 = 40;
pub const KEY_GRAVE: u16 = 41;
pub const KEY_LEFTSHIFT: u16 = 42;
pub const KEY_BACKSLASH: u16 = 43;
pub const KEY_Z: u16 = 44;
pub const KEY_X: u16 = 45;
pub const KEY_C: u16 = 46;
pub const KEY_V: u16 = 47;
pub const KEY_B: u16 = 48;
pub const KEY_N: u16 = 49;
pub const KEY_M: u16 = 50;
pub const KEY_COMMA: u16 = 51;
pub const KEY_DOT: u16 = 52;
pub const KEY_SLASH: u16 = 53;
pub const KEY_RIGHTSHIFT: u16 = 54;
pub const KEY_LEFTALT: u16 = 56;
pub const KEY_SPACE: u16 = 57;
pub const KEY_CAPSLOCK: u16 = 58;
pub const KEY_F1: u16 = 59;
pub const KEY_F2: u16 = 60;
pub const KEY_F3: u16 = 61;
pub const KEY_F4: u16 = 62;
pub const KEY_F5: u16 = 63;
pub const KEY_F6: u16 = 64;
pub const KEY_F7: u16 = 65;
pub const KEY_F8: u16 = 66;
pub const KEY_F9: u16 = 67;
pub const KEY_F10: u16 = 68;
pub const KEY_SCROLLLOCK: u16 = 70;
pub const KEY_F11: u16 = 87;
pub const KEY_F12: u16 = 88;
pub const KEY_RIGHTCTRL: u16 = 97;
pub const KEY_RIGHTALT: u16 = 100;
pub const KEY_HOME: u16 = 102;
pub const KEY_UP: u16 = 103;
pub const KEY_PAGEUP: u16 = 104;
pub const KEY_LEFT: u16 = 105;
pub const KEY_RIGHT: u16 = 106;
pub const KEY_END: u16 = 107;
pub const KEY_DOWN: u16 = 108;
pub const KEY_PAGEDOWN: u16 = 109;
pub const KEY_INSERT: u16 = 110;
pub const KEY_DELETE: u16 = 111;
pub const KEY_PAUSE: u16 = 119;
pub const KEY_LEFTMETA: u16 = 125;
pub const KEY_RIGHTMETA: u16 = 126;
pub const KEY_PRINT: u16 = 210;
pub const BTN_LEFT: u16 = 272;
pub const BTN_RIGHT: u16 = 273;
pub const BTN_MIDDLE: u16 = 274;
pub const BTN_SIDE: u16 = 275;
pub const BTN_EXTRA: u16 = 276;

/// Each key and mouse button has the Linux code of its own name: `F1` is
/// `KEY_F1`, `A` is `KEY_A`, the left button is `BTN_LEFT`, and so on; the
/// code reads back as that key or button.
pub proof fn lemma_linux_codes_are_named_codes()
    ensures
        KeyCode::Escape.linux_code() == KEY_ESC,
        KeyCode::of_linux_code(KEY_ESC) == Some(KeyCode::Escape),
        KeyCode::F1.linux_code() == KEY_F1,
        KeyCode::of_linux_code(KEY_F1) == Some(KeyCode::F1),
        KeyCode::F2.linux_code() == KEY_F2,
        KeyCode::of_linux_code(KEY_F2) == Some(KeyCode::F2),
        KeyCode::F3.linux_code() == KEY_F3,
        KeyCode::of_linux_code(KEY_F3) == Some(KeyCode::F3),
        KeyCode::F4.linux_code() == KEY_F4,
        KeyCode::of_linux_code(KEY_F4) == Some(KeyCode::F4),
        KeyCode::F5.linux_code() == KEY_F5,
        KeyCode::of_linux_code(KEY_F5) == Some(KeyCode::F5),
        KeyCode::F6.linux_code() == KEY_F6,
        KeyCode::of_linux_code(KEY_F6) == Some(KeyCode::F6),
        KeyCode::F7.linux_code() == KEY_F7,
        KeyCode::of_linux_code(KEY_F7) == Some(KeyCode::F7),
        KeyCode::F8.linux_code() == KEY_F8,
        KeyCode::of_linux_code(KEY_F8) == Some(KeyCode::F8),
        KeyCode::F9.linux_code() == KEY_F9,
        KeyCode::of_linux_code(KEY_F9) == Some(KeyCode::F9),
        KeyCode::F10.linux_code() == KEY_F10,
        KeyCode::of_linux_code(KEY_F10) == Some(KeyCode::F10),
        KeyCode::F11.linux_code() == KEY_F11,
        KeyCode::of_linux_code(KEY_F11) == Some(KeyCode::F11),
        KeyCode::F12.linux_code() == KEY_F12,
        KeyCode::of_linux_code(KEY_F12) == Some(KeyCode::F12),
        KeyCode::PrintScreen.linux_code() == KEY_PRINT,
        KeyCode::of_linux_code(KEY_PRINT) == Some(KeyCode::PrintScreen),
        KeyCode::ScrollLock.linux_code() == KEY_SCROLLLOCK,
        KeyCode::of_linux_code(KEY_SCROLLLOCK) == Some(KeyCode::ScrollLock),
        KeyCode::PauseBreak.linux_code() == KEY_PAUSE,
        KeyCode::of_linux_code(KEY_PAUSE) == Some(KeyCode::PauseBreak),
        KeyCode::Grave.linux_code() == KEY_GRAVE,
        KeyCode::of_linux_code(KEY_GRAVE) == Some(KeyCode::Grave),
        KeyCode::D1.linux_code() == KEY_1,
        KeyCode::of_linux_code(KEY_1) == Some(KeyCode::D1),
        KeyCode::D2.linux_code() == KEY_2,
        KeyCode::of_linux_code(KEY_2) == Some(KeyCode::D2),
        KeyCode::D3.linux_code() == KEY_3,
        KeyCode::of_linux_code(KEY_3) == Some(KeyCode::D3),
        KeyCode::D4.linux_code() == KEY_4,
        KeyCode::of_linux_code(KEY_4) == Some(KeyCode::D4),
        KeyCode::D5.linux_code() == KEY_5,
        KeyCode::of_linux_code(KEY_5) == Some(KeyCode::D5),
        KeyCode::D6.linux_code() == KEY_6,
        KeyCode::of_linux_code(KEY_6) == Some(KeyCode::D6),
        KeyCode::D7.linux_code() == KEY_7,
        KeyCode::of_linux_code(KEY_7) == Some(KeyCode::D7),
        KeyCode::D8.linux_code() == KEY_8,
        KeyCode::of_linux_code(KEY_8) == Some(KeyCode::D8),
        KeyCode::D9.linux_code() == KEY_9,
        KeyCode::of_linux_code(KEY_9) == Some(KeyCode::D9),
        KeyCode::D0.linux_code() == KEY_0,
        KeyCode::of_linux_code(KEY_0) == Some(KeyCode::D0),
        KeyCode::Minus.linux_code() == KEY_MINUS,
        KeyCode::of_linux_code(KEY_MINUS) == Some(KeyCode::Minus),
        KeyCode::Equal.linux_code() == KEY_EQUAL,
        KeyCode::of_linux_code(KEY_EQUAL) == Some(KeyCode::Equal),
        KeyCode::A.linux_code() == KEY_A,
        KeyCode::of_linux_code(KEY_A) == Some(KeyCode::A),
        KeyCode::B.linux_code() == KEY_B,
        KeyCode::of_linux_code(KEY_B) == Some(KeyCode::B),
        KeyCode::C.linux_code() == KEY_C,
        KeyCode::of_linux_code(KEY_C) == Some(KeyCode::C),
        KeyCode::D.linux_code() == KEY_D,
        KeyCode::of_linux_code(KEY_D) == Some(KeyCode::D),
        KeyCode::E.linux_code() == KEY_E,
        KeyCode::of_linux_code(KEY_E) == Some(KeyCode::E),
        KeyCode::F.linux_code() == KEY_F,
        KeyCode::of_linux_code(KEY_F) == Some(KeyCode::F),
        KeyCode::G.linux_code() == KEY_G,
        KeyCode::of_linux_code(KEY_G) == Some(KeyCode::G),
        KeyCode::H.linux_code() == KEY_H,
        KeyCode::of_linux_code(KEY_H) == Some(KeyCode::H),
        KeyCode::I.linux_code() == KEY_I,
        KeyCode::of_linux_code(KEY_I) == Some(KeyCode::I),
        KeyCode::J.linux_code() == KEY_J,
        KeyCode::of_linux_code(KEY_J) == Some(KeyCode::J),
        KeyCode::K.linux_code() == KEY_K,
        KeyCode::of_linux_code(KEY_K) == Some(KeyCode::K),
        KeyCode::L.linux_code() == KEY_L,
        KeyCode::of_linux_code(KEY_L) == Some(KeyCode::L),
        KeyCode::M.linux_code() == KEY_M,
        KeyCode::of_linux_code(KEY_M) == Some(KeyCode::M),
        KeyCode::N.linux_code() == KEY_N,
        KeyCode::of_linux_code(KEY_N) == Some(KeyCode::N),
        KeyCode::O.linux_code() == KEY_O,
        KeyCode::of_linux_code(KEY_O) == Some(KeyCode::O),
        KeyCode::P.linux_code() == KEY_P,
        KeyCode::of_linux_code(KEY_P) == Some(KeyCode::P),
        KeyCode::Q.linux_code() == KEY_Q,
        KeyCode::of_linux_code(KEY_Q) == Some(KeyCode::Q),
        KeyCode::R.linux_code() == KEY_R,
        KeyCode::of_linux_code(KEY_R) == Some(KeyCode::R),
        KeyCode::S.linux_code() == KEY_S,
        KeyCode::of_linux_code(KEY_S) == Some(KeyCode::S),
        KeyCode::T.linux_code() == KEY_T,
        KeyCode::of_linux_code(KEY_T) == Some(KeyCode::T),
        KeyCode::U.linux_code() == KEY_U,
        KeyCode::of_linux_code(KEY_U) == Some(KeyCode::U),
        KeyCode::V.linux_code() == KEY_V,
        KeyCode::of_linux_code(KEY_V) == Some(KeyCode::V),
        KeyCode::W.linux_code() == KEY_W,
        KeyCode::of_linux_code(KEY_W) == Some(KeyCode::W),
        KeyCode::X.linux_code() == KEY_X,
        KeyCode::of_linux_code(KEY_X) == Some(KeyCode::X),
        KeyCode::Y.linux_code() == KEY_Y,
        KeyCode::of_linux_code(KEY_Y) == Some(KeyCode::Y),
        KeyCode::Z.linux_code() == KEY_Z,
        KeyCode::of_linux_code(KEY_Z) == Some(KeyCode::Z),
        KeyCode::LeftBrace.linux_code() == KEY_LEFTBRACE,
        KeyCode::of_linux_code(KEY_LEFTBRACE) == Some(KeyCode::LeftBrace),
        KeyCode::RightBrace.linux_code() == KEY_RIGHTBRACE,
        KeyCode::of_linux_code(KEY_RIGHTBRACE) == Some(KeyCode::RightBrace),
        KeyCode::SemiColon.linux_code() == KEY_SEMICOLON,
        KeyCode::of_linux_code(KEY_SEMICOLON) == Some(KeyCode::SemiColon),
        KeyCode::Apostrophe.linux_code() == KEY_APOSTROPHE,
        KeyCode::of_linux_code(KEY_APOSTROPHE) == Some(KeyCode::Apostrophe),
        KeyCode::Comma.linux_code() == KEY_COMMA,
        KeyCode::of_linux_code(KEY_COMMA) == Some(KeyCode::Comma),
        KeyCode::Dot.linux_code() == KEY_DOT,
        KeyCode::of_linux_code(KEY_DOT) == Some(KeyCode::Dot),
        KeyCode::Slash.linux_code() == KEY_SLASH,
        KeyCode::of_linux_code(KEY_SLASH) == Some(KeyCode::Slash),
        KeyCode::Backspace.linux_code() == KEY_BACKSPACE,
        KeyCode::of_linux_code(KEY_BACKSPACE) == Some(KeyCode::Backspace),
        KeyCode::BackSlash.linux_code() == KEY_BACKSLASH,
        KeyCode::of_linux_code(KEY_BACKSLASH) == Some(KeyCode::BackSlash),
        KeyCode::Enter.linux_code() == KEY_ENTER,
        KeyCode::of_linux_code(KEY_ENTER) == Some(KeyCode::Enter),
        KeyCode::Space.linux_code() == KEY_SPACE,
        KeyCode::of_linux_code(KEY_SPACE) == Some(KeyCode::Space),
        KeyCode::Tab.linux_code() == KEY_TAB,
        KeyCode::of_linux_code(KEY_TAB) == Some(KeyCode::Tab),
        KeyCode::CapsLock.linux_code() == KEY_CAPSLOCK,
        KeyCode::of_linux_code(KEY_CAPSLOCK) == Some(KeyCode::CapsLock),
        KeyCode::LeftShift.linux_code() == KEY_LEFTSHIFT,
        KeyCode::of_linux_code(KEY_LEFTSHIFT) == Some(KeyCode::LeftShift),
        KeyCode::RightShift.linux_code() == KEY_RIGHTSHIFT,
        KeyCode::of_linux_code(KEY_RIGHTSHIFT) == Some(KeyCode::RightShift),
        KeyCode::LeftCtrl.linux_code() == KEY_LEFTCTRL,
        KeyCode::of_linux_code(KEY_LEFTCTRL) == Some(KeyCode::LeftCtrl),
        KeyCode::RightCtrl.linux_code() == KEY_RIGHTCTRL,
        KeyCode::of_linux_code(KEY_RIGHTCTRL) == Some(KeyCode::RightCtrl),
        KeyCode::LeftAlt.linux_code() == KEY_LEFTALT,
        KeyCode::of_linux_code(KEY_LEFTALT) == Some(KeyCode::LeftAlt),
        KeyCode::RightAlt.linux_code() == KEY_RIGHTALT,
        KeyCode::of_linux_code(KEY_RIGHTALT) == Some(KeyCode::RightAlt),
        KeyCode::LeftMeta.linux_code() == KEY_LEFTMETA,
        KeyCode::of_linux_code(KEY_LEFTMETA) == Some(KeyCode::LeftMeta),
        KeyCode::RightMeta.linux_code() == KEY_RIGHTMETA,
        KeyCode::of_linux_code(KEY_RIGHTMETA) == Some(KeyCode::RightMeta),
        KeyCode::Insert.linux_code() == KEY_INSERT,
        KeyCode::of_linux_code(KEY_INSERT) == Some(KeyCode::Insert),
        KeyCode::Delete.linux_code() == KEY_DELETE,
        KeyCode::of_linux_code(KEY_DELETE) == Some(KeyCode::Delete),
        KeyCode::Home.linux_code() == KEY_HOME,
        KeyCode::of_linux_code(KEY_HOME) == Some(KeyCode::Home),
        KeyCode::End.linux_code() == KEY_END,
        KeyCode::of_linux_code(KEY_END) == Some(KeyCode::End),
        KeyCode::PageUp.linux_code() == KEY_PAGEUP,
        KeyCode::of_linux_code(KEY_PAGEUP) == Some(KeyCode::PageUp),
        KeyCode::PageDown.linux_code() == KEY_PAGEDOWN,
        KeyCode::of_linux_code(KEY_PAGEDOWN) == Some(KeyCode::PageDown),
        KeyCode::Up.linux_code() == KEY_UP,
        KeyCode::of_linux_code(KEY_UP) == Some(KeyCode::Up),
        KeyCode::Left.linux_code() == KEY_LEFT,
        KeyCode::of_linux_code(KEY_LEFT) == Some(KeyCode::Left),
        KeyCode::Down.linux_code() == KEY_DOWN,
        KeyCode::of_linux_code(KEY_DOWN) == Some(KeyCode::Down),
        KeyCode::Right.linux_code() == KEY_RIGHT,
        KeyCode::of_linux_code(KEY_RIGHT) == Some(KeyCode::Right),
        MouseButton::Left.linux_code() == BTN_LEFT,
        MouseButton::of_linux_code(BTN_LEFT) == Some(MouseButton::Left),
        MouseButton::Right.linux_code() == BTN_RIGHT,
        MouseButton::of_linux_code(BTN_RIGHT) == Some(MouseButton::Right),
        MouseButton::Middle.linux_code() == BTN_MIDDLE,
        MouseButton::of_linux_code(BTN_MIDDLE) == Some(MouseButton::Middle),
        MouseButton::Mouse4.linux_code() == BTN_SIDE,
        MouseButton::of_linux_code(BTN_SIDE) == Some(MouseButton::Mouse4),
        MouseButton::Mouse5.linux_code() == BTN_EXTRA,
        MouseButton::of_linux_code(BTN_EXTRA) == Some(MouseButton::Mouse5),
{
}

} // verus!
