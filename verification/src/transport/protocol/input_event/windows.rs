//! Conversion between keys and Windows virtual key codes.

use super::KeyCode;
use vstd::prelude::*;

verus! {

/// Wrapper type for Windows virtual key codes.
///
/// This type aids conversion between [KeyCode] and Windows virtual key codes.
#[derive(Clone, Copy, PartialEq, Eq, Debug, Structural)]
pub struct VirtualKey(pub u16);

impl KeyCode {
    /// Windows virtual key code of the key.
    pub open spec fn virtual_key(self) -> u16 {
        match self {
            KeyCode::Escape => 27,
            KeyCode::F1 => 112,
            KeyCode::F2 => 113,
            KeyCode::F3 => 114,
            KeyCode::F4 => 115,
            KeyCode::F5 => 116,
            KeyCode::F6 => 117,
            KeyCode::F7 => 118,
            KeyCode::F8 => 119,
            KeyCode::F9 => 120,
            KeyCode::F10 => 121,
            KeyCode::F11 => 122,
            KeyCode::F12 => 123,
            KeyCode::PrintScreen => 44,
            KeyCode::ScrollLock => 145,
            KeyCode::PauseBreak => 19,
            KeyCode::Grave => 192,
            KeyCode::D1 => 49,
            KeyCode::D2 => 50,
            KeyCode::D3 => 51,
            KeyCode::D4 => 52,
            KeyCode::D5 => 53,
            KeyCode::D6 => 54,
            KeyCode::D7 => 55,
            KeyCode::D8 => 56,
            KeyCode::D9 => 57,
            KeyCode::D0 => 48,
            KeyCode::Minus => 189,
            KeyCode::Equal => 187,
            KeyCode::A => 65,
            KeyCode::B => 66,
            KeyCode::C => 67,
            KeyCode::D => 68,
            KeyCode::E => 69,
            KeyCode::F => 70,
            KeyCode::G => 71,
            KeyCode::H => 72,
            KeyCode::I => 73,
            KeyCode::J => 74,
            KeyCode::K => 75,
            KeyCode::L => 76,
            KeyCode::M => 77,
            KeyCode::N => 78,
            KeyCode::O => 79,
            KeyCode::P => 80,
            KeyCode::Q => 81,
            KeyCode::R => 82,
            KeyCode::S => 83,
            KeyCode::T => 84,
            KeyCode::U => 85,
            KeyCode::V => 86,
            KeyCode::W => 87,
            KeyCode::X => 88,
            KeyCode::Y => 89,
            KeyCode::Z => 90,
            KeyCode::LeftBrace => 219,
            KeyCode::RightBrace => 221,
            KeyCode::SemiColon => 186,
            KeyCode::Apostrophe => 222,
            KeyCode::Comma => 188,
            KeyCode::Dot => 190,
            KeyCode::Slash => 191,
            KeyCode::Backspace => 8,
            KeyCode::BackSlash => 220,
            KeyCode::Enter => 13,
            KeyCode::Space => 32,
            KeyCode::Tab => 9,
            KeyCode::CapsLock => 20,
            KeyCode::LeftShift => 160,
            KeyCode::RightShift => 161,
            KeyCode::LeftCtrl => 162,
            KeyCode::RightCtrl => 163,
            KeyCode::LeftAlt => 164,
            KeyCode::RightAlt => 165,
            KeyCode::LeftMeta => 91,
            KeyCode::RightMeta => 92,
            KeyCode::Insert => 45,
            KeyCode::Delete => 46,
            KeyCode::Home => 36,
            KeyCode::End => 35,
            KeyCode::PageUp => 33,
            KeyCode::PageDown => 34,
            KeyCode::Up => 38,
            KeyCode::Left => 37,
            KeyCode::Down => 40,
            KeyCode::Right => 39,
        }
    }

    /// The variant whose `virtual_key` is `n`, if any.
    pub open spec fn of_virtual_key(n: u16) -> Option<KeyCode> {
        match n {
            27 => Some(KeyCode::Escape),
            112 => Some(KeyCode::F1),
            113 => Some(KeyCode::F2),
            114 => Some(KeyCode::F3),
            115 => Some(KeyCode::F4),
            116 => Some(KeyCode::F5),
            117 => Some(KeyCode::F6),
            118 => Some(KeyCode::F7),
            119 => Some(KeyCode::F8),
            120 => Some(KeyCode::F9),
            121 => Some(KeyCode::F10),
            122 => Some(KeyCode::F11),
            123 => Some(KeyCode::F12),
            44 => Some(KeyCode::PrintScreen),
            145 => Some(KeyCode::ScrollLock),
            19 => Some(KeyCode::PauseBreak),
            192 => Some(KeyCode::Grave),
            49 => Some(KeyCode::D1),
            50 => Some(KeyCode::D2),
            51 => Some(KeyCode::D3),
            52 => Some(KeyCode::D4),
            53 => Some(KeyCode::D5),
            54 => Some(KeyCode::D6),
            55 => Some(KeyCode::D7),
            56 => Some(KeyCode::D8),
            57 => Some(KeyCode::D9),
            48 => Some(KeyCode::D0),
            189 => Some(KeyCode::Minus),
            187 => Some(KeyCode::Equal),
            65 => Some(KeyCode::A),
            66 => Some(KeyCode::B),
            67 => Some(KeyCode::C),
            68 => Some(KeyCode::D),
            69 => Some(KeyCode::E),
            70 => Some(KeyCode::F),
            71 => Some(KeyCode::G),
            72 => Some(KeyCode::H),
            73 => Some(KeyCode::I),
            74 => Some(KeyCode::J),
            75 => Some(KeyCode::K),
            76 => Some(KeyCode::L),
            77 => Some(KeyCode::M),
            78 => Some(KeyCode::N),
            79 => Some(KeyCode::O),
            80 => Some(KeyCode::P),
            81 => Some(KeyCode::Q),
            82 => Some(KeyCode::R),
            83 => Some(KeyCode::S),
            84 => Some(KeyCode::T),
            85 => Some(KeyCode::U),
            86 => Some(KeyCode::V),
            87 => Some(KeyCode::W),
            88 => Some(KeyCode::X),
            89 => Some(KeyCode::Y),
            90 => Some(KeyCode::Z),
            219 => Some(KeyCode::LeftBrace),
            221 => Some(KeyCode::RightBrace),
            186 => Some(KeyCode::SemiColon),
            222 => Some(KeyCode::Apostrophe),
            188 => Some(KeyCode::Comma),
            190 => Some(KeyCode::Dot),
            191 => Some(KeyCode::Slash),
            8 => Some(KeyCode::Backspace),
            220 => Some(KeyCode::BackSlash),
            13 => Some(KeyCode::Enter),
            32 => Some(KeyCode::Space),
            9 => Some(KeyCode::Tab),
            20 => Some(KeyCode::CapsLock),
            160 => Some(KeyCode::LeftShift),
            161 => Some(KeyCode::RightShift),
            162 => Some(KeyCode::LeftCtrl),
            163 => Some(KeyCode::RightCtrl),
            164 => Some(KeyCode::LeftAlt),
            165 => Some(KeyCode::RightAlt),
            91 => Some(KeyCode::LeftMeta),
            92 => Some(KeyCode::RightMeta),
            45 => Some(KeyCode::Insert),
            46 => Some(KeyCode::Delete),
            36 => Some(KeyCode::Home),
            35 => Some(KeyCode::End),
            33 => Some(KeyCode::PageUp),
            34 => Some(KeyCode::PageDown),
            38 => Some(KeyCode::Up),
            37 => Some(KeyCode::Left),
            40 => Some(KeyCode::Down),
            39 => Some(KeyCode::Right),
            _ => None,
        }
    }

    /// `of_virtual_key` is a left inverse of `virtual_key`; hence `virtual_key` is injective.
    pub proof fn lemma_virtual_key_inverse(self)
        ensures
            KeyCode::of_virtual_key(self.virtual_key()) == Some(self),
    {
    }

    /// `of_virtual_key` maps a value to a variant only when it is that variant's `virtual_key`.
    pub proof fn lemma_of_virtual_key_sound(n: u16)
        ensures
            KeyCode::of_virtual_key(n) matches Some(k) ==> k.virtual_key() == n,
    {
    }

    pub fn to_virtual_key(self) -> (r: u16)
        ensures
            r == self.virtual_key(),
    {
        match self {
            KeyCode::Escape => 27,
            KeyCode::F1 => 112,
            KeyCode::F2 => 113,
            KeyCode::F3 => 114,
            KeyCode::F4 => 115,
            KeyCode::F5 => 116,
            KeyCode::F6 => 117,
            KeyCode::F7 => 118,
            KeyCode::F8 => 119,
            KeyCode::F9 => 120,
            KeyCode::F10 => 121,
            KeyCode::F11 => 122,
            KeyCode::F12 => 123,
            KeyCode::PrintScreen => 44,
            KeyCode::ScrollLock => 145,
            KeyCode::PauseBreak => 19,
            KeyCode::Grave => 192,
            KeyCode::D1 => 49,
            KeyCode::D2 => 50,
            KeyCode::D3 => 51,
            KeyCode::D4 => 52,
            KeyCode::D5 => 53,
            KeyCode::D6 => 54,
            KeyCode::D7 => 55,
            KeyCode::D8 => 56,
            KeyCode::D9 => 57,
            KeyCode::D0 => 48,
            KeyCode::Minus => 189,
            KeyCode::Equal => 187,
            KeyCode::A => 65,
            KeyCode::B => 66,
            KeyCode::C => 67,
            KeyCode::D => 68,
            KeyCode::E => 69,
            KeyCode::F => 70,
            KeyCode::G => 71,
            KeyCode::H => 72,
            KeyCode::I => 73,
            KeyCode::J => 74,
            KeyCode::K => 75,
            KeyCode::L => 76,
            KeyCode::M => 77,
            KeyCode::N => 78,
            KeyCode::O => 79,
            KeyCode::P => 80,
            KeyCode::Q => 81,
            KeyCode::R => 82,
            KeyCode::S => 83,
            KeyCode::T => 84,
            KeyCode::U => 85,
            KeyCode::V => 86,
            KeyCode::W => 87,
            KeyCode::X => 88,
            KeyCode::Y => 89,
            KeyCode::Z => 90,
            KeyCode::LeftBrace => 219,
            KeyCode::RightBrace => 221,
            KeyCode::SemiColon => 186,
            KeyCode::Apostrophe => 222,
            KeyCode::Comma => 188,
            KeyCode::Dot => 190,
            KeyCode::Slash => 191,
            KeyCode::Backspace => 8,
            KeyCode::BackSlash => 220,
            KeyCode::Enter => 13,
            KeyCode::Space => 32,
            KeyCode::Tab => 9,
            KeyCode::CapsLock => 20,
            KeyCode::LeftShift => 160,
            KeyCode::RightShift => 161,
            KeyCode::LeftCtrl => 162,
            KeyCode::RightCtrl => 163,
            KeyCode::LeftAlt => 164,
            KeyCode::RightAlt => 165,
            KeyCode::LeftMeta => 91,
            KeyCode::RightMeta => 92,
            KeyCode::Insert => 45,
            KeyCode::Delete => 46,
            KeyCode::Home => 36,
            KeyCode::End => 35,
            KeyCode::PageUp => 33,
            KeyCode::PageDown => 34,
            KeyCode::Up => 38,
            KeyCode::Left => 37,
            KeyCode::Down => 40,
            KeyCode::Right => 39,
        }
    }

    /// The variant whose `virtual_key` is given, if any.
    pub fn from_virtual_key(x: VirtualKey) -> (r: Option<KeyCode>)
        ensures
            r == KeyCode::of_virtual_key(x.0),
            r matches Some(k) ==> k.virtual_key() == x.0,
            r is None <==> forall|k: KeyCode| k.virtual_key() != x.0,
    {
        proof {
            KeyCode::lemma_of_virtual_key_sound(x.0);
            assert forall|k: KeyCode| k.virtual_key() == x.0 implies KeyCode::of_virtual_key(x.0) == Some(k) by {
                k.lemma_virtual_key_inverse();
            }
        }
        match x.0 {
            27 => Some(KeyCode::Escape),
            112 => Some(KeyCode::F1),
            113 => Some(KeyCode::F2),
            114 => Some(KeyCode::F3),
            115 => Some(KeyCode::F4),
            116 => Some(KeyCode::F5),
            117 => Some(KeyCode::F6),
            118 => Some(KeyCode::F7),
            119 => Some(KeyCode::F8),
            120 => Some(KeyCode::F9),
            121 => Some(KeyCode::F10),
            122 => Some(KeyCode::F11),
            123 => Some(KeyCode::F12),
            44 => Some(KeyCode::PrintScreen),
            145 => Some(KeyCode::ScrollLock),
            19 => Some(KeyCode::PauseBreak),
            192 => Some(KeyCode::Grave),
            49 => Some(KeyCode::D1),
            50 => Some(KeyCode::D2),
            51 => Some(KeyCode::D3),
            52 => Some(KeyCode::D4),
            53 => Some(KeyCode::D5),
            54 => Some(KeyCode::D6),
            55 => Some(KeyCode::D7),
            56 => Some(KeyCode::D8),
            57 => Some(KeyCode::D9),
            48 => Some(KeyCode::D0),
            189 => Some(KeyCode::Minus),
            187 => Some(KeyCode::Equal),
            65 => Some(KeyCode::A),
            66 => Some(KeyCode::B),
            67 => Some(KeyCode::C),
            68 => Some(KeyCode::D),
            69 => Some(KeyCode::E),
            70 => Some(KeyCode::F),
            71 => Some(KeyCode::G),
            72 => Some(KeyCode::H),
            73 => Some(KeyCode::I),
            74 => Some(KeyCode::J),
            75 => Some(KeyCode::K),
            76 => Some(KeyCode::L),
            77 => Some(KeyCode::M),
            78 => Some(KeyCode::N),
            79 => Some(KeyCode::O),
            80 => Some(KeyCode::P),
            81 => Some(KeyCode::Q),
            82 => Some(KeyCode::R),
            83 => Some(KeyCode::S),
            84 => Some(KeyCode::T),
            85 => Some(KeyCode::U),
            86 => Some(KeyCode::V),
            87 => Some(KeyCode::W),
            88 => Some(KeyCode::X),
            89 => Some(KeyCode::Y),
            90 => Some(KeyCode::Z),
            219 => Some(KeyCode::LeftBrace),
            221 => Some(KeyCode::RightBrace),
            186 => Some(KeyCode::SemiColon),
            222 => Some(KeyCode::Apostrophe),
            188 => Some(KeyCode::Comma),
            190 => Some(KeyCode::Dot),
            191 => Some(KeyCode::Slash),
            8 => Some(KeyCode::Backspace),
            220 => Some(KeyCode::BackSlash),
            13 => Some(KeyCode::Enter),
            32 => Some(KeyCode::Space),
            9 => Some(KeyCode::Tab),
            20 => Some(KeyCode::CapsLock),
            160 => Some(KeyCode::LeftShift),
            161 => Some(KeyCode::RightShift),
            162 => Some(KeyCode::LeftCtrl),
            163 => Some(KeyCode::RightCtrl),
            164 => Some(KeyCode::LeftAlt),
            165 => Some(KeyCode::RightAlt),
            91 => Some(KeyCode::LeftMeta),
            92 => Some(KeyCode::RightMeta),
            45 => Some(KeyCode::Insert),
            46 => Some(KeyCode::Delete),
            36 => Some(KeyCode::Home),
            35 => Some(KeyCode::End),
            33 => Some(KeyCode::PageUp),
            34 => Some(KeyCode::PageDown),
            38 => Some(KeyCode::Up),
            37 => Some(KeyCode::Left),
            40 => Some(KeyCode::Down),
            39 => Some(KeyCode::Right),
            _ => None,
        }
    }
}

impl From<KeyCode> for VirtualKey {
    fn from(x: KeyCode) -> (r: Self) {
        VirtualKey(x.to_virtual_key())
    }
}

impl vstd::std_specs::convert::FromSpecImpl<KeyCode> for VirtualKey {
    open spec fn obeys_from_spec() -> bool {
        true
    }

    open spec fn from_spec(x: KeyCode) -> Self {
        VirtualKey(x.virtual_key())
    }
}


/// Windows virtual-key codes, as the Windows headers name them (letters and
/// digits are their ASCII codes).
pub const VK_BACK: u16 = 0x08;
pub const VK_TAB: u16 = 0x09;
pub const VK_RETURN: u16 = 0x0D;
pub const VK_PAUSE: u16 = 0x13;
pub const VK_CAPITAL: u16 = 0x14;
pub const VK_ESCAPE: u16 = 0x1B;
pub const VK_SPACE: u16 = 0x20;
pub const VK_PRIOR: u16 = 0x21;
pub const VK_NEXT: u16 = 0x22;
pub const VK_END: u16 = 0x23;
pub const VK_HOME: u16 = 0x24;
pub const VK_LEFT: u16 = 0x25;
pub const VK_UP: u16 = 0x26;
pub const VK_RIGHT: u16 = 0x27;
pub const VK_DOWN: u16 = 0x28;
pub const VK_SNAPSHOT: u16 = 0x2C;
pub const VK_INSERT: u16 = 0x2D;
pub const VK_DELETE: u16 = 0x2E;
pub const VK_0: u16 = 0x30;
pub const VK_1: u16 = 0x31;
pub const VK_2: u16 = 0x32;
pub const VK_3: u16 = 0x33;
pub const VK_4: u16 = 0x34;
pub const VK_5: u16 = 0x35;
pub const VK_6: u16 = 0x36;
pub const VK_7: u16 = 0x37;
pub const VK_8: u16 = 0x38;
pub const VK_9: u16 = 0x39;
pub const VK_A: u16 = 0x41;
pub const VK_B: u16 = 0x42;
pub const VK_C: u16 = 0x43;
pub const VK_D: u16 = 0x44;
pub const VK_E: u16 = 0x45;
pub const VK_F: u16 = 0x46;
pub const VK_G: u16 = 0x47;
pub const VK_H: u16 = 0x48;
pub const VK_I: u16 = 0x49;
pub const VK_J: u16 = 0x4A;
pub const VK_K: u16 = 0x4B;
pub const VK_L: u16 = 0x4C;
pub const VK_M: u16 = 0x4D;
pub const VK_N: u16 = 0x4E;
pub const VK_O: u16 = 0x4F;
pub const VK_P: u16 = 0x50;
pub const VK_Q: u16 = 0x51;
pub const VK_R: u16 = 0x52;
pub const VK_S: u16 = 0x53;
pub const VK_T: u16 = 0x54;
pub const VK_U: u16 = 0x55;
pub const VK_V: u16 = 0x56;
pub const VK_W: u16 = 0x57;
pub const VK_X: u16 = 0x58;
pub const VK_Y: u16 = 0x59;
pub const VK_Z: u16 = 0x5A;
pub const VK_LWIN: u16 = 0x5B;
pub const VK_RWIN: u16 = 0x5C;
pub const VK_F1: u16 = 0x70;
pub const VK_F2: u16 = 0x71;
pub const VK_F3: u16 = 0x72;
pub const VK_F4: u16 = 0x73;
pub const VK_F5: u16 = 0x74;
pub const VK_F6: u16 = 0x75;
pub const VK_F7: u16 = 0x76;
pub const VK_F8: u16 = 0x77;
pub const VK_F9: u16 = 0x78;
pub const VK_F10: u16 = 0x79;
pub const VK_F11: u16 = 0x7A;
pub const VK_F12: u16 = 0x7B;
pub const VK_SCROLL: u16 = 0x91;
pub const VK_LSHIFT: u16 = 0xA0;
pub const VK_RSHIFT: u16 = 0xA1;
pub const VK_LCONTROL: u16 = 0xA2;
pub const VK_RCONTROL: u16 = 0xA3;
pub const VK_LMENU: u16 = 0xA4;
pub const VK_RMENU: u16 = 0xA5;
pub const VK_OEM_1: u16 = 0xBA;
pub const VK_OEM_PLUS: u16 = 0xBB;
pub const VK_OEM_COMMA: u16 = 0xBC;
pub const VK_OEM_MINUS: u16 = 0xBD;
pub const VK_OEM_PERIOD: u16 = 0xBE;
pub const VK_OEM_2: u16 = 0xBF;
pub const VK_OEM_3: u16 = 0xC0;
pub const VK_OEM_4: u16 = 0xDB;
pub const VK_OEM_5: u16 = 0xDC;
pub const VK_OEM_6: u16 = 0xDD;
pub const VK_OEM_7: u16 = 0xDE;

/// Each key has the virtual-key code of its own name: `F1` is `VK_F1`, `A`
/// is `VK_A`, the left Alt key is `VK_LMENU`, and so on; the code reads back
/// as that key.
pub proof fn lemma_virtual_keys_are_named_codes()
    ensures
        KeyCode::Escape.virtual_key() == VK_ESCAPE,
        KeyCode::of_virtual_key(VK_ESCAPE) == Some(KeyCode::Escape),
        KeyCode::F1.virtual_key() == VK_F1,
        KeyCode::of_virtual_key(VK_F1) == Some(KeyCode::F1),
        KeyCode::F2.virtual_key() == VK_F2,
        KeyCode::of_virtual_key(VK_F2) == Some(KeyCode::F2),
        KeyCode::F3.virtual_key() == VK_F3,
        KeyCode::of_virtual_key(VK_F3) == Some(KeyCode::F3),
        KeyCode::F4.virtual_key() == VK_F4,
        KeyCode::of_virtual_key(VK_F4) == Some(KeyCode::F4),
        KeyCode::F5.virtual_key() == VK_F5,
        KeyCode::of_virtual_key(VK_F5) == Some(KeyCode::F5),
        KeyCode::F6.virtual_key() == VK_F6,
        KeyCode::of_virtual_key(VK_F6) == Some(KeyCode::F6),
        KeyCode::F7.virtual_key() == VK_F7,
        KeyCode::of_virtual_key(VK_F7) == Some(KeyCode::F7),
        KeyCode::F8.virtual_key() == VK_F8,
        KeyCode::of_virtual_key(VK_F8) == Some(KeyCode::F8),
        KeyCode::F9.virtual_key() == VK_F9,
        KeyCode::of_virtual_key(VK_F9) == Some(KeyCode::F9),
        KeyCode::F10.virtual_key() == VK_F10,
        KeyCode::of_virtual_key(VK_F10) == Some(KeyCode::F10),
        KeyCode::F11.virtual_key() == VK_F11,
        KeyCode::of_virtual_key(VK_F11) == Some(KeyCode::F11),
        KeyCode::F12.virtual_key() == VK_F12,
        KeyCode::of_virtual_key(VK_F12) == Some(KeyCode::F12),
        KeyCode::PrintScreen.virtual_key() == VK_SNAPSHOT,
        KeyCode::of_virtual_key(VK_SNAPSHOT) == Some(KeyCode::PrintScreen),
        KeyCode::ScrollLock.virtual_key() == VK_SCROLL,
        KeyCode::of_virtual_key(VK_SCROLL) == Some(KeyCode::ScrollLock),
        KeyCode::PauseBreak.virtual_key() == VK_PAUSE,
        KeyCode::of_virtual_key(VK_PAUSE) == Some(KeyCode::PauseBreak),
        KeyCode::Grave.virtual_key() == VK_OEM_3,
        KeyCode::of_virtual_key(VK_OEM_3) == Some(KeyCode::Grave),
        KeyCode::D1.virtual_key() == VK_1,
        KeyCode::of_virtual_key(VK_1) == Some(KeyCode::D1),
        KeyCode::D2.virtual_key() == VK_2,
        KeyCode::of_virtual_key(VK_2) == Some(KeyCode::D2),
        KeyCode::D3.virtual_key() == VK_3,
        KeyCode::of_virtual_key(VK_3) == Some(KeyCode::D3),
        KeyCode::D4.virtual_key() == VK_4,
        KeyCode::of_virtual_key(VK_4) == Some(KeyCode::D4),
        KeyCode::D5.virtual_key() == VK_5,
        KeyCode::of_virtual_key(VK_5) == Some(KeyCode::D5),
        KeyCode::D6.virtual_key() == VK_6,
        KeyCode::of_virtual_key(VK_6) == Some(KeyCode::D6),
        KeyCode::D7.virtual_key() == VK_7,
        KeyCode::of_virtual_key(VK_7) == Some(KeyCode::D7),
        KeyCode::D8.virtual_key() == VK_8,
        KeyCode::of_virtual_key(VK_8) == Some(KeyCode::D8),
        KeyCode::D9.virtual_key() == VK_9,
        KeyCode::of_virtual_key(VK_9) == Some(KeyCode::D9),
        KeyCode::D0.virtual_key() == VK_0,
        KeyCode::of_virtual_key(VK_0) == Some(KeyCode::D0),
        KeyCode::Minus.virtual_key() == VK_OEM_MINUS,
        KeyCode::of_virtual_key(VK_OEM_MINUS) == Some(KeyCode::Minus),
        KeyCode::Equal.virtual_key() == VK_OEM_PLUS,
        KeyCode::of_virtual_key(VK_OEM_PLUS) == Some(KeyCode::Equal),
        KeyCode::A.virtual_key() == VK_A,
        KeyCode::of_virtual_key(VK_A) == Some(KeyCode::A),
        KeyCode::B.virtual_key() == VK_B,
        KeyCode::of_virtual_key(VK_B) == Some(KeyCode::B),
        KeyCode::C.virtual_key() == VK_C,
        KeyCode::of_virtual_key(VK_C) == Some(KeyCode::C),
        KeyCode::D.virtual_key() == VK_D,
        KeyCode::of_virtual_key(VK_D) == Some(KeyCode::D),
        KeyCode::E.virtual_key() == VK_E,
        KeyCode::of_virtual_key(VK_E) == Some(KeyCode::E),
        KeyCode::F.virtual_key() == VK_F,
        KeyCode::of_virtual_key(VK_F) == Some(KeyCode::F),
        KeyCode::G.virtual_key() == VK_G,
        KeyCode::of_virtual_key(VK_G) == Some(KeyCode::G),
        KeyCode::H.virtual_key() == VK_H,
        KeyCode::of_virtual_key(VK_H) == Some(KeyCode::H),
        KeyCode::I.virtual_key() == VK_I,
        KeyCode::of_virtual_key(VK_I) == Some(KeyCode::I),
        KeyCode::J.virtual_key() == VK_J,
        KeyCode::of_virtual_key(VK_J) == Some(KeyCode::J),
        KeyCode::K.virtual_key() == VK_K,
        KeyCode::of_virtual_key(VK_K) == Some(KeyCode::K),
        KeyCode::L.virtual_key() == VK_L,
        KeyCode::of_virtual_key(VK_L) == Some(KeyCode::L),
        KeyCode::M.virtual_key() == VK_M,
        KeyCode::of_virtual_key(VK_M) == Some(KeyCode::M),
        KeyCode::N.virtual_key() == VK_N,
        KeyCode::of_virtual_key(VK_N) == Some(KeyCode::N),
        KeyCode::O.virtual_key() == VK_O,
        KeyCode::of_virtual_key(VK_O) == Some(KeyCode::O),
        KeyCode::P.virtual_key() == VK_P,
        KeyCode::of_virtual_key(VK_P) == Some(KeyCode::P),
        KeyCode::Q.virtual_key() == VK_Q,
        KeyCode::of_virtual_key(VK_Q) == Some(KeyCode::Q),
        KeyCode::R.virtual_key() == VK_R,
        KeyCode::of_virtual_key(VK_R) == Some(KeyCode::R),
        KeyCode::S.virtual_key() == VK_S,
        KeyCode::of_virtual_key(VK_S) == Some(KeyCode::S),
        KeyCode::T.virtual_key() == VK_T,
        KeyCode::of_virtual_key(VK_T) == Some(KeyCode::T),
        KeyCode::U.virtual_key() == VK_U,
        KeyCode::of_virtual_key(VK_U) == Some(KeyCode::U),
        KeyCode::V.virtual_key() == VK_V,
        KeyCode::of_virtual_key(VK_V) == Some(KeyCode::V),
        KeyCode::W.virtual_key() == VK_W,
        KeyCode::of_virtual_key(VK_W) == Some(KeyCode::W),
        KeyCode::X.virtual_key() == VK_X,
        KeyCode::of_virtual_key(VK_X) == Some(KeyCode::X),
        KeyCode::Y.virtual_key() == VK_Y,
        KeyCode::of_virtual_key(VK_Y) == Some(KeyCode::Y),
        KeyCode::Z.virtual_key() == VK_Z,
        KeyCode::of_virtual_key(VK_Z) == Some(KeyCode::Z),
        KeyCode::LeftBrace.virtual_key() == VK_OEM_4,
        KeyCode::of_virtual_key(VK_OEM_4) == Some(KeyCode::LeftBrace),
        KeyCode::RightBrace.virtual_key() == VK_OEM_6,
        KeyCode::of_virtual_key(VK_OEM_6) == Some(KeyCode::RightBrace),
        KeyCode::SemiColon.virtual_key() == VK_OEM_1,
        KeyCode::of_virtual_key(VK_OEM_1) == Some(KeyCode::SemiColon),
        KeyCode::Apostrophe.virtual_key() == VK_OEM_7,
        KeyCode::of_virtual_key(VK_OEM_7) == Some(KeyCode::Apostrophe),
        KeyCode::Comma.virtual_key() == VK_OEM_COMMA,
        KeyCode::of_virtual_key(VK_OEM_COMMA) == Some(KeyCode::Comma),
        KeyCode::Dot.virtual_key() == VK_OEM_PERIOD,
        KeyCode::of_virtual_key(VK_OEM_PERIOD) == Some(KeyCode::Dot),
        KeyCode::Slash.virtual_key() == VK_OEM_2,
        KeyCode::of_virtual_key(VK_OEM_2) == Some(KeyCode::Slash),
        KeyCode::Backspace.virtual_key() == VK_BACK,
        KeyCode::of_virtual_key(VK_BACK) == Some(KeyCode::Backspace),
        KeyCode::BackSlash.virtual_key() == VK_OEM_5,
        KeyCode::of_virtual_key(VK_OEM_5) == Some(KeyCode::BackSlash),
        KeyCode::Enter.virtual_key() == VK_RETURN,
        KeyCode::of_virtual_key(VK_RETURN) == Some(KeyCode::Enter),
        KeyCode::Space.virtual_key() == VK_SPACE,
        KeyCode::of_virtual_key(VK_SPACE) == Some(KeyCode::Space),
        KeyCode::Tab.virtual_key() == VK_TAB,
        KeyCode::of_virtual_key(VK_TAB) == Some(KeyCode::Tab),
        KeyCode::CapsLock.virtual_key() == VK_CAPITAL,
        KeyCode::of_virtual_key(VK_CAPITAL) == Some(KeyCode::CapsLock),
        KeyCode::LeftShift.virtual_key() == VK_LSHIFT,
        KeyCode::of_virtual_key(VK_LSHIFT) == Some(KeyCode::LeftShift),
        KeyCode::RightShift.virtual_key() == VK_RSHIFT,
        KeyCode::of_virtual_key(VK_RSHIFT) == Some(KeyCode::RightShift),
        KeyCode::LeftCtrl.virtual_key() == VK_LCONTROL,
        KeyCode::of_virtual_key(VK_LCONTROL) == Some(KeyCode::LeftCtrl),
        KeyCode::RightCtrl.virtual_key() == VK_RCONTROL,
        KeyCode::of_virtual_key(VK_RCONTROL) == Some(KeyCode::RightCtrl),
        KeyCode::LeftAlt.virtual_key() == VK_LMENU,
        KeyCode::of_virtual_key(VK_LMENU) == Some(KeyCode::LeftAlt),
        KeyCode::RightAlt.virtual_key() == VK_RMENU,
        KeyCode::of_virtual_key(VK_RMENU) == Some(KeyCode::RightAlt),
        KeyCode::LeftMeta.virtual_key() == VK_LWIN,
        KeyCode::of_virtual_key(VK_LWIN) == Some(KeyCode::LeftMeta),
        KeyCode::RightMeta.virtual_key() == VK_RWIN,
        KeyCode::of_virtual_key(VK_RWIN) == Some(KeyCode::RightMeta),
        KeyCode::Insert.virtual_key() == VK_INSERT,
        KeyCode::of_virtual_key(VK_INSERT) == Some(KeyCode::Insert),
        KeyCode::Delete.virtual_key() == VK_DELETE,
        KeyCode::of_virtual_key(VK_DELETE) == Some(KeyCode::Delete),
        KeyCode::Home.virtual_key() == VK_HOME,
        KeyCode::of_virtual_key(VK_HOME) == Some(KeyCode::Home),
        KeyCode::End.virtual_key() == VK_END,
        KeyCode::of_virtual_key(VK_END) == Some(KeyCode::End),
        KeyCode::PageUp.virtual_key() == VK_PRIOR,
        KeyCode::of_virtual_key(VK_PRIOR) == Some(KeyCode::PageUp),
        KeyCode::PageDown.virtual_key() == VK_NEXT,
        KeyCode::of_virtual_key(VK_NEXT) == Some(KeyCode::PageDown),
        KeyCode::Up.virtual_key() == VK_UP,
        KeyCode::of_virtual_key(VK_UP) == Some(KeyCode::Up),
        KeyCode::Left.virtual_key() == VK_LEFT,
        KeyCode::of_virtual_key(VK_LEFT) == Some(KeyCode::Left),
        KeyCode::Down.virtual_key() == VK_DOWN,
        KeyCode::of_virtual_key(VK_DOWN) == Some(KeyCode::Down),
        KeyCode::Right.virtual_key() == VK_RIGHT,
        KeyCode::of_virtual_key(VK_RIGHT) == Some(KeyCode::Right),
{
}

} // verus!
