pub mod linux;
pub mod windows;

use vstd::prelude::*;
verus! {
/// An input event relayed from the server host machine to the client.
#[derive(Clone, Copy, PartialEq, Eq, Debug, Structural)]
pub enum InputEvent {
    MouseMove { dx: i16, dy: i16 },
    MouseButtonDown { button: MouseButton },
    MouseButtonUp { button: MouseButton },
    MouseScroll { direction: MouseScrollDirection },
    KeyDown { key: KeyCode },
    KeyRepeat { key: KeyCode },
    KeyUp { key: KeyCode },
}

/// Direction and number of clicks of a mouse wheel movement.
#[derive(Clone, Copy, PartialEq, Eq, Debug, Structural)]
pub enum MouseScrollDirection {
    Up { clicks: u8 },
    Down { clicks: u8 },
}
/// Mouse button.
#[derive(Clone, Copy, PartialEq, Eq, Debug, Structural)]
pub enum MouseButton {
    Left,
    Right,
    Middle,
    Mouse4,
    Mouse5,
}
/// Keyboard key.
#[derive(Clone, Copy, PartialEq, Eq, Debug, Structural)]
pub enum KeyCode {
    Escape,
    F1,
    F2,
    F3,
    F4,
    F5,
    F6,
    F7,
    F8,
    F9,
    F10,
    F11,
    F12,
    PrintScreen,
    ScrollLock,
    PauseBreak,
    /// The tilde key.
    Grave,
    D1,
    D2,
    D3,
    D4,
    D5,
    D6,
    D7,
    D8,
    D9,
    D0,
    Minus,
    Equal,
    A,
    B,
    C,
    D,
    E,
    F,
    G,
    H,
    I,
    J,
    K,
    L,
    M,
    N,
    O,
    P,
    Q,
    R,
    S,
    T,
    U,
    V,
    W,
    X,
    Y,
    Z,
    LeftBrace,
    RightBrace,
    SemiColon,
    Apostrophe,
    Comma,
    Dot,
    Slash,
    Backspace,
    BackSlash,
    Enter,
    Space,
    Tab,
    CapsLock,
    LeftShift,
    RightShift,
    LeftCtrl,
    RightCtrl,
    LeftAlt,
    RightAlt,
    LeftMeta,
    RightMeta,
    Insert,
    Delete,
    Home,
    End,
    PageUp,
    PageDown,
    Up,
    Left,
    Down,
    Right,
}
/// Number of mouse buttons.
pub const MOUSE_BUTTON_COUNT: u8 = 5;
/// Number of keyboard keys.
pub const KEY_CODE_COUNT: u16 = 86;
impl MouseButton {
    /// Position of the button in the declaration order (its `repr`).
    pub open spec fn ordinal(self) -> u8 {
        match self {
            MouseButton::Left => 0,
            MouseButton::Right => 1,
            MouseButton::Middle => 2,
            MouseButton::Mouse4 => 3,
            MouseButton::Mouse5 => 4,
        }
    }

    /// The MouseButton whose `ordinal` is `n`, if any.
    pub open spec fn of_ordinal(n: u8) -> Option<MouseButton> {
        match n {
            0 => Some(MouseButton::Left),
            1 => Some(MouseButton::Right),
            2 => Some(MouseButton::Middle),
            3 => Some(MouseButton::Mouse4),
            4 => Some(MouseButton::Mouse5),
            _ => None,
        }
    }

    /// `of_ordinal` is a left inverse of `ordinal`; hence `ordinal` is injective.
    pub proof fn lemma_ordinal_inverse(self)
        ensures
            MouseButton::of_ordinal(self.ordinal()) == Some(self),
    {
    }

    /// Every value that `of_ordinal` maps to a variant is that variant's `ordinal`.
    pub proof fn lemma_of_ordinal_sound(n: u8)
        ensures
            MouseButton::of_ordinal(n) matches Some(k) ==> k.ordinal() == n,
    {
    }

    pub fn to_repr(self) -> (r: u8)
        ensures
            r == self.ordinal(),
    {
        match self {
            MouseButton::Left => 0,
            MouseButton::Right => 1,
            MouseButton::Middle => 2,
            MouseButton::Mouse4 => 3,
            MouseButton::Mouse5 => 4,
        }
    }

    /// The variant whose `ordinal` is `n`, if any.
    pub fn from_repr(n: u8) -> (r: Option<MouseButton>)
        ensures
            r == MouseButton::of_ordinal(n),
            r matches Some(k) ==> k.ordinal() == n,
            r is None <==> forall|k: MouseButton| k.ordinal() != n,
    {
        proof {
            MouseButton::lemma_of_ordinal_sound(n);
            assert forall|k: MouseButton| k.ordinal() == n implies MouseButton::of_ordinal(n) == Some(k) by {
                k.lemma_ordinal_inverse();
            }
        }
        match n {
            0 => Some(MouseButton::Left),
            1 => Some(MouseButton::Right),
            2 => Some(MouseButton::Middle),
            3 => Some(MouseButton::Mouse4),
            4 => Some(MouseButton::Mouse5),
            _ => None,
        }
    }
}
impl KeyCode {
    /// Position of the key in the declaration order (its `repr`).
    pub open spec fn ordinal(self) -> u16 {
        match self {
            KeyCode::Escape => 0,
            KeyCode::F1 => 1,
            KeyCode::F2 => 2,
            KeyCode::F3 => 3,
            KeyCode::F4 => 4,
            KeyCode::F5 => 5,
            KeyCode::F6 => 6,
            KeyCode::F7 => 7,
            KeyCode::F8 => 8,
            KeyCode::F9 => 9,
            KeyCode::F10 => 10,
            KeyCode::F11 => 11,
            KeyCode::F12 => 12,
            KeyCode::PrintScreen => 13,
            KeyCode::ScrollLock => 14,
            KeyCode::PauseBreak => 15,
            KeyCode::Grave => 16,
            KeyCode::D1 => 17,
            KeyCode::D2 => 18,
            KeyCode::D3 => 19,
            KeyCode::D4 => 20,
            KeyCode::D5 => 21,
            KeyCode::D6 => 22,
            KeyCode::D7 => 23,
            KeyCode::D8 => 24,
            KeyCode::D9 => 25,
            KeyCode::D0 => 26,
            KeyCode::Minus => 27,
            KeyCode::Equal => 28,
            KeyCode::A => 29,
            KeyCode::B => 30,
            KeyCode::C => 31,
            KeyCode::D => 32,
            KeyCode::E => 33,
            KeyCode::F => 34,
            KeyCode::G => 35,
            KeyCode::H => 36,
            KeyCode::I => 37,
            KeyCode::J => 38,
            KeyCode::K => 39,
            KeyCode::L => 40,
            KeyCode::M => 41,
            KeyCode::N => 42,
            KeyCode::O => 43,
            KeyCode::P => 44,
            KeyCode::Q => 45,
            KeyCode::R => 46,
            KeyCode::S => 47,
            KeyCode::T => 48,
            KeyCode::U => 49,
            KeyCode::V => 50,
            KeyCode::W => 51,
            KeyCode::X => 52,
            KeyCode::Y => 53,
            KeyCode::Z => 54,
            KeyCode::LeftBrace => 55,
            KeyCode::RightBrace => 56,
            KeyCode::SemiColon => 57,
            KeyCode::Apostrophe => 58,
            KeyCode::Comma => 59,
            KeyCode::Dot => 60,
            KeyCode::Slash => 61,
            KeyCode::Backspace => 62,
            KeyCode::BackSlash => 63,
            KeyCode::Enter => 64,
            KeyCode::Space => 65,
            KeyCode::Tab => 66,
            KeyCode::CapsLock => 67,
            KeyCode::LeftShift => 68,
            KeyCode::RightShift => 69,
            KeyCode::LeftCtrl => 70,
            KeyCode::RightCtrl => 71,
            KeyCode::LeftAlt => 72,
            KeyCode::RightAlt => 73,
            KeyCode::LeftMeta => 74,
            KeyCode::RightMeta => 75,
            KeyCode::Insert => 76,
            KeyCode::Delete => 77,
            KeyCode::Home => 78,
            KeyCode::End => 79,
            KeyCode::PageUp => 80,
            KeyCode::PageDown => 81,
            KeyCode::Up => 82,
            KeyCode::Left => 83,
            KeyCode::Down => 84,
            KeyCode::Right => 85,
        }
    }

    /// The KeyCode whose `ordinal` is `n`, if any.
    pub open spec fn of_ordinal(n: u16) -> Option<KeyCode> {
        match n {
            0 => Some(KeyCode::Escape),
            1 => Some(KeyCode::F1),
            2 => Some(KeyCode::F2),
            3 => Some(KeyCode::F3),
            4 => Some(KeyCode::F4),
            5 => Some(KeyCode::F5),
            6 => Some(KeyCode::F6),
            7 => Some(KeyCode::F7),
            8 => Some(KeyCode::F8),
            9 => Some(KeyCode::F9),
            10 => Some(KeyCode::F10),
            11 => Some(KeyCode::F11),
            12 => Some(KeyCode::F12),
            13 => Some(KeyCode::PrintScreen),
            14 => Some(KeyCode::ScrollLock),
            15 => Some(KeyCode::PauseBreak),
            16 => Some(KeyCode::Grave),
            17 => Some(KeyCode::D1),
            18 => Some(KeyCode::D2),
            19 => Some(KeyCode::D3),
            20 => Some(KeyCode::D4),
            21 => Some(KeyCode::D5),
            22 => Some(KeyCode::D6),
            23 => Some(KeyCode::D7),
            24 => Some(KeyCode::D8),
            25 => Some(KeyCode::D9),
            26 => Some(KeyCode::D0),
            27 => Some(KeyCode::Minus),
            28 => Some(KeyCode::Equal),
            29 => Some(KeyCode::A),
            30 => Some(KeyCode::B),
            31 => Some(KeyCode::C),
            32 => Some(KeyCode::D),
            33 => Some(KeyCode::E),
            34 => Some(KeyCode::F),
            35 => Some(KeyCode::G),
            36 => Some(KeyCode::H),
            37 => Some(KeyCode::I),
            38 => Some(KeyCode::J),
            39 => Some(KeyCode::K),
            40 => Some(KeyCode::L),
            41 => Some(KeyCode::M),
            42 => Some(KeyCode::N),
            43 => Some(KeyCode::O),
            44 => Some(KeyCode::P),
            45 => Some(KeyCode::Q),
            46 => Some(KeyCode::R),
            47 => Some(KeyCode::S),
            48 => Some(KeyCode::T),
            49 => Some(KeyCode::U),
            50 => Some(KeyCode::V),
            51 => Some(KeyCode::W),
            52 => Some(KeyCode::X),
            53 => Some(KeyCode::Y),
            54 => Some(KeyCode::Z),
            55 => Some(KeyCode::LeftBrace),
            56 => Some(KeyCode::RightBrace),
            57 => Some(KeyCode::SemiColon),
            58 => Some(KeyCode::Apostrophe),
            59 => Some(KeyCode::Comma),
            60 => Some(KeyCode::Dot),
            61 => Some(KeyCode::Slash),
            62 => Some(KeyCode::Backspace),
            63 => Some(KeyCode::BackSlash),
            64 => Some(KeyCode::Enter),
            65 => Some(KeyCode::Space),
            66 => Some(KeyCode::Tab),
            67 => Some(KeyCode::CapsLock),
            68 => Some(KeyCode::LeftShift),
            69 => Some(KeyCode::RightShift),
            70 => Some(KeyCode::LeftCtrl),
            71 => Some(KeyCode::RightCtrl),
            72 => Some(KeyCode::LeftAlt),
            73 => Some(KeyCode::RightAlt),
            74 => Some(KeyCode::LeftMeta),
            75 => Some(KeyCode::RightMeta),
            76 => Some(KeyCode::Insert),
            77 => Some(KeyCode::Delete),
            78 => Some(KeyCode::Home),
            79 => Some(KeyCode::End),
            80 => Some(KeyCode::PageUp),
            81 => Some(KeyCode::PageDown),
            82 => Some(KeyCode::Up),
            83 => Some(KeyCode::Left),
            84 => Some(KeyCode::Down),
            85 => Some(KeyCode::Right),
            _ => None,
        }
    }

    /// `of_ordinal` is a left inverse of `ordinal`; hence `ordinal` is injective.
    pub proof fn lemma_ordinal_inverse(self)
        ensures
            KeyCode::of_ordinal(self.ordinal()) == Some(self),
    {
    }

    /// Every value that `of_ordinal` maps to a variant is that variant's `ordinal`.
    pub proof fn lemma_of_ordinal_sound(n: u16)
        ensures
            KeyCode::of_ordinal(n) matches Some(k) ==> k.ordinal() == n,
    {
    }

    pub fn to_repr(self) -> (r: u16)
        ensures
            r == self.ordinal(),
    {
        match self {
            KeyCode::Escape => 0,
            KeyCode::F1 => 1,
            KeyCode::F2 => 2,
            KeyCode::F3 => 3,
            KeyCode::F4 => 4,
            KeyCode::F5 => 5,
            KeyCode::F6 => 6,
            KeyCode::F7 => 7,
            KeyCode::F8 => 8,
            KeyCode::F9 => 9,
            KeyCode::F10 => 10,
            KeyCode::F11 => 11,
            KeyCode::F12 => 12,
            KeyCode::PrintScreen => 13,
            KeyCode::ScrollLock => 14,
            KeyCode::PauseBreak => 15,
            KeyCode::Grave => 16,
            KeyCode::D1 => 17,
            KeyCode::D2 => 18,
            KeyCode::D3 => 19,
            KeyCode::D4 => 20,
            KeyCode::D5 => 21,
            KeyCode::D6 => 22,
            KeyCode::D7 => 23,
            KeyCode::D8 => 24,
            KeyCode::D9 => 25,
            KeyCode::D0 => 26,
            KeyCode::Minus => 27,
            KeyCode::Equal => 28,
            KeyCode::A => 29,
            KeyCode::B => 30,
            KeyCode::C => 31,
            KeyCode::D => 32,
            KeyCode::E => 33,
            KeyCode::F => 34,
            KeyCode::G => 35,
            KeyCode::H => 36,
            KeyCode::I => 37,
            KeyCode::J => 38,
            KeyCode::K => 39,
            KeyCode::L => 40,
            KeyCode::M => 41,
            KeyCode::N => 42,
            KeyCode::O => 43,
            KeyCode::P => 44,
            KeyCode::Q => 45,
            KeyCode::R => 46,
            KeyCode::S => 47,
            KeyCode::T => 48,
            KeyCode::U => 49,
            KeyCode::V => 50,
            KeyCode::W => 51,
            KeyCode::X => 52,
            KeyCode::Y => 53,
            KeyCode::Z => 54,
            KeyCode::LeftBrace => 55,
            KeyCode::RightBrace => 56,
            KeyCode::SemiColon => 57,
            KeyCode::Apostrophe => 58,
            KeyCode::Comma => 59,
            KeyCode::Dot => 60,
            KeyCode::Slash => 61,
            KeyCode::Backspace => 62,
            KeyCode::BackSlash => 63,
            KeyCode::Enter => 64,
            KeyCode::Space => 65,
            KeyCode::Tab => 66,
            KeyCode::CapsLock => 67,
            KeyCode::LeftShift => 68,
            KeyCode::RightShift => 69,
            KeyCode::LeftCtrl => 70,
            KeyCode::RightCtrl => 71,
            KeyCode::LeftAlt => 72,
            KeyCode::RightAlt => 73,
            KeyCode::LeftMeta => 74,
            KeyCode::RightMeta => 75,
            KeyCode::Insert => 76,
            KeyCode::Delete => 77,
            KeyCode::Home => 78,
            KeyCode::End => 79,
            KeyCode::PageUp => 80,
            KeyCode::PageDown => 81,
            KeyCode::Up => 82,
            KeyCode::Left => 83,
            KeyCode::Down => 84,
            KeyCode::Right => 85,
        }
    }

    /// The variant whose `ordinal` is `n`, if any.
    pub fn from_repr(n: u16) -> (r: Option<KeyCode>)
        ensures
            r == KeyCode::of_ordinal(n),
            r matches Some(k) ==> k.ordinal() == n,
            r is None <==> forall|k: KeyCode| k.ordinal() != n,
    {
        proof {
            KeyCode::lemma_of_ordinal_sound(n);
            assert forall|k: KeyCode| k.ordinal() == n implies KeyCode::of_ordinal(n) == Some(k) by {
                k.lemma_ordinal_inverse();
            }
        }
        match n {
            0 => Some(KeyCode::Escape),
            1 => Some(KeyCode::F1),
            2 => Some(KeyCode::F2),
            3 => Some(KeyCode::F3),
            4 => Some(KeyCode::F4),
            5 => Some(KeyCode::F5),
            6 => Some(KeyCode::F6),
            7 => Some(KeyCode::F7),
            8 => Some(KeyCode::F8),
            9 => Some(KeyCode::F9),
            10 => Some(KeyCode::F10),
            11 => Some(KeyCode::F11),
            12 => Some(KeyCode::F12),
            13 => Some(KeyCode::PrintScreen),
            14 => Some(KeyCode::ScrollLock),
            15 => Some(KeyCode::PauseBreak),
            16 => Some(KeyCode::Grave),
            17 => Some(KeyCode::D1),
            18 => Some(KeyCode::D2),
            19 => Some(KeyCode::D3),
            20 => Some(KeyCode::D4),
            21 => Some(KeyCode::D5),
            22 => Some(KeyCode::D6),
            23 => Some(KeyCode::D7),
            24 => Some(KeyCode::D8),
            25 => Some(KeyCode::D9),
            26 => Some(KeyCode::D0),
            27 => Some(KeyCode::Minus),
            28 => Some(KeyCode::Equal),
            29 => Some(KeyCode::A),
            30 => Some(KeyCode::B),
            31 => Some(KeyCode::C),
            32 => Some(KeyCode::D),
            33 => Some(KeyCode::E),
            34 => Some(KeyCode::F),
            35 => Some(KeyCode::G),
            36 => Some(KeyCode::H),
            37 => Some(KeyCode::I),
            38 => Some(KeyCode::J),
            39 => Some(KeyCode::K),
            40 => Some(KeyCode::L),
            41 => Some(KeyCode::M),
            42 => Some(KeyCode::N),
            43 => Some(KeyCode::O),
            44 => Some(KeyCode::P),
            45 => Some(KeyCode::Q),
            46 => Some(KeyCode::R),
            47 => Some(KeyCode::S),
            48 => Some(KeyCode::T),
            49 => Some(KeyCode::U),
            50 => Some(KeyCode::V),
            51 => Some(KeyCode::W),
            52 => Some(KeyCode::X),
            53 => Some(KeyCode::Y),
            54 => Some(KeyCode::Z),
            55 => Some(KeyCode::LeftBrace),
            56 => Some(KeyCode::RightBrace),
            57 => Some(KeyCode::SemiColon),
            58 => Some(KeyCode::Apostrophe),
            59 => Some(KeyCode::Comma),
            60 => Some(KeyCode::Dot),
            61 => Some(KeyCode::Slash),
            62 => Some(KeyCode::Backspace),
            63 => Some(KeyCode::BackSlash),
            64 => Some(KeyCode::Enter),
            65 => Some(KeyCode::Space),
            66 => Some(KeyCode::Tab),
            67 => Some(KeyCode::CapsLock),
            68 => Some(KeyCode::LeftShift),
            69 => Some(KeyCode::RightShift),
            70 => Some(KeyCode::LeftCtrl),
            71 => Some(KeyCode::RightCtrl),
            72 => Some(KeyCode::LeftAlt),
            73 => Some(KeyCode::RightAlt),
            74 => Some(KeyCode::LeftMeta),
            75 => Some(KeyCode::RightMeta),
            76 => Some(KeyCode::Insert),
            77 => Some(KeyCode::Delete),
            78 => Some(KeyCode::Home),
            79 => Some(KeyCode::End),
            80 => Some(KeyCode::PageUp),
            81 => Some(KeyCode::PageDown),
            82 => Some(KeyCode::Up),
            83 => Some(KeyCode::Left),
            84 => Some(KeyCode::Down),
            85 => Some(KeyCode::Right),
            _ => None,
        }
    }
}
} // verus!
