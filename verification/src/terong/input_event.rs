//! Input events relayed from the server to the client.

use vstd::prelude::*;

verus! {

/// An input event relayed from the server host machine to the client.
#[derive(Clone, Copy, PartialEq, Eq, Debug, Structural)]
pub enum InputEvent {
    MouseMove { dx: i32, dy: i32 },
    MouseButtonDown { button: MouseButton },
    MouseButtonUp { button: MouseButton },
    MouseScroll {},
    KeyDown { key: KeyCode },
    KeyUp { key: KeyCode },
}

/// Mouse button.
#[derive(Clone, Copy, PartialEq, Eq, Debug, Structural)]
pub enum MouseButton {
    Left,
    Right,
    Middle,
    Mouse4,
    Mouse5,
}

/// Keyboard key.
#[derive(Clone, Copy, PartialEq, Eq, Debug, Structural)]
pub enum KeyCode {
    Escape,
    F1,
    F2,
    F3,
    F4,
    F5,
    F6,
    F7,
    F8,
    F9,
    F10,
    F11,
    F12,
    Tilde,
    D1,
    D2,
    D3,
    D4,
    D5,
    D6,
    D7,
    D8,
    D9,
    D0,
    Minus,
    Plus,
    Backspace,
    A,
    B,
    C,
    D,
    E,
    F,
    G,
    H,
    I,
    J,
    K,
    L,
    M,
    N,
    O,
    P,
    Q,
    R,
    S,
    T,
    U,
    V,
    W,
    X,
    Y,
    Z,
    Tab,
    CapsLock,
    LeftShift,
    RightShift,
    LeftCtrl,
    RightCtrl,
    LeftAlt,
    RightAlt,
    LeftMeta,
    RightMeta,
    Space,
    Enter,
    Insert,
    Delete,
    Home,
    End,
    PageUp,
    PageDown,
    ArrowUp,
    ArrowDown,
    ArrowLeft,
    ArrowRight,
}

/// Number of keyboard keys.
pub const KEY_CODE_COUNT: u16 = 75;

impl KeyCode {
    /// Position of the key in the declaration order (its `repr`).
    pub open spec fn ordinal(self) -> u16 {
        match self {
            KeyCode::Escape => 0,
            KeyCode::F1 => 1,
            KeyCode::F2 => 2,
            KeyCode::F3 => 3,
            KeyCode::F4 => 4,
            KeyCode::F5 => 5,
            KeyCode::F6 => 6,
            KeyCode::F7 => 7,
            KeyCode::F8 => 8,
            KeyCode::F9 => 9,
            KeyCode::F10 => 10,
            KeyCode::F11 => 11,
            KeyCode::F12 => 12,
            KeyCode::Tilde => 13,
            KeyCode::D1 => 14,
            KeyCode::D2 => 15,
            KeyCode::D3 => 16,
            KeyCode::D4 => 17,
            KeyCode::D5 => 18,
            KeyCode::D6 => 19,
            KeyCode::D7 => 20,
            KeyCode::D8 => 21,
            KeyCode::D9 => 22,
            KeyCode::D0 => 23,
            KeyCode::Minus => 24,
            KeyCode::Plus => 25,
            KeyCode::Backspace => 26,
            KeyCode::A => 27,
            KeyCode::B => 28,
            KeyCode::C => 29,
            KeyCode::D => 30,
            KeyCode::E => 31,
            KeyCode::F => 32,
            KeyCode::G => 33,
            KeyCode::H => 34,
            KeyCode::I => 35,
            KeyCode::J => 36,
            KeyCode::K => 37,
            KeyCode::L => 38,
            KeyCode::M => 39,
            KeyCode::N => 40,
            KeyCode::O => 41,
            KeyCode::P => 42,
            KeyCode::Q => 43,
            KeyCode::R => 44,
            KeyCode::S => 45,
            KeyCode::T => 46,
            KeyCode::U => 47,
            KeyCode::V => 48,
            KeyCode::W => 49,
            KeyCode::X => 50,
            KeyCode::Y => 51,
            KeyCode::Z => 52,
            KeyCode::Tab => 53,
            KeyCode::CapsLock => 54,
            KeyCode::LeftShift => 55,
            KeyCode::RightShift => 56,
            KeyCode::LeftCtrl => 57,
            KeyCode::RightCtrl => 58,
            KeyCode::LeftAlt => 59,
            KeyCode::RightAlt => 60,
            KeyCode::LeftMeta => 61,
            KeyCode::RightMeta => 62,
            KeyCode::Space => 63,
            KeyCode::Enter => 64,
            KeyCode::Insert => 65,
            KeyCode::Delete => 66,
            KeyCode::Home => 67,
            KeyCode::End => 68,
            KeyCode::PageUp => 69,
            KeyCode::PageDown => 70,
            KeyCode::ArrowUp => 71,
            KeyCode::ArrowDown => 72,
            KeyCode::ArrowLeft => 73,
            KeyCode::ArrowRight => 74,
        }
    }

    /// The key whose `ordinal` is `n`, if any.
    pub open spec fn of_ordinal(n: u16) -> Option<KeyCode> {
        match n {
            0 => Some(KeyCode::Escape),
            1 => Some(KeyCode::F1),
            2 => Some(KeyCode::F2),
            3 => Some(KeyCode::F3),
            4 => Some(KeyCode::F4),
            5 => Some(KeyCode::F5),
            6 => Some(KeyCode::F6),
            7 => Some(KeyCode::F7),
            8 => Some(KeyCode::F8),
            9 => Some(KeyCode::F9),
            10 => Some(KeyCode::F10),
            11 => Some(KeyCode::F11),
            12 => Some(KeyCode::F12),
            13 => Some(KeyCode::Tilde),
            14 => Some(KeyCode::D1),
            15 => Some(KeyCode::D2),
            16 => Some(KeyCode::D3),
            17 => Some(KeyCode::D4),
            18 => Some(KeyCode::D5),
            19 => Some(KeyCode::D6),
            20 => Some(KeyCode::D7),
            21 => Some(KeyCode::D8),
            22 => Some(KeyCode::D9),
            23 => Some(KeyCode::D0),
            24 => Some(KeyCode::Minus),
            25 => Some(KeyCode::Plus),
            26 => Some(KeyCode::Backspace),
            27 => Some(KeyCode::A),
            28 => Some(KeyCode::B),
            29 => Some(KeyCode::C),
            30 => Some(KeyCode::D),
            31 => Some(KeyCode::E),
            32 => Some(KeyCode::F),
            33 => Some(KeyCode::G),
            34 => Some(KeyCode::H),
            35 => Some(KeyCode::I),
            36 => Some(KeyCode::J),
            37 => Some(KeyCode::K),
            38 => Some(KeyCode::L),
            39 => Some(KeyCode::M),
            40 => Some(KeyCode::N),
            41 => Some(KeyCode::O),
            42 => Some(KeyCode::P),
            43 => Some(KeyCode::Q),
            44 => Some(KeyCode::R),
            45 => Some(KeyCode::S),
            46 => Some(KeyCode::T),
            47 => Some(KeyCode::U),
            48 => Some(KeyCode::V),
            49 => Some(KeyCode::W),
            50 => Some(KeyCode::X),
            51 => Some(KeyCode::Y),
            52 => Some(KeyCode::Z),
            53 => Some(KeyCode::Tab),
            54 => Some(KeyCode::CapsLock),
            55 => Some(KeyCode::LeftShift),
            56 => Some(KeyCode::RightShift),
            57 => Some(KeyCode::LeftCtrl),
            58 => Some(KeyCode::RightCtrl),
            59 => Some(KeyCode::LeftAlt),
            60 => Some(KeyCode::RightAlt),
            61 => Some(KeyCode::LeftMeta),
            62 => Some(KeyCode::RightMeta),
            63 => Some(KeyCode::Space),
            64 => Some(KeyCode::Enter),
            65 => Some(KeyCode::Insert),
            66 => Some(KeyCode::Delete),
            67 => Some(KeyCode::Home),
            68 => Some(KeyCode::End),
            69 => Some(KeyCode::PageUp),
            70 => Some(KeyCode::PageDown),
            71 => Some(KeyCode::ArrowUp),
            72 => Some(KeyCode::ArrowDown),
            73 => Some(KeyCode::ArrowLeft),
            74 => Some(KeyCode::ArrowRight),
            _ => None,
        }
    }

    /// `of_ordinal` is a left inverse of `ordinal`; hence `ordinal` is injective.
    pub proof fn lemma_ordinal_inverse(self)
        ensures
            KeyCode::of_ordinal(self.ordinal()) == Some(self),
            self.ordinal() < KEY_CODE_COUNT,
    {
    }

    /// The key at position `n` of the declaration order.
    pub fn from_u16(n: u16) -> (r: Self)
        requires
            n < KEY_CODE_COUNT,
        ensures
            r.ordinal() == n,
            KeyCode::of_ordinal(n) == Some(r),
    {
        match n {
            0 => KeyCode::Escape,
            1 => KeyCode::F1,
            2 => KeyCode::F2,
            3 => KeyCode::F3,
            4 => KeyCode::F4,
            5 => KeyCode::F5,
            6 => KeyCode::F6,
            7 => KeyCode::F7,
            8 => KeyCode::F8,
            9 => KeyCode::F9,
            10 => KeyCode::F10,
            11 => KeyCode::F11,
            12 => KeyCode::F12,
            13 => KeyCode::Tilde,
            14 => KeyCode::D1,
            15 => KeyCode::D2,
            16 => KeyCode::D3,
            17 => KeyCode::D4,
            18 => KeyCode::D5,
            19 => KeyCode::D6,
            20 => KeyCode::D7,
            21 => KeyCode::D8,
            22 => KeyCode::D9,
            23 => KeyCode::D0,
            24 => KeyCode::Minus,
            25 => KeyCode::Plus,
            26 => KeyCode::Backspace,
            27 => KeyCode::A,
            28 => KeyCode::B,
            29 => KeyCode::C,
            30 => KeyCode::D,
            31 => KeyCode::E,
            32 => KeyCode::F,
            33 => KeyCode::G,
            34 => KeyCode::H,
            35 => KeyCode::I,
            36 => KeyCode::J,
            37 => KeyCode::K,
            38 => KeyCode::L,
            39 => KeyCode::M,
            40 => KeyCode::N,
            41 => KeyCode::O,
            42 => KeyCode::P,
            43 => KeyCode::Q,
            44 => KeyCode::R,
            45 => KeyCode::S,
            46 => KeyCode::T,
            47 => KeyCode::U,
            48 => KeyCode::V,
            49 => KeyCode::W,
            50 => KeyCode::X,
            51 => KeyCode::Y,
            52 => KeyCode::Z,
            53 => KeyCode::Tab,
            54 => KeyCode::CapsLock,
            55 => KeyCode::LeftShift,
            56 => KeyCode::RightShift,
            57 => KeyCode::LeftCtrl,
            58 => KeyCode::RightCtrl,
            59 => KeyCode::LeftAlt,
            60 => KeyCode::RightAlt,
            61 => KeyCode::LeftMeta,
            62 => KeyCode::RightMeta,
            63 => KeyCode::Space,
            64 => KeyCode::Enter,
            65 => KeyCode::Insert,
            66 => KeyCode::Delete,
            67 => KeyCode::Home,
            68 => KeyCode::End,
            69 => KeyCode::PageUp,
            70 => KeyCode::PageDown,
            71 => KeyCode::ArrowUp,
            72 => KeyCode::ArrowDown,
            73 => KeyCode::ArrowLeft,
            _ => KeyCode::ArrowRight,
        }
    }
}

} // verus!
