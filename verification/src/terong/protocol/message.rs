//! Input events as written on the wire.

use vstd::prelude::*;

verus! {

/// An input event relayed from the server host machine to the client.
#[derive(Clone, Copy, PartialEq, Eq, Debug, Structural)]
pub enum InputEvent {
    MouseMove { dx: i32, dy: i32 },
    MouseButtonDown { button: MouseButton },
    MouseButtonUp { button: MouseButton },
    MouseScroll { direction: ScrollDirection },
    KeyDown { key: KeyboardKey },
    KeyUp { key: KeyboardKey },
}

/// Mouse button.
#[derive(Clone, Copy, PartialEq, Eq, Debug, Structural)]
pub enum MouseButton {
    Left,
    Right,
    Middle,
    Mouse4,
    Mouse5,
}

/// Direction of a mouse wheel movement.
#[derive(Clone, Copy, PartialEq, Eq, Debug, Structural)]
pub enum ScrollDirection {
    Up,
    Down,
}

/// Keyboard key.
#[derive(Clone, Copy, PartialEq, Eq, Debug, Structural)]
pub enum KeyboardKey {
    Escape,
    F1,
    F2,
    F3,
    F4,
    F5,
    F6,
    F7,
    F8,
    F9,
    F10,
    F11,
    F12,
    Tilde,
    D1,
    D2,
    D3,
    D4,
    D5,
    D6,
    D7,
    D8,
    D9,
    D0,
    Minus,
    Plus,
    Backspace,
    A,
    B,
    C,
    D,
    E,
    F,
    G,
    H,
    I,
    J,
    K,
    L,
    M,
    N,
    O,
    P,
    Q,
    R,
    S,
    T,
    U,
    V,
    W,
    X,
    Y,
    Z,
    Tab,
    CapsLock,
    LeftShift,
    LeftCtrl,
    LeftAlt,
    LeftSys,
    Space,
    RightSys,
    RightAlt,
    RightCtrl,
    RightShift,
    Enter,
}

/// Number of keyboard keys.
pub const KEYBOARD_KEY_COUNT: u32 = 65;

impl KeyboardKey {
    /// Position of the key in the declaration order (its `repr`).
    pub open spec fn ordinal(self) -> u32 {
        match self {
            KeyboardKey::Escape => 0,
            KeyboardKey::F1 => 1,
            KeyboardKey::F2 => 2,
            KeyboardKey::F3 => 3,
            KeyboardKey::F4 => 4,
            KeyboardKey::F5 => 5,
            KeyboardKey::F6 => 6,
            KeyboardKey::F7 => 7,
            KeyboardKey::F8 => 8,
            KeyboardKey::F9 => 9,
            KeyboardKey::F10 => 10,
            KeyboardKey::F11 => 11,
            KeyboardKey::F12 => 12,
            KeyboardKey::Tilde => 13,
            KeyboardKey::D1 => 14,
            KeyboardKey::D2 => 15,
            KeyboardKey::D3 => 16,
            KeyboardKey::D4 => 17,
            KeyboardKey::D5 => 18,
            KeyboardKey::D6 => 19,
            KeyboardKey::D7 => 20,
            KeyboardKey::D8 => 21,
            KeyboardKey::D9 => 22,
            KeyboardKey::D0 => 23,
            KeyboardKey::Minus => 24,
            KeyboardKey::Plus => 25,
            KeyboardKey::Backspace => 26,
            KeyboardKey::A => 27,
            KeyboardKey::B => 28,
            KeyboardKey::C => 29,
            KeyboardKey::D => 30,
            KeyboardKey::E => 31,
            KeyboardKey::F => 32,
            KeyboardKey::G => 33,
            KeyboardKey::H => 34,
            KeyboardKey::I => 35,
            KeyboardKey::J => 36,
            KeyboardKey::K => 37,
            KeyboardKey::L => 38,
            KeyboardKey::M => 39,
            KeyboardKey::N => 40,
            KeyboardKey::O => 41,
            KeyboardKey::P => 42,
            KeyboardKey::Q => 43,
            KeyboardKey::R => 44,
            KeyboardKey::S => 45,
            KeyboardKey::T => 46,
            KeyboardKey::U => 47,
            KeyboardKey::V => 48,
            KeyboardKey::W => 49,
            KeyboardKey::X => 50,
            KeyboardKey::Y => 51,
            KeyboardKey::Z => 52,
            KeyboardKey::Tab => 53,
            KeyboardKey::CapsLock => 54,
            KeyboardKey::LeftShift => 55,
            KeyboardKey::LeftCtrl => 56,
            KeyboardKey::LeftAlt => 57,
            KeyboardKey::LeftSys => 58,
            KeyboardKey::Space => 59,
            KeyboardKey::RightSys => 60,
            KeyboardKey::RightAlt => 61,
            KeyboardKey::RightCtrl => 62,
            KeyboardKey::RightShift => 63,
            KeyboardKey::Enter => 64,
        }
    }

    /// The key whose `ordinal` is `n`, if any.
    pub open spec fn of_ordinal(n: u32) -> Option<KeyboardKey> {
        match n {
            0 => Some(KeyboardKey::Escape),
            1 => Some(KeyboardKey::F1),
            2 => Some(KeyboardKey::F2),
            3 => Some(KeyboardKey::F3),
            4 => Some(KeyboardKey::F4),
            5 => Some(KeyboardKey::F5),
            6 => Some(KeyboardKey::F6),
            7 => Some(KeyboardKey::F7),
            8 => Some(KeyboardKey::F8),
            9 => Some(KeyboardKey::F9),
            10 => Some(KeyboardKey::F10),
            11 => Some(KeyboardKey::F11),
            12 => Some(KeyboardKey::F12),
            13 => Some(KeyboardKey::Tilde),
            14 => Some(KeyboardKey::D1),
            15 => Some(KeyboardKey::D2),
            16 => Some(KeyboardKey::D3),
            17 => Some(KeyboardKey::D4),
            18 => Some(KeyboardKey::D5),
            19 => Some(KeyboardKey::D6),
            20 => Some(KeyboardKey::D7),
            21 => Some(KeyboardKey::D8),
            22 => Some(KeyboardKey::D9),
            23 => Some(KeyboardKey::D0),
            24 => Some(KeyboardKey::Minus),
            25 => Some(KeyboardKey::Plus),
            26 => Some(KeyboardKey::Backspace),
            27 => Some(KeyboardKey::A),
            28 => Some(KeyboardKey::B),
            29 => Some(KeyboardKey::C),
            30 => Some(KeyboardKey::D),
            31 => Some(KeyboardKey::E),
            32 => Some(KeyboardKey::F),
            33 => Some(KeyboardKey::G),
            34 => Some(KeyboardKey::H),
            35 => Some(KeyboardKey::I),
            36 => Some(KeyboardKey::J),
            37 => Some(KeyboardKey::K),
            38 => Some(KeyboardKey::L),
            39 => Some(KeyboardKey::M),
            40 => Some(KeyboardKey::N),
            41 => Some(KeyboardKey::O),
            42 => Some(KeyboardKey::P),
            43 => Some(KeyboardKey::Q),
            44 => Some(KeyboardKey::R),
            45 => Some(KeyboardKey::S),
            46 => Some(KeyboardKey::T),
            47 => Some(KeyboardKey::U),
            48 => Some(KeyboardKey::V),
            49 => Some(KeyboardKey::W),
            50 => Some(KeyboardKey::X),
            51 => Some(KeyboardKey::Y),
            52 => Some(KeyboardKey::Z),
            53 => Some(KeyboardKey::Tab),
            54 => Some(KeyboardKey::CapsLock),
            55 => Some(KeyboardKey::LeftShift),
            56 => Some(KeyboardKey::LeftCtrl),
            57 => Some(KeyboardKey::LeftAlt),
            58 => Some(KeyboardKey::LeftSys),
            59 => Some(KeyboardKey::Space),
            60 => Some(KeyboardKey::RightSys),
            61 => Some(KeyboardKey::RightAlt),
            62 => Some(KeyboardKey::RightCtrl),
            63 => Some(KeyboardKey::RightShift),
            64 => Some(KeyboardKey::Enter),
            _ => None,
        }
    }

    /// `of_ordinal` is a left inverse of `ordinal`; hence `ordinal` is injective.
    pub proof fn lemma_ordinal_inverse(self)
        ensures
            KeyboardKey::of_ordinal(self.ordinal()) == Some(self),
            self.ordinal() < KEYBOARD_KEY_COUNT,
    {
    }

    /// The key at position `n` of the declaration order.
    pub fn from_u32(n: u32) -> (r: Self)
        requires
            n < KEYBOARD_KEY_COUNT,
        ensures
            r.ordinal() == n,
            KeyboardKey::of_ordinal(n) == Some(r),
    {
        match n {
            0 => KeyboardKey::Escape,
            1 => KeyboardKey::F1,
            2 => KeyboardKey::F2,
            3 => KeyboardKey::F3,
            4 => KeyboardKey::F4,
            5 => KeyboardKey::F5,
            6 => KeyboardKey::F6,
            7 => KeyboardKey::F7,
            8 => KeyboardKey::F8,
            9 => KeyboardKey::F9,
            10 => KeyboardKey::F10,
            11 => KeyboardKey::F11,
            12 => KeyboardKey::F12,
            13 => KeyboardKey::Tilde,
            14 => KeyboardKey::D1,
            15 => KeyboardKey::D2,
            16 => KeyboardKey::D3,
            17 => KeyboardKey::D4,
            18 => KeyboardKey::D5,
            19 => KeyboardKey::D6,
            20 => KeyboardKey::D7,
            21 => KeyboardKey::D8,
            22 => KeyboardKey::D9,
            23 => KeyboardKey::D0,
            24 => KeyboardKey::Minus,
            25 => KeyboardKey::Plus,
            26 => KeyboardKey::Backspace,
            27 => KeyboardKey::A,
            28 => KeyboardKey::B,
            29 => KeyboardKey::C,
            30 => KeyboardKey::D,
            31 => KeyboardKey::E,
            32 => KeyboardKey::F,
            33 => KeyboardKey::G,
            34 => KeyboardKey::H,
            35 => KeyboardKey::I,
            36 => KeyboardKey::J,
            37 => KeyboardKey::K,
            38 => KeyboardKey::L,
            39 => KeyboardKey::M,
            40 => KeyboardKey::N,
            41 => KeyboardKey::O,
            42 => KeyboardKey::P,
            43 => KeyboardKey::Q,
            44 => KeyboardKey::R,
            45 => KeyboardKey::S,
            46 => KeyboardKey::T,
            47 => KeyboardKey::U,
            48 => KeyboardKey::V,
            49 => KeyboardKey::W,
            50 => KeyboardKey::X,
            51 => KeyboardKey::Y,
            52 => KeyboardKey::Z,
            53 => KeyboardKey::Tab,
            54 => KeyboardKey::CapsLock,
            55 => KeyboardKey::LeftShift,
            56 => KeyboardKey::LeftCtrl,
            57 => KeyboardKey::LeftAlt,
            58 => KeyboardKey::LeftSys,
            59 => KeyboardKey::Space,
            60 => KeyboardKey::RightSys,
            61 => KeyboardKey::RightAlt,
            62 => KeyboardKey::RightCtrl,
            63 => KeyboardKey::RightShift,
            _ => KeyboardKey::Enter,
        }
    }
}

} // verus!
