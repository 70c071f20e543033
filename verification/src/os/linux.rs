//! Linux evdev key codes (`KEY_*` values of `<linux/input-event-codes.h>`).
use vstd::prelude::*;

use crate::daemon::state::NativeAction;
use crate::text::{chars_contain, contains_seq, str_chars, str_eq, str_to_lowercase, to_lower};

verus! {

broadcast use vstd::string::group_string_axioms;

/// Linux evdev keycode for a physical key on a US ANSI keyboard.
///
/// The native code of each key is the `KEY_*` constant of the same key.
#[derive(Debug, Clone, Copy, PartialEq, Eq, Hash, Structural)]
pub enum Key {
    LeftControl,
    RightControl,
    LeftShift,
    RightShift,
    LeftAlt,
    RightAlt,
    LeftCommand,
    RightCommand,
    CapsLock,
    Tab,
    Space,
    Return,
    Backspace,
    Delete,
    Escape,
    UpArrow,
    DownArrow,
    LeftArrow,
    RightArrow,
    PageUp,
    PageDown,
    Home,
    End,
    F1,
    F2,
    F3,
    F4,
    F5,
    F6,
    F7,
    F8,
    F9,
    F10,
    F11,
    F12,
    A,
    B,
    C,
    D,
    E,
    F,
    G,
    H,
    I,
    J,
    K,
    L,
    M,
    N,
    O,
    P,
    Q,
    R,
    S,
    T,
    U,
    V,
    W,
    X,
    Y,
    Z,
    Number1,
    Number2,
    Number3,
    Number4,
    Number5,
    Number6,
    Number7,
    Number8,
    Number9,
    Number0,
}

impl Key {
    /// The native key code of this key.
    pub open spec fn spec_native(self) -> u16 {
        match self {
            Key::LeftControl => 29u16,
            Key::RightControl => 97u16,
            Key::LeftShift => 42u16,
            Key::RightShift => 54u16,
            Key::LeftAlt => 56u16,
            Key::RightAlt => 100u16,
            Key::LeftCommand => 125u16,
            Key::RightCommand => 126u16,
            Key::CapsLock => 58u16,
            Key::Tab => 15u16,
            Key::Space => 57u16,
            Key::Return => 28u16,
            Key::Backspace => 14u16,
            Key::Delete => 111u16,
            Key::Escape => 1u16,
            Key::UpArrow => 103u16,
            Key::DownArrow => 108u16,
            Key::LeftArrow => 105u16,
            Key::RightArrow => 106u16,
            Key::PageUp => 104u16,
            Key::PageDown => 109u16,
            Key::Home => 102u16,
            Key::End => 107u16,
            Key::F1 => 59u16,
            Key::F2 => 60u16,
            Key::F3 => 61u16,
            Key::F4 => 62u16,
            Key::F5 => 63u16,
            Key::F6 => 64u16,
            Key::F7 => 65u16,
            Key::F8 => 66u16,
            Key::F9 => 67u16,
            Key::F10 => 68u16,
            Key::F11 => 87u16,
            Key::F12 => 88u16,
            Key::A => 30u16,
            Key::B => 48u16,
            Key::C => 46u16,
            Key::D => 32u16,
            Key::E => 18u16,
            Key::F => 33u16,
            Key::G => 34u16,
            Key::H => 35u16,
            Key::I => 23u16,
            Key::J => 36u16,
            Key::K => 37u16,
            Key::L => 38u16,
            Key::M => 50u16,
            Key::N => 49u16,
            Key::O => 24u16,
            Key::P => 25u16,
            Key::Q => 16u16,
            Key::R => 19u16,
            Key::S => 31u16,
            Key::T => 20u16,
            Key::U => 22u16,
            Key::V => 47u16,
            Key::W => 17u16,
            Key::X => 45u16,
            Key::Y => 21u16,
            Key::Z => 44u16,
            Key::Number1 => 2u16,
            Key::Number2 => 3u16,
            Key::Number3 => 4u16,
            Key::Number4 => 5u16,
            Key::Number5 => 6u16,
            Key::Number6 => 7u16,
            Key::Number7 => 8u16,
            Key::Number8 => 9u16,
            Key::Number9 => 10u16,
            Key::Number0 => 11u16,
        }
    }

    /// The canonical config-name of this key.
    pub open spec fn spec_name(self) -> Seq<char> {
        match self {
            Key::LeftControl => "leftcontrol"@,
            Key::RightControl => "rightcontrol"@,
            Key::LeftShift => "leftshift"@,
            Key::RightShift => "rightshift"@,
            Key::LeftAlt => "leftalt"@,
            Key::RightAlt => "rightalt"@,
            Key::LeftCommand => "leftcommand"@,
            Key::RightCommand => "rightcommand"@,
            Key::CapsLock => "capslock"@,
            Key::Tab => "tab"@,
            Key::Space => "space"@,
            Key::Return => "return"@,
            Key::Backspace => "backspace"@,
            Key::Delete => "delete"@,
            Key::Escape => "escape"@,
            Key::UpArrow => "uparrow"@,
            Key::DownArrow => "downarrow"@,
            Key::LeftArrow => "leftarrow"@,
            Key::RightArrow => "rightarrow"@,
            Key::PageUp => "pageup"@,
            Key::PageDown => "pagedown"@,
            Key::Home => "home"@,
            Key::End => "end"@,
            Key::F1 => "f1"@,
            Key::F2 => "f2"@,
            Key::F3 => "f3"@,
            Key::F4 => "f4"@,
            Key::F5 => "f5"@,
            Key::F6 => "f6"@,
            Key::F7 => "f7"@,
            Key::F8 => "f8"@,
            Key::F9 => "f9"@,
            Key::F10 => "f10"@,
            Key::F11 => "f11"@,
            Key::F12 => "f12"@,
            Key::A => "a"@,
            Key::B => "b"@,
            Key::C => "c"@,
            Key::D => "d"@,
            Key::E => "e"@,
            Key::F => "f"@,
            Key::G => "g"@,
            Key::H => "h"@,
            Key::I => "i"@,
            Key::J => "j"@,
            Key::K => "k"@,
            Key::L => "l"@,
            Key::M => "m"@,
            Key::N => "n"@,
            Key::O => "o"@,
            Key::P => "p"@,
            Key::Q => "q"@,
            Key::R => "r"@,
            Key::S => "s"@,
            Key::T => "t"@,
            Key::U => "u"@,
            Key::V => "v"@,
            Key::W => "w"@,
            Key::X => "x"@,
            Key::Y => "y"@,
            Key::Z => "z"@,
            Key::Number1 => "1"@,
            Key::Number2 => "2"@,
            Key::Number3 => "3"@,
            Key::Number4 => "4"@,
            Key::Number5 => "5"@,
            Key::Number6 => "6"@,
            Key::Number7 => "7"@,
            Key::Number8 => "8"@,
            Key::Number9 => "9"@,
            Key::Number0 => "0"@,
        }
    }

    /// The key whose native evdev code is `code`, if any.
    pub open spec fn spec_from_native(code: u16) -> Option<Key> {
        match code {
            29 => Some(Key::LeftControl),
            97 => Some(Key::RightControl),
            42 => Some(Key::LeftShift),
            54 => Some(Key::RightShift),
            56 => Some(Key::LeftAlt),
            100 => Some(Key::RightAlt),
            125 => Some(Key::LeftCommand),
            126 => Some(Key::RightCommand),
            58 => Some(Key::CapsLock),
            15 => Some(Key::Tab),
            57 => Some(Key::Space),
            28 => Some(Key::Return),
            14 => Some(Key::Backspace),
            111 => Some(Key::Delete),
            1 => Some(Key::Escape),
            103 => Some(Key::UpArrow),
            108 => Some(Key::DownArrow),
            105 => Some(Key::LeftArrow),
            106 => Some(Key::RightArrow),
            104 => Some(Key::PageUp),
            109 => Some(Key::PageDown),
            102 => Some(Key::Home),
            107 => Some(Key::End),
            59 => Some(Key::F1),
            60 => Some(Key::F2),
            61 => Some(Key::F3),
            62 => Some(Key::F4),
            63 => Some(Key::F5),
            64 => Some(Key::F6),
            65 => Some(Key::F7),
            66 => Some(Key::F8),
            67 => Some(Key::F9),
            68 => Some(Key::F10),
            87 => Some(Key::F11),
            88 => Some(Key::F12),
            30 => Some(Key::A),
            48 => Some(Key::B),
            46 => Some(Key::C),
            32 => Some(Key::D),
            18 => Some(Key::E),
            33 => Some(Key::F),
            34 => Some(Key::G),
            35 => Some(Key::H),
            23 => Some(Key::I),
            36 => Some(Key::J),
            37 => Some(Key::K),
            38 => Some(Key::L),
            50 => Some(Key::M),
            49 => Some(Key::N),
            24 => Some(Key::O),
            25 => Some(Key::P),
            16 => Some(Key::Q),
            19 => Some(Key::R),
            31 => Some(Key::S),
            20 => Some(Key::T),
            22 => Some(Key::U),
            47 => Some(Key::V),
            17 => Some(Key::W),
            45 => Some(Key::X),
            21 => Some(Key::Y),
            44 => Some(Key::Z),
            2 => Some(Key::Number1),
            3 => Some(Key::Number2),
            4 => Some(Key::Number3),
            5 => Some(Key::Number4),
            6 => Some(Key::Number5),
            7 => Some(Key::Number6),
            8 => Some(Key::Number7),
            9 => Some(Key::Number8),
            10 => Some(Key::Number9),
            11 => Some(Key::Number0),
            _ => None,
        }
    }

    /// The key whose native evdev code is `code`, if any.
    pub fn from_native(code: u16) -> (r: Option<Key>)
        ensures
            r == Key::spec_from_native(code),
    {
        match code {
            29 => Some(Key::LeftControl),
            97 => Some(Key::RightControl),
            42 => Some(Key::LeftShift),
            54 => Some(Key::RightShift),
            56 => Some(Key::LeftAlt),
            100 => Some(Key::RightAlt),
            125 => Some(Key::LeftCommand),
            126 => Some(Key::RightCommand),
            58 => Some(Key::CapsLock),
            15 => Some(Key::Tab),
            57 => Some(Key::Space),
            28 => Some(Key::Return),
            14 => Some(Key::Backspace),
            111 => Some(Key::Delete),
            1 => Some(Key::Escape),
            103 => Some(Key::UpArrow),
            108 => Some(Key::DownArrow),
            105 => Some(Key::LeftArrow),
            106 => Some(Key::RightArrow),
            104 => Some(Key::PageUp),
            109 => Some(Key::PageDown),
            102 => Some(Key::Home),
            107 => Some(Key::End),
            59 => Some(Key::F1),
            60 => Some(Key::F2),
            61 => Some(Key::F3),
            62 => Some(Key::F4),
            63 => Some(Key::F5),
            64 => Some(Key::F6),
            65 => Some(Key::F7),
            66 => Some(Key::F8),
            67 => Some(Key::F9),
            68 => Some(Key::F10),
            87 => Some(Key::F11),
            88 => Some(Key::F12),
            30 => Some(Key::A),
            48 => Some(Key::B),
            46 => Some(Key::C),
            32 => Some(Key::D),
            18 => Some(Key::E),
            33 => Some(Key::F),
            34 => Some(Key::G),
            35 => Some(Key::H),
            23 => Some(Key::I),
            36 => Some(Key::J),
            37 => Some(Key::K),
            38 => Some(Key::L),
            50 => Some(Key::M),
            49 => Some(Key::N),
            24 => Some(Key::O),
            25 => Some(Key::P),
            16 => Some(Key::Q),
            19 => Some(Key::R),
            31 => Some(Key::S),
            20 => Some(Key::T),
            22 => Some(Key::U),
            47 => Some(Key::V),
            17 => Some(Key::W),
            45 => Some(Key::X),
            21 => Some(Key::Y),
            44 => Some(Key::Z),
            2 => Some(Key::Number1),
            3 => Some(Key::Number2),
            4 => Some(Key::Number3),
            5 => Some(Key::Number4),
            6 => Some(Key::Number5),
            7 => Some(Key::Number6),
            8 => Some(Key::Number7),
            9 => Some(Key::Number8),
            10 => Some(Key::Number9),
            11 => Some(Key::Number0),
            _ => None,
        }
    }

    /// Convert to the native evdev code.
    pub fn as_native(self) -> (r: u16)
        ensures
            r == self.spec_native(),
    {
        match self {
            Key::LeftControl => 29,
            Key::RightControl => 97,
            Key::LeftShift => 42,
            Key::RightShift => 54,
            Key::LeftAlt => 56,
            Key::RightAlt => 100,
            Key::LeftCommand => 125,
            Key::RightCommand => 126,
            Key::CapsLock => 58,
            Key::Tab => 15,
            Key::Space => 57,
            Key::Return => 28,
            Key::Backspace => 14,
            Key::Delete => 111,
            Key::Escape => 1,
            Key::UpArrow => 103,
            Key::DownArrow => 108,
            Key::LeftArrow => 105,
            Key::RightArrow => 106,
            Key::PageUp => 104,
            Key::PageDown => 109,
            Key::Home => 102,
            Key::End => 107,
            Key::F1 => 59,
            Key::F2 => 60,
            Key::F3 => 61,
            Key::F4 => 62,
            Key::F5 => 63,
            Key::F6 => 64,
            Key::F7 => 65,
            Key::F8 => 66,
            Key::F9 => 67,
            Key::F10 => 68,
            Key::F11 => 87,
            Key::F12 => 88,
            Key::A => 30,
            Key::B => 48,
            Key::C => 46,
            Key::D => 32,
            Key::E => 18,
            Key::F => 33,
            Key::G => 34,
            Key::H => 35,
            Key::I => 23,
            Key::J => 36,
            Key::K => 37,
            Key::L => 38,
            Key::M => 50,
            Key::N => 49,
            Key::O => 24,
            Key::P => 25,
            Key::Q => 16,
            Key::R => 19,
            Key::S => 31,
            Key::T => 20,
            Key::U => 22,
            Key::V => 47,
            Key::W => 17,
            Key::X => 45,
            Key::Y => 21,
            Key::Z => 44,
            Key::Number1 => 2,
            Key::Number2 => 3,
            Key::Number3 => 4,
            Key::Number4 => 5,
            Key::Number5 => 6,
            Key::Number6 => 7,
            Key::Number7 => 8,
            Key::Number8 => 9,
            Key::Number9 => 10,
            Key::Number0 => 11,
        }
    }

    /// Return the canonical config-name for this key.
    pub fn as_str(self) -> (r: &'static str)
        ensures
            r@ == self.spec_name(),
    {
        match self {
            Key::LeftControl => "leftcontrol",
            Key::RightControl => "rightcontrol",
            Key::LeftShift => "leftshift",
            Key::RightShift => "rightshift",
            Key::LeftAlt => "leftalt",
            Key::RightAlt => "rightalt",
            Key::LeftCommand => "leftcommand",
            Key::RightCommand => "rightcommand",
            Key::CapsLock => "capslock",
            Key::Tab => "tab",
            Key::Space => "space",
            Key::Return => "return",
            Key::Backspace => "backspace",
            Key::Delete => "delete",
            Key::Escape => "escape",
            Key::UpArrow => "uparrow",
            Key::DownArrow => "downarrow",
            Key::LeftArrow => "leftarrow",
            Key::RightArrow => "rightarrow",
            Key::PageUp => "pageup",
            Key::PageDown => "pagedown",
            Key::Home => "home",
            Key::End => "end",
            Key::F1 => "f1",
            Key::F2 => "f2",
            Key::F3 => "f3",
            Key::F4 => "f4",
            Key::F5 => "f5",
            Key::F6 => "f6",
            Key::F7 => "f7",
            Key::F8 => "f8",
            Key::F9 => "f9",
            Key::F10 => "f10",
            Key::F11 => "f11",
            Key::F12 => "f12",
            Key::A => "a",
            Key::B => "b",
            Key::C => "c",
            Key::D => "d",
            Key::E => "e",
            Key::F => "f",
            Key::G => "g",
            Key::H => "h",
            Key::I => "i",
            Key::J => "j",
            Key::K => "k",
            Key::L => "l",
            Key::M => "m",
            Key::N => "n",
            Key::O => "o",
            Key::P => "p",
            Key::Q => "q",
            Key::R => "r",
            Key::S => "s",
            Key::T => "t",
            Key::U => "u",
            Key::V => "v",
            Key::W => "w",
            Key::X => "x",
            Key::Y => "y",
            Key::Z => "z",
            Key::Number1 => "1",
            Key::Number2 => "2",
            Key::Number3 => "3",
            Key::Number4 => "4",
            Key::Number5 => "5",
            Key::Number6 => "6",
            Key::Number7 => "7",
            Key::Number8 => "8",
            Key::Number9 => "9",
            Key::Number0 => "0",
        }
    }

    /// The key whose canonical name (or number alias) is `name`.
    pub open spec fn spec_from_canonical(name: Seq<char>) -> Option<Key> {
        if name == "leftcontrol"@ {
            Some(Key::LeftControl)
        } else if name == "rightcontrol"@ {
            Some(Key::RightControl)
        } else if name == "leftshift"@ {
            Some(Key::LeftShift)
        } else if name == "rightshift"@ {
            Some(Key::RightShift)
        } else if name == "leftalt"@ {
            Some(Key::LeftAlt)
        } else if name == "rightalt"@ {
            Some(Key::RightAlt)
        } else if name == "leftcommand"@ {
            Some(Key::LeftCommand)
        } else if name == "rightcommand"@ {
            Some(Key::RightCommand)
        } else if name == "capslock"@ {
            Some(Key::CapsLock)
        } else if name == "tab"@ {
            Some(Key::Tab)
        } else if name == "space"@ {
            Some(Key::Space)
        } else if name == "return"@ {
            Some(Key::Return)
        } else if name == "backspace"@ {
            Some(Key::Backspace)
        } else if name == "delete"@ {
            Some(Key::Delete)
        } else if name == "escape"@ {
            Some(Key::Escape)
        } else if name == "uparrow"@ {
            Some(Key::UpArrow)
        } else if name == "downarrow"@ {
            Some(Key::DownArrow)
        } else if name == "leftarrow"@ {
            Some(Key::LeftArrow)
        } else if name == "rightarrow"@ {
            Some(Key::RightArrow)
        } else if name == "pageup"@ {
            Some(Key::PageUp)
        } else if name == "pagedown"@ {
            Some(Key::PageDown)
        } else if name == "home"@ {
            Some(Key::Home)
        } else if name == "end"@ {
            Some(Key::End)
        } else if name == "f1"@ {
            Some(Key::F1)
        } else if name == "f2"@ {
            Some(Key::F2)
        } else if name == "f3"@ {
            Some(Key::F3)
        } else if name == "f4"@ {
            Some(Key::F4)
        } else if name == "f5"@ {
            Some(Key::F5)
        } else if name == "f6"@ {
            Some(Key::F6)
        } else if name == "f7"@ {
            Some(Key::F7)
        } else if name == "f8"@ {
            Some(Key::F8)
        } else if name == "f9"@ {
            Some(Key::F9)
        } else if name == "f10"@ {
            Some(Key::F10)
        } else if name == "f11"@ {
            Some(Key::F11)
        } else if name == "f12"@ {
            Some(Key::F12)
        } else if name == "a"@ {
            Some(Key::A)
        } else if name == "b"@ {
            Some(Key::B)
        } else if name == "c"@ {
            Some(Key::C)
        } else if name == "d"@ {
            Some(Key::D)
        } else if name == "e"@ {
            Some(Key::E)
        } else if name == "f"@ {
            Some(Key::F)
        } else if name == "g"@ {
            Some(Key::G)
        } else if name == "h"@ {
            Some(Key::H)
        } else if name == "i"@ {
            Some(Key::I)
        } else if name == "j"@ {
            Some(Key::J)
        } else if name == "k"@ {
            Some(Key::K)
        } else if name == "l"@ {
            Some(Key::L)
        } else if name == "m"@ {
            Some(Key::M)
        } else if name == "n"@ {
            Some(Key::N)
        } else if name == "o"@ {
            Some(Key::O)
        } else if name == "p"@ {
            Some(Key::P)
        } else if name == "q"@ {
            Some(Key::Q)
        } else if name == "r"@ {
            Some(Key::R)
        } else if name == "s"@ {
            Some(Key::S)
        } else if name == "t"@ {
            Some(Key::T)
        } else if name == "u"@ {
            Some(Key::U)
        } else if name == "v"@ {
            Some(Key::V)
        } else if name == "w"@ {
            Some(Key::W)
        } else if name == "x"@ {
            Some(Key::X)
        } else if name == "y"@ {
            Some(Key::Y)
        } else if name == "z"@ {
            Some(Key::Z)
        } else if name == "1"@ || name == "number1"@ {
            Some(Key::Number1)
        } else if name == "2"@ || name == "number2"@ {
            Some(Key::Number2)
        } else if name == "3"@ || name == "number3"@ {
            Some(Key::Number3)
        } else if name == "4"@ || name == "number4"@ {
            Some(Key::Number4)
        } else if name == "5"@ || name == "number5"@ {
            Some(Key::Number5)
        } else if name == "6"@ || name == "number6"@ {
            Some(Key::Number6)
        } else if name == "7"@ || name == "number7"@ {
            Some(Key::Number7)
        } else if name == "8"@ || name == "number8"@ {
            Some(Key::Number8)
        } else if name == "9"@ || name == "number9"@ {
            Some(Key::Number9)
        } else if name == "0"@ || name == "number0"@ {
            Some(Key::Number0)
        } else {
            None
        }
    }

    /// Parse a canonical name into a Key variant.
    pub fn from_canonical(name: &str) -> (r: Option<Key>)
        ensures
            r == Key::spec_from_canonical(name@),
    {
        if str_eq(name, "leftcontrol") {
            Some(Key::LeftControl)
        } else if str_eq(name, "rightcontrol") {
            Some(Key::RightControl)
        } else if str_eq(name, "leftshift") {
            Some(Key::LeftShift)
        } else if str_eq(name, "rightshift") {
            Some(Key::RightShift)
        } else if str_eq(name, "leftalt") {
            Some(Key::LeftAlt)
        } else if str_eq(name, "rightalt") {
            Some(Key::RightAlt)
        } else if str_eq(name, "leftcommand") {
            Some(Key::LeftCommand)
        } else if str_eq(name, "rightcommand") {
            Some(Key::RightCommand)
        } else if str_eq(name, "capslock") {
            Some(Key::CapsLock)
        } else if str_eq(name, "tab") {
            Some(Key::Tab)
        } else if str_eq(name, "space") {
            Some(Key::Space)
        } else if str_eq(name, "return") {
            Some(Key::Return)
        } else if str_eq(name, "backspace") {
            Some(Key::Backspace)
        } else if str_eq(name, "delete") {
            Some(Key::Delete)
        } else if str_eq(name, "escape") {
            Some(Key::Escape)
        } else if str_eq(name, "uparrow") {
            Some(Key::UpArrow)
        } else if str_eq(name, "downarrow") {
            Some(Key::DownArrow)
        } else if str_eq(name, "leftarrow") {
            Some(Key::LeftArrow)
        } else if str_eq(name, "rightarrow") {
            Some(Key::RightArrow)
        } else if str_eq(name, "pageup") {
            Some(Key::PageUp)
        } else if str_eq(name, "pagedown") {
            Some(Key::PageDown)
        } else if str_eq(name, "home") {
            Some(Key::Home)
        } else if str_eq(name, "end") {
            Some(Key::End)
        } else if str_eq(name, "f1") {
            Some(Key::F1)
        } else if str_eq(name, "f2") {
            Some(Key::F2)
        } else if str_eq(name, "f3") {
            Some(Key::F3)
        } else if str_eq(name, "f4") {
            Some(Key::F4)
        } else if str_eq(name, "f5") {
            Some(Key::F5)
        } else if str_eq(name, "f6") {
            Some(Key::F6)
        } else if str_eq(name, "f7") {
            Some(Key::F7)
        } else if str_eq(name, "f8") {
            Some(Key::F8)
        } else if str_eq(name, "f9") {
            Some(Key::F9)
        } else if str_eq(name, "f10") {
            Some(Key::F10)
        } else if str_eq(name, "f11") {
            Some(Key::F11)
        } else if str_eq(name, "f12") {
            Some(Key::F12)
        } else if str_eq(name, "a") {
            Some(Key::A)
        } else if str_eq(name, "b") {
            Some(Key::B)
        } else if str_eq(name, "c") {
            Some(Key::C)
        } else if str_eq(name, "d") {
            Some(Key::D)
        } else if str_eq(name, "e") {
            Some(Key::E)
        } else if str_eq(name, "f") {
            Some(Key::F)
        } else if str_eq(name, "g") {
            Some(Key::G)
        } else if str_eq(name, "h") {
            Some(Key::H)
        } else if str_eq(name, "i") {
            Some(Key::I)
        } else if str_eq(name, "j") {
            Some(Key::J)
        } else if str_eq(name, "k") {
            Some(Key::K)
        } else if str_eq(name, "l") {
            Some(Key::L)
        } else if str_eq(name, "m") {
            Some(Key::M)
        } else if str_eq(name, "n") {
            Some(Key::N)
        } else if str_eq(name, "o") {
            Some(Key::O)
        } else if str_eq(name, "p") {
            Some(Key::P)
        } else if str_eq(name, "q") {
            Some(Key::Q)
        } else if str_eq(name, "r") {
            Some(Key::R)
        } else if str_eq(name, "s") {
            Some(Key::S)
        } else if str_eq(name, "t") {
            Some(Key::T)
        } else if str_eq(name, "u") {
            Some(Key::U)
        } else if str_eq(name, "v") {
            Some(Key::V)
        } else if str_eq(name, "w") {
            Some(Key::W)
        } else if str_eq(name, "x") {
            Some(Key::X)
        } else if str_eq(name, "y") {
            Some(Key::Y)
        } else if str_eq(name, "z") {
            Some(Key::Z)
        } else if str_eq(name, "1") || str_eq(name, "number1") {
            Some(Key::Number1)
        } else if str_eq(name, "2") || str_eq(name, "number2") {
            Some(Key::Number2)
        } else if str_eq(name, "3") || str_eq(name, "number3") {
            Some(Key::Number3)
        } else if str_eq(name, "4") || str_eq(name, "number4") {
            Some(Key::Number4)
        } else if str_eq(name, "5") || str_eq(name, "number5") {
            Some(Key::Number5)
        } else if str_eq(name, "6") || str_eq(name, "number6") {
            Some(Key::Number6)
        } else if str_eq(name, "7") || str_eq(name, "number7") {
            Some(Key::Number7)
        } else if str_eq(name, "8") || str_eq(name, "number8") {
            Some(Key::Number8)
        } else if str_eq(name, "9") || str_eq(name, "number9") {
            Some(Key::Number9)
        } else if str_eq(name, "0") || str_eq(name, "number0") {
            Some(Key::Number0)
        } else {
            None
        }
    }

}

/// Native codes and keys correspond one to one.
pub proof fn lemma_from_native_inverts_as_native(k: Key, code: u16)
    ensures
        Key::spec_from_native(k.spec_native()) == Some(k),
        Key::spec_from_native(code) matches Some(j) ==> j.spec_native() == code,
{
}

/// Every key's canonical name parses back to the key.
pub proof fn lemma_from_canonical_inverts_as_str(k: Key)
    ensures
        Key::spec_from_canonical(k.spec_name()) == Some(k),
{
    crate::os::macos::lemma_key_name_literals_1();
    crate::os::macos::lemma_key_name_literals_2();
    crate::os::macos::lemma_key_name_literals_3();
    crate::os::macos::lemma_key_name_literals_4();
    crate::os::macos::lemma_key_name_literals_5();
}



// ---------------------------------------------------------------------------
// evdev event handling decisions
// ---------------------------------------------------------------------------

/// One operation on the virtual keyboard.
#[derive(Debug, Clone, Copy, PartialEq, Eq, Structural)]
pub enum KeyOp {
    /// Press the key with this code.
    Press(u16),
    /// Release the key with this code.
    Release(u16),
    /// Flush the pending operations (`SYN_REPORT`).
    Synchronize,
}

/// The operations that forward one event of key `code` with event value
/// `value` (1 = down, 0 = up, otherwise repeat) as key `target`: a repeat
/// becomes a press followed by a release, to keep autorepeat.
pub open spec fn forward_ops(target: u16, value: i32) -> Seq<KeyOp> {
    if value == 1 {
        seq![KeyOp::Press(target), KeyOp::Synchronize]
    } else if value == 0 {
        seq![KeyOp::Release(target), KeyOp::Synchronize]
    } else {
        seq![KeyOp::Press(target), KeyOp::Release(target), KeyOp::Synchronize]
    }
}

/// Presses of `ts` in order.
pub open spec fn press_all(ts: Seq<u16>) -> Seq<KeyOp> {
    ts.map_values(|t: u16| KeyOp::Press(t))
}

/// Releases of `ts` in reverse order.
pub open spec fn release_all_reversed(ts: Seq<u16>) -> Seq<KeyOp> {
    ts.reverse().map_values(|t: u16| KeyOp::Release(t))
}

/// The operations for one key event: a remap forwards the event as the
/// target key, a shortcut presses its keys on key-down and releases them in
/// reverse order on key-up (a repeat does nothing), no action forwards the
/// event unchanged.  Every event ends with a synchronization.
pub open spec fn spec_event_ops(action: Option<NativeAction>, code: u16, value: i32) -> Seq<KeyOp> {
    match action {
        Some(NativeAction::RemapTo(target)) => forward_ops(target, value),
        Some(NativeAction::Shortcut(targets)) => if value == 1 {
            press_all(targets@).push(KeyOp::Synchronize)
        } else if value == 0 {
            release_all_reversed(targets@).push(KeyOp::Synchronize)
        } else {
            seq![KeyOp::Synchronize]
        },
        None => forward_ops(code, value),
    }
}

fn forward(target: u16, value: i32) -> (r: Vec<KeyOp>)
    ensures
        r@ == forward_ops(target, value),
{
    let r = if value == 1 {
        vec![KeyOp::Press(target), KeyOp::Synchronize]
    } else if value == 0 {
        vec![KeyOp::Release(target), KeyOp::Synchronize]
    } else {
        vec![KeyOp::Press(target), KeyOp::Release(target), KeyOp::Synchronize]
    };
    assert(r@ =~= forward_ops(target, value));
    r
}

/// The virtual-keyboard operations for one key event of key `code` with
/// event value `value` (1 = down, 0 = up, 2 = repeat), given the action the
/// lookup found for it.
pub fn event_ops(action: Option<&NativeAction>, code: u16, value: i32) -> (r: Vec<KeyOp>)
    ensures
        r@ == spec_event_ops(
            match action {
                Some(a) => Some(*a),
                None => None,
            },
            code,
            value,
        ),
{
    match action {
        Some(NativeAction::RemapTo(target)) => forward(*target, value),
        Some(NativeAction::Shortcut(targets)) => {
            let mut ops: Vec<KeyOp> = Vec::new();
            if value == 1 {
                let mut i: usize = 0;
                while i < targets.len()
                    invariant
                        i <= targets@.len(),
                        ops@ == press_all(targets@.take(i as int)),
                    decreases targets@.len() - i,
                {
                    ops.push(KeyOp::Press(targets[i]));
                    assert(press_all(targets@.take(i as int + 1)) =~= press_all(targets@.take(i as int)).push(
                        KeyOp::Press(targets@[i as int]),
                    ));
                    i = i + 1;
                }
                assert(targets@.take(targets@.len() as int) =~= targets@);
            } else if value == 0 {
                let mut i: usize = targets.len();
                while i > 0
                    invariant
                        i <= targets@.len(),
                        ops@ == release_all_reversed(targets@.subrange(i as int, targets@.len() as int)),
                    decreases i,
                {
                    i = i - 1;
                    ops.push(KeyOp::Release(targets[i]));
                    assert(release_all_reversed(targets@.subrange(i as int, targets@.len() as int))
                        =~= release_all_reversed(targets@.subrange(i as int + 1, targets@.len() as int)).push(
                        KeyOp::Release(targets@[i as int]),
                    ));
                }
                assert(targets@.subrange(0, targets@.len() as int) =~= targets@);
            }
            ops.push(KeyOp::Synchronize);
            assert(value != 1 && value != 0 ==> ops@ =~= seq![KeyOp::Synchronize]);
            ops
        },
        None => forward(code, value),
    }
}

/// A shortcut releases on key-up exactly the keys it pressed on key-down,
/// in the opposite order.
pub proof fn lemma_shortcut_release_mirrors_press(targets: Seq<u16>)
    ensures
        release_all_reversed(targets).len() == press_all(targets).len(),
        forall|i: int|
            0 <= i < targets.len() ==> (#[trigger] release_all_reversed(targets)[i] == KeyOp::Release(
                targets[targets.len() - 1 - i],
            )) && press_all(targets)[targets.len() - 1 - i] == KeyOp::Press(
                targets[targets.len() - 1 - i],
            ),
{
}

// ---------------------------------------------------------------------------
// Keyboard device selection
// ---------------------------------------------------------------------------

/// A device named `name` is a usable keyboard: it reports key events and
/// its lower-cased name mentions neither "virtual" nor "uinput" (our own
/// synthetic devices).
pub open spec fn is_keyboard_candidate(name: Seq<char>, has_keys: bool) -> bool {
    has_keys && !contains_seq(to_lower(name), "virtual"@) && !contains_seq(to_lower(name), "uinput"@)
}

/// A device name that looks like a real keyboard.
pub open spec fn is_preferred_keyboard(name: Seq<char>) -> bool {
    let l = to_lower(name);
    contains_seq(l, "keyboard"@) || contains_seq(l, "kbd"@) || contains_seq(l, "at set"@)
        || contains_seq(l, "apple"@)
}

/// Device `i` is a candidate and no earlier device satisfies `pref` among
/// the candidates.
pub open spec fn first_candidate_with(
    names: Seq<String>,
    keys: Seq<bool>,
    preferred_only: bool,
    i: int,
) -> bool {
    &&& 0 <= i < names.len()
    &&& is_keyboard_candidate(names[i]@, keys[i])
    &&& (preferred_only ==> is_preferred_keyboard(names[i]@))
    &&& forall|j: int|
        0 <= j < i ==> !(is_keyboard_candidate((#[trigger] names[j])@, keys[j]) && (preferred_only
            ==> is_preferred_keyboard(names[j]@)))
}

fn lowered_contains(lower: &Vec<char>, pat: &str) -> (r: bool)
    ensures
        r == contains_seq(lower@, pat@),
{
    let p = str_chars(pat);
    chars_contain(lower, &p)
}

/// Pick the keyboard to read from among the devices with names `names`
/// (`has_keys[i]`: device `i` reports key events).  Virtual and uinput
/// devices are never picked; the first candidate whose name looks like a
/// keyboard is preferred, otherwise the first candidate is taken.  `None`
/// when there is no candidate.
pub fn select_keyboard(names: &Vec<String>, has_keys: &Vec<bool>) -> (r: Option<usize>)
    requires
        names@.len() == has_keys@.len(),
    ensures
        r matches Some(i) ==> first_candidate_with(names@, has_keys@, true, i as int) || (
        first_candidate_with(names@, has_keys@, false, i as int) && forall|j: int|
            0 <= j < names@.len() ==> !(is_keyboard_candidate((#[trigger] names@[j])@, has_keys@[j])
                && is_preferred_keyboard(names@[j]@))),
        r is None ==> forall|j: int|
            0 <= j < names@.len() ==> !is_keyboard_candidate((#[trigger] names@[j])@, has_keys@[j]),
{
    let mut first: Option<usize> = None;
    let mut i: usize = 0;
    while i < names.len()
        invariant
            i <= names@.len() == has_keys@.len(),
            forall|j: int|
                0 <= j < i ==> !(is_keyboard_candidate((#[trigger] names@[j])@, has_keys@[j])
                    && is_preferred_keyboard(names@[j]@)),
            first is None ==> forall|j: int|
                0 <= j < i ==> !is_keyboard_candidate((#[trigger] names@[j])@, has_keys@[j]),
            first matches Some(f) ==> f < i && first_candidate_with(names@, has_keys@, false, f as int),
        decreases names@.len() - i,
    {
        let lower = str_to_lowercase(names[i].as_str());
        let lc = str_chars(lower.as_str());
        let candidate = has_keys[i] && !lowered_contains(&lc, "virtual") && !lowered_contains(&lc, "uinput");
        if candidate {
            let preferred = lowered_contains(&lc, "keyboard") || lowered_contains(&lc, "kbd")
                || lowered_contains(&lc, "at set") || lowered_contains(&lc, "apple");
            if preferred {
                assert(first_candidate_with(names@, has_keys@, true, i as int));
                return Some(i);
            }
            if first.is_none() {
                first = Some(i);
            }
        }
        i = i + 1;
    }
    first
}

} // verus!
