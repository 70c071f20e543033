//! macOS key codes (`kVK_*` values of `<HIToolbox/Events.h>`).
use vstd::prelude::*;

use crate::mapping_cache::NativeKey;
use crate::state::{resolve_outputs, spec_resolve, Lookup, RuntimeState};
use crate::text::{str_eq, str_to_lowercase, to_lower};

verus! {

broadcast use vstd::string::group_string_axioms;

/// macOS virtual keycode for a physical key on a US ANSI keyboard.
///
/// The native code of each key is the `kVK_*` constant of the same key.
#[derive(Debug, Clone, Copy, PartialEq, Eq, Hash, Structural)]
pub enum Key {
    LeftControl,
    RightControl,
    LeftShift,
    RightShift,
    LeftAlt,
    RightAlt,
    LeftCommand,
    RightCommand,
    CapsLock,
    Tab,
    Space,
    Return,
    Backspace,
    Delete,
    Escape,
    UpArrow,
    DownArrow,
    LeftArrow,
    RightArrow,
    PageUp,
    PageDown,
    Home,
    End,
    F1,
    F2,
    F3,
    F4,
    F5,
    F6,
    F7,
    F8,
    F9,
    F10,
    F11,
    F12,
    A,
    B,
    C,
    D,
    E,
    F,
    G,
    H,
    I,
    J,
    K,
    L,
    M,
    N,
    O,
    P,
    Q,
    R,
    S,
    T,
    U,
    V,
    W,
    X,
    Y,
    Z,
    Number1,
    Number2,
    Number3,
    Number4,
    Number5,
    Number6,
    Number7,
    Number8,
    Number9,
    Number0,
}

impl Key {
    /// The native key code of this key.
    pub open spec fn spec_native(self) -> u16 {
        match self {
            Key::LeftControl => 59u16,
            Key::RightControl => 62u16,
            Key::LeftShift => 56u16,
            Key::RightShift => 60u16,
            Key::LeftAlt => 58u16,
            Key::RightAlt => 61u16,
            Key::LeftCommand => 55u16,
            Key::RightCommand => 54u16,
            Key::CapsLock => 57u16,
            Key::Tab => 48u16,
            Key::Space => 49u16,
            Key::Return => 36u16,
            Key::Backspace => 51u16,
            Key::Delete => 117u16,
            Key::Escape => 53u16,
            Key::UpArrow => 126u16,
            Key::DownArrow => 125u16,
            Key::LeftArrow => 123u16,
            Key::RightArrow => 124u16,
            Key::PageUp => 116u16,
            Key::PageDown => 121u16,
            Key::Home => 115u16,
            Key::End => 119u16,
            Key::F1 => 122u16,
            Key::F2 => 120u16,
            Key::F3 => 99u16,
            Key::F4 => 118u16,
            Key::F5 => 96u16,
            Key::F6 => 97u16,
            Key::F7 => 98u16,
            Key::F8 => 100u16,
            Key::F9 => 101u16,
            Key::F10 => 109u16,
            Key::F11 => 103u16,
            Key::F12 => 111u16,
            Key::A => 0u16,
            Key::B => 11u16,
            Key::C => 8u16,
            Key::D => 2u16,
            Key::E => 14u16,
            Key::F => 3u16,
            Key::G => 5u16,
            Key::H => 4u16,
            Key::I => 34u16,
            Key::J => 38u16,
            Key::K => 40u16,
            Key::L => 37u16,
            Key::M => 46u16,
            Key::N => 45u16,
            Key::O => 31u16,
            Key::P => 35u16,
            Key::Q => 12u16,
            Key::R => 15u16,
            Key::S => 1u16,
            Key::T => 17u16,
            Key::U => 32u16,
            Key::V => 9u16,
            Key::W => 13u16,
            Key::X => 7u16,
            Key::Y => 16u16,
            Key::Z => 6u16,
            Key::Number1 => 18u16,
            Key::Number2 => 19u16,
            Key::Number3 => 20u16,
            Key::Number4 => 21u16,
            Key::Number5 => 23u16,
            Key::Number6 => 22u16,
            Key::Number7 => 26u16,
            Key::Number8 => 28u16,
            Key::Number9 => 25u16,
            Key::Number0 => 29u16,
        }
    }

    /// The canonical config-name of this key.
    pub open spec fn spec_name(self) -> Seq<char> {
        match self {
            Key::LeftControl => "leftcontrol"@,
            Key::RightControl => "rightcontrol"@,
            Key::LeftShift => "leftshift"@,
            Key::RightShift => "rightshift"@,
            Key::LeftAlt => "leftalt"@,
            Key::RightAlt => "rightalt"@,
            Key::LeftCommand => "leftcommand"@,
            Key::RightCommand => "rightcommand"@,
            Key::CapsLock => "capslock"@,
            Key::Tab => "tab"@,
            Key::Space => "space"@,
            Key::Return => "return"@,
            Key::Backspace => "backspace"@,
            Key::Delete => "delete"@,
            Key::Escape => "escape"@,
            Key::UpArrow => "uparrow"@,
            Key::DownArrow => "downarrow"@,
            Key::LeftArrow => "leftarrow"@,
            Key::RightArrow => "rightarrow"@,
            Key::PageUp => "pageup"@,
            Key::PageDown => "pagedown"@,
            Key::Home => "home"@,
            Key::End => "end"@,
            Key::F1 => "f1"@,
            Key::F2 => "f2"@,
            Key::F3 => "f3"@,
            Key::F4 => "f4"@,
            Key::F5 => "f5"@,
            Key::F6 => "f6"@,
            Key::F7 => "f7"@,
            Key::F8 => "f8"@,
            Key::F9 => "f9"@,
            Key::F10 => "f10"@,
            Key::F11 => "f11"@,
            Key::F12 => "f12"@,
            Key::A => "a"@,
            Key::B => "b"@,
            Key::C => "c"@,
            Key::D => "d"@,
            Key::E => "e"@,
            Key::F => "f"@,
            Key::G => "g"@,
            Key::H => "h"@,
            Key::I => "i"@,
            Key::J => "j"@,
            Key::K => "k"@,
            Key::L => "l"@,
            Key::M => "m"@,
            Key::N => "n"@,
            Key::O => "o"@,
            Key::P => "p"@,
            Key::Q => "q"@,
            Key::R => "r"@,
            Key::S => "s"@,
            Key::T => "t"@,
            Key::U => "u"@,
            Key::V => "v"@,
            Key::W => "w"@,
            Key::X => "x"@,
            Key::Y => "y"@,
            Key::Z => "z"@,
            Key::Number1 => "1"@,
            Key::Number2 => "2"@,
            Key::Number3 => "3"@,
            Key::Number4 => "4"@,
            Key::Number5 => "5"@,
            Key::Number6 => "6"@,
            Key::Number7 => "7"@,
            Key::Number8 => "8"@,
            Key::Number9 => "9"@,
            Key::Number0 => "0"@,
        }
    }

    /// Convert to the native CGKeyCode.
    pub fn as_native(self) -> (r: u16)
        ensures
            r == self.spec_native(),
    {
        match self {
            Key::LeftControl => 59,
            Key::RightControl => 62,
            Key::LeftShift => 56,
            Key::RightShift => 60,
            Key::LeftAlt => 58,
            Key::RightAlt => 61,
            Key::LeftCommand => 55,
            Key::RightCommand => 54,
            Key::CapsLock => 57,
            Key::Tab => 48,
            Key::Space => 49,
            Key::Return => 36,
            Key::Backspace => 51,
            Key::Delete => 117,
            Key::Escape => 53,
            Key::UpArrow => 126,
            Key::DownArrow => 125,
            Key::LeftArrow => 123,
            Key::RightArrow => 124,
            Key::PageUp => 116,
            Key::PageDown => 121,
            Key::Home => 115,
            Key::End => 119,
            Key::F1 => 122,
            Key::F2 => 120,
            Key::F3 => 99,
            Key::F4 => 118,
            Key::F5 => 96,
            Key::F6 => 97,
            Key::F7 => 98,
            Key::F8 => 100,
            Key::F9 => 101,
            Key::F10 => 109,
            Key::F11 => 103,
            Key::F12 => 111,
            Key::A => 0,
            Key::B => 11,
            Key::C => 8,
            Key::D => 2,
            Key::E => 14,
            Key::F => 3,
            Key::G => 5,
            Key::H => 4,
            Key::I => 34,
            Key::J => 38,
            Key::K => 40,
            Key::L => 37,
            Key::M => 46,
            Key::N => 45,
            Key::O => 31,
            Key::P => 35,
            Key::Q => 12,
            Key::R => 15,
            Key::S => 1,
            Key::T => 17,
            Key::U => 32,
            Key::V => 9,
            Key::W => 13,
            Key::X => 7,
            Key::Y => 16,
            Key::Z => 6,
            Key::Number1 => 18,
            Key::Number2 => 19,
            Key::Number3 => 20,
            Key::Number4 => 21,
            Key::Number5 => 23,
            Key::Number6 => 22,
            Key::Number7 => 26,
            Key::Number8 => 28,
            Key::Number9 => 25,
            Key::Number0 => 29,
        }
    }

    /// Return the canonical config-name for this key.
    pub fn as_str(self) -> (r: &'static str)
        ensures
            r@ == self.spec_name(),
    {
        match self {
            Key::LeftControl => "leftcontrol",
            Key::RightControl => "rightcontrol",
            Key::LeftShift => "leftshift",
            Key::RightShift => "rightshift",
            Key::LeftAlt => "leftalt",
            Key::RightAlt => "rightalt",
            Key::LeftCommand => "leftcommand",
            Key::RightCommand => "rightcommand",
            Key::CapsLock => "capslock",
            Key::Tab => "tab",
            Key::Space => "space",
            Key::Return => "return",
            Key::Backspace => "backspace",
            Key::Delete => "delete",
            Key::Escape => "escape",
            Key::UpArrow => "uparrow",
            Key::DownArrow => "downarrow",
            Key::LeftArrow => "leftarrow",
            Key::RightArrow => "rightarrow",
            Key::PageUp => "pageup",
            Key::PageDown => "pagedown",
            Key::Home => "home",
            Key::End => "end",
            Key::F1 => "f1",
            Key::F2 => "f2",
            Key::F3 => "f3",
            Key::F4 => "f4",
            Key::F5 => "f5",
            Key::F6 => "f6",
            Key::F7 => "f7",
            Key::F8 => "f8",
            Key::F9 => "f9",
            Key::F10 => "f10",
            Key::F11 => "f11",
            Key::F12 => "f12",
            Key::A => "a",
            Key::B => "b",
            Key::C => "c",
            Key::D => "d",
            Key::E => "e",
            Key::F => "f",
            Key::G => "g",
            Key::H => "h",
            Key::I => "i",
            Key::J => "j",
            Key::K => "k",
            Key::L => "l",
            Key::M => "m",
            Key::N => "n",
            Key::O => "o",
            Key::P => "p",
            Key::Q => "q",
            Key::R => "r",
            Key::S => "s",
            Key::T => "t",
            Key::U => "u",
            Key::V => "v",
            Key::W => "w",
            Key::X => "x",
            Key::Y => "y",
            Key::Z => "z",
            Key::Number1 => "1",
            Key::Number2 => "2",
            Key::Number3 => "3",
            Key::Number4 => "4",
            Key::Number5 => "5",
            Key::Number6 => "6",
            Key::Number7 => "7",
            Key::Number8 => "8",
            Key::Number9 => "9",
            Key::Number0 => "0",
        }
    }

    /// The key whose canonical name (or number alias) is `name`.
    pub open spec fn spec_from_canonical(name: Seq<char>) -> Option<Key> {
        if name == "leftcontrol"@ {
            Some(Key::LeftControl)
        } else if name == "rightcontrol"@ {
            Some(Key::RightControl)
        } else if name == "leftshift"@ {
            Some(Key::LeftShift)
        } else if name == "rightshift"@ {
            Some(Key::RightShift)
        } else if name == "leftalt"@ {
            Some(Key::LeftAlt)
        } else if name == "rightalt"@ {
            Some(Key::RightAlt)
        } else if name == "leftcommand"@ {
            Some(Key::LeftCommand)
        } else if name == "rightcommand"@ {
            Some(Key::RightCommand)
        } else if name == "capslock"@ {
            Some(Key::CapsLock)
        } else if name == "tab"@ {
            Some(Key::Tab)
        } else if name == "space"@ {
            Some(Key::Space)
        } else if name == "return"@ {
            Some(Key::Return)
        } else if name == "backspace"@ {
            Some(Key::Backspace)
        } else if name == "delete"@ {
            Some(Key::Delete)
        } else if name == "escape"@ {
            Some(Key::Escape)
        } else if name == "uparrow"@ {
            Some(Key::UpArrow)
        } else if name == "downarrow"@ {
            Some(Key::DownArrow)
        } else if name == "leftarrow"@ {
            Some(Key::LeftArrow)
        } else if name == "rightarrow"@ {
            Some(Key::RightArrow)
        } else if name == "pageup"@ {
            Some(Key::PageUp)
        } else if name == "pagedown"@ {
            Some(Key::PageDown)
        } else if name == "home"@ {
            Some(Key::Home)
        } else if name == "end"@ {
            Some(Key::End)
        } else if name == "f1"@ {
            Some(Key::F1)
        } else if name == "f2"@ {
            Some(Key::F2)
        } else if name == "f3"@ {
            Some(Key::F3)
        } else if name == "f4"@ {
            Some(Key::F4)
        } else if name == "f5"@ {
            Some(Key::F5)
        } else if name == "f6"@ {
            Some(Key::F6)
        } else if name == "f7"@ {
            Some(Key::F7)
        } else if name == "f8"@ {
            Some(Key::F8)
        } else if name == "f9"@ {
            Some(Key::F9)
        } else if name == "f10"@ {
            Some(Key::F10)
        } else if name == "f11"@ {
            Some(Key::F11)
        } else if name == "f12"@ {
            Some(Key::F12)
        } else if name == "a"@ {
            Some(Key::A)
        } else if name == "b"@ {
            Some(Key::B)
        } else if name == "c"@ {
            Some(Key::C)
        } else if name == "d"@ {
            Some(Key::D)
        } else if name == "e"@ {
            Some(Key::E)
        } else if name == "f"@ {
            Some(Key::F)
        } else if name == "g"@ {
            Some(Key::G)
        } else if name == "h"@ {
            Some(Key::H)
        } else if name == "i"@ {
            Some(Key::I)
        } else if name == "j"@ {
            Some(Key::J)
        } else if name == "k"@ {
            Some(Key::K)
        } else if name == "l"@ {
            Some(Key::L)
        } else if name == "m"@ {
            Some(Key::M)
        } else if name == "n"@ {
            Some(Key::N)
        } else if name == "o"@ {
            Some(Key::O)
        } else if name == "p"@ {
            Some(Key::P)
        } else if name == "q"@ {
            Some(Key::Q)
        } else if name == "r"@ {
            Some(Key::R)
        } else if name == "s"@ {
            Some(Key::S)
        } else if name == "t"@ {
            Some(Key::T)
        } else if name == "u"@ {
            Some(Key::U)
        } else if name == "v"@ {
            Some(Key::V)
        } else if name == "w"@ {
            Some(Key::W)
        } else if name == "x"@ {
            Some(Key::X)
        } else if name == "y"@ {
            Some(Key::Y)
        } else if name == "z"@ {
            Some(Key::Z)
        } else if name == "1"@ || name == "number1"@ {
            Some(Key::Number1)
        } else if name == "2"@ || name == "number2"@ {
            Some(Key::Number2)
        } else if name == "3"@ || name == "number3"@ {
            Some(Key::Number3)
        } else if name == "4"@ || name == "number4"@ {
            Some(Key::Number4)
        } else if name == "5"@ || name == "number5"@ {
            Some(Key::Number5)
        } else if name == "6"@ || name == "number6"@ {
            Some(Key::Number6)
        } else if name == "7"@ || name == "number7"@ {
            Some(Key::Number7)
        } else if name == "8"@ || name == "number8"@ {
            Some(Key::Number8)
        } else if name == "9"@ || name == "number9"@ {
            Some(Key::Number9)
        } else if name == "0"@ || name == "number0"@ {
            Some(Key::Number0)
        } else {
            None
        }
    }

    /// Parse a canonical name into a Key variant.
    pub fn from_canonical(name: &str) -> (r: Option<Key>)
        ensures
            r == Key::spec_from_canonical(name@),
    {
        if str_eq(name, "leftcontrol") {
            Some(Key::LeftControl)
        } else if str_eq(name, "rightcontrol") {
            Some(Key::RightControl)
        } else if str_eq(name, "leftshift") {
            Some(Key::LeftShift)
        } else if str_eq(name, "rightshift") {
            Some(Key::RightShift)
        } else if str_eq(name, "leftalt") {
            Some(Key::LeftAlt)
        } else if str_eq(name, "rightalt") {
            Some(Key::RightAlt)
        } else if str_eq(name, "leftcommand") {
            Some(Key::LeftCommand)
        } else if str_eq(name, "rightcommand") {
            Some(Key::RightCommand)
        } else if str_eq(name, "capslock") {
            Some(Key::CapsLock)
        } else if str_eq(name, "tab") {
            Some(Key::Tab)
        } else if str_eq(name, "space") {
            Some(Key::Space)
        } else if str_eq(name, "return") {
            Some(Key::Return)
        } else if str_eq(name, "backspace") {
            Some(Key::Backspace)
        } else if str_eq(name, "delete") {
            Some(Key::Delete)
        } else if str_eq(name, "escape") {
            Some(Key::Escape)
        } else if str_eq(name, "uparrow") {
            Some(Key::UpArrow)
        } else if str_eq(name, "downarrow") {
            Some(Key::DownArrow)
        } else if str_eq(name, "leftarrow") {
            Some(Key::LeftArrow)
        } else if str_eq(name, "rightarrow") {
            Some(Key::RightArrow)
        } else if str_eq(name, "pageup") {
            Some(Key::PageUp)
        } else if str_eq(name, "pagedown") {
            Some(Key::PageDown)
        } else if str_eq(name, "home") {
            Some(Key::Home)
        } else if str_eq(name, "end") {
            Some(Key::End)
        } else if str_eq(name, "f1") {
            Some(Key::F1)
        } else if str_eq(name, "f2") {
            Some(Key::F2)
        } else if str_eq(name, "f3") {
            Some(Key::F3)
        } else if str_eq(name, "f4") {
            Some(Key::F4)
        } else if str_eq(name, "f5") {
            Some(Key::F5)
        } else if str_eq(name, "f6") {
            Some(Key::F6)
        } else if str_eq(name, "f7") {
            Some(Key::F7)
        } else if str_eq(name, "f8") {
            Some(Key::F8)
        } else if str_eq(name, "f9") {
            Some(Key::F9)
        } else if str_eq(name, "f10") {
            Some(Key::F10)
        } else if str_eq(name, "f11") {
            Some(Key::F11)
        } else if str_eq(name, "f12") {
            Some(Key::F12)
        } else if str_eq(name, "a") {
            Some(Key::A)
        } else if str_eq(name, "b") {
            Some(Key::B)
        } else if str_eq(name, "c") {
            Some(Key::C)
        } else if str_eq(name, "d") {
            Some(Key::D)
        } else if str_eq(name, "e") {
            Some(Key::E)
        } else if str_eq(name, "f") {
            Some(Key::F)
        } else if str_eq(name, "g") {
            Some(Key::G)
        } else if str_eq(name, "h") {
            Some(Key::H)
        } else if str_eq(name, "i") {
            Some(Key::I)
        } else if str_eq(name, "j") {
            Some(Key::J)
        } else if str_eq(name, "k") {
            Some(Key::K)
        } else if str_eq(name, "l") {
            Some(Key::L)
        } else if str_eq(name, "m") {
            Some(Key::M)
        } else if str_eq(name, "n") {
            Some(Key::N)
        } else if str_eq(name, "o") {
            Some(Key::O)
        } else if str_eq(name, "p") {
            Some(Key::P)
        } else if str_eq(name, "q") {
            Some(Key::Q)
        } else if str_eq(name, "r") {
            Some(Key::R)
        } else if str_eq(name, "s") {
            Some(Key::S)
        } else if str_eq(name, "t") {
            Some(Key::T)
        } else if str_eq(name, "u") {
            Some(Key::U)
        } else if str_eq(name, "v") {
            Some(Key::V)
        } else if str_eq(name, "w") {
            Some(Key::W)
        } else if str_eq(name, "x") {
            Some(Key::X)
        } else if str_eq(name, "y") {
            Some(Key::Y)
        } else if str_eq(name, "z") {
            Some(Key::Z)
        } else if str_eq(name, "1") || str_eq(name, "number1") {
            Some(Key::Number1)
        } else if str_eq(name, "2") || str_eq(name, "number2") {
            Some(Key::Number2)
        } else if str_eq(name, "3") || str_eq(name, "number3") {
            Some(Key::Number3)
        } else if str_eq(name, "4") || str_eq(name, "number4") {
            Some(Key::Number4)
        } else if str_eq(name, "5") || str_eq(name, "number5") {
            Some(Key::Number5)
        } else if str_eq(name, "6") || str_eq(name, "number6") {
            Some(Key::Number6)
        } else if str_eq(name, "7") || str_eq(name, "number7") {
            Some(Key::Number7)
        } else if str_eq(name, "8") || str_eq(name, "number8") {
            Some(Key::Number8)
        } else if str_eq(name, "9") || str_eq(name, "number9") {
            Some(Key::Number9)
        } else if str_eq(name, "0") || str_eq(name, "number0") {
            Some(Key::Number0)
        } else {
            None
        }
    }

    /// Modifier bit position (0-7) of this key in the 8-bit modifier mask,
    /// `None` for keys that are not modifiers.
    pub open spec fn spec_modifier_bit(self) -> Option<u8> {
        match self {
            Key::LeftControl => Some(0u8),
            Key::RightControl => Some(1u8),
            Key::LeftShift => Some(2u8),
            Key::RightShift => Some(3u8),
            Key::LeftAlt => Some(4u8),
            Key::RightAlt => Some(5u8),
            Key::LeftCommand => Some(6u8),
            Key::RightCommand => Some(7u8),
            _ => None,
        }
    }

    /// Both modifier bit positions of this key's modifier group (left and
    /// right side), `None` for keys that are not modifiers.
    pub open spec fn spec_modifier_positions(self) -> Option<Seq<u8>> {
        match self {
            Key::LeftControl => Some(seq![0u8, 1u8]),
            Key::RightControl => Some(seq![0u8, 1u8]),
            Key::LeftShift => Some(seq![2u8, 3u8]),
            Key::RightShift => Some(seq![2u8, 3u8]),
            Key::LeftAlt => Some(seq![4u8, 5u8]),
            Key::RightAlt => Some(seq![4u8, 5u8]),
            Key::LeftCommand => Some(seq![6u8, 7u8]),
            Key::RightCommand => Some(seq![6u8, 7u8]),
            _ => None,
        }
    }

    /// Return the modifier bit **position** (0–7) for this key.
    ///
    /// Modifier keys return `Some(position)` where position is the index in
    /// the 8-bit modifier mask.  Non-modifier keys return `None`.
    pub fn as_modifier_bit(self) -> (r: Option<u8>)
        ensures
            r == self.spec_modifier_bit(),
    {
        match self {
            Key::LeftControl => Some(0),
            Key::RightControl => Some(1),
            Key::LeftShift => Some(2),
            Key::RightShift => Some(3),
            Key::LeftAlt => Some(4),
            Key::RightAlt => Some(5),
            Key::LeftCommand => Some(6),
            Key::RightCommand => Some(7),
            _ => None,
        }
    }

    /// Return the possible modifier bit positions for this key.
    ///
    /// All modifier keys return both left and right positions, enabling
    /// "either side" matching.  Non-modifier keys return `None`.
    pub fn as_modifier_positions(self) -> (r: Option<Vec<u8>>)
        ensures
            r.is_some() == self.spec_modifier_positions().is_some(),
            r matches Some(v) ==> Some(v@) == self.spec_modifier_positions(),
    {
        match self {
            Key::LeftControl | Key::RightControl => Some(vec![0, 1]),
            Key::LeftShift | Key::RightShift => Some(vec![2, 3]),
            Key::LeftAlt | Key::RightAlt => Some(vec![4, 5]),
            Key::LeftCommand | Key::RightCommand => Some(vec![6, 7]),
            _ => None,
        }
    }
}

/// The characters of the key-name literals (part 1); the Linux and Windows
/// tables use the same names.
pub proof fn lemma_key_name_literals_1()
    ensures
        "leftcontrol"@.len() == 11 && "leftcontrol"@[0] == 'l' && "leftcontrol"@[1] == 'e' && "leftcontrol"@[2] == 'f' && "leftcontrol"@[3] == 't' && "leftcontrol"@[4] == 'c' && "leftcontrol"@[5] == 'o' && "leftcontrol"@[6] == 'n' && "leftcontrol"@[7] == 't' && "leftcontrol"@[8] == 'r' && "leftcontrol"@[9] == 'o' && "leftcontrol"@[10] == 'l',
        "rightcontrol"@.len() == 12 && "rightcontrol"@[0] == 'r' && "rightcontrol"@[1] == 'i' && "rightcontrol"@[2] == 'g' && "rightcontrol"@[3] == 'h' && "rightcontrol"@[4] == 't' && "rightcontrol"@[5] == 'c' && "rightcontrol"@[6] == 'o' && "rightcontrol"@[7] == 'n' && "rightcontrol"@[8] == 't' && "rightcontrol"@[9] == 'r' && "rightcontrol"@[10] == 'o' && "rightcontrol"@[11] == 'l',
        "leftshift"@.len() == 9 && "leftshift"@[0] == 'l' && "leftshift"@[1] == 'e' && "leftshift"@[2] == 'f' && "leftshift"@[3] == 't' && "leftshift"@[4] == 's' && "leftshift"@[5] == 'h' && "leftshift"@[6] == 'i' && "leftshift"@[7] == 'f' && "leftshift"@[8] == 't',
        "rightshift"@.len() == 10 && "rightshift"@[0] == 'r' && "rightshift"@[1] == 'i' && "rightshift"@[2] == 'g' && "rightshift"@[3] == 'h' && "rightshift"@[4] == 't' && "rightshift"@[5] == 's' && "rightshift"@[6] == 'h' && "rightshift"@[7] == 'i' && "rightshift"@[8] == 'f' && "rightshift"@[9] == 't',
        "leftalt"@.len() == 7 && "leftalt"@[0] == 'l' && "leftalt"@[1] == 'e' && "leftalt"@[2] == 'f' && "leftalt"@[3] == 't' && "leftalt"@[4] == 'a' && "leftalt"@[5] == 'l' && "leftalt"@[6] == 't',
        "rightalt"@.len() == 8 && "rightalt"@[0] == 'r' && "rightalt"@[1] == 'i' && "rightalt"@[2] == 'g' && "rightalt"@[3] == 'h' && "rightalt"@[4] == 't' && "rightalt"@[5] == 'a' && "rightalt"@[6] == 'l' && "rightalt"@[7] == 't',
        "leftcommand"@.len() == 11 && "leftcommand"@[0] == 'l' && "leftcommand"@[1] == 'e' && "leftcommand"@[2] == 'f' && "leftcommand"@[3] == 't' && "leftcommand"@[4] == 'c' && "leftcommand"@[5] == 'o' && "leftcommand"@[6] == 'm' && "leftcommand"@[7] == 'm' && "leftcommand"@[8] == 'a' && "leftcommand"@[9] == 'n' && "leftcommand"@[10] == 'd',
        "rightcommand"@.len() == 12 && "rightcommand"@[0] == 'r' && "rightcommand"@[1] == 'i' && "rightcommand"@[2] == 'g' && "rightcommand"@[3] == 'h' && "rightcommand"@[4] == 't' && "rightcommand"@[5] == 'c' && "rightcommand"@[6] == 'o' && "rightcommand"@[7] == 'm' && "rightcommand"@[8] == 'm' && "rightcommand"@[9] == 'a' && "rightcommand"@[10] == 'n' && "rightcommand"@[11] == 'd',
        "capslock"@.len() == 8 && "capslock"@[0] == 'c' && "capslock"@[1] == 'a' && "capslock"@[2] == 'p' && "capslock"@[3] == 's' && "capslock"@[4] == 'l' && "capslock"@[5] == 'o' && "capslock"@[6] == 'c' && "capslock"@[7] == 'k',
        "tab"@.len() == 3 && "tab"@[0] == 't' && "tab"@[1] == 'a' && "tab"@[2] == 'b',
        "space"@.len() == 5 && "space"@[0] == 's' && "space"@[1] == 'p' && "space"@[2] == 'a' && "space"@[3] == 'c' && "space"@[4] == 'e',
        "return"@.len() == 6 && "return"@[0] == 'r' && "return"@[1] == 'e' && "return"@[2] == 't' && "return"@[3] == 'u' && "return"@[4] == 'r' && "return"@[5] == 'n',
        "backspace"@.len() == 9 && "backspace"@[0] == 'b' && "backspace"@[1] == 'a' && "backspace"@[2] == 'c' && "backspace"@[3] == 'k' && "backspace"@[4] == 's' && "backspace"@[5] == 'p' && "backspace"@[6] == 'a' && "backspace"@[7] == 'c' && "backspace"@[8] == 'e',
        "delete"@.len() == 6 && "delete"@[0] == 'd' && "delete"@[1] == 'e' && "delete"@[2] == 'l' && "delete"@[3] == 'e' && "delete"@[4] == 't' && "delete"@[5] == 'e',
        "escape"@.len() == 6 && "escape"@[0] == 'e' && "escape"@[1] == 's' && "escape"@[2] == 'c' && "escape"@[3] == 'a' && "escape"@[4] == 'p' && "escape"@[5] == 'e',
        "uparrow"@.len() == 7 && "uparrow"@[0] == 'u' && "uparrow"@[1] == 'p' && "uparrow"@[2] == 'a' && "uparrow"@[3] == 'r' && "uparrow"@[4] == 'r' && "uparrow"@[5] == 'o' && "uparrow"@[6] == 'w',
        "downarrow"@.len() == 9 && "downarrow"@[0] == 'd' && "downarrow"@[1] == 'o' && "downarrow"@[2] == 'w' && "downarrow"@[3] == 'n' && "downarrow"@[4] == 'a' && "downarrow"@[5] == 'r' && "downarrow"@[6] == 'r' && "downarrow"@[7] == 'o' && "downarrow"@[8] == 'w',
        "leftarrow"@.len() == 9 && "leftarrow"@[0] == 'l' && "leftarrow"@[1] == 'e' && "leftarrow"@[2] == 'f' && "leftarrow"@[3] == 't' && "leftarrow"@[4] == 'a' && "leftarrow"@[5] == 'r' && "leftarrow"@[6] == 'r' && "leftarrow"@[7] == 'o' && "leftarrow"@[8] == 'w',
        "rightarrow"@.len() == 10 && "rightarrow"@[0] == 'r' && "rightarrow"@[1] == 'i' && "rightarrow"@[2] == 'g' && "rightarrow"@[3] == 'h' && "rightarrow"@[4] == 't' && "rightarrow"@[5] == 'a' && "rightarrow"@[6] == 'r' && "rightarrow"@[7] == 'r' && "rightarrow"@[8] == 'o' && "rightarrow"@[9] == 'w',
        "pageup"@.len() == 6 && "pageup"@[0] == 'p' && "pageup"@[1] == 'a' && "pageup"@[2] == 'g' && "pageup"@[3] == 'e' && "pageup"@[4] == 'u' && "pageup"@[5] == 'p',
{
    reveal_strlit("leftcontrol");
    reveal_strlit("rightcontrol");
    reveal_strlit("leftshift");
    reveal_strlit("rightshift");
    reveal_strlit("leftalt");
    reveal_strlit("rightalt");
    reveal_strlit("leftcommand");
    reveal_strlit("rightcommand");
    reveal_strlit("capslock");
    reveal_strlit("tab");
    reveal_strlit("space");
    reveal_strlit("return");
    reveal_strlit("backspace");
    reveal_strlit("delete");
    reveal_strlit("escape");
    reveal_strlit("uparrow");
    reveal_strlit("downarrow");
    reveal_strlit("leftarrow");
    reveal_strlit("rightarrow");
    reveal_strlit("pageup");
}

/// The characters of the key-name literals (part 2).
pub proof fn lemma_key_name_literals_2()
    ensures
        "pagedown"@.len() == 8 && "pagedown"@[0] == 'p' && "pagedown"@[1] == 'a' && "pagedown"@[2] == 'g' && "pagedown"@[3] == 'e' && "pagedown"@[4] == 'd' && "pagedown"@[5] == 'o' && "pagedown"@[6] == 'w' && "pagedown"@[7] == 'n',
        "home"@.len() == 4 && "home"@[0] == 'h' && "home"@[1] == 'o' && "home"@[2] == 'm' && "home"@[3] == 'e',
        "end"@.len() == 3 && "end"@[0] == 'e' && "end"@[1] == 'n' && "end"@[2] == 'd',
        "f1"@.len() == 2 && "f1"@[0] == 'f' && "f1"@[1] == '1',
        "f2"@.len() == 2 && "f2"@[0] == 'f' && "f2"@[1] == '2',
        "f3"@.len() == 2 && "f3"@[0] == 'f' && "f3"@[1] == '3',
        "f4"@.len() == 2 && "f4"@[0] == 'f' && "f4"@[1] == '4',
        "f5"@.len() == 2 && "f5"@[0] == 'f' && "f5"@[1] == '5',
        "f6"@.len() == 2 && "f6"@[0] == 'f' && "f6"@[1] == '6',
        "f7"@.len() == 2 && "f7"@[0] == 'f' && "f7"@[1] == '7',
        "f8"@.len() == 2 && "f8"@[0] == 'f' && "f8"@[1] == '8',
        "f9"@.len() == 2 && "f9"@[0] == 'f' && "f9"@[1] == '9',
        "f10"@.len() == 3 && "f10"@[0] == 'f' && "f10"@[1] == '1' && "f10"@[2] == '0',
        "f11"@.len() == 3 && "f11"@[0] == 'f' && "f11"@[1] == '1' && "f11"@[2] == '1',
        "f12"@.len() == 3 && "f12"@[0] == 'f' && "f12"@[1] == '1' && "f12"@[2] == '2',
        "a"@.len() == 1 && "a"@[0] == 'a',
        "b"@.len() == 1 && "b"@[0] == 'b',
        "c"@.len() == 1 && "c"@[0] == 'c',
        "d"@.len() == 1 && "d"@[0] == 'd',
        "e"@.len() == 1 && "e"@[0] == 'e',
{
    reveal_strlit("pagedown");
    reveal_strlit("home");
    reveal_strlit("end");
    reveal_strlit("f1");
    reveal_strlit("f2");
    reveal_strlit("f3");
    reveal_strlit("f4");
    reveal_strlit("f5");
    reveal_strlit("f6");
    reveal_strlit("f7");
    reveal_strlit("f8");
    reveal_strlit("f9");
    reveal_strlit("f10");
    reveal_strlit("f11");
    reveal_strlit("f12");
    reveal_strlit("a");
    reveal_strlit("b");
    reveal_strlit("c");
    reveal_strlit("d");
    reveal_strlit("e");
}

/// The characters of the key-name literals (part 3).
pub proof fn lemma_key_name_literals_3()
    ensures
        "f"@.len() == 1 && "f"@[0] == 'f',
        "g"@.len() == 1 && "g"@[0] == 'g',
        "h"@.len() == 1 && "h"@[0] == 'h',
        "i"@.len() == 1 && "i"@[0] == 'i',
        "j"@.len() == 1 && "j"@[0] == 'j',
        "k"@.len() == 1 && "k"@[0] == 'k',
        "l"@.len() == 1 && "l"@[0] == 'l',
        "m"@.len() == 1 && "m"@[0] == 'm',
        "n"@.len() == 1 && "n"@[0] == 'n',
        "o"@.len() == 1 && "o"@[0] == 'o',
        "p"@.len() == 1 && "p"@[0] == 'p',
        "q"@.len() == 1 && "q"@[0] == 'q',
        "r"@.len() == 1 && "r"@[0] == 'r',
        "s"@.len() == 1 && "s"@[0] == 's',
        "t"@.len() == 1 && "t"@[0] == 't',
        "u"@.len() == 1 && "u"@[0] == 'u',
        "v"@.len() == 1 && "v"@[0] == 'v',
        "w"@.len() == 1 && "w"@[0] == 'w',
        "x"@.len() == 1 && "x"@[0] == 'x',
        "y"@.len() == 1 && "y"@[0] == 'y',
{
    reveal_strlit("f");
    reveal_strlit("g");
    reveal_strlit("h");
    reveal_strlit("i");
    reveal_strlit("j");
    reveal_strlit("k");
    reveal_strlit("l");
    reveal_strlit("m");
    reveal_strlit("n");
    reveal_strlit("o");
    reveal_strlit("p");
    reveal_strlit("q");
    reveal_strlit("r");
    reveal_strlit("s");
    reveal_strlit("t");
    reveal_strlit("u");
    reveal_strlit("v");
    reveal_strlit("w");
    reveal_strlit("x");
    reveal_strlit("y");
}

/// The characters of the key-name literals (part 4).
pub proof fn lemma_key_name_literals_4()
    ensures
        "z"@.len() == 1 && "z"@[0] == 'z',
        "1"@.len() == 1 && "1"@[0] == '1',
        "2"@.len() == 1 && "2"@[0] == '2',
        "3"@.len() == 1 && "3"@[0] == '3',
        "4"@.len() == 1 && "4"@[0] == '4',
        "5"@.len() == 1 && "5"@[0] == '5',
        "6"@.len() == 1 && "6"@[0] == '6',
        "7"@.len() == 1 && "7"@[0] == '7',
        "8"@.len() == 1 && "8"@[0] == '8',
        "9"@.len() == 1 && "9"@[0] == '9',
        "0"@.len() == 1 && "0"@[0] == '0',
        "number1"@.len() == 7 && "number1"@[0] == 'n' && "number1"@[1] == 'u' && "number1"@[2] == 'm' && "number1"@[3] == 'b' && "number1"@[4] == 'e' && "number1"@[5] == 'r' && "number1"@[6] == '1',
        "number2"@.len() == 7 && "number2"@[0] == 'n' && "number2"@[1] == 'u' && "number2"@[2] == 'm' && "number2"@[3] == 'b' && "number2"@[4] == 'e' && "number2"@[5] == 'r' && "number2"@[6] == '2',
        "number3"@.len() == 7 && "number3"@[0] == 'n' && "number3"@[1] == 'u' && "number3"@[2] == 'm' && "number3"@[3] == 'b' && "number3"@[4] == 'e' && "number3"@[5] == 'r' && "number3"@[6] == '3',
        "number4"@.len() == 7 && "number4"@[0] == 'n' && "number4"@[1] == 'u' && "number4"@[2] == 'm' && "number4"@[3] == 'b' && "number4"@[4] == 'e' && "number4"@[5] == 'r' && "number4"@[6] == '4',
        "number5"@.len() == 7 && "number5"@[0] == 'n' && "number5"@[1] == 'u' && "number5"@[2] == 'm' && "number5"@[3] == 'b' && "number5"@[4] == 'e' && "number5"@[5] == 'r' && "number5"@[6] == '5',
        "number6"@.len() == 7 && "number6"@[0] == 'n' && "number6"@[1] == 'u' && "number6"@[2] == 'm' && "number6"@[3] == 'b' && "number6"@[4] == 'e' && "number6"@[5] == 'r' && "number6"@[6] == '6',
        "number7"@.len() == 7 && "number7"@[0] == 'n' && "number7"@[1] == 'u' && "number7"@[2] == 'm' && "number7"@[3] == 'b' && "number7"@[4] == 'e' && "number7"@[5] == 'r' && "number7"@[6] == '7',
        "number8"@.len() == 7 && "number8"@[0] == 'n' && "number8"@[1] == 'u' && "number8"@[2] == 'm' && "number8"@[3] == 'b' && "number8"@[4] == 'e' && "number8"@[5] == 'r' && "number8"@[6] == '8',
        "number9"@.len() == 7 && "number9"@[0] == 'n' && "number9"@[1] == 'u' && "number9"@[2] == 'm' && "number9"@[3] == 'b' && "number9"@[4] == 'e' && "number9"@[5] == 'r' && "number9"@[6] == '9',
{
    reveal_strlit("z");
    reveal_strlit("1");
    reveal_strlit("2");
    reveal_strlit("3");
    reveal_strlit("4");
    reveal_strlit("5");
    reveal_strlit("6");
    reveal_strlit("7");
    reveal_strlit("8");
    reveal_strlit("9");
    reveal_strlit("0");
    reveal_strlit("number1");
    reveal_strlit("number2");
    reveal_strlit("number3");
    reveal_strlit("number4");
    reveal_strlit("number5");
    reveal_strlit("number6");
    reveal_strlit("number7");
    reveal_strlit("number8");
    reveal_strlit("number9");
}

/// The characters of the key-name literals (part 5).
pub proof fn lemma_key_name_literals_5()
    ensures
        "number0"@.len() == 7 && "number0"@[0] == 'n' && "number0"@[1] == 'u' && "number0"@[2] == 'm' && "number0"@[3] == 'b' && "number0"@[4] == 'e' && "number0"@[5] == 'r' && "number0"@[6] == '0',
{
    reveal_strlit("number0");
}

/// Every key's canonical name parses back to the key.
pub proof fn lemma_from_canonical_inverts_as_str(k: Key)
    ensures
        Key::spec_from_canonical(k.spec_name()) == Some(k),
{
    lemma_key_name_literals_1();
    lemma_key_name_literals_2();
    lemma_key_name_literals_3();
    lemma_key_name_literals_4();
    lemma_key_name_literals_5();
}

/// A modifier key's own bit is one of its group's positions, every position
/// is below 8, and exactly the modifier keys have a bit.
pub proof fn lemma_modifier_bit_in_positions(k: Key)
    ensures
        k.spec_modifier_bit().is_some() == k.spec_modifier_positions().is_some(),
        k.spec_modifier_bit() matches Some(b) ==> b < 8 && k.spec_modifier_positions()->0.contains(b),
        k.spec_modifier_positions() matches Some(ps) ==> ps.len() == 2 && ps[0] < 8 && ps[1] < 8,
{
    match k {
        Key::LeftControl | Key::RightControl => {
            assert(seq![0u8, 1u8][0] == 0u8 && seq![0u8, 1u8][1] == 1u8);
        },
        Key::LeftShift | Key::RightShift => {
            assert(seq![2u8, 3u8][0] == 2u8 && seq![2u8, 3u8][1] == 3u8);
        },
        Key::LeftAlt | Key::RightAlt => {
            assert(seq![4u8, 5u8][0] == 4u8 && seq![4u8, 5u8][1] == 5u8);
        },
        Key::LeftCommand | Key::RightCommand => {
            assert(seq![6u8, 7u8][0] == 6u8 && seq![6u8, 7u8][1] == 7u8);
        },
        _ => {},
    }
}


// ---------------------------------------------------------------------------
// Modifier tracking and chord emission
// ---------------------------------------------------------------------------

/// The modifier bit position of a native key code, `None` for codes of keys
/// that are not modifiers.
pub open spec fn spec_keycode_bit(code: u16) -> Option<u8> {
    if code == 59 {
        Some(0u8)
    } else if code == 62 {
        Some(1u8)
    } else if code == 56 {
        Some(2u8)
    } else if code == 60 {
        Some(3u8)
    } else if code == 58 {
        Some(4u8)
    } else if code == 61 {
        Some(5u8)
    } else if code == 55 {
        Some(6u8)
    } else if code == 54 {
        Some(7u8)
    } else {
        None
    }
}

/// The native key code of a modifier bit position, `None` above 7.
pub open spec fn spec_bit_code(bit: u8) -> Option<u16> {
    if bit == 0 {
        Some(59u16)
    } else if bit == 1 {
        Some(62u16)
    } else if bit == 2 {
        Some(56u16)
    } else if bit == 3 {
        Some(60u16)
    } else if bit == 4 {
        Some(58u16)
    } else if bit == 5 {
        Some(61u16)
    } else if bit == 6 {
        Some(55u16)
    } else if bit == 7 {
        Some(54u16)
    } else {
        None
    }
}

/// Map a CGKeyCode to its modifier bit position.  Returns `None` for
/// non-modifier keys.
pub fn keycode_to_modifier_bit(code: u16) -> (r: Option<u8>)
    ensures
        r == spec_keycode_bit(code),
{
    match code {
        59 => Some(0),
        62 => Some(1),
        56 => Some(2),
        60 => Some(3),
        58 => Some(4),
        61 => Some(5),
        55 => Some(6),
        54 => Some(7),
        _ => None,
    }
}

/// Map a modifier bit position back to the native CGKeyCode for emission.
pub fn modifier_bit_to_code(bit: u8) -> (r: Option<u16>)
    ensures
        r == spec_bit_code(bit),
{
    match bit {
        0 => Some(59),
        1 => Some(62),
        2 => Some(56),
        3 => Some(60),
        4 => Some(58),
        5 => Some(61),
        6 => Some(55),
        7 => Some(54),
        _ => None,
    }
}

/// The two code maps are inverse to each other, and they agree with the
/// key table: a key's modifier bit is the bit of its native code.
pub proof fn lemma_modifier_codes_inverse(code: u16, bit: u8, k: Key)
    ensures
        spec_keycode_bit(code) == Some(bit) <==> (bit < 8 && spec_bit_code(bit) == Some(code)),
        k.spec_modifier_bit() == spec_keycode_bit(k.spec_native()),
{
}

/// The codes of the modifier bits set in `m`, among the lowest `n` bit
/// positions, in ascending bit order.
pub open spec fn held_codes(m: u8, n: nat) -> Seq<u16>
    decreases n,
{
    if n == 0 {
        Seq::empty()
    } else {
        let prev = held_codes(m, (n - 1) as nat);
        let bit = (n - 1) as u8;
        if (m >> bit) & 1u8 == 1u8 && spec_bit_code(bit) is Some {
            prev.push(spec_bit_code(bit)->0)
        } else {
            prev
        }
    }
}

/// The key transitions (code, key-down) that type one native key event as a
/// chord: press the held modifiers in ascending bit order, press and release
/// the base key, release the modifiers in reverse order.
pub open spec fn spec_chord_sequence(k: NativeKey) -> Seq<(u16, bool)> {
    let held = held_codes(k.modifiers, 8);
    held.map_values(|c: u16| (c, true)) + seq![(k.base, true), (k.base, false)] + held.reverse().map_values(
        |c: u16| (c, false),
    )
}

/// The key transitions that emit a single `NativeKey` as a chord: hold
/// modifiers, press base, release base, release modifiers in reverse order.
pub fn chord_sequence(native_key: &NativeKey) -> (r: Vec<(u16, bool)>)
    ensures
        r@ == spec_chord_sequence(*native_key),
{
    let m = native_key.modifiers;
    let mut held: Vec<u16> = Vec::new();
    let mut bit: u8 = 0;
    while bit < 8
        invariant
            bit <= 8,
            held@ == held_codes(m, bit as nat),
        decreases 8 - bit,
    {
        if (m >> bit) & 1 == 1 {
            match modifier_bit_to_code(bit) {
                Some(code) => {
                    held.push(code);
                },
                None => {},
            }
        }
        bit = bit + 1;
    }
    let mut out: Vec<(u16, bool)> = Vec::new();
    let mut i: usize = 0;
    while i < held.len()
        invariant
            i <= held@.len(),
            out@ == held@.take(i as int).map_values(|c: u16| (c, true)),
        decreases held@.len() - i,
    {
        out.push((held[i], true));
        assert(held@.take(i as int + 1).map_values(|c: u16| (c, true)) =~= held@.take(i as int).map_values(
            |c: u16| (c, true),
        ).push((held@[i as int], true)));
        i = i + 1;
    }
    assert(held@.take(held@.len() as int) =~= held@);
    out.push((native_key.base, true));
    out.push((native_key.base, false));
    let ghost front = out@;
    let mut j: usize = held.len();
    while j > 0
        invariant
            j <= held@.len(),
            out@ == front + held@.subrange(j as int, held@.len() as int).reverse().map_values(
                |c: u16| (c, false),
            ),
        decreases j,
    {
        j = j - 1;
        out.push((held[j], false));
        assert(held@.subrange(j as int, held@.len() as int).reverse() =~= held@.subrange(
            j as int + 1,
            held@.len() as int,
        ).reverse().push(held@[j as int]));
        assert(held@.subrange(j as int, held@.len() as int).reverse().map_values(|c: u16| (c, false))
            =~= held@.subrange(j as int + 1, held@.len() as int).reverse().map_values(
            |c: u16| (c, false),
        ).push((held@[j as int], false)));
    }
    assert(held@.subrange(0, held@.len() as int) =~= held@);
    assert(out@ =~= spec_chord_sequence(*native_key));
    out
}

/// Every modifier the chord sequence presses is released again, the last
/// pressed first, and the base key is pressed and released in between.
pub proof fn lemma_chord_sequence_balanced(k: NativeKey)
    ensures
        spec_chord_sequence(k).len() == 2 * held_codes(k.modifiers, 8).len() + 2,
        forall|i: int|
            0 <= i < held_codes(k.modifiers, 8).len() ==> #[trigger] spec_chord_sequence(k)[i] == (
            held_codes(k.modifiers, 8)[i],
            true,
        ) && spec_chord_sequence(k)[spec_chord_sequence(k).len() - 1 - i] == (
            held_codes(k.modifiers, 8)[i],
            false,
        ),
        spec_chord_sequence(k)[held_codes(k.modifiers, 8).len() as int] == (k.base, true),
        spec_chord_sequence(k)[held_codes(k.modifiers, 8).len() as int + 1] == (k.base, false),
{
}

/// What the event tap does with a key event.
#[derive(Debug)]
pub enum TapAction {
    /// Let the event through unchanged.
    PassThrough,
    /// Swallow the event and emit these key events as chords.
    Suppress(Vec<NativeKey>),
}

/// The modifier mask after a modifier key with bit `b` goes down or up.
pub open spec fn track_modifier(state: u8, b: u8, is_down: bool) -> u8 {
    if is_down {
        state | (1u8 << b)
    } else {
        state & !(1u8 << b)
    }
}

/// The modifier mask after a modifier key with bit `bit` goes down or up.
pub fn track_modifier_mask(state: u8, bit: u8, is_down: bool) -> (r: u8)
    requires
        bit < 8,
    ensures
        r == track_modifier(state, bit, is_down),
{
    if is_down {
        state | (1u8 << bit)
    } else {
        state & !(1u8 << bit)
    }
}

/// Decide what the event tap does with one key event: modifier keys update
/// the tracked modifier mask and pass through; any other key is looked up
/// with the tracked mask among the rules of the lower-cased foreground
/// application and the global rules, groups in definition order
/// (`resolve_outputs`).  A match swallows the event and, on key-down, emits the
/// rule's outputs; no match lets the event through.  Returns the new mask
/// and the action.
pub fn tap_decision(state: &RuntimeState, modifier_state: u8, keycode: u16, is_down: bool) -> (r: (u8, TapAction))
    ensures
        spec_keycode_bit(keycode) matches Some(b) ==> r.0 == track_modifier(modifier_state, b, is_down)
            && r.1 is PassThrough,
        spec_keycode_bit(keycode) is None ==> r.0 == modifier_state,
        spec_keycode_bit(keycode) is None ==> (r.1 is Suppress <==> spec_resolve(
            state@.0,
            to_lower(state@.1),
            keycode,
            modifier_state,
        ) is Some),
        spec_keycode_bit(keycode) is None ==> (r.1 matches TapAction::Suppress(out) ==> out@ == (
        if is_down {
            spec_resolve(state@.0, to_lower(state@.1), keycode, modifier_state)->0
        } else {
            Seq::empty()
        })),
{
    match keycode_to_modifier_bit(keycode) {
        Some(bit) => {
            let next = if is_down {
                modifier_state | (1u8 << bit)
            } else {
                modifier_state & !(1u8 << bit)
            };
            (next, TapAction::PassThrough)
        },
        None => {
            let app = str_to_lowercase(state.active_app());
            match resolve_outputs(state, app.as_str(), keycode, modifier_state) {
                Some(outputs) => {
                    if is_down {
                        (modifier_state, TapAction::Suppress(outputs))
                    } else {
                        (modifier_state, TapAction::Suppress(Vec::new()))
                    }
                },
                None => (modifier_state, TapAction::PassThrough),
            }
        },
    }
}

} // verus!
