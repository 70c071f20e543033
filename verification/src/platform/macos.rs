//! The macOS key table used by the key introspection commands: TitleCase
//! names, numpad and punctuation keys, and lookups by native code.
use vstd::prelude::*;

use crate::os::macos::{keycode_to_modifier_bit, spec_keycode_bit, track_modifier, TapAction};
use crate::state::{resolve_outputs, spec_resolve, Lookup, RuntimeState};
use crate::text::{str_eq, str_to_lowercase, to_lower};

verus! {

broadcast use vstd::string::group_string_axioms;

/// macOS virtual keycode for a physical key on a US ANSI keyboard.
///
/// The native code of each key is the `kVK_*` constant of the same key.
#[derive(Debug, Clone, Copy, PartialEq, Eq, Hash, PartialOrd, Ord, Structural)]
pub enum Key {
    LeftControl,
    RightControl,
    LeftShift,
    RightShift,
    LeftAlt,
    RightAlt,
    LeftCommand,
    RightCommand,
    CapsLock,
    Tab,
    Space,
    Return,
    Backspace,
    Delete,
    Escape,
    UpArrow,
    DownArrow,
    LeftArrow,
    RightArrow,
    PageUp,
    PageDown,
    Home,
    End,
    F1,
    F2,
    F3,
    F4,
    F5,
    F6,
    F7,
    F8,
    F9,
    F10,
    F11,
    F12,
    A,
    B,
    C,
    D,
    E,
    F,
    G,
    H,
    I,
    J,
    K,
    L,
    M,
    N,
    O,
    P,
    Q,
    R,
    S,
    T,
    U,
    V,
    W,
    X,
    Y,
    Z,
    Number1,
    Number2,
    Number3,
    Number4,
    Number5,
    Number6,
    Number7,
    Number8,
    Number9,
    Number0,
    Numpad0,
    Numpad1,
    Numpad2,
    Numpad3,
    Numpad4,
    Numpad5,
    Numpad6,
    Numpad7,
    Numpad8,
    Numpad9,
    NumpadDecimal,
    NumpadMultiply,
    NumpadPlus,
    NumpadClear,
    NumpadDivide,
    NumpadEnter,
    NumpadMinus,
    NumpadEqual,
    Minus,
    Equal,
    BracketLeft,
    BracketRight,
    Backslash,
    Semicolon,
    Quote,
    Comma,
    Period,
    Slash,
    Grave,
    IsoExtra,
}

/// Number of keys in the table.
pub const KEY_COUNT: usize = 101;

impl Key {
    /// The native key code of this key.
    pub open spec fn spec_native(self) -> u16 {
        match self {
            Key::LeftControl => 59u16,
            Key::RightControl => 62u16,
            Key::LeftShift => 56u16,
            Key::RightShift => 60u16,
            Key::LeftAlt => 58u16,
            Key::RightAlt => 61u16,
            Key::LeftCommand => 55u16,
            Key::RightCommand => 54u16,
            Key::CapsLock => 57u16,
            Key::Tab => 48u16,
            Key::Space => 49u16,
            Key::Return => 36u16,
            Key::Backspace => 51u16,
            Key::Delete => 117u16,
            Key::Escape => 53u16,
            Key::UpArrow => 126u16,
            Key::DownArrow => 125u16,
            Key::LeftArrow => 123u16,
            Key::RightArrow => 124u16,
            Key::PageUp => 116u16,
            Key::PageDown => 121u16,
            Key::Home => 115u16,
            Key::End => 119u16,
            Key::F1 => 122u16,
            Key::F2 => 120u16,
            Key::F3 => 99u16,
            Key::F4 => 118u16,
            Key::F5 => 96u16,
            Key::F6 => 97u16,
            Key::F7 => 98u16,
            Key::F8 => 100u16,
            Key::F9 => 101u16,
            Key::F10 => 109u16,
            Key::F11 => 103u16,
            Key::F12 => 111u16,
            Key::A => 0u16,
            Key::B => 11u16,
            Key::C => 8u16,
            Key::D => 2u16,
            Key::E => 14u16,
            Key::F => 3u16,
            Key::G => 5u16,
            Key::H => 4u16,
            Key::I => 34u16,
            Key::J => 38u16,
            Key::K => 40u16,
            Key::L => 37u16,
            Key::M => 46u16,
            Key::N => 45u16,
            Key::O => 31u16,
            Key::P => 35u16,
            Key::Q => 12u16,
            Key::R => 15u16,
            Key::S => 1u16,
            Key::T => 17u16,
            Key::U => 32u16,
            Key::V => 9u16,
            Key::W => 13u16,
            Key::X => 7u16,
            Key::Y => 16u16,
            Key::Z => 6u16,
            Key::Number1 => 18u16,
            Key::Number2 => 19u16,
            Key::Number3 => 20u16,
            Key::Number4 => 21u16,
            Key::Number5 => 23u16,
            Key::Number6 => 22u16,
            Key::Number7 => 26u16,
            Key::Number8 => 28u16,
            Key::Number9 => 25u16,
            Key::Number0 => 29u16,
            Key::Numpad0 => 82u16,
            Key::Numpad1 => 83u16,
            Key::Numpad2 => 84u16,
            Key::Numpad3 => 85u16,
            Key::Numpad4 => 86u16,
            Key::Numpad5 => 87u16,
            Key::Numpad6 => 88u16,
            Key::Numpad7 => 89u16,
            Key::Numpad8 => 91u16,
            Key::Numpad9 => 92u16,
            Key::NumpadDecimal => 65u16,
            Key::NumpadMultiply => 75u16,
            Key::NumpadPlus => 69u16,
            Key::NumpadClear => 71u16,
            Key::NumpadDivide => 73u16,
            Key::NumpadEnter => 76u16,
            Key::NumpadMinus => 78u16,
            Key::NumpadEqual => 90u16,
            Key::Minus => 27u16,
            Key::Equal => 24u16,
            Key::BracketLeft => 33u16,
            Key::BracketRight => 30u16,
            Key::Backslash => 42u16,
            Key::Semicolon => 41u16,
            Key::Quote => 39u16,
            Key::Comma => 43u16,
            Key::Period => 47u16,
            Key::Slash => 44u16,
            Key::Grave => 50u16,
            Key::IsoExtra => 10u16,
        }
    }

    /// The TitleCase config-name of this key.
    pub open spec fn spec_name(self) -> Seq<char> {
        match self {
            Key::LeftControl => "LeftControl"@,
            Key::RightControl => "RightControl"@,
            Key::LeftShift => "LeftShift"@,
            Key::RightShift => "RightShift"@,
            Key::LeftAlt => "LeftAlt"@,
            Key::RightAlt => "RightAlt"@,
            Key::LeftCommand => "LeftCommand"@,
            Key::RightCommand => "RightCommand"@,
            Key::CapsLock => "CapsLock"@,
            Key::Tab => "Tab"@,
            Key::Space => "Space"@,
            Key::Return => "Return"@,
            Key::Backspace => "Backspace"@,
            Key::Delete => "Delete"@,
            Key::Escape => "Escape"@,
            Key::UpArrow => "UpArrow"@,
            Key::DownArrow => "DownArrow"@,
            Key::LeftArrow => "LeftArrow"@,
            Key::RightArrow => "RightArrow"@,
            Key::PageUp => "PageUp"@,
            Key::PageDown => "PageDown"@,
            Key::Home => "Home"@,
            Key::End => "End"@,
            Key::F1 => "F1"@,
            Key::F2 => "F2"@,
            Key::F3 => "F3"@,
            Key::F4 => "F4"@,
            Key::F5 => "F5"@,
            Key::F6 => "F6"@,
            Key::F7 => "F7"@,
            Key::F8 => "F8"@,
            Key::F9 => "F9"@,
            Key::F10 => "F10"@,
            Key::F11 => "F11"@,
            Key::F12 => "F12"@,
            Key::A => "A"@,
            Key::B => "B"@,
            Key::C => "C"@,
            Key::D => "D"@,
            Key::E => "E"@,
            Key::F => "F"@,
            Key::G => "G"@,
            Key::H => "H"@,
            Key::I => "I"@,
            Key::J => "J"@,
            Key::K => "K"@,
            Key::L => "L"@,
            Key::M => "M"@,
            Key::N => "N"@,
            Key::O => "O"@,
            Key::P => "P"@,
            Key::Q => "Q"@,
            Key::R => "R"@,
            Key::S => "S"@,
            Key::T => "T"@,
            Key::U => "U"@,
            Key::V => "V"@,
            Key::W => "W"@,
            Key::X => "X"@,
            Key::Y => "Y"@,
            Key::Z => "Z"@,
            Key::Number1 => "1"@,
            Key::Number2 => "2"@,
            Key::Number3 => "3"@,
            Key::Number4 => "4"@,
            Key::Number5 => "5"@,
            Key::Number6 => "6"@,
            Key::Number7 => "7"@,
            Key::Number8 => "8"@,
            Key::Number9 => "9"@,
            Key::Number0 => "0"@,
            Key::Numpad0 => "Numpad0"@,
            Key::Numpad1 => "Numpad1"@,
            Key::Numpad2 => "Numpad2"@,
            Key::Numpad3 => "Numpad3"@,
            Key::Numpad4 => "Numpad4"@,
            Key::Numpad5 => "Numpad5"@,
            Key::Numpad6 => "Numpad6"@,
            Key::Numpad7 => "Numpad7"@,
            Key::Numpad8 => "Numpad8"@,
            Key::Numpad9 => "Numpad9"@,
            Key::NumpadDecimal => "NumpadDecimal"@,
            Key::NumpadMultiply => "NumpadMultiply"@,
            Key::NumpadPlus => "NumpadPlus"@,
            Key::NumpadClear => "NumpadClear"@,
            Key::NumpadDivide => "NumpadDivide"@,
            Key::NumpadEnter => "NumpadEnter"@,
            Key::NumpadMinus => "NumpadMinus"@,
            Key::NumpadEqual => "NumpadEqual"@,
            Key::Minus => "Minus"@,
            Key::Equal => "Equal"@,
            Key::BracketLeft => "BracketLeft"@,
            Key::BracketRight => "BracketRight"@,
            Key::Backslash => "Backslash"@,
            Key::Semicolon => "Semicolon"@,
            Key::Quote => "Quote"@,
            Key::Comma => "Comma"@,
            Key::Period => "Period"@,
            Key::Slash => "Slash"@,
            Key::Grave => "Grave"@,
            Key::IsoExtra => "IsoExtra"@,
        }
    }

    /// Convert to the native CGKeyCode.
    pub fn as_native(self) -> (r: u16)
        ensures
            r == self.spec_native(),
    {
        match self {
            Key::LeftControl => 59,
            Key::RightControl => 62,
            Key::LeftShift => 56,
            Key::RightShift => 60,
            Key::LeftAlt => 58,
            Key::RightAlt => 61,
            Key::LeftCommand => 55,
            Key::RightCommand => 54,
            Key::CapsLock => 57,
            Key::Tab => 48,
            Key::Space => 49,
            Key::Return => 36,
            Key::Backspace => 51,
            Key::Delete => 117,
            Key::Escape => 53,
            Key::UpArrow => 126,
            Key::DownArrow => 125,
            Key::LeftArrow => 123,
            Key::RightArrow => 124,
            Key::PageUp => 116,
            Key::PageDown => 121,
            Key::Home => 115,
            Key::End => 119,
            Key::F1 => 122,
            Key::F2 => 120,
            Key::F3 => 99,
            Key::F4 => 118,
            Key::F5 => 96,
            Key::F6 => 97,
            Key::F7 => 98,
            Key::F8 => 100,
            Key::F9 => 101,
            Key::F10 => 109,
            Key::F11 => 103,
            Key::F12 => 111,
            Key::A => 0,
            Key::B => 11,
            Key::C => 8,
            Key::D => 2,
            Key::E => 14,
            Key::F => 3,
            Key::G => 5,
            Key::H => 4,
            Key::I => 34,
            Key::J => 38,
            Key::K => 40,
            Key::L => 37,
            Key::M => 46,
            Key::N => 45,
            Key::O => 31,
            Key::P => 35,
            Key::Q => 12,
            Key::R => 15,
            Key::S => 1,
            Key::T => 17,
            Key::U => 32,
            Key::V => 9,
            Key::W => 13,
            Key::X => 7,
            Key::Y => 16,
            Key::Z => 6,
            Key::Number1 => 18,
            Key::Number2 => 19,
            Key::Number3 => 20,
            Key::Number4 => 21,
            Key::Number5 => 23,
            Key::Number6 => 22,
            Key::Number7 => 26,
            Key::Number8 => 28,
            Key::Number9 => 25,
            Key::Number0 => 29,
            Key::Numpad0 => 82,
            Key::Numpad1 => 83,
            Key::Numpad2 => 84,
            Key::Numpad3 => 85,
            Key::Numpad4 => 86,
            Key::Numpad5 => 87,
            Key::Numpad6 => 88,
            Key::Numpad7 => 89,
            Key::Numpad8 => 91,
            Key::Numpad9 => 92,
            Key::NumpadDecimal => 65,
            Key::NumpadMultiply => 75,
            Key::NumpadPlus => 69,
            Key::NumpadClear => 71,
            Key::NumpadDivide => 73,
            Key::NumpadEnter => 76,
            Key::NumpadMinus => 78,
            Key::NumpadEqual => 90,
            Key::Minus => 27,
            Key::Equal => 24,
            Key::BracketLeft => 33,
            Key::BracketRight => 30,
            Key::Backslash => 42,
            Key::Semicolon => 41,
            Key::Quote => 39,
            Key::Comma => 43,
            Key::Period => 47,
            Key::Slash => 44,
            Key::Grave => 50,
            Key::IsoExtra => 10,
        }
    }

    /// Modifier bit position (0-7) of this key in the 8-bit modifier mask,
    /// `None` for keys that are not modifiers.
    pub open spec fn spec_modifier_bit(self) -> Option<u8> {
        match self {
            Key::LeftControl => Some(0u8),
            Key::RightControl => Some(1u8),
            Key::LeftShift => Some(2u8),
            Key::RightShift => Some(3u8),
            Key::LeftAlt => Some(4u8),
            Key::RightAlt => Some(5u8),
            Key::LeftCommand => Some(6u8),
            Key::RightCommand => Some(7u8),
            _ => None,
        }
    }

    /// Both modifier bit positions of this key's modifier group (left and
    /// right side), `None` for keys that are not modifiers.
    pub open spec fn spec_modifier_positions(self) -> Option<Seq<u8>> {
        match self {
            Key::LeftControl => Some(seq![0u8, 1u8]),
            Key::RightControl => Some(seq![0u8, 1u8]),
            Key::LeftShift => Some(seq![2u8, 3u8]),
            Key::RightShift => Some(seq![2u8, 3u8]),
            Key::LeftAlt => Some(seq![4u8, 5u8]),
            Key::RightAlt => Some(seq![4u8, 5u8]),
            Key::LeftCommand => Some(seq![6u8, 7u8]),
            Key::RightCommand => Some(seq![6u8, 7u8]),
            _ => None,
        }
    }

    /// Return the modifier bit **position** (0–7) for this key.
    ///
    /// Modifier keys return `Some(position)` where position is the index in
    /// the 8-bit modifier mask.  Non-modifier keys return `None`.
    pub fn as_modifier_bit(self) -> (r: Option<u8>)
        ensures
            r == self.spec_modifier_bit(),
    {
        match self {
            Key::LeftControl => Some(0),
            Key::RightControl => Some(1),
            Key::LeftShift => Some(2),
            Key::RightShift => Some(3),
            Key::LeftAlt => Some(4),
            Key::RightAlt => Some(5),
            Key::LeftCommand => Some(6),
            Key::RightCommand => Some(7),
            _ => None,
        }
    }

    /// Return the possible modifier bit positions for this key.
    ///
    /// All modifier keys return both left and right positions, enabling
    /// "either side" matching.  Non-modifier keys return `None`.
    pub fn as_modifier_positions(self) -> (r: Option<Vec<u8>>)
        ensures
            r.is_some() == self.spec_modifier_positions().is_some(),
            r matches Some(v) ==> Some(v@) == self.spec_modifier_positions(),
    {
        match self {
            Key::LeftControl | Key::RightControl => Some(vec![0, 1]),
            Key::LeftShift | Key::RightShift => Some(vec![2, 3]),
            Key::LeftAlt | Key::RightAlt => Some(vec![4, 5]),
            Key::LeftCommand | Key::RightCommand => Some(vec![6, 7]),
            _ => None,
        }
    }

    /// Return the canonical config-name for this key.
    pub fn as_str(self) -> (r: &'static str)
        ensures
            r@ == self.spec_name(),
    {
        match self {
            Key::LeftControl => "LeftControl",
            Key::RightControl => "RightControl",
            Key::LeftShift => "LeftShift",
            Key::RightShift => "RightShift",
            Key::LeftAlt => "LeftAlt",
            Key::RightAlt => "RightAlt",
            Key::LeftCommand => "LeftCommand",
            Key::RightCommand => "RightCommand",
            Key::CapsLock => "CapsLock",
            Key::Tab => "Tab",
            Key::Space => "Space",
            Key::Return => "Return",
            Key::Backspace => "Backspace",
            Key::Delete => "Delete",
            Key::Escape => "Escape",
            Key::UpArrow => "UpArrow",
            Key::DownArrow => "DownArrow",
            Key::LeftArrow => "LeftArrow",
            Key::RightArrow => "RightArrow",
            Key::PageUp => "PageUp",
            Key::PageDown => "PageDown",
            Key::Home => "Home",
            Key::End => "End",
            Key::F1 => "F1",
            Key::F2 => "F2",
            Key::F3 => "F3",
            Key::F4 => "F4",
            Key::F5 => "F5",
            Key::F6 => "F6",
            Key::F7 => "F7",
            Key::F8 => "F8",
            Key::F9 => "F9",
            Key::F10 => "F10",
            Key::F11 => "F11",
            Key::F12 => "F12",
            Key::A => "A",
            Key::B => "B",
            Key::C => "C",
            Key::D => "D",
            Key::E => "E",
            Key::F => "F",
            Key::G => "G",
            Key::H => "H",
            Key::I => "I",
            Key::J => "J",
            Key::K => "K",
            Key::L => "L",
            Key::M => "M",
            Key::N => "N",
            Key::O => "O",
            Key::P => "P",
            Key::Q => "Q",
            Key::R => "R",
            Key::S => "S",
            Key::T => "T",
            Key::U => "U",
            Key::V => "V",
            Key::W => "W",
            Key::X => "X",
            Key::Y => "Y",
            Key::Z => "Z",
            Key::Number1 => "1",
            Key::Number2 => "2",
            Key::Number3 => "3",
            Key::Number4 => "4",
            Key::Number5 => "5",
            Key::Number6 => "6",
            Key::Number7 => "7",
            Key::Number8 => "8",
            Key::Number9 => "9",
            Key::Number0 => "0",
            Key::Numpad0 => "Numpad0",
            Key::Numpad1 => "Numpad1",
            Key::Numpad2 => "Numpad2",
            Key::Numpad3 => "Numpad3",
            Key::Numpad4 => "Numpad4",
            Key::Numpad5 => "Numpad5",
            Key::Numpad6 => "Numpad6",
            Key::Numpad7 => "Numpad7",
            Key::Numpad8 => "Numpad8",
            Key::Numpad9 => "Numpad9",
            Key::NumpadDecimal => "NumpadDecimal",
            Key::NumpadMultiply => "NumpadMultiply",
            Key::NumpadPlus => "NumpadPlus",
            Key::NumpadClear => "NumpadClear",
            Key::NumpadDivide => "NumpadDivide",
            Key::NumpadEnter => "NumpadEnter",
            Key::NumpadMinus => "NumpadMinus",
            Key::NumpadEqual => "NumpadEqual",
            Key::Minus => "Minus",
            Key::Equal => "Equal",
            Key::BracketLeft => "BracketLeft",
            Key::BracketRight => "BracketRight",
            Key::Backslash => "Backslash",
            Key::Semicolon => "Semicolon",
            Key::Quote => "Quote",
            Key::Comma => "Comma",
            Key::Period => "Period",
            Key::Slash => "Slash",
            Key::Grave => "Grave",
            Key::IsoExtra => "IsoExtra",
        }
    }

    /// The key at position `i` of the key list (declaration order).
    pub open spec fn spec_key_at(i: int) -> Key {
        if i == 0 { Key::LeftControl } else if i == 1 { Key::RightControl } else if i == 2 { Key::LeftShift } else if i == 3 { Key::RightShift } else if i == 4 { Key::LeftAlt } else if i == 5 { Key::RightAlt } else if i == 6 { Key::LeftCommand } else if i == 7 { Key::RightCommand } else if i == 8 { Key::CapsLock } else if i == 9 { Key::Tab } else if i == 10 { Key::Space } else if i == 11 { Key::Return } else if i == 12 { Key::Backspace } else if i == 13 { Key::Delete } else if i == 14 { Key::Escape } else if i == 15 { Key::UpArrow } else if i == 16 { Key::DownArrow } else if i == 17 { Key::LeftArrow } else if i == 18 { Key::RightArrow } else if i == 19 { Key::PageUp } else if i == 20 { Key::PageDown } else if i == 21 { Key::Home } else if i == 22 { Key::End } else if i == 23 { Key::F1 } else if i == 24 { Key::F2 } else if i == 25 { Key::F3 } else if i == 26 { Key::F4 } else if i == 27 { Key::F5 } else if i == 28 { Key::F6 } else if i == 29 { Key::F7 } else if i == 30 { Key::F8 } else if i == 31 { Key::F9 } else if i == 32 { Key::F10 } else if i == 33 { Key::F11 } else if i == 34 { Key::F12 } else if i == 35 { Key::A } else if i == 36 { Key::B } else if i == 37 { Key::C } else if i == 38 { Key::D } else if i == 39 { Key::E } else if i == 40 { Key::F } else if i == 41 { Key::G } else if i == 42 { Key::H } else if i == 43 { Key::I } else if i == 44 { Key::J } else if i == 45 { Key::K } else if i == 46 { Key::L } else if i == 47 { Key::M } else if i == 48 { Key::N } else if i == 49 { Key::O } else if i == 50 { Key::P } else if i == 51 { Key::Q } else if i == 52 { Key::R } else if i == 53 { Key::S } else if i == 54 { Key::T } else if i == 55 { Key::U } else if i == 56 { Key::V } else if i == 57 { Key::W } else if i == 58 { Key::X } else if i == 59 { Key::Y } else if i == 60 { Key::Z } else if i == 61 { Key::Number1 } else if i == 62 { Key::Number2 } else if i == 63 { Key::Number3 } else if i == 64 { Key::Number4 } else if i == 65 { Key::Number5 } else if i == 66 { Key::Number6 } else if i == 67 { Key::Number7 } else if i == 68 { Key::Number8 } else if i == 69 { Key::Number9 } else if i == 70 { Key::Number0 } else if i == 71 { Key::Numpad0 } else if i == 72 { Key::Numpad1 } else if i == 73 { Key::Numpad2 } else if i == 74 { Key::Numpad3 } else if i == 75 { Key::Numpad4 } else if i == 76 { Key::Numpad5 } else if i == 77 { Key::Numpad6 } else if i == 78 { Key::Numpad7 } else if i == 79 { Key::Numpad8 } else if i == 80 { Key::Numpad9 } else if i == 81 { Key::NumpadDecimal } else if i == 82 { Key::NumpadMultiply } else if i == 83 { Key::NumpadPlus } else if i == 84 { Key::NumpadClear } else if i == 85 { Key::NumpadDivide } else if i == 86 { Key::NumpadEnter } else if i == 87 { Key::NumpadMinus } else if i == 88 { Key::NumpadEqual } else if i == 89 { Key::Minus } else if i == 90 { Key::Equal } else if i == 91 { Key::BracketLeft } else if i == 92 { Key::BracketRight } else if i == 93 { Key::Backslash } else if i == 94 { Key::Semicolon } else if i == 95 { Key::Quote } else if i == 96 { Key::Comma } else if i == 97 { Key::Period } else if i == 98 { Key::Slash } else if i == 99 { Key::Grave } else { Key::IsoExtra }
    }

    /// Position of this key in the key list.
    pub open spec fn spec_index(self) -> int {
        match self {
            Key::LeftControl => 0,
            Key::RightControl => 1,
            Key::LeftShift => 2,
            Key::RightShift => 3,
            Key::LeftAlt => 4,
            Key::RightAlt => 5,
            Key::LeftCommand => 6,
            Key::RightCommand => 7,
            Key::CapsLock => 8,
            Key::Tab => 9,
            Key::Space => 10,
            Key::Return => 11,
            Key::Backspace => 12,
            Key::Delete => 13,
            Key::Escape => 14,
            Key::UpArrow => 15,
            Key::DownArrow => 16,
            Key::LeftArrow => 17,
            Key::RightArrow => 18,
            Key::PageUp => 19,
            Key::PageDown => 20,
            Key::Home => 21,
            Key::End => 22,
            Key::F1 => 23,
            Key::F2 => 24,
            Key::F3 => 25,
            Key::F4 => 26,
            Key::F5 => 27,
            Key::F6 => 28,
            Key::F7 => 29,
            Key::F8 => 30,
            Key::F9 => 31,
            Key::F10 => 32,
            Key::F11 => 33,
            Key::F12 => 34,
            Key::A => 35,
            Key::B => 36,
            Key::C => 37,
            Key::D => 38,
            Key::E => 39,
            Key::F => 40,
            Key::G => 41,
            Key::H => 42,
            Key::I => 43,
            Key::J => 44,
            Key::K => 45,
            Key::L => 46,
            Key::M => 47,
            Key::N => 48,
            Key::O => 49,
            Key::P => 50,
            Key::Q => 51,
            Key::R => 52,
            Key::S => 53,
            Key::T => 54,
            Key::U => 55,
            Key::V => 56,
            Key::W => 57,
            Key::X => 58,
            Key::Y => 59,
            Key::Z => 60,
            Key::Number1 => 61,
            Key::Number2 => 62,
            Key::Number3 => 63,
            Key::Number4 => 64,
            Key::Number5 => 65,
            Key::Number6 => 66,
            Key::Number7 => 67,
            Key::Number8 => 68,
            Key::Number9 => 69,
            Key::Number0 => 70,
            Key::Numpad0 => 71,
            Key::Numpad1 => 72,
            Key::Numpad2 => 73,
            Key::Numpad3 => 74,
            Key::Numpad4 => 75,
            Key::Numpad5 => 76,
            Key::Numpad6 => 77,
            Key::Numpad7 => 78,
            Key::Numpad8 => 79,
            Key::Numpad9 => 80,
            Key::NumpadDecimal => 81,
            Key::NumpadMultiply => 82,
            Key::NumpadPlus => 83,
            Key::NumpadClear => 84,
            Key::NumpadDivide => 85,
            Key::NumpadEnter => 86,
            Key::NumpadMinus => 87,
            Key::NumpadEqual => 88,
            Key::Minus => 89,
            Key::Equal => 90,
            Key::BracketLeft => 91,
            Key::BracketRight => 92,
            Key::Backslash => 93,
            Key::Semicolon => 94,
            Key::Quote => 95,
            Key::Comma => 96,
            Key::Period => 97,
            Key::Slash => 98,
            Key::Grave => 99,
            Key::IsoExtra => 100,
        }
    }

    /// All defined key variants, in declaration order.
    pub open spec fn spec_all() -> Seq<Key> {
        Seq::new(KEY_COUNT as nat, |i: int| Key::spec_key_at(i))
    }

    fn key_at(i: usize) -> (r: Key)
        requires
            i < KEY_COUNT,
        ensures
            r == Key::spec_key_at(i as int),
    {
        match i {
            0 => Key::LeftControl,
            1 => Key::RightControl,
            2 => Key::LeftShift,
            3 => Key::RightShift,
            4 => Key::LeftAlt,
            5 => Key::RightAlt,
            6 => Key::LeftCommand,
            7 => Key::RightCommand,
            8 => Key::CapsLock,
            9 => Key::Tab,
            10 => Key::Space,
            11 => Key::Return,
            12 => Key::Backspace,
            13 => Key::Delete,
            14 => Key::Escape,
            15 => Key::UpArrow,
            16 => Key::DownArrow,
            17 => Key::LeftArrow,
            18 => Key::RightArrow,
            19 => Key::PageUp,
            20 => Key::PageDown,
            21 => Key::Home,
            22 => Key::End,
            23 => Key::F1,
            24 => Key::F2,
            25 => Key::F3,
            26 => Key::F4,
            27 => Key::F5,
            28 => Key::F6,
            29 => Key::F7,
            30 => Key::F8,
            31 => Key::F9,
            32 => Key::F10,
            33 => Key::F11,
            34 => Key::F12,
            35 => Key::A,
            36 => Key::B,
            37 => Key::C,
            38 => Key::D,
            39 => Key::E,
            40 => Key::F,
            41 => Key::G,
            42 => Key::H,
            43 => Key::I,
            44 => Key::J,
            45 => Key::K,
            46 => Key::L,
            47 => Key::M,
            48 => Key::N,
            49 => Key::O,
            50 => Key::P,
            51 => Key::Q,
            52 => Key::R,
            53 => Key::S,
            54 => Key::T,
            55 => Key::U,
            56 => Key::V,
            57 => Key::W,
            58 => Key::X,
            59 => Key::Y,
            60 => Key::Z,
            61 => Key::Number1,
            62 => Key::Number2,
            63 => Key::Number3,
            64 => Key::Number4,
            65 => Key::Number5,
            66 => Key::Number6,
            67 => Key::Number7,
            68 => Key::Number8,
            69 => Key::Number9,
            70 => Key::Number0,
            71 => Key::Numpad0,
            72 => Key::Numpad1,
            73 => Key::Numpad2,
            74 => Key::Numpad3,
            75 => Key::Numpad4,
            76 => Key::Numpad5,
            77 => Key::Numpad6,
            78 => Key::Numpad7,
            79 => Key::Numpad8,
            80 => Key::Numpad9,
            81 => Key::NumpadDecimal,
            82 => Key::NumpadMultiply,
            83 => Key::NumpadPlus,
            84 => Key::NumpadClear,
            85 => Key::NumpadDivide,
            86 => Key::NumpadEnter,
            87 => Key::NumpadMinus,
            88 => Key::NumpadEqual,
            89 => Key::Minus,
            90 => Key::Equal,
            91 => Key::BracketLeft,
            92 => Key::BracketRight,
            93 => Key::Backslash,
            94 => Key::Semicolon,
            95 => Key::Quote,
            96 => Key::Comma,
            97 => Key::Period,
            98 => Key::Slash,
            99 => Key::Grave,
            _ => Key::IsoExtra,
        }
    }

    /// All defined key variants, in declaration order.
    pub fn all() -> (r: Vec<Key>)
        ensures
            r@ == Key::spec_all(),
    {
        let mut r: Vec<Key> = Vec::new();
        let mut i: usize = 0;
        while i < KEY_COUNT
            invariant
                i <= KEY_COUNT,
                r@ == Seq::new(i as nat, |j: int| Key::spec_key_at(j)),
            decreases KEY_COUNT - i,
        {
            r.push(Key::key_at(i));
            i = i + 1;
            assert(r@ =~= Seq::new(i as nat, |j: int| Key::spec_key_at(j)));
        }
        r
    }

    /// The key whose native code is `code`.
    pub open spec fn spec_from_native(code: u16) -> Option<Key> {
        match code {
            59 => Some(Key::LeftControl),
            62 => Some(Key::RightControl),
            56 => Some(Key::LeftShift),
            60 => Some(Key::RightShift),
            58 => Some(Key::LeftAlt),
            61 => Some(Key::RightAlt),
            55 => Some(Key::LeftCommand),
            54 => Some(Key::RightCommand),
            57 => Some(Key::CapsLock),
            48 => Some(Key::Tab),
            49 => Some(Key::Space),
            36 => Some(Key::Return),
            51 => Some(Key::Backspace),
            117 => Some(Key::Delete),
            53 => Some(Key::Escape),
            126 => Some(Key::UpArrow),
            125 => Some(Key::DownArrow),
            123 => Some(Key::LeftArrow),
            124 => Some(Key::RightArrow),
            116 => Some(Key::PageUp),
            121 => Some(Key::PageDown),
            115 => Some(Key::Home),
            119 => Some(Key::End),
            122 => Some(Key::F1),
            120 => Some(Key::F2),
            99 => Some(Key::F3),
            118 => Some(Key::F4),
            96 => Some(Key::F5),
            97 => Some(Key::F6),
            98 => Some(Key::F7),
            100 => Some(Key::F8),
            101 => Some(Key::F9),
            109 => Some(Key::F10),
            103 => Some(Key::F11),
            111 => Some(Key::F12),
            0 => Some(Key::A),
            11 => Some(Key::B),
            8 => Some(Key::C),
            2 => Some(Key::D),
            14 => Some(Key::E),
            3 => Some(Key::F),
            5 => Some(Key::G),
            4 => Some(Key::H),
            34 => Some(Key::I),
            38 => Some(Key::J),
            40 => Some(Key::K),
            37 => Some(Key::L),
            46 => Some(Key::M),
            45 => Some(Key::N),
            31 => Some(Key::O),
            35 => Some(Key::P),
            12 => Some(Key::Q),
            15 => Some(Key::R),
            1 => Some(Key::S),
            17 => Some(Key::T),
            32 => Some(Key::U),
            9 => Some(Key::V),
            13 => Some(Key::W),
            7 => Some(Key::X),
            16 => Some(Key::Y),
            6 => Some(Key::Z),
            18 => Some(Key::Number1),
            19 => Some(Key::Number2),
            20 => Some(Key::Number3),
            21 => Some(Key::Number4),
            23 => Some(Key::Number5),
            22 => Some(Key::Number6),
            26 => Some(Key::Number7),
            28 => Some(Key::Number8),
            25 => Some(Key::Number9),
            29 => Some(Key::Number0),
            82 => Some(Key::Numpad0),
            83 => Some(Key::Numpad1),
            84 => Some(Key::Numpad2),
            85 => Some(Key::Numpad3),
            86 => Some(Key::Numpad4),
            87 => Some(Key::Numpad5),
            88 => Some(Key::Numpad6),
            89 => Some(Key::Numpad7),
            91 => Some(Key::Numpad8),
            92 => Some(Key::Numpad9),
            65 => Some(Key::NumpadDecimal),
            75 => Some(Key::NumpadMultiply),
            69 => Some(Key::NumpadPlus),
            71 => Some(Key::NumpadClear),
            73 => Some(Key::NumpadDivide),
            76 => Some(Key::NumpadEnter),
            78 => Some(Key::NumpadMinus),
            90 => Some(Key::NumpadEqual),
            27 => Some(Key::Minus),
            24 => Some(Key::Equal),
            33 => Some(Key::BracketLeft),
            30 => Some(Key::BracketRight),
            42 => Some(Key::Backslash),
            41 => Some(Key::Semicolon),
            39 => Some(Key::Quote),
            43 => Some(Key::Comma),
            47 => Some(Key::Period),
            44 => Some(Key::Slash),
            50 => Some(Key::Grave),
            10 => Some(Key::IsoExtra),
            _ => None,
        }
    }

    /// Convert a native CGKeyCode back to a Key variant.
    ///
    /// Returns `None` for codes that are not defined in this enum.
    pub fn from_native(code: u16) -> (r: Option<Key>)
        ensures
            r == Key::spec_from_native(code),
    {
        match code {
            59 => Some(Key::LeftControl),
            62 => Some(Key::RightControl),
            56 => Some(Key::LeftShift),
            60 => Some(Key::RightShift),
            58 => Some(Key::LeftAlt),
            61 => Some(Key::RightAlt),
            55 => Some(Key::LeftCommand),
            54 => Some(Key::RightCommand),
            57 => Some(Key::CapsLock),
            48 => Some(Key::Tab),
            49 => Some(Key::Space),
            36 => Some(Key::Return),
            51 => Some(Key::Backspace),
            117 => Some(Key::Delete),
            53 => Some(Key::Escape),
            126 => Some(Key::UpArrow),
            125 => Some(Key::DownArrow),
            123 => Some(Key::LeftArrow),
            124 => Some(Key::RightArrow),
            116 => Some(Key::PageUp),
            121 => Some(Key::PageDown),
            115 => Some(Key::Home),
            119 => Some(Key::End),
            122 => Some(Key::F1),
            120 => Some(Key::F2),
            99 => Some(Key::F3),
            118 => Some(Key::F4),
            96 => Some(Key::F5),
            97 => Some(Key::F6),
            98 => Some(Key::F7),
            100 => Some(Key::F8),
            101 => Some(Key::F9),
            109 => Some(Key::F10),
            103 => Some(Key::F11),
            111 => Some(Key::F12),
            0 => Some(Key::A),
            11 => Some(Key::B),
            8 => Some(Key::C),
            2 => Some(Key::D),
            14 => Some(Key::E),
            3 => Some(Key::F),
            5 => Some(Key::G),
            4 => Some(Key::H),
            34 => Some(Key::I),
            38 => Some(Key::J),
            40 => Some(Key::K),
            37 => Some(Key::L),
            46 => Some(Key::M),
            45 => Some(Key::N),
            31 => Some(Key::O),
            35 => Some(Key::P),
            12 => Some(Key::Q),
            15 => Some(Key::R),
            1 => Some(Key::S),
            17 => Some(Key::T),
            32 => Some(Key::U),
            9 => Some(Key::V),
            13 => Some(Key::W),
            7 => Some(Key::X),
            16 => Some(Key::Y),
            6 => Some(Key::Z),
            18 => Some(Key::Number1),
            19 => Some(Key::Number2),
            20 => Some(Key::Number3),
            21 => Some(Key::Number4),
            23 => Some(Key::Number5),
            22 => Some(Key::Number6),
            26 => Some(Key::Number7),
            28 => Some(Key::Number8),
            25 => Some(Key::Number9),
            29 => Some(Key::Number0),
            82 => Some(Key::Numpad0),
            83 => Some(Key::Numpad1),
            84 => Some(Key::Numpad2),
            85 => Some(Key::Numpad3),
            86 => Some(Key::Numpad4),
            87 => Some(Key::Numpad5),
            88 => Some(Key::Numpad6),
            89 => Some(Key::Numpad7),
            91 => Some(Key::Numpad8),
            92 => Some(Key::Numpad9),
            65 => Some(Key::NumpadDecimal),
            75 => Some(Key::NumpadMultiply),
            69 => Some(Key::NumpadPlus),
            71 => Some(Key::NumpadClear),
            73 => Some(Key::NumpadDivide),
            76 => Some(Key::NumpadEnter),
            78 => Some(Key::NumpadMinus),
            90 => Some(Key::NumpadEqual),
            27 => Some(Key::Minus),
            24 => Some(Key::Equal),
            33 => Some(Key::BracketLeft),
            30 => Some(Key::BracketRight),
            42 => Some(Key::Backslash),
            41 => Some(Key::Semicolon),
            39 => Some(Key::Quote),
            43 => Some(Key::Comma),
            47 => Some(Key::Period),
            44 => Some(Key::Slash),
            50 => Some(Key::Grave),
            10 => Some(Key::IsoExtra),
            _ => None,
        }
    }

    /// The key named `name` (TitleCase, with the generic and short aliases).
    pub open spec fn spec_try_from_str(name: Seq<char>) -> Option<Key> {
        if name == "Ctrl"@ {
            Some(Key::LeftControl)
        } else if name == "Shift"@ {
            Some(Key::LeftShift)
        } else if name == "Alt"@ || name == "Option"@ {
            Some(Key::LeftAlt)
        } else if name == "Command"@ || name == "Cmd"@ || name == "Super"@ {
            Some(Key::LeftCommand)
        } else if name == "LeftControl"@ || name == "LeftCtrl"@ {
            Some(Key::LeftControl)
        } else if name == "RightControl"@ || name == "RightCtrl"@ {
            Some(Key::RightControl)
        } else if name == "LeftShift"@ {
            Some(Key::LeftShift)
        } else if name == "RightShift"@ {
            Some(Key::RightShift)
        } else if name == "LeftAlt"@ || name == "LeftOption"@ {
            Some(Key::LeftAlt)
        } else if name == "RightAlt"@ || name == "RightOption"@ {
            Some(Key::RightAlt)
        } else if name == "LeftCommand"@ || name == "LeftCmd"@ {
            Some(Key::LeftCommand)
        } else if name == "RightCommand"@ || name == "RightCmd"@ {
            Some(Key::RightCommand)
        } else if name == "CapsLock"@ || name == "Caps"@ {
            Some(Key::CapsLock)
        } else if name == "Tab"@ {
            Some(Key::Tab)
        } else if name == "Space"@ {
            Some(Key::Space)
        } else if name == "Return"@ || name == "Enter"@ {
            Some(Key::Return)
        } else if name == "Backspace"@ {
            Some(Key::Backspace)
        } else if name == "Delete"@ {
            Some(Key::Delete)
        } else if name == "Escape"@ || name == "Esc"@ {
            Some(Key::Escape)
        } else if name == "UpArrow"@ || name == "Up"@ {
            Some(Key::UpArrow)
        } else if name == "DownArrow"@ || name == "Down"@ {
            Some(Key::DownArrow)
        } else if name == "LeftArrow"@ || name == "Left"@ {
            Some(Key::LeftArrow)
        } else if name == "RightArrow"@ || name == "Right"@ {
            Some(Key::RightArrow)
        } else if name == "PageUp"@ || name == "PgUp"@ {
            Some(Key::PageUp)
        } else if name == "PageDown"@ || name == "PgDn"@ {
            Some(Key::PageDown)
        } else if name == "Home"@ {
            Some(Key::Home)
        } else if name == "End"@ {
            Some(Key::End)
        } else if name == "F1"@ {
            Some(Key::F1)
        } else if name == "F2"@ {
            Some(Key::F2)
        } else if name == "F3"@ {
            Some(Key::F3)
        } else if name == "F4"@ {
            Some(Key::F4)
        } else if name == "F5"@ {
            Some(Key::F5)
        } else if name == "F6"@ {
            Some(Key::F6)
        } else if name == "F7"@ {
            Some(Key::F7)
        } else if name == "F8"@ {
            Some(Key::F8)
        } else if name == "F9"@ {
            Some(Key::F9)
        } else if name == "F10"@ {
            Some(Key::F10)
        } else if name == "F11"@ {
            Some(Key::F11)
        } else if name == "F12"@ {
            Some(Key::F12)
        } else if name == "A"@ {
            Some(Key::A)
        } else if name == "B"@ {
            Some(Key::B)
        } else if name == "C"@ {
            Some(Key::C)
        } else if name == "D"@ {
            Some(Key::D)
        } else if name == "E"@ {
            Some(Key::E)
        } else if name == "F"@ {
            Some(Key::F)
        } else if name == "G"@ {
            Some(Key::G)
        } else if name == "H"@ {
            Some(Key::H)
        } else if name == "I"@ {
            Some(Key::I)
        } else if name == "J"@ {
            Some(Key::J)
        } else if name == "K"@ {
            Some(Key::K)
        } else if name == "L"@ {
            Some(Key::L)
        } else if name == "M"@ {
            Some(Key::M)
        } else if name == "N"@ {
            Some(Key::N)
        } else if name == "O"@ {
            Some(Key::O)
        } else if name == "P"@ {
            Some(Key::P)
        } else if name == "Q"@ {
            Some(Key::Q)
        } else if name == "R"@ {
            Some(Key::R)
        } else if name == "S"@ {
            Some(Key::S)
        } else if name == "T"@ {
            Some(Key::T)
        } else if name == "U"@ {
            Some(Key::U)
        } else if name == "V"@ {
            Some(Key::V)
        } else if name == "W"@ {
            Some(Key::W)
        } else if name == "X"@ {
            Some(Key::X)
        } else if name == "Y"@ {
            Some(Key::Y)
        } else if name == "Z"@ {
            Some(Key::Z)
        } else if name == "1"@ || name == "Number1"@ {
            Some(Key::Number1)
        } else if name == "2"@ || name == "Number2"@ {
            Some(Key::Number2)
        } else if name == "3"@ || name == "Number3"@ {
            Some(Key::Number3)
        } else if name == "4"@ || name == "Number4"@ {
            Some(Key::Number4)
        } else if name == "5"@ || name == "Number5"@ {
            Some(Key::Number5)
        } else if name == "6"@ || name == "Number6"@ {
            Some(Key::Number6)
        } else if name == "7"@ || name == "Number7"@ {
            Some(Key::Number7)
        } else if name == "8"@ || name == "Number8"@ {
            Some(Key::Number8)
        } else if name == "9"@ || name == "Number9"@ {
            Some(Key::Number9)
        } else if name == "0"@ || name == "Number0"@ {
            Some(Key::Number0)
        } else if name == "Numpad0"@ {
            Some(Key::Numpad0)
        } else if name == "Numpad1"@ {
            Some(Key::Numpad1)
        } else if name == "Numpad2"@ {
            Some(Key::Numpad2)
        } else if name == "Numpad3"@ {
            Some(Key::Numpad3)
        } else if name == "Numpad4"@ {
            Some(Key::Numpad4)
        } else if name == "Numpad5"@ {
            Some(Key::Numpad5)
        } else if name == "Numpad6"@ {
            Some(Key::Numpad6)
        } else if name == "Numpad7"@ {
            Some(Key::Numpad7)
        } else if name == "Numpad8"@ {
            Some(Key::Numpad8)
        } else if name == "Numpad9"@ {
            Some(Key::Numpad9)
        } else if name == "NumpadDecimal"@ {
            Some(Key::NumpadDecimal)
        } else if name == "NumpadMultiply"@ || name == "KP_Multiply"@ {
            Some(Key::NumpadMultiply)
        } else if name == "NumpadPlus"@ || name == "KP_Add"@ {
            Some(Key::NumpadPlus)
        } else if name == "NumpadClear"@ {
            Some(Key::NumpadClear)
        } else if name == "NumpadDivide"@ || name == "KP_Divide"@ {
            Some(Key::NumpadDivide)
        } else if name == "NumpadEnter"@ || name == "KP_Enter"@ {
            Some(Key::NumpadEnter)
        } else if name == "NumpadMinus"@ || name == "KP_Subtract"@ {
            Some(Key::NumpadMinus)
        } else if name == "NumpadEqual"@ {
            Some(Key::NumpadEqual)
        } else if name == "Minus"@ {
            Some(Key::Minus)
        } else if name == "Equal"@ {
            Some(Key::Equal)
        } else if name == "BracketLeft"@ {
            Some(Key::BracketLeft)
        } else if name == "BracketRight"@ {
            Some(Key::BracketRight)
        } else if name == "Backslash"@ {
            Some(Key::Backslash)
        } else if name == "Semicolon"@ {
            Some(Key::Semicolon)
        } else if name == "Quote"@ {
            Some(Key::Quote)
        } else if name == "Comma"@ {
            Some(Key::Comma)
        } else if name == "Period"@ {
            Some(Key::Period)
        } else if name == "Slash"@ {
            Some(Key::Slash)
        } else if name == "Grave"@ {
            Some(Key::Grave)
        } else if name == "IsoExtra"@ || name == "NonUSBackslash"@ {
            Some(Key::IsoExtra)
        } else {
            None
        }
    }

    /// Parse a TitleCase key name into a Key variant.
    ///
    /// Case-sensitive matching.  Generic modifier names (`Ctrl`, `Shift`,
    /// `Alt`, `Command`) resolve to left-side defaults.  Explicit names
    /// (`LeftControl`, `RightAlt`) are preserved.
    pub fn try_from_str(name: &str) -> (r: Option<Key>)
        ensures
            r == Key::spec_try_from_str(name@),
    {
        if str_eq(name, "Ctrl") {
            Some(Key::LeftControl)
        } else if str_eq(name, "Shift") {
            Some(Key::LeftShift)
        } else if str_eq(name, "Alt") || str_eq(name, "Option") {
            Some(Key::LeftAlt)
        } else if str_eq(name, "Command") || str_eq(name, "Cmd") || str_eq(name, "Super") {
            Some(Key::LeftCommand)
        } else if str_eq(name, "LeftControl") || str_eq(name, "LeftCtrl") {
            Some(Key::LeftControl)
        } else if str_eq(name, "RightControl") || str_eq(name, "RightCtrl") {
            Some(Key::RightControl)
        } else if str_eq(name, "LeftShift") {
            Some(Key::LeftShift)
        } else if str_eq(name, "RightShift") {
            Some(Key::RightShift)
        } else if str_eq(name, "LeftAlt") || str_eq(name, "LeftOption") {
            Some(Key::LeftAlt)
        } else if str_eq(name, "RightAlt") || str_eq(name, "RightOption") {
            Some(Key::RightAlt)
        } else if str_eq(name, "LeftCommand") || str_eq(name, "LeftCmd") {
            Some(Key::LeftCommand)
        } else if str_eq(name, "RightCommand") || str_eq(name, "RightCmd") {
            Some(Key::RightCommand)
        } else if str_eq(name, "CapsLock") || str_eq(name, "Caps") {
            Some(Key::CapsLock)
        } else if str_eq(name, "Tab") {
            Some(Key::Tab)
        } else if str_eq(name, "Space") {
            Some(Key::Space)
        } else if str_eq(name, "Return") || str_eq(name, "Enter") {
            Some(Key::Return)
        } else if str_eq(name, "Backspace") {
            Some(Key::Backspace)
        } else if str_eq(name, "Delete") {
            Some(Key::Delete)
        } else if str_eq(name, "Escape") || str_eq(name, "Esc") {
            Some(Key::Escape)
        } else if str_eq(name, "UpArrow") || str_eq(name, "Up") {
            Some(Key::UpArrow)
        } else if str_eq(name, "DownArrow") || str_eq(name, "Down") {
            Some(Key::DownArrow)
        } else if str_eq(name, "LeftArrow") || str_eq(name, "Left") {
            Some(Key::LeftArrow)
        } else if str_eq(name, "RightArrow") || str_eq(name, "Right") {
            Some(Key::RightArrow)
        } else if str_eq(name, "PageUp") || str_eq(name, "PgUp") {
            Some(Key::PageUp)
        } else if str_eq(name, "PageDown") || str_eq(name, "PgDn") {
            Some(Key::PageDown)
        } else if str_eq(name, "Home") {
            Some(Key::Home)
        } else if str_eq(name, "End") {
            Some(Key::End)
        } else if str_eq(name, "F1") {
            Some(Key::F1)
        } else if str_eq(name, "F2") {
            Some(Key::F2)
        } else if str_eq(name, "F3") {
            Some(Key::F3)
        } else if str_eq(name, "F4") {
            Some(Key::F4)
        } else if str_eq(name, "F5") {
            Some(Key::F5)
        } else if str_eq(name, "F6") {
            Some(Key::F6)
        } else if str_eq(name, "F7") {
            Some(Key::F7)
        } else if str_eq(name, "F8") {
            Some(Key::F8)
        } else if str_eq(name, "F9") {
            Some(Key::F9)
        } else if str_eq(name, "F10") {
            Some(Key::F10)
        } else if str_eq(name, "F11") {
            Some(Key::F11)
        } else if str_eq(name, "F12") {
            Some(Key::F12)
        } else if str_eq(name, "A") {
            Some(Key::A)
        } else if str_eq(name, "B") {
            Some(Key::B)
        } else if str_eq(name, "C") {
            Some(Key::C)
        } else if str_eq(name, "D") {
            Some(Key::D)
        } else if str_eq(name, "E") {
            Some(Key::E)
        } else if str_eq(name, "F") {
            Some(Key::F)
        } else if str_eq(name, "G") {
            Some(Key::G)
        } else if str_eq(name, "H") {
            Some(Key::H)
        } else if str_eq(name, "I") {
            Some(Key::I)
        } else if str_eq(name, "J") {
            Some(Key::J)
        } else if str_eq(name, "K") {
            Some(Key::K)
        } else if str_eq(name, "L") {
            Some(Key::L)
        } else if str_eq(name, "M") {
            Some(Key::M)
        } else if str_eq(name, "N") {
            Some(Key::N)
        } else if str_eq(name, "O") {
            Some(Key::O)
        } else if str_eq(name, "P") {
            Some(Key::P)
        } else if str_eq(name, "Q") {
            Some(Key::Q)
        } else if str_eq(name, "R") {
            Some(Key::R)
        } else if str_eq(name, "S") {
            Some(Key::S)
        } else if str_eq(name, "T") {
            Some(Key::T)
        } else if str_eq(name, "U") {
            Some(Key::U)
        } else if str_eq(name, "V") {
            Some(Key::V)
        } else if str_eq(name, "W") {
            Some(Key::W)
        } else if str_eq(name, "X") {
            Some(Key::X)
        } else if str_eq(name, "Y") {
            Some(Key::Y)
        } else if str_eq(name, "Z") {
            Some(Key::Z)
        } else if str_eq(name, "1") || str_eq(name, "Number1") {
            Some(Key::Number1)
        } else if str_eq(name, "2") || str_eq(name, "Number2") {
            Some(Key::Number2)
        } else if str_eq(name, "3") || str_eq(name, "Number3") {
            Some(Key::Number3)
        } else if str_eq(name, "4") || str_eq(name, "Number4") {
            Some(Key::Number4)
        } else if str_eq(name, "5") || str_eq(name, "Number5") {
            Some(Key::Number5)
        } else if str_eq(name, "6") || str_eq(name, "Number6") {
            Some(Key::Number6)
        } else if str_eq(name, "7") || str_eq(name, "Number7") {
            Some(Key::Number7)
        } else if str_eq(name, "8") || str_eq(name, "Number8") {
            Some(Key::Number8)
        } else if str_eq(name, "9") || str_eq(name, "Number9") {
            Some(Key::Number9)
        } else if str_eq(name, "0") || str_eq(name, "Number0") {
            Some(Key::Number0)
        } else if str_eq(name, "Numpad0") {
            Some(Key::Numpad0)
        } else if str_eq(name, "Numpad1") {
            Some(Key::Numpad1)
        } else if str_eq(name, "Numpad2") {
            Some(Key::Numpad2)
        } else if str_eq(name, "Numpad3") {
            Some(Key::Numpad3)
        } else if str_eq(name, "Numpad4") {
            Some(Key::Numpad4)
        } else if str_eq(name, "Numpad5") {
            Some(Key::Numpad5)
        } else if str_eq(name, "Numpad6") {
            Some(Key::Numpad6)
        } else if str_eq(name, "Numpad7") {
            Some(Key::Numpad7)
        } else if str_eq(name, "Numpad8") {
            Some(Key::Numpad8)
        } else if str_eq(name, "Numpad9") {
            Some(Key::Numpad9)
        } else if str_eq(name, "NumpadDecimal") {
            Some(Key::NumpadDecimal)
        } else if str_eq(name, "NumpadMultiply") || str_eq(name, "KP_Multiply") {
            Some(Key::NumpadMultiply)
        } else if str_eq(name, "NumpadPlus") || str_eq(name, "KP_Add") {
            Some(Key::NumpadPlus)
        } else if str_eq(name, "NumpadClear") {
            Some(Key::NumpadClear)
        } else if str_eq(name, "NumpadDivide") || str_eq(name, "KP_Divide") {
            Some(Key::NumpadDivide)
        } else if str_eq(name, "NumpadEnter") || str_eq(name, "KP_Enter") {
            Some(Key::NumpadEnter)
        } else if str_eq(name, "NumpadMinus") || str_eq(name, "KP_Subtract") {
            Some(Key::NumpadMinus)
        } else if str_eq(name, "NumpadEqual") {
            Some(Key::NumpadEqual)
        } else if str_eq(name, "Minus") {
            Some(Key::Minus)
        } else if str_eq(name, "Equal") {
            Some(Key::Equal)
        } else if str_eq(name, "BracketLeft") {
            Some(Key::BracketLeft)
        } else if str_eq(name, "BracketRight") {
            Some(Key::BracketRight)
        } else if str_eq(name, "Backslash") {
            Some(Key::Backslash)
        } else if str_eq(name, "Semicolon") {
            Some(Key::Semicolon)
        } else if str_eq(name, "Quote") {
            Some(Key::Quote)
        } else if str_eq(name, "Comma") {
            Some(Key::Comma)
        } else if str_eq(name, "Period") {
            Some(Key::Period)
        } else if str_eq(name, "Slash") {
            Some(Key::Slash)
        } else if str_eq(name, "Grave") {
            Some(Key::Grave)
        } else if str_eq(name, "IsoExtra") || str_eq(name, "NonUSBackslash") {
            Some(Key::IsoExtra)
        } else {
            None
        }
    }

}

/// The characters of the key-name literals (part 1).
pub proof fn lemma_key_name_literals_1()
    ensures
        "LeftControl"@.len() == 11 && "LeftControl"@[0] == 'L' && "LeftControl"@[1] == 'e' && "LeftControl"@[2] == 'f' && "LeftControl"@[3] == 't' && "LeftControl"@[4] == 'C' && "LeftControl"@[5] == 'o' && "LeftControl"@[6] == 'n' && "LeftControl"@[7] == 't' && "LeftControl"@[8] == 'r' && "LeftControl"@[9] == 'o' && "LeftControl"@[10] == 'l',
        "RightControl"@.len() == 12 && "RightControl"@[0] == 'R' && "RightControl"@[1] == 'i' && "RightControl"@[2] == 'g' && "RightControl"@[3] == 'h' && "RightControl"@[4] == 't' && "RightControl"@[5] == 'C' && "RightControl"@[6] == 'o' && "RightControl"@[7] == 'n' && "RightControl"@[8] == 't' && "RightControl"@[9] == 'r' && "RightControl"@[10] == 'o' && "RightControl"@[11] == 'l',
        "LeftShift"@.len() == 9 && "LeftShift"@[0] == 'L' && "LeftShift"@[1] == 'e' && "LeftShift"@[2] == 'f' && "LeftShift"@[3] == 't' && "LeftShift"@[4] == 'S' && "LeftShift"@[5] == 'h' && "LeftShift"@[6] == 'i' && "LeftShift"@[7] == 'f' && "LeftShift"@[8] == 't',
        "RightShift"@.len() == 10 && "RightShift"@[0] == 'R' && "RightShift"@[1] == 'i' && "RightShift"@[2] == 'g' && "RightShift"@[3] == 'h' && "RightShift"@[4] == 't' && "RightShift"@[5] == 'S' && "RightShift"@[6] == 'h' && "RightShift"@[7] == 'i' && "RightShift"@[8] == 'f' && "RightShift"@[9] == 't',
        "LeftAlt"@.len() == 7 && "LeftAlt"@[0] == 'L' && "LeftAlt"@[1] == 'e' && "LeftAlt"@[2] == 'f' && "LeftAlt"@[3] == 't' && "LeftAlt"@[4] == 'A' && "LeftAlt"@[5] == 'l' && "LeftAlt"@[6] == 't',
        "RightAlt"@.len() == 8 && "RightAlt"@[0] == 'R' && "RightAlt"@[1] == 'i' && "RightAlt"@[2] == 'g' && "RightAlt"@[3] == 'h' && "RightAlt"@[4] == 't' && "RightAlt"@[5] == 'A' && "RightAlt"@[6] == 'l' && "RightAlt"@[7] == 't',
        "LeftCommand"@.len() == 11 && "LeftCommand"@[0] == 'L' && "LeftCommand"@[1] == 'e' && "LeftCommand"@[2] == 'f' && "LeftCommand"@[3] == 't' && "LeftCommand"@[4] == 'C' && "LeftCommand"@[5] == 'o' && "LeftCommand"@[6] == 'm' && "LeftCommand"@[7] == 'm' && "LeftCommand"@[8] == 'a' && "LeftCommand"@[9] == 'n' && "LeftCommand"@[10] == 'd',
        "RightCommand"@.len() == 12 && "RightCommand"@[0] == 'R' && "RightCommand"@[1] == 'i' && "RightCommand"@[2] == 'g' && "RightCommand"@[3] == 'h' && "RightCommand"@[4] == 't' && "RightCommand"@[5] == 'C' && "RightCommand"@[6] == 'o' && "RightCommand"@[7] == 'm' && "RightCommand"@[8] == 'm' && "RightCommand"@[9] == 'a' && "RightCommand"@[10] == 'n' && "RightCommand"@[11] == 'd',
        "CapsLock"@.len() == 8 && "CapsLock"@[0] == 'C' && "CapsLock"@[1] == 'a' && "CapsLock"@[2] == 'p' && "CapsLock"@[3] == 's' && "CapsLock"@[4] == 'L' && "CapsLock"@[5] == 'o' && "CapsLock"@[6] == 'c' && "CapsLock"@[7] == 'k',
        "Tab"@.len() == 3 && "Tab"@[0] == 'T' && "Tab"@[1] == 'a' && "Tab"@[2] == 'b',
        "Space"@.len() == 5 && "Space"@[0] == 'S' && "Space"@[1] == 'p' && "Space"@[2] == 'a' && "Space"@[3] == 'c' && "Space"@[4] == 'e',
        "Return"@.len() == 6 && "Return"@[0] == 'R' && "Return"@[1] == 'e' && "Return"@[2] == 't' && "Return"@[3] == 'u' && "Return"@[4] == 'r' && "Return"@[5] == 'n',
        "Backspace"@.len() == 9 && "Backspace"@[0] == 'B' && "Backspace"@[1] == 'a' && "Backspace"@[2] == 'c' && "Backspace"@[3] == 'k' && "Backspace"@[4] == 's' && "Backspace"@[5] == 'p' && "Backspace"@[6] == 'a' && "Backspace"@[7] == 'c' && "Backspace"@[8] == 'e',
        "Delete"@.len() == 6 && "Delete"@[0] == 'D' && "Delete"@[1] == 'e' && "Delete"@[2] == 'l' && "Delete"@[3] == 'e' && "Delete"@[4] == 't' && "Delete"@[5] == 'e',
        "Escape"@.len() == 6 && "Escape"@[0] == 'E' && "Escape"@[1] == 's' && "Escape"@[2] == 'c' && "Escape"@[3] == 'a' && "Escape"@[4] == 'p' && "Escape"@[5] == 'e',
        "UpArrow"@.len() == 7 && "UpArrow"@[0] == 'U' && "UpArrow"@[1] == 'p' && "UpArrow"@[2] == 'A' && "UpArrow"@[3] == 'r' && "UpArrow"@[4] == 'r' && "UpArrow"@[5] == 'o' && "UpArrow"@[6] == 'w',
        "DownArrow"@.len() == 9 && "DownArrow"@[0] == 'D' && "DownArrow"@[1] == 'o' && "DownArrow"@[2] == 'w' && "DownArrow"@[3] == 'n' && "DownArrow"@[4] == 'A' && "DownArrow"@[5] == 'r' && "DownArrow"@[6] == 'r' && "DownArrow"@[7] == 'o' && "DownArrow"@[8] == 'w',
        "LeftArrow"@.len() == 9 && "LeftArrow"@[0] == 'L' && "LeftArrow"@[1] == 'e' && "LeftArrow"@[2] == 'f' && "LeftArrow"@[3] == 't' && "LeftArrow"@[4] == 'A' && "LeftArrow"@[5] == 'r' && "LeftArrow"@[6] == 'r' && "LeftArrow"@[7] == 'o' && "LeftArrow"@[8] == 'w',
        "RightArrow"@.len() == 10 && "RightArrow"@[0] == 'R' && "RightArrow"@[1] == 'i' && "RightArrow"@[2] == 'g' && "RightArrow"@[3] == 'h' && "RightArrow"@[4] == 't' && "RightArrow"@[5] == 'A' && "RightArrow"@[6] == 'r' && "RightArrow"@[7] == 'r' && "RightArrow"@[8] == 'o' && "RightArrow"@[9] == 'w',
        "PageUp"@.len() == 6 && "PageUp"@[0] == 'P' && "PageUp"@[1] == 'a' && "PageUp"@[2] == 'g' && "PageUp"@[3] == 'e' && "PageUp"@[4] == 'U' && "PageUp"@[5] == 'p',
{
    reveal_strlit("LeftControl");
    reveal_strlit("RightControl");
    reveal_strlit("LeftShift");
    reveal_strlit("RightShift");
    reveal_strlit("LeftAlt");
    reveal_strlit("RightAlt");
    reveal_strlit("LeftCommand");
    reveal_strlit("RightCommand");
    reveal_strlit("CapsLock");
    reveal_strlit("Tab");
    reveal_strlit("Space");
    reveal_strlit("Return");
    reveal_strlit("Backspace");
    reveal_strlit("Delete");
    reveal_strlit("Escape");
    reveal_strlit("UpArrow");
    reveal_strlit("DownArrow");
    reveal_strlit("LeftArrow");
    reveal_strlit("RightArrow");
    reveal_strlit("PageUp");
}

/// The characters of the key-name literals (part 2).
pub proof fn lemma_key_name_literals_2()
    ensures
        "PageDown"@.len() == 8 && "PageDown"@[0] == 'P' && "PageDown"@[1] == 'a' && "PageDown"@[2] == 'g' && "PageDown"@[3] == 'e' && "PageDown"@[4] == 'D' && "PageDown"@[5] == 'o' && "PageDown"@[6] == 'w' && "PageDown"@[7] == 'n',
        "Home"@.len() == 4 && "Home"@[0] == 'H' && "Home"@[1] == 'o' && "Home"@[2] == 'm' && "Home"@[3] == 'e',
        "End"@.len() == 3 && "End"@[0] == 'E' && "End"@[1] == 'n' && "End"@[2] == 'd',
        "F1"@.len() == 2 && "F1"@[0] == 'F' && "F1"@[1] == '1',
        "F2"@.len() == 2 && "F2"@[0] == 'F' && "F2"@[1] == '2',
        "F3"@.len() == 2 && "F3"@[0] == 'F' && "F3"@[1] == '3',
        "F4"@.len() == 2 && "F4"@[0] == 'F' && "F4"@[1] == '4',
        "F5"@.len() == 2 && "F5"@[0] == 'F' && "F5"@[1] == '5',
        "F6"@.len() == 2 && "F6"@[0] == 'F' && "F6"@[1] == '6',
        "F7"@.len() == 2 && "F7"@[0] == 'F' && "F7"@[1] == '7',
        "F8"@.len() == 2 && "F8"@[0] == 'F' && "F8"@[1] == '8',
        "F9"@.len() == 2 && "F9"@[0] == 'F' && "F9"@[1] == '9',
        "F10"@.len() == 3 && "F10"@[0] == 'F' && "F10"@[1] == '1' && "F10"@[2] == '0',
        "F11"@.len() == 3 && "F11"@[0] == 'F' && "F11"@[1] == '1' && "F11"@[2] == '1',
        "F12"@.len() == 3 && "F12"@[0] == 'F' && "F12"@[1] == '1' && "F12"@[2] == '2',
        "A"@.len() == 1 && "A"@[0] == 'A',
        "B"@.len() == 1 && "B"@[0] == 'B',
        "C"@.len() == 1 && "C"@[0] == 'C',
        "D"@.len() == 1 && "D"@[0] == 'D',
        "E"@.len() == 1 && "E"@[0] == 'E',
{
    reveal_strlit("PageDown");
    reveal_strlit("Home");
    reveal_strlit("End");
    reveal_strlit("F1");
    reveal_strlit("F2");
    reveal_strlit("F3");
    reveal_strlit("F4");
    reveal_strlit("F5");
    reveal_strlit("F6");
    reveal_strlit("F7");
    reveal_strlit("F8");
    reveal_strlit("F9");
    reveal_strlit("F10");
    reveal_strlit("F11");
    reveal_strlit("F12");
    reveal_strlit("A");
    reveal_strlit("B");
    reveal_strlit("C");
    reveal_strlit("D");
    reveal_strlit("E");
}

/// The characters of the key-name literals (part 3).
pub proof fn lemma_key_name_literals_3()
    ensures
        "F"@.len() == 1 && "F"@[0] == 'F',
        "G"@.len() == 1 && "G"@[0] == 'G',
        "H"@.len() == 1 && "H"@[0] == 'H',
        "I"@.len() == 1 && "I"@[0] == 'I',
        "J"@.len() == 1 && "J"@[0] == 'J',
        "K"@.len() == 1 && "K"@[0] == 'K',
        "L"@.len() == 1 && "L"@[0] == 'L',
        "M"@.len() == 1 && "M"@[0] == 'M',
        "N"@.len() == 1 && "N"@[0] == 'N',
        "O"@.len() == 1 && "O"@[0] == 'O',
        "P"@.len() == 1 && "P"@[0] == 'P',
        "Q"@.len() == 1 && "Q"@[0] == 'Q',
        "R"@.len() == 1 && "R"@[0] == 'R',
        "S"@.len() == 1 && "S"@[0] == 'S',
        "T"@.len() == 1 && "T"@[0] == 'T',
        "U"@.len() == 1 && "U"@[0] == 'U',
        "V"@.len() == 1 && "V"@[0] == 'V',
        "W"@.len() == 1 && "W"@[0] == 'W',
        "X"@.len() == 1 && "X"@[0] == 'X',
        "Y"@.len() == 1 && "Y"@[0] == 'Y',
{
    reveal_strlit("F");
    reveal_strlit("G");
    reveal_strlit("H");
    reveal_strlit("I");
    reveal_strlit("J");
    reveal_strlit("K");
    reveal_strlit("L");
    reveal_strlit("M");
    reveal_strlit("N");
    reveal_strlit("O");
    reveal_strlit("P");
    reveal_strlit("Q");
    reveal_strlit("R");
    reveal_strlit("S");
    reveal_strlit("T");
    reveal_strlit("U");
    reveal_strlit("V");
    reveal_strlit("W");
    reveal_strlit("X");
    reveal_strlit("Y");
}

/// The characters of the key-name literals (part 4).
pub proof fn lemma_key_name_literals_4()
    ensures
        "Z"@.len() == 1 && "Z"@[0] == 'Z',
        "1"@.len() == 1 && "1"@[0] == '1',
        "2"@.len() == 1 && "2"@[0] == '2',
        "3"@.len() == 1 && "3"@[0] == '3',
        "4"@.len() == 1 && "4"@[0] == '4',
        "5"@.len() == 1 && "5"@[0] == '5',
        "6"@.len() == 1 && "6"@[0] == '6',
        "7"@.len() == 1 && "7"@[0] == '7',
        "8"@.len() == 1 && "8"@[0] == '8',
        "9"@.len() == 1 && "9"@[0] == '9',
        "0"@.len() == 1 && "0"@[0] == '0',
        "Numpad0"@.len() == 7 && "Numpad0"@[0] == 'N' && "Numpad0"@[1] == 'u' && "Numpad0"@[2] == 'm' && "Numpad0"@[3] == 'p' && "Numpad0"@[4] == 'a' && "Numpad0"@[5] == 'd' && "Numpad0"@[6] == '0',
        "Numpad1"@.len() == 7 && "Numpad1"@[0] == 'N' && "Numpad1"@[1] == 'u' && "Numpad1"@[2] == 'm' && "Numpad1"@[3] == 'p' && "Numpad1"@[4] == 'a' && "Numpad1"@[5] == 'd' && "Numpad1"@[6] == '1',
        "Numpad2"@.len() == 7 && "Numpad2"@[0] == 'N' && "Numpad2"@[1] == 'u' && "Numpad2"@[2] == 'm' && "Numpad2"@[3] == 'p' && "Numpad2"@[4] == 'a' && "Numpad2"@[5] == 'd' && "Numpad2"@[6] == '2',
        "Numpad3"@.len() == 7 && "Numpad3"@[0] == 'N' && "Numpad3"@[1] == 'u' && "Numpad3"@[2] == 'm' && "Numpad3"@[3] == 'p' && "Numpad3"@[4] == 'a' && "Numpad3"@[5] == 'd' && "Numpad3"@[6] == '3',
        "Numpad4"@.len() == 7 && "Numpad4"@[0] == 'N' && "Numpad4"@[1] == 'u' && "Numpad4"@[2] == 'm' && "Numpad4"@[3] == 'p' && "Numpad4"@[4] == 'a' && "Numpad4"@[5] == 'd' && "Numpad4"@[6] == '4',
        "Numpad5"@.len() == 7 && "Numpad5"@[0] == 'N' && "Numpad5"@[1] == 'u' && "Numpad5"@[2] == 'm' && "Numpad5"@[3] == 'p' && "Numpad5"@[4] == 'a' && "Numpad5"@[5] == 'd' && "Numpad5"@[6] == '5',
        "Numpad6"@.len() == 7 && "Numpad6"@[0] == 'N' && "Numpad6"@[1] == 'u' && "Numpad6"@[2] == 'm' && "Numpad6"@[3] == 'p' && "Numpad6"@[4] == 'a' && "Numpad6"@[5] == 'd' && "Numpad6"@[6] == '6',
        "Numpad7"@.len() == 7 && "Numpad7"@[0] == 'N' && "Numpad7"@[1] == 'u' && "Numpad7"@[2] == 'm' && "Numpad7"@[3] == 'p' && "Numpad7"@[4] == 'a' && "Numpad7"@[5] == 'd' && "Numpad7"@[6] == '7',
        "Numpad8"@.len() == 7 && "Numpad8"@[0] == 'N' && "Numpad8"@[1] == 'u' && "Numpad8"@[2] == 'm' && "Numpad8"@[3] == 'p' && "Numpad8"@[4] == 'a' && "Numpad8"@[5] == 'd' && "Numpad8"@[6] == '8',
{
    reveal_strlit("Z");
    reveal_strlit("1");
    reveal_strlit("2");
    reveal_strlit("3");
    reveal_strlit("4");
    reveal_strlit("5");
    reveal_strlit("6");
    reveal_strlit("7");
    reveal_strlit("8");
    reveal_strlit("9");
    reveal_strlit("0");
    reveal_strlit("Numpad0");
    reveal_strlit("Numpad1");
    reveal_strlit("Numpad2");
    reveal_strlit("Numpad3");
    reveal_strlit("Numpad4");
    reveal_strlit("Numpad5");
    reveal_strlit("Numpad6");
    reveal_strlit("Numpad7");
    reveal_strlit("Numpad8");
}

/// The characters of the key-name literals (part 5).
pub proof fn lemma_key_name_literals_5()
    ensures
        "Numpad9"@.len() == 7 && "Numpad9"@[0] == 'N' && "Numpad9"@[1] == 'u' && "Numpad9"@[2] == 'm' && "Numpad9"@[3] == 'p' && "Numpad9"@[4] == 'a' && "Numpad9"@[5] == 'd' && "Numpad9"@[6] == '9',
        "NumpadDecimal"@.len() == 13 && "NumpadDecimal"@[0] == 'N' && "NumpadDecimal"@[1] == 'u' && "NumpadDecimal"@[2] == 'm' && "NumpadDecimal"@[3] == 'p' && "NumpadDecimal"@[4] == 'a' && "NumpadDecimal"@[5] == 'd' && "NumpadDecimal"@[6] == 'D' && "NumpadDecimal"@[7] == 'e' && "NumpadDecimal"@[8] == 'c' && "NumpadDecimal"@[9] == 'i' && "NumpadDecimal"@[10] == 'm' && "NumpadDecimal"@[11] == 'a' && "NumpadDecimal"@[12] == 'l',
        "NumpadMultiply"@.len() == 14 && "NumpadMultiply"@[0] == 'N' && "NumpadMultiply"@[1] == 'u' && "NumpadMultiply"@[2] == 'm' && "NumpadMultiply"@[3] == 'p' && "NumpadMultiply"@[4] == 'a' && "NumpadMultiply"@[5] == 'd' && "NumpadMultiply"@[6] == 'M' && "NumpadMultiply"@[7] == 'u' && "NumpadMultiply"@[8] == 'l' && "NumpadMultiply"@[9] == 't' && "NumpadMultiply"@[10] == 'i' && "NumpadMultiply"@[11] == 'p' && "NumpadMultiply"@[12] == 'l' && "NumpadMultiply"@[13] == 'y',
        "NumpadPlus"@.len() == 10 && "NumpadPlus"@[0] == 'N' && "NumpadPlus"@[1] == 'u' && "NumpadPlus"@[2] == 'm' && "NumpadPlus"@[3] == 'p' && "NumpadPlus"@[4] == 'a' && "NumpadPlus"@[5] == 'd' && "NumpadPlus"@[6] == 'P' && "NumpadPlus"@[7] == 'l' && "NumpadPlus"@[8] == 'u' && "NumpadPlus"@[9] == 's',
        "NumpadClear"@.len() == 11 && "NumpadClear"@[0] == 'N' && "NumpadClear"@[1] == 'u' && "NumpadClear"@[2] == 'm' && "NumpadClear"@[3] == 'p' && "NumpadClear"@[4] == 'a' && "NumpadClear"@[5] == 'd' && "NumpadClear"@[6] == 'C' && "NumpadClear"@[7] == 'l' && "NumpadClear"@[8] == 'e' && "NumpadClear"@[9] == 'a' && "NumpadClear"@[10] == 'r',
        "NumpadDivide"@.len() == 12 && "NumpadDivide"@[0] == 'N' && "NumpadDivide"@[1] == 'u' && "NumpadDivide"@[2] == 'm' && "NumpadDivide"@[3] == 'p' && "NumpadDivide"@[4] == 'a' && "NumpadDivide"@[5] == 'd' && "NumpadDivide"@[6] == 'D' && "NumpadDivide"@[7] == 'i' && "NumpadDivide"@[8] == 'v' && "NumpadDivide"@[9] == 'i' && "NumpadDivide"@[10] == 'd' && "NumpadDivide"@[11] == 'e',
        "NumpadEnter"@.len() == 11 && "NumpadEnter"@[0] == 'N' && "NumpadEnter"@[1] == 'u' && "NumpadEnter"@[2] == 'm' && "NumpadEnter"@[3] == 'p' && "NumpadEnter"@[4] == 'a' && "NumpadEnter"@[5] == 'd' && "NumpadEnter"@[6] == 'E' && "NumpadEnter"@[7] == 'n' && "NumpadEnter"@[8] == 't' && "NumpadEnter"@[9] == 'e' && "NumpadEnter"@[10] == 'r',
        "NumpadMinus"@.len() == 11 && "NumpadMinus"@[0] == 'N' && "NumpadMinus"@[1] == 'u' && "NumpadMinus"@[2] == 'm' && "NumpadMinus"@[3] == 'p' && "NumpadMinus"@[4] == 'a' && "NumpadMinus"@[5] == 'd' && "NumpadMinus"@[6] == 'M' && "NumpadMinus"@[7] == 'i' && "NumpadMinus"@[8] == 'n' && "NumpadMinus"@[9] == 'u' && "NumpadMinus"@[10] == 's',
        "NumpadEqual"@.len() == 11 && "NumpadEqual"@[0] == 'N' && "NumpadEqual"@[1] == 'u' && "NumpadEqual"@[2] == 'm' && "NumpadEqual"@[3] == 'p' && "NumpadEqual"@[4] == 'a' && "NumpadEqual"@[5] == 'd' && "NumpadEqual"@[6] == 'E' && "NumpadEqual"@[7] == 'q' && "NumpadEqual"@[8] == 'u' && "NumpadEqual"@[9] == 'a' && "NumpadEqual"@[10] == 'l',
        "Minus"@.len() == 5 && "Minus"@[0] == 'M' && "Minus"@[1] == 'i' && "Minus"@[2] == 'n' && "Minus"@[3] == 'u' && "Minus"@[4] == 's',
        "Equal"@.len() == 5 && "Equal"@[0] == 'E' && "Equal"@[1] == 'q' && "Equal"@[2] == 'u' && "Equal"@[3] == 'a' && "Equal"@[4] == 'l',
        "BracketLeft"@.len() == 11 && "BracketLeft"@[0] == 'B' && "BracketLeft"@[1] == 'r' && "BracketLeft"@[2] == 'a' && "BracketLeft"@[3] == 'c' && "BracketLeft"@[4] == 'k' && "BracketLeft"@[5] == 'e' && "BracketLeft"@[6] == 't' && "BracketLeft"@[7] == 'L' && "BracketLeft"@[8] == 'e' && "BracketLeft"@[9] == 'f' && "BracketLeft"@[10] == 't',
        "BracketRight"@.len() == 12 && "BracketRight"@[0] == 'B' && "BracketRight"@[1] == 'r' && "BracketRight"@[2] == 'a' && "BracketRight"@[3] == 'c' && "BracketRight"@[4] == 'k' && "BracketRight"@[5] == 'e' && "BracketRight"@[6] == 't' && "BracketRight"@[7] == 'R' && "BracketRight"@[8] == 'i' && "BracketRight"@[9] == 'g' && "BracketRight"@[10] == 'h' && "BracketRight"@[11] == 't',
        "Backslash"@.len() == 9 && "Backslash"@[0] == 'B' && "Backslash"@[1] == 'a' && "Backslash"@[2] == 'c' && "Backslash"@[3] == 'k' && "Backslash"@[4] == 's' && "Backslash"@[5] == 'l' && "Backslash"@[6] == 'a' && "Backslash"@[7] == 's' && "Backslash"@[8] == 'h',
        "Semicolon"@.len() == 9 && "Semicolon"@[0] == 'S' && "Semicolon"@[1] == 'e' && "Semicolon"@[2] == 'm' && "Semicolon"@[3] == 'i' && "Semicolon"@[4] == 'c' && "Semicolon"@[5] == 'o' && "Semicolon"@[6] == 'l' && "Semicolon"@[7] == 'o' && "Semicolon"@[8] == 'n',
        "Quote"@.len() == 5 && "Quote"@[0] == 'Q' && "Quote"@[1] == 'u' && "Quote"@[2] == 'o' && "Quote"@[3] == 't' && "Quote"@[4] == 'e',
        "Comma"@.len() == 5 && "Comma"@[0] == 'C' && "Comma"@[1] == 'o' && "Comma"@[2] == 'm' && "Comma"@[3] == 'm' && "Comma"@[4] == 'a',
        "Period"@.len() == 6 && "Period"@[0] == 'P' && "Period"@[1] == 'e' && "Period"@[2] == 'r' && "Period"@[3] == 'i' && "Period"@[4] == 'o' && "Period"@[5] == 'd',
        "Slash"@.len() == 5 && "Slash"@[0] == 'S' && "Slash"@[1] == 'l' && "Slash"@[2] == 'a' && "Slash"@[3] == 's' && "Slash"@[4] == 'h',
        "Grave"@.len() == 5 && "Grave"@[0] == 'G' && "Grave"@[1] == 'r' && "Grave"@[2] == 'a' && "Grave"@[3] == 'v' && "Grave"@[4] == 'e',
{
    reveal_strlit("Numpad9");
    reveal_strlit("NumpadDecimal");
    reveal_strlit("NumpadMultiply");
    reveal_strlit("NumpadPlus");
    reveal_strlit("NumpadClear");
    reveal_strlit("NumpadDivide");
    reveal_strlit("NumpadEnter");
    reveal_strlit("NumpadMinus");
    reveal_strlit("NumpadEqual");
    reveal_strlit("Minus");
    reveal_strlit("Equal");
    reveal_strlit("BracketLeft");
    reveal_strlit("BracketRight");
    reveal_strlit("Backslash");
    reveal_strlit("Semicolon");
    reveal_strlit("Quote");
    reveal_strlit("Comma");
    reveal_strlit("Period");
    reveal_strlit("Slash");
    reveal_strlit("Grave");
}

/// The characters of the key-name literals (part 6).
pub proof fn lemma_key_name_literals_6()
    ensures
        "IsoExtra"@.len() == 8 && "IsoExtra"@[0] == 'I' && "IsoExtra"@[1] == 's' && "IsoExtra"@[2] == 'o' && "IsoExtra"@[3] == 'E' && "IsoExtra"@[4] == 'x' && "IsoExtra"@[5] == 't' && "IsoExtra"@[6] == 'r' && "IsoExtra"@[7] == 'a',
        "Ctrl"@.len() == 4 && "Ctrl"@[0] == 'C' && "Ctrl"@[1] == 't' && "Ctrl"@[2] == 'r' && "Ctrl"@[3] == 'l',
        "Shift"@.len() == 5 && "Shift"@[0] == 'S' && "Shift"@[1] == 'h' && "Shift"@[2] == 'i' && "Shift"@[3] == 'f' && "Shift"@[4] == 't',
        "Alt"@.len() == 3 && "Alt"@[0] == 'A' && "Alt"@[1] == 'l' && "Alt"@[2] == 't',
        "Option"@.len() == 6 && "Option"@[0] == 'O' && "Option"@[1] == 'p' && "Option"@[2] == 't' && "Option"@[3] == 'i' && "Option"@[4] == 'o' && "Option"@[5] == 'n',
        "Command"@.len() == 7 && "Command"@[0] == 'C' && "Command"@[1] == 'o' && "Command"@[2] == 'm' && "Command"@[3] == 'm' && "Command"@[4] == 'a' && "Command"@[5] == 'n' && "Command"@[6] == 'd',
        "Cmd"@.len() == 3 && "Cmd"@[0] == 'C' && "Cmd"@[1] == 'm' && "Cmd"@[2] == 'd',
        "Super"@.len() == 5 && "Super"@[0] == 'S' && "Super"@[1] == 'u' && "Super"@[2] == 'p' && "Super"@[3] == 'e' && "Super"@[4] == 'r',
        "LeftCtrl"@.len() == 8 && "LeftCtrl"@[0] == 'L' && "LeftCtrl"@[1] == 'e' && "LeftCtrl"@[2] == 'f' && "LeftCtrl"@[3] == 't' && "LeftCtrl"@[4] == 'C' && "LeftCtrl"@[5] == 't' && "LeftCtrl"@[6] == 'r' && "LeftCtrl"@[7] == 'l',
        "RightCtrl"@.len() == 9 && "RightCtrl"@[0] == 'R' && "RightCtrl"@[1] == 'i' && "RightCtrl"@[2] == 'g' && "RightCtrl"@[3] == 'h' && "RightCtrl"@[4] == 't' && "RightCtrl"@[5] == 'C' && "RightCtrl"@[6] == 't' && "RightCtrl"@[7] == 'r' && "RightCtrl"@[8] == 'l',
        "LeftOption"@.len() == 10 && "LeftOption"@[0] == 'L' && "LeftOption"@[1] == 'e' && "LeftOption"@[2] == 'f' && "LeftOption"@[3] == 't' && "LeftOption"@[4] == 'O' && "LeftOption"@[5] == 'p' && "LeftOption"@[6] == 't' && "LeftOption"@[7] == 'i' && "LeftOption"@[8] == 'o' && "LeftOption"@[9] == 'n',
        "RightOption"@.len() == 11 && "RightOption"@[0] == 'R' && "RightOption"@[1] == 'i' && "RightOption"@[2] == 'g' && "RightOption"@[3] == 'h' && "RightOption"@[4] == 't' && "RightOption"@[5] == 'O' && "RightOption"@[6] == 'p' && "RightOption"@[7] == 't' && "RightOption"@[8] == 'i' && "RightOption"@[9] == 'o' && "RightOption"@[10] == 'n',
        "LeftCmd"@.len() == 7 && "LeftCmd"@[0] == 'L' && "LeftCmd"@[1] == 'e' && "LeftCmd"@[2] == 'f' && "LeftCmd"@[3] == 't' && "LeftCmd"@[4] == 'C' && "LeftCmd"@[5] == 'm' && "LeftCmd"@[6] == 'd',
        "RightCmd"@.len() == 8 && "RightCmd"@[0] == 'R' && "RightCmd"@[1] == 'i' && "RightCmd"@[2] == 'g' && "RightCmd"@[3] == 'h' && "RightCmd"@[4] == 't' && "RightCmd"@[5] == 'C' && "RightCmd"@[6] == 'm' && "RightCmd"@[7] == 'd',
        "Caps"@.len() == 4 && "Caps"@[0] == 'C' && "Caps"@[1] == 'a' && "Caps"@[2] == 'p' && "Caps"@[3] == 's',
        "Enter"@.len() == 5 && "Enter"@[0] == 'E' && "Enter"@[1] == 'n' && "Enter"@[2] == 't' && "Enter"@[3] == 'e' && "Enter"@[4] == 'r',
        "Esc"@.len() == 3 && "Esc"@[0] == 'E' && "Esc"@[1] == 's' && "Esc"@[2] == 'c',
        "Up"@.len() == 2 && "Up"@[0] == 'U' && "Up"@[1] == 'p',
        "Down"@.len() == 4 && "Down"@[0] == 'D' && "Down"@[1] == 'o' && "Down"@[2] == 'w' && "Down"@[3] == 'n',
        "Left"@.len() == 4 && "Left"@[0] == 'L' && "Left"@[1] == 'e' && "Left"@[2] == 'f' && "Left"@[3] == 't',
{
    reveal_strlit("IsoExtra");
    reveal_strlit("Ctrl");
    reveal_strlit("Shift");
    reveal_strlit("Alt");
    reveal_strlit("Option");
    reveal_strlit("Command");
    reveal_strlit("Cmd");
    reveal_strlit("Super");
    reveal_strlit("LeftCtrl");
    reveal_strlit("RightCtrl");
    reveal_strlit("LeftOption");
    reveal_strlit("RightOption");
    reveal_strlit("LeftCmd");
    reveal_strlit("RightCmd");
    reveal_strlit("Caps");
    reveal_strlit("Enter");
    reveal_strlit("Esc");
    reveal_strlit("Up");
    reveal_strlit("Down");
    reveal_strlit("Left");
}

/// The characters of the key-name literals (part 7).
pub proof fn lemma_key_name_literals_7()
    ensures
        "Right"@.len() == 5 && "Right"@[0] == 'R' && "Right"@[1] == 'i' && "Right"@[2] == 'g' && "Right"@[3] == 'h' && "Right"@[4] == 't',
        "PgUp"@.len() == 4 && "PgUp"@[0] == 'P' && "PgUp"@[1] == 'g' && "PgUp"@[2] == 'U' && "PgUp"@[3] == 'p',
        "PgDn"@.len() == 4 && "PgDn"@[0] == 'P' && "PgDn"@[1] == 'g' && "PgDn"@[2] == 'D' && "PgDn"@[3] == 'n',
        "Number1"@.len() == 7 && "Number1"@[0] == 'N' && "Number1"@[1] == 'u' && "Number1"@[2] == 'm' && "Number1"@[3] == 'b' && "Number1"@[4] == 'e' && "Number1"@[5] == 'r' && "Number1"@[6] == '1',
        "Number2"@.len() == 7 && "Number2"@[0] == 'N' && "Number2"@[1] == 'u' && "Number2"@[2] == 'm' && "Number2"@[3] == 'b' && "Number2"@[4] == 'e' && "Number2"@[5] == 'r' && "Number2"@[6] == '2',
        "Number3"@.len() == 7 && "Number3"@[0] == 'N' && "Number3"@[1] == 'u' && "Number3"@[2] == 'm' && "Number3"@[3] == 'b' && "Number3"@[4] == 'e' && "Number3"@[5] == 'r' && "Number3"@[6] == '3',
        "Number4"@.len() == 7 && "Number4"@[0] == 'N' && "Number4"@[1] == 'u' && "Number4"@[2] == 'm' && "Number4"@[3] == 'b' && "Number4"@[4] == 'e' && "Number4"@[5] == 'r' && "Number4"@[6] == '4',
        "Number5"@.len() == 7 && "Number5"@[0] == 'N' && "Number5"@[1] == 'u' && "Number5"@[2] == 'm' && "Number5"@[3] == 'b' && "Number5"@[4] == 'e' && "Number5"@[5] == 'r' && "Number5"@[6] == '5',
        "Number6"@.len() == 7 && "Number6"@[0] == 'N' && "Number6"@[1] == 'u' && "Number6"@[2] == 'm' && "Number6"@[3] == 'b' && "Number6"@[4] == 'e' && "Number6"@[5] == 'r' && "Number6"@[6] == '6',
        "Number7"@.len() == 7 && "Number7"@[0] == 'N' && "Number7"@[1] == 'u' && "Number7"@[2] == 'm' && "Number7"@[3] == 'b' && "Number7"@[4] == 'e' && "Number7"@[5] == 'r' && "Number7"@[6] == '7',
        "Number8"@.len() == 7 && "Number8"@[0] == 'N' && "Number8"@[1] == 'u' && "Number8"@[2] == 'm' && "Number8"@[3] == 'b' && "Number8"@[4] == 'e' && "Number8"@[5] == 'r' && "Number8"@[6] == '8',
        "Number9"@.len() == 7 && "Number9"@[0] == 'N' && "Number9"@[1] == 'u' && "Number9"@[2] == 'm' && "Number9"@[3] == 'b' && "Number9"@[4] == 'e' && "Number9"@[5] == 'r' && "Number9"@[6] == '9',
        "Number0"@.len() == 7 && "Number0"@[0] == 'N' && "Number0"@[1] == 'u' && "Number0"@[2] == 'm' && "Number0"@[3] == 'b' && "Number0"@[4] == 'e' && "Number0"@[5] == 'r' && "Number0"@[6] == '0',
        "KP_Multiply"@.len() == 11 && "KP_Multiply"@[0] == 'K' && "KP_Multiply"@[1] == 'P' && "KP_Multiply"@[2] == '_' && "KP_Multiply"@[3] == 'M' && "KP_Multiply"@[4] == 'u' && "KP_Multiply"@[5] == 'l' && "KP_Multiply"@[6] == 't' && "KP_Multiply"@[7] == 'i' && "KP_Multiply"@[8] == 'p' && "KP_Multiply"@[9] == 'l' && "KP_Multiply"@[10] == 'y',
        "KP_Add"@.len() == 6 && "KP_Add"@[0] == 'K' && "KP_Add"@[1] == 'P' && "KP_Add"@[2] == '_' && "KP_Add"@[3] == 'A' && "KP_Add"@[4] == 'd' && "KP_Add"@[5] == 'd',
        "KP_Divide"@.len() == 9 && "KP_Divide"@[0] == 'K' && "KP_Divide"@[1] == 'P' && "KP_Divide"@[2] == '_' && "KP_Divide"@[3] == 'D' && "KP_Divide"@[4] == 'i' && "KP_Divide"@[5] == 'v' && "KP_Divide"@[6] == 'i' && "KP_Divide"@[7] == 'd' && "KP_Divide"@[8] == 'e',
        "KP_Enter"@.len() == 8 && "KP_Enter"@[0] == 'K' && "KP_Enter"@[1] == 'P' && "KP_Enter"@[2] == '_' && "KP_Enter"@[3] == 'E' && "KP_Enter"@[4] == 'n' && "KP_Enter"@[5] == 't' && "KP_Enter"@[6] == 'e' && "KP_Enter"@[7] == 'r',
        "KP_Subtract"@.len() == 11 && "KP_Subtract"@[0] == 'K' && "KP_Subtract"@[1] == 'P' && "KP_Subtract"@[2] == '_' && "KP_Subtract"@[3] == 'S' && "KP_Subtract"@[4] == 'u' && "KP_Subtract"@[5] == 'b' && "KP_Subtract"@[6] == 't' && "KP_Subtract"@[7] == 'r' && "KP_Subtract"@[8] == 'a' && "KP_Subtract"@[9] == 'c' && "KP_Subtract"@[10] == 't',
        "NonUSBackslash"@.len() == 14 && "NonUSBackslash"@[0] == 'N' && "NonUSBackslash"@[1] == 'o' && "NonUSBackslash"@[2] == 'n' && "NonUSBackslash"@[3] == 'U' && "NonUSBackslash"@[4] == 'S' && "NonUSBackslash"@[5] == 'B' && "NonUSBackslash"@[6] == 'a' && "NonUSBackslash"@[7] == 'c' && "NonUSBackslash"@[8] == 'k' && "NonUSBackslash"@[9] == 's' && "NonUSBackslash"@[10] == 'l' && "NonUSBackslash"@[11] == 'a' && "NonUSBackslash"@[12] == 's' && "NonUSBackslash"@[13] == 'h',
{
    reveal_strlit("Right");
    reveal_strlit("PgUp");
    reveal_strlit("PgDn");
    reveal_strlit("Number1");
    reveal_strlit("Number2");
    reveal_strlit("Number3");
    reveal_strlit("Number4");
    reveal_strlit("Number5");
    reveal_strlit("Number6");
    reveal_strlit("Number7");
    reveal_strlit("Number8");
    reveal_strlit("Number9");
    reveal_strlit("Number0");
    reveal_strlit("KP_Multiply");
    reveal_strlit("KP_Add");
    reveal_strlit("KP_Divide");
    reveal_strlit("KP_Enter");
    reveal_strlit("KP_Subtract");
    reveal_strlit("NonUSBackslash");
}


/// Every key's name parses back to the key.
pub proof fn lemma_try_from_str_inverts_as_str(k: Key)
    ensures
        Key::spec_try_from_str(k.spec_name()) == Some(k),
{
    lemma_key_name_literals_1();
    lemma_key_name_literals_2();
    lemma_key_name_literals_3();
    lemma_key_name_literals_4();
    lemma_key_name_literals_5();
    lemma_key_name_literals_6();
    lemma_key_name_literals_7();
}

/// Native codes identify keys: converting a key to its code and back gives
/// the key, and a code that converts to a key is that key's code.
pub proof fn lemma_from_native_inverts_as_native(k: Key, code: u16)
    ensures
        Key::spec_from_native(k.spec_native()) == Some(k),
        Key::spec_from_native(code) matches Some(k2) ==> k2.spec_native() == code,
{
}

/// Each position of the key list holds the key with that index.
proof fn lemma_key_at_index(i: int)
    requires
        0 <= i < KEY_COUNT,
    ensures
        Key::spec_key_at(i).spec_index() == i,
{
}

/// The key list holds every key exactly once, at its own position.
pub proof fn lemma_all_lists_every_key(k: Key)
    ensures
        Key::spec_all().len() == KEY_COUNT,
        0 <= k.spec_index() < KEY_COUNT,
        Key::spec_all()[k.spec_index()] == k,
        forall|i: int| 0 <= i < KEY_COUNT ==> (#[trigger] Key::spec_all()[i]).spec_index() == i,
        forall|i: int, j: int|
            0 <= i < j < KEY_COUNT ==> Key::spec_all()[i] != Key::spec_all()[j],
{
    assert forall|i: int| 0 <= i < KEY_COUNT implies (#[trigger] Key::spec_all()[i]).spec_index() == i by {
        lemma_key_at_index(i);
    }
    assert forall|i: int, j: int|
        0 <= i < j < KEY_COUNT implies Key::spec_all()[i] != Key::spec_all()[j] by {
        lemma_key_at_index(i);
        lemma_key_at_index(j);
    }
}

/// A modifier key's own bit is one of its group's positions, every position
/// is below 8, and exactly the modifier keys have a bit.
pub proof fn lemma_modifier_bit_in_positions(k: Key)
    ensures
        k.spec_modifier_bit().is_some() == k.spec_modifier_positions().is_some(),
        k.spec_modifier_bit() matches Some(b) ==> b < 8 && k.spec_modifier_positions()->0.contains(b),
        k.spec_modifier_positions() matches Some(ps) ==> ps.len() == 2 && ps[0] < 8 && ps[1] < 8,
{
    match k {
        Key::LeftControl | Key::RightControl => {
            assert(seq![0u8, 1u8][0] == 0u8 && seq![0u8, 1u8][1] == 1u8);
        },
        Key::LeftShift | Key::RightShift => {
            assert(seq![2u8, 3u8][0] == 2u8 && seq![2u8, 3u8][1] == 3u8);
        },
        Key::LeftAlt | Key::RightAlt => {
            assert(seq![4u8, 5u8][0] == 4u8 && seq![4u8, 5u8][1] == 5u8);
        },
        Key::LeftCommand | Key::RightCommand => {
            assert(seq![6u8, 7u8][0] == 6u8 && seq![6u8, 7u8][1] == 7u8);
        },
        _ => {},
    }
}

// ---------------------------------------------------------------------------
// Event tap decisions
// ---------------------------------------------------------------------------

/// Decide what the event tap does with one key event: modifier keys update
/// the tracked modifier mask and pass through; any other key is looked up
/// with the tracked mask among the rules of the foreground application (its
/// name lower-cased, as the compiled rules are filed) and the global rules,
/// groups in definition order (`resolve_outputs`).  A match swallows the
/// event and, on key-down, emits the rule's outputs, each as a chord
/// (`crate::os::macos::chord_sequence`); no match lets the event through.
/// Returns the new mask and the action.
pub fn tap_decision(state: &RuntimeState, modifier_state: u8, keycode: u16, is_down: bool) -> (r: (u8, TapAction))
    ensures
        spec_keycode_bit(keycode) matches Some(b) ==> r.0 == track_modifier(modifier_state, b, is_down)
            && r.1 is PassThrough,
        spec_keycode_bit(keycode) is None ==> r.0 == modifier_state,
        spec_keycode_bit(keycode) is None ==> (r.1 is Suppress <==> spec_resolve(
            state@.0,
            to_lower(state@.1),
            keycode,
            modifier_state,
        ) is Some),
        spec_keycode_bit(keycode) is None ==> (r.1 matches TapAction::Suppress(out) ==> out@ == (
        if is_down {
            spec_resolve(state@.0, to_lower(state@.1), keycode, modifier_state)->0
        } else {
            Seq::empty()
        })),
{
    match keycode_to_modifier_bit(keycode) {
        Some(bit) => {
            let next = if is_down {
                modifier_state | (1u8 << bit)
            } else {
                modifier_state & !(1u8 << bit)
            };
            (next, TapAction::PassThrough)
        },
        None => {
            let app = str_to_lowercase(state.active_app());
            match resolve_outputs(state, app.as_str(), keycode, modifier_state) {
                Some(outputs) => {
                    if is_down {
                        (modifier_state, TapAction::Suppress(outputs))
                    } else {
                        (modifier_state, TapAction::Suppress(Vec::new()))
                    }
                },
                None => (modifier_state, TapAction::PassThrough),
            }
        },
    }
}

} // verus!

