//! Windows virtual-key codes (`VK_*` values of `<WinUser.h>`).
use vstd::prelude::*;

use crate::daemon::state::NativeAction;
use crate::text::str_eq;

verus! {

broadcast use vstd::string::group_string_axioms;

/// Windows virtual-key code for a physical key on a US ANSI keyboard.
///
/// The native code of each key is the `VK_*` constant of the same key.
#[derive(Debug, Clone, Copy, PartialEq, Eq, Hash, Structural)]
pub enum Key {
    LeftControl,
    RightControl,
    LeftShift,
    RightShift,
    LeftAlt,
    RightAlt,
    LeftCommand,
    RightCommand,
    CapsLock,
    Tab,
    Space,
    Return,
    Backspace,
    Delete,
    Escape,
    UpArrow,
    DownArrow,
    LeftArrow,
    RightArrow,
    PageUp,
    PageDown,
    Home,
    End,
    F1,
    F2,
    F3,
    F4,
    F5,
    F6,
    F7,
    F8,
    F9,
    F10,
    F11,
    F12,
    A,
    B,
    C,
    D,
    E,
    F,
    G,
    H,
    I,
    J,
    K,
    L,
    M,
    N,
    O,
    P,
    Q,
    R,
    S,
    T,
    U,
    V,
    W,
    X,
    Y,
    Z,
    Number1,
    Number2,
    Number3,
    Number4,
    Number5,
    Number6,
    Number7,
    Number8,
    Number9,
    Number0,
}

impl Key {
    /// The native key code of this key.
    pub open spec fn spec_native(self) -> u16 {
        match self {
            Key::LeftControl => 162u16,
            Key::RightControl => 163u16,
            Key::LeftShift => 160u16,
            Key::RightShift => 161u16,
            Key::LeftAlt => 164u16,
            Key::RightAlt => 165u16,
            Key::LeftCommand => 91u16,
            Key::RightCommand => 92u16,
            Key::CapsLock => 20u16,
            Key::Tab => 9u16,
            Key::Space => 32u16,
            Key::Return => 13u16,
            Key::Backspace => 8u16,
            Key::Delete => 46u16,
            Key::Escape => 27u16,
            Key::UpArrow => 38u16,
            Key::DownArrow => 40u16,
            Key::LeftArrow => 37u16,
            Key::RightArrow => 39u16,
            Key::PageUp => 33u16,
            Key::PageDown => 34u16,
            Key::Home => 36u16,
            Key::End => 35u16,
            Key::F1 => 112u16,
            Key::F2 => 113u16,
            Key::F3 => 114u16,
            Key::F4 => 115u16,
            Key::F5 => 116u16,
            Key::F6 => 117u16,
            Key::F7 => 118u16,
            Key::F8 => 119u16,
            Key::F9 => 120u16,
            Key::F10 => 121u16,
            Key::F11 => 122u16,
            Key::F12 => 123u16,
            Key::A => 65u16,
            Key::B => 66u16,
            Key::C => 67u16,
            Key::D => 68u16,
            Key::E => 69u16,
            Key::F => 70u16,
            Key::G => 71u16,
            Key::H => 72u16,
            Key::I => 73u16,
            Key::J => 74u16,
            Key::K => 75u16,
            Key::L => 76u16,
            Key::M => 77u16,
            Key::N => 78u16,
            Key::O => 79u16,
            Key::P => 80u16,
            Key::Q => 81u16,
            Key::R => 82u16,
            Key::S => 83u16,
            Key::T => 84u16,
            Key::U => 85u16,
            Key::V => 86u16,
            Key::W => 87u16,
            Key::X => 88u16,
            Key::Y => 89u16,
            Key::Z => 90u16,
            Key::Number1 => 49u16,
            Key::Number2 => 50u16,
            Key::Number3 => 51u16,
            Key::Number4 => 52u16,
            Key::Number5 => 53u16,
            Key::Number6 => 54u16,
            Key::Number7 => 55u16,
            Key::Number8 => 56u16,
            Key::Number9 => 57u16,
            Key::Number0 => 48u16,
        }
    }

    /// The canonical config-name of this key.
    pub open spec fn spec_name(self) -> Seq<char> {
        match self {
            Key::LeftControl => "leftcontrol"@,
            Key::RightControl => "rightcontrol"@,
            Key::LeftShift => "leftshift"@,
            Key::RightShift => "rightshift"@,
            Key::LeftAlt => "leftalt"@,
            Key::RightAlt => "rightalt"@,
            Key::LeftCommand => "leftcommand"@,
            Key::RightCommand => "rightcommand"@,
            Key::CapsLock => "capslock"@,
            Key::Tab => "tab"@,
            Key::Space => "space"@,
            Key::Return => "return"@,
            Key::Backspace => "backspace"@,
            Key::Delete => "delete"@,
            Key::Escape => "escape"@,
            Key::UpArrow => "uparrow"@,
            Key::DownArrow => "downarrow"@,
            Key::LeftArrow => "leftarrow"@,
            Key::RightArrow => "rightarrow"@,
            Key::PageUp => "pageup"@,
            Key::PageDown => "pagedown"@,
            Key::Home => "home"@,
            Key::End => "end"@,
            Key::F1 => "f1"@,
            Key::F2 => "f2"@,
            Key::F3 => "f3"@,
            Key::F4 => "f4"@,
            Key::F5 => "f5"@,
            Key::F6 => "f6"@,
            Key::F7 => "f7"@,
            Key::F8 => "f8"@,
            Key::F9 => "f9"@,
            Key::F10 => "f10"@,
            Key::F11 => "f11"@,
            Key::F12 => "f12"@,
            Key::A => "a"@,
            Key::B => "b"@,
            Key::C => "c"@,
            Key::D => "d"@,
            Key::E => "e"@,
            Key::F => "f"@,
            Key::G => "g"@,
            Key::H => "h"@,
            Key::I => "i"@,
            Key::J => "j"@,
            Key::K => "k"@,
            Key::L => "l"@,
            Key::M => "m"@,
            Key::N => "n"@,
            Key::O => "o"@,
            Key::P => "p"@,
            Key::Q => "q"@,
            Key::R => "r"@,
            Key::S => "s"@,
            Key::T => "t"@,
            Key::U => "u"@,
            Key::V => "v"@,
            Key::W => "w"@,
            Key::X => "x"@,
            Key::Y => "y"@,
            Key::Z => "z"@,
            Key::Number1 => "1"@,
            Key::Number2 => "2"@,
            Key::Number3 => "3"@,
            Key::Number4 => "4"@,
            Key::Number5 => "5"@,
            Key::Number6 => "6"@,
            Key::Number7 => "7"@,
            Key::Number8 => "8"@,
            Key::Number9 => "9"@,
            Key::Number0 => "0"@,
        }
    }

    /// Convert to the native VIRTUAL_KEY.
    pub fn as_native(self) -> (r: u16)
        ensures
            r == self.spec_native(),
    {
        match self {
            Key::LeftControl => 162,
            Key::RightControl => 163,
            Key::LeftShift => 160,
            Key::RightShift => 161,
            Key::LeftAlt => 164,
            Key::RightAlt => 165,
            Key::LeftCommand => 91,
            Key::RightCommand => 92,
            Key::CapsLock => 20,
            Key::Tab => 9,
            Key::Space => 32,
            Key::Return => 13,
            Key::Backspace => 8,
            Key::Delete => 46,
            Key::Escape => 27,
            Key::UpArrow => 38,
            Key::DownArrow => 40,
            Key::LeftArrow => 37,
            Key::RightArrow => 39,
            Key::PageUp => 33,
            Key::PageDown => 34,
            Key::Home => 36,
            Key::End => 35,
            Key::F1 => 112,
            Key::F2 => 113,
            Key::F3 => 114,
            Key::F4 => 115,
            Key::F5 => 116,
            Key::F6 => 117,
            Key::F7 => 118,
            Key::F8 => 119,
            Key::F9 => 120,
            Key::F10 => 121,
            Key::F11 => 122,
            Key::F12 => 123,
            Key::A => 65,
            Key::B => 66,
            Key::C => 67,
            Key::D => 68,
            Key::E => 69,
            Key::F => 70,
            Key::G => 71,
            Key::H => 72,
            Key::I => 73,
            Key::J => 74,
            Key::K => 75,
            Key::L => 76,
            Key::M => 77,
            Key::N => 78,
            Key::O => 79,
            Key::P => 80,
            Key::Q => 81,
            Key::R => 82,
            Key::S => 83,
            Key::T => 84,
            Key::U => 85,
            Key::V => 86,
            Key::W => 87,
            Key::X => 88,
            Key::Y => 89,
            Key::Z => 90,
            Key::Number1 => 49,
            Key::Number2 => 50,
            Key::Number3 => 51,
            Key::Number4 => 52,
            Key::Number5 => 53,
            Key::Number6 => 54,
            Key::Number7 => 55,
            Key::Number8 => 56,
            Key::Number9 => 57,
            Key::Number0 => 48,
        }
    }

    /// Return the canonical config-name for this key.
    pub fn as_str(self) -> (r: &'static str)
        ensures
            r@ == self.spec_name(),
    {
        match self {
            Key::LeftControl => "leftcontrol",
            Key::RightControl => "rightcontrol",
            Key::LeftShift => "leftshift",
            Key::RightShift => "rightshift",
            Key::LeftAlt => "leftalt",
            Key::RightAlt => "rightalt",
            Key::LeftCommand => "leftcommand",
            Key::RightCommand => "rightcommand",
            Key::CapsLock => "capslock",
            Key::Tab => "tab",
            Key::Space => "space",
            Key::Return => "return",
            Key::Backspace => "backspace",
            Key::Delete => "delete",
            Key::Escape => "escape",
            Key::UpArrow => "uparrow",
            Key::DownArrow => "downarrow",
            Key::LeftArrow => "leftarrow",
            Key::RightArrow => "rightarrow",
            Key::PageUp => "pageup",
            Key::PageDown => "pagedown",
            Key::Home => "home",
            Key::End => "end",
            Key::F1 => "f1",
            Key::F2 => "f2",
            Key::F3 => "f3",
            Key::F4 => "f4",
            Key::F5 => "f5",
            Key::F6 => "f6",
            Key::F7 => "f7",
            Key::F8 => "f8",
            Key::F9 => "f9",
            Key::F10 => "f10",
            Key::F11 => "f11",
            Key::F12 => "f12",
            Key::A => "a",
            Key::B => "b",
            Key::C => "c",
            Key::D => "d",
            Key::E => "e",
            Key::F => "f",
            Key::G => "g",
            Key::H => "h",
            Key::I => "i",
            Key::J => "j",
            Key::K => "k",
            Key::L => "l",
            Key::M => "m",
            Key::N => "n",
            Key::O => "o",
            Key::P => "p",
            Key::Q => "q",
            Key::R => "r",
            Key::S => "s",
            Key::T => "t",
            Key::U => "u",
            Key::V => "v",
            Key::W => "w",
            Key::X => "x",
            Key::Y => "y",
            Key::Z => "z",
            Key::Number1 => "1",
            Key::Number2 => "2",
            Key::Number3 => "3",
            Key::Number4 => "4",
            Key::Number5 => "5",
            Key::Number6 => "6",
            Key::Number7 => "7",
            Key::Number8 => "8",
            Key::Number9 => "9",
            Key::Number0 => "0",
        }
    }

    /// The key whose canonical name (or number alias) is `name`.
    pub open spec fn spec_from_canonical(name: Seq<char>) -> Option<Key> {
        if name == "leftcontrol"@ {
            Some(Key::LeftControl)
        } else if name == "rightcontrol"@ {
            Some(Key::RightControl)
        } else if name == "leftshift"@ {
            Some(Key::LeftShift)
        } else if name == "rightshift"@ {
            Some(Key::RightShift)
        } else if name == "leftalt"@ {
            Some(Key::LeftAlt)
        } else if name == "rightalt"@ {
            Some(Key::RightAlt)
        } else if name == "leftcommand"@ {
            Some(Key::LeftCommand)
        } else if name == "rightcommand"@ {
            Some(Key::RightCommand)
        } else if name == "capslock"@ {
            Some(Key::CapsLock)
        } else if name == "tab"@ {
            Some(Key::Tab)
        } else if name == "space"@ {
            Some(Key::Space)
        } else if name == "return"@ {
            Some(Key::Return)
        } else if name == "backspace"@ {
            Some(Key::Backspace)
        } else if name == "delete"@ {
            Some(Key::Delete)
        } else if name == "escape"@ {
            Some(Key::Escape)
        } else if name == "uparrow"@ {
            Some(Key::UpArrow)
        } else if name == "downarrow"@ {
            Some(Key::DownArrow)
        } else if name == "leftarrow"@ {
            Some(Key::LeftArrow)
        } else if name == "rightarrow"@ {
            Some(Key::RightArrow)
        } else if name == "pageup"@ {
            Some(Key::PageUp)
        } else if name == "pagedown"@ {
            Some(Key::PageDown)
        } else if name == "home"@ {
            Some(Key::Home)
        } else if name == "end"@ {
            Some(Key::End)
        } else if name == "f1"@ {
            Some(Key::F1)
        } else if name == "f2"@ {
            Some(Key::F2)
        } else if name == "f3"@ {
            Some(Key::F3)
        } else if name == "f4"@ {
            Some(Key::F4)
        } else if name == "f5"@ {
            Some(Key::F5)
        } else if name == "f6"@ {
            Some(Key::F6)
        } else if name == "f7"@ {
            Some(Key::F7)
        } else if name == "f8"@ {
            Some(Key::F8)
        } else if name == "f9"@ {
            Some(Key::F9)
        } else if name == "f10"@ {
            Some(Key::F10)
        } else if name == "f11"@ {
            Some(Key::F11)
        } else if name == "f12"@ {
            Some(Key::F12)
        } else if name == "a"@ {
            Some(Key::A)
        } else if name == "b"@ {
            Some(Key::B)
        } else if name == "c"@ {
            Some(Key::C)
        } else if name == "d"@ {
            Some(Key::D)
        } else if name == "e"@ {
            Some(Key::E)
        } else if name == "f"@ {
            Some(Key::F)
        } else if name == "g"@ {
            Some(Key::G)
        } else if name == "h"@ {
            Some(Key::H)
        } else if name == "i"@ {
            Some(Key::I)
        } else if name == "j"@ {
            Some(Key::J)
        } else if name == "k"@ {
            Some(Key::K)
        } else if name == "l"@ {
            Some(Key::L)
        } else if name == "m"@ {
            Some(Key::M)
        } else if name == "n"@ {
            Some(Key::N)
        } else if name == "o"@ {
            Some(Key::O)
        } else if name == "p"@ {
            Some(Key::P)
        } else if name == "q"@ {
            Some(Key::Q)
        } else if name == "r"@ {
            Some(Key::R)
        } else if name == "s"@ {
            Some(Key::S)
        } else if name == "t"@ {
            Some(Key::T)
        } else if name == "u"@ {
            Some(Key::U)
        } else if name == "v"@ {
            Some(Key::V)
        } else if name == "w"@ {
            Some(Key::W)
        } else if name == "x"@ {
            Some(Key::X)
        } else if name == "y"@ {
            Some(Key::Y)
        } else if name == "z"@ {
            Some(Key::Z)
        } else if name == "1"@ || name == "number1"@ {
            Some(Key::Number1)
        } else if name == "2"@ || name == "number2"@ {
            Some(Key::Number2)
        } else if name == "3"@ || name == "number3"@ {
            Some(Key::Number3)
        } else if name == "4"@ || name == "number4"@ {
            Some(Key::Number4)
        } else if name == "5"@ || name == "number5"@ {
            Some(Key::Number5)
        } else if name == "6"@ || name == "number6"@ {
            Some(Key::Number6)
        } else if name == "7"@ || name == "number7"@ {
            Some(Key::Number7)
        } else if name == "8"@ || name == "number8"@ {
            Some(Key::Number8)
        } else if name == "9"@ || name == "number9"@ {
            Some(Key::Number9)
        } else if name == "0"@ || name == "number0"@ {
            Some(Key::Number0)
        } else {
            None
        }
    }

    /// Parse a canonical name into a Key variant.
    pub fn from_canonical(name: &str) -> (r: Option<Key>)
        ensures
            r == Key::spec_from_canonical(name@),
    {
        if str_eq(name, "leftcontrol") {
            Some(Key::LeftControl)
        } else if str_eq(name, "rightcontrol") {
            Some(Key::RightControl)
        } else if str_eq(name, "leftshift") {
            Some(Key::LeftShift)
        } else if str_eq(name, "rightshift") {
            Some(Key::RightShift)
        } else if str_eq(name, "leftalt") {
            Some(Key::LeftAlt)
        } else if str_eq(name, "rightalt") {
            Some(Key::RightAlt)
        } else if str_eq(name, "leftcommand") {
            Some(Key::LeftCommand)
        } else if str_eq(name, "rightcommand") {
            Some(Key::RightCommand)
        } else if str_eq(name, "capslock") {
            Some(Key::CapsLock)
        } else if str_eq(name, "tab") {
            Some(Key::Tab)
        } else if str_eq(name, "space") {
            Some(Key::Space)
        } else if str_eq(name, "return") {
            Some(Key::Return)
        } else if str_eq(name, "backspace") {
            Some(Key::Backspace)
        } else if str_eq(name, "delete") {
            Some(Key::Delete)
        } else if str_eq(name, "escape") {
            Some(Key::Escape)
        } else if str_eq(name, "uparrow") {
            Some(Key::UpArrow)
        } else if str_eq(name, "downarrow") {
            Some(Key::DownArrow)
        } else if str_eq(name, "leftarrow") {
            Some(Key::LeftArrow)
        } else if str_eq(name, "rightarrow") {
            Some(Key::RightArrow)
        } else if str_eq(name, "pageup") {
            Some(Key::PageUp)
        } else if str_eq(name, "pagedown") {
            Some(Key::PageDown)
        } else if str_eq(name, "home") {
            Some(Key::Home)
        } else if str_eq(name, "end") {
            Some(Key::End)
        } else if str_eq(name, "f1") {
            Some(Key::F1)
        } else if str_eq(name, "f2") {
            Some(Key::F2)
        } else if str_eq(name, "f3") {
            Some(Key::F3)
        } else if str_eq(name, "f4") {
            Some(Key::F4)
        } else if str_eq(name, "f5") {
            Some(Key::F5)
        } else if str_eq(name, "f6") {
            Some(Key::F6)
        } else if str_eq(name, "f7") {
            Some(Key::F7)
        } else if str_eq(name, "f8") {
            Some(Key::F8)
        } else if str_eq(name, "f9") {
            Some(Key::F9)
        } else if str_eq(name, "f10") {
            Some(Key::F10)
        } else if str_eq(name, "f11") {
            Some(Key::F11)
        } else if str_eq(name, "f12") {
            Some(Key::F12)
        } else if str_eq(name, "a") {
            Some(Key::A)
        } else if str_eq(name, "b") {
            Some(Key::B)
        } else if str_eq(name, "c") {
            Some(Key::C)
        } else if str_eq(name, "d") {
            Some(Key::D)
        } else if str_eq(name, "e") {
            Some(Key::E)
        } else if str_eq(name, "f") {
            Some(Key::F)
        } else if str_eq(name, "g") {
            Some(Key::G)
        } else if str_eq(name, "h") {
            Some(Key::H)
        } else if str_eq(name, "i") {
            Some(Key::I)
        } else if str_eq(name, "j") {
            Some(Key::J)
        } else if str_eq(name, "k") {
            Some(Key::K)
        } else if str_eq(name, "l") {
            Some(Key::L)
        } else if str_eq(name, "m") {
            Some(Key::M)
        } else if str_eq(name, "n") {
            Some(Key::N)
        } else if str_eq(name, "o") {
            Some(Key::O)
        } else if str_eq(name, "p") {
            Some(Key::P)
        } else if str_eq(name, "q") {
            Some(Key::Q)
        } else if str_eq(name, "r") {
            Some(Key::R)
        } else if str_eq(name, "s") {
            Some(Key::S)
        } else if str_eq(name, "t") {
            Some(Key::T)
        } else if str_eq(name, "u") {
            Some(Key::U)
        } else if str_eq(name, "v") {
            Some(Key::V)
        } else if str_eq(name, "w") {
            Some(Key::W)
        } else if str_eq(name, "x") {
            Some(Key::X)
        } else if str_eq(name, "y") {
            Some(Key::Y)
        } else if str_eq(name, "z") {
            Some(Key::Z)
        } else if str_eq(name, "1") || str_eq(name, "number1") {
            Some(Key::Number1)
        } else if str_eq(name, "2") || str_eq(name, "number2") {
            Some(Key::Number2)
        } else if str_eq(name, "3") || str_eq(name, "number3") {
            Some(Key::Number3)
        } else if str_eq(name, "4") || str_eq(name, "number4") {
            Some(Key::Number4)
        } else if str_eq(name, "5") || str_eq(name, "number5") {
            Some(Key::Number5)
        } else if str_eq(name, "6") || str_eq(name, "number6") {
            Some(Key::Number6)
        } else if str_eq(name, "7") || str_eq(name, "number7") {
            Some(Key::Number7)
        } else if str_eq(name, "8") || str_eq(name, "number8") {
            Some(Key::Number8)
        } else if str_eq(name, "9") || str_eq(name, "number9") {
            Some(Key::Number9)
        } else if str_eq(name, "0") || str_eq(name, "number0") {
            Some(Key::Number0)
        } else {
            None
        }
    }

}

/// Every key's canonical name parses back to the key.
pub proof fn lemma_from_canonical_inverts_as_str(k: Key)
    ensures
        Key::spec_from_canonical(k.spec_name()) == Some(k),
{
    crate::os::macos::lemma_key_name_literals_1();
    crate::os::macos::lemma_key_name_literals_2();
    crate::os::macos::lemma_key_name_literals_3();
    crate::os::macos::lemma_key_name_literals_4();
    crate::os::macos::lemma_key_name_literals_5();
}



// ---------------------------------------------------------------------------
// Low-level keyboard hook decisions
// ---------------------------------------------------------------------------

/// `KEYEVENTF_EXTENDEDKEY`: the scan code is preceded by 0xE0.
pub const KEYEVENTF_EXTENDEDKEY: u32 = 0x0001;

/// `KEYEVENTF_KEYUP`: the key is being released.
pub const KEYEVENTF_KEYUP: u32 = 0x0002;

/// The virtual keys whose scan code is prefixed with 0xE0: the right-side
/// control and alt keys, page up/down, end, home, the arrow keys, insert
/// and delete.
pub open spec fn spec_is_extended_key(vk: u16) -> bool {
    vk == 0xA3 || vk == 0xA5 || vk == 0x21 || vk == 0x22 || vk == 0x23 || vk == 0x24 || (0x25 <= vk
        && vk <= 0x28) || vk == 0x2D || vk == 0x2E
}

/// Return true when the given virtual-key code corresponds to an extended
/// hardware key (scan-code prefixed with 0xE0).  These include the right-side
/// modifiers, navigation cluster (arrows / Home / End / Ins / Del / PgUp /
/// PgDown).
pub fn is_extended_key(vk: u16) -> (r: bool)
    ensures
        r == spec_is_extended_key(vk),
{
    vk == 0xA3 || vk == 0xA5 || vk == 0x21 || vk == 0x22 || vk == 0x23 || vk == 0x24 || (0x25 <= vk
        && vk <= 0x28) || vk == 0x2D || vk == 0x2E
}

/// The `dwFlags` of a synthetic keyboard input for `vk`.
pub open spec fn spec_key_flags(vk: u16, is_key_up: bool) -> u32 {
    (if is_key_up {
        KEYEVENTF_KEYUP
    } else {
        0u32
    }) | (if spec_is_extended_key(vk) {
        KEYEVENTF_EXTENDEDKEY
    } else {
        0u32
    })
}

/// The `dwFlags` of the synthetic keyboard input that presses or releases
/// `vk`: key-up when releasing, extended-key for the keys of the extended
/// cluster.
pub fn key_input_flags(vk: u16, is_key_up: bool) -> (r: u32)
    ensures
        r == spec_key_flags(vk, is_key_up),
{
    let mut flags: u32 = if is_key_up {
        KEYEVENTF_KEYUP
    } else {
        0
    };
    if is_extended_key(vk) {
        flags = flags | KEYEVENTF_EXTENDEDKEY;
    } else {
        assert(flags | 0u32 == flags) by (bit_vector);
    }
    flags
}

/// The synthetic inputs (virtual key, key-up) for one hooked key event: a
/// remap sends the target key in the direction of the hooked event; a
/// shortcut presses its keys in order on key-down and releases them in
/// reverse order on key-up.
pub open spec fn spec_hook_inputs(action: NativeAction, is_key_down: bool, is_key_up: bool) -> Seq<(u16, bool)> {
    match action {
        NativeAction::RemapTo(target) => seq![(target, is_key_up)],
        NativeAction::Shortcut(targets) => if is_key_down {
            targets@.map_values(|t: u16| (t, false))
        } else if is_key_up {
            targets@.reverse().map_values(|t: u16| (t, true))
        } else {
            Seq::empty()
        },
    }
}

/// The synthetic inputs to send for a hooked key event whose lookup found
/// `action`.
pub fn hook_inputs(action: &NativeAction, is_key_down: bool, is_key_up: bool) -> (r: Vec<(u16, bool)>)
    ensures
        r@ == spec_hook_inputs(*action, is_key_down, is_key_up),
{
    match action {
        NativeAction::RemapTo(target) => {
            let r = vec![(*target, is_key_up)];
            assert(r@ =~= seq![(*target, is_key_up)]);
            r
        },
        NativeAction::Shortcut(targets) => {
            let mut out: Vec<(u16, bool)> = Vec::new();
            if is_key_down {
                let mut i: usize = 0;
                while i < targets.len()
                    invariant
                        i <= targets@.len(),
                        out@ == targets@.take(i as int).map_values(|t: u16| (t, false)),
                    decreases targets@.len() - i,
                {
                    out.push((targets[i], false));
                    assert(targets@.take(i as int + 1).map_values(|t: u16| (t, false)) =~= targets@.take(
                        i as int,
                    ).map_values(|t: u16| (t, false)).push((targets@[i as int], false)));
                    i = i + 1;
                }
                assert(targets@.take(targets@.len() as int) =~= targets@);
            } else if is_key_up {
                let mut i: usize = targets.len();
                while i > 0
                    invariant
                        i <= targets@.len(),
                        out@ == targets@.subrange(i as int, targets@.len() as int).reverse().map_values(
                            |t: u16| (t, true),
                        ),
                    decreases i,
                {
                    i = i - 1;
                    out.push((targets[i], true));
                    assert(targets@.subrange(i as int, targets@.len() as int).reverse() =~= targets@.subrange(
                        i as int + 1,
                        targets@.len() as int,
                    ).reverse().push(targets@[i as int]));
                    assert(targets@.subrange(i as int, targets@.len() as int).reverse().map_values(
                        |t: u16| (t, true),
                    ) =~= targets@.subrange(i as int + 1, targets@.len() as int).reverse().map_values(
                        |t: u16| (t, true),
                    ).push((targets@[i as int], true)));
                }
                assert(targets@.subrange(0, targets@.len() as int) =~= targets@);
            } else {
                assert(out@ =~= Seq::<(u16, bool)>::empty());
            }
            out
        },
    }
}

/// The modifier keys of the probe: both control, shift, alt (menu) and
/// windows keys.
pub open spec fn spec_is_modifier_vk(vk: u16) -> bool {
    vk == 0xA2 || vk == 0xA3 || vk == 0xA0 || vk == 0xA1 || vk == 0xA4 || vk == 0xA5 || vk == 0x5B
        || vk == 0x5C
}

/// Check whether a virtual-key code corresponds to a modifier key.
pub fn is_modifier(vk: u16) -> (r: bool)
    ensures
        r == spec_is_modifier_vk(vk),
{
    vk == 0xA2 || vk == 0xA3 || vk == 0xA0 || vk == 0xA1 || vk == 0xA4 || vk == 0xA5 || vk == 0x5B
        || vk == 0x5C
}

/// The modifier virtual keys are exactly the native codes of the modifier
/// keys of the table.
pub proof fn lemma_modifier_vks(k: Key)
    ensures
        spec_is_modifier_vk(k.spec_native()) <==> (k == Key::LeftControl || k == Key::RightControl
            || k == Key::LeftShift || k == Key::RightShift || k == Key::LeftAlt || k == Key::RightAlt
            || k == Key::LeftCommand || k == Key::RightCommand),
{
}

} // verus!
