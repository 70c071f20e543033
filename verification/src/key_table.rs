//! The platforms and their key tables.
//!
//! The configuration names keys by the variants of the macOS table.  The
//! Linux and Windows tables have the same variants under the same names and
//! read the same names (see `law_tables_share_names` and
//! `law_tables_read_alike`), so a configuration reads the same on every
//! platform; only the native code a key compiles to depends on the
//! platform.
use vstd::prelude::*;

use crate::os::macos::Key;
use crate::os::{linux, windows};
use crate::platform::macos::Key as TitleKey;

verus! {

/// The platform whose native key codes rules are compiled to.
#[derive(Debug, Clone, Copy, PartialEq, Eq, Structural)]
pub enum Platform {
    /// Linux: evdev key codes.
    Linux,
    /// macOS: virtual key codes (`kVK_*`).
    MacOs,
    /// Windows: virtual-key codes (`VK_*`).
    Windows,
}

/// The key of the Linux table that has the same variant as `k`.
pub open spec fn linux_key(k: Key) -> linux::Key {
    match k {
        Key::LeftControl => linux::Key::LeftControl,
        Key::RightControl => linux::Key::RightControl,
        Key::LeftShift => linux::Key::LeftShift,
        Key::RightShift => linux::Key::RightShift,
        Key::LeftAlt => linux::Key::LeftAlt,
        Key::RightAlt => linux::Key::RightAlt,
        Key::LeftCommand => linux::Key::LeftCommand,
        Key::RightCommand => linux::Key::RightCommand,
        Key::CapsLock => linux::Key::CapsLock,
        Key::Tab => linux::Key::Tab,
        Key::Space => linux::Key::Space,
        Key::Return => linux::Key::Return,
        Key::Backspace => linux::Key::Backspace,
        Key::Delete => linux::Key::Delete,
        Key::Escape => linux::Key::Escape,
        Key::UpArrow => linux::Key::UpArrow,
        Key::DownArrow => linux::Key::DownArrow,
        Key::LeftArrow => linux::Key::LeftArrow,
        Key::RightArrow => linux::Key::RightArrow,
        Key::PageUp => linux::Key::PageUp,
        Key::PageDown => linux::Key::PageDown,
        Key::Home => linux::Key::Home,
        Key::End => linux::Key::End,
        Key::F1 => linux::Key::F1,
        Key::F2 => linux::Key::F2,
        Key::F3 => linux::Key::F3,
        Key::F4 => linux::Key::F4,
        Key::F5 => linux::Key::F5,
        Key::F6 => linux::Key::F6,
        Key::F7 => linux::Key::F7,
        Key::F8 => linux::Key::F8,
        Key::F9 => linux::Key::F9,
        Key::F10 => linux::Key::F10,
        Key::F11 => linux::Key::F11,
        Key::F12 => linux::Key::F12,
        Key::A => linux::Key::A,
        Key::B => linux::Key::B,
        Key::C => linux::Key::C,
        Key::D => linux::Key::D,
        Key::E => linux::Key::E,
        Key::F => linux::Key::F,
        Key::G => linux::Key::G,
        Key::H => linux::Key::H,
        Key::I => linux::Key::I,
        Key::J => linux::Key::J,
        Key::K => linux::Key::K,
        Key::L => linux::Key::L,
        Key::M => linux::Key::M,
        Key::N => linux::Key::N,
        Key::O => linux::Key::O,
        Key::P => linux::Key::P,
        Key::Q => linux::Key::Q,
        Key::R => linux::Key::R,
        Key::S => linux::Key::S,
        Key::T => linux::Key::T,
        Key::U => linux::Key::U,
        Key::V => linux::Key::V,
        Key::W => linux::Key::W,
        Key::X => linux::Key::X,
        Key::Y => linux::Key::Y,
        Key::Z => linux::Key::Z,
        Key::Number1 => linux::Key::Number1,
        Key::Number2 => linux::Key::Number2,
        Key::Number3 => linux::Key::Number3,
        Key::Number4 => linux::Key::Number4,
        Key::Number5 => linux::Key::Number5,
        Key::Number6 => linux::Key::Number6,
        Key::Number7 => linux::Key::Number7,
        Key::Number8 => linux::Key::Number8,
        Key::Number9 => linux::Key::Number9,
        Key::Number0 => linux::Key::Number0,
    }
}

/// The key of the Windows table that has the same variant as `k`.
pub open spec fn windows_key(k: Key) -> windows::Key {
    match k {
        Key::LeftControl => windows::Key::LeftControl,
        Key::RightControl => windows::Key::RightControl,
        Key::LeftShift => windows::Key::LeftShift,
        Key::RightShift => windows::Key::RightShift,
        Key::LeftAlt => windows::Key::LeftAlt,
        Key::RightAlt => windows::Key::RightAlt,
        Key::LeftCommand => windows::Key::LeftCommand,
        Key::RightCommand => windows::Key::RightCommand,
        Key::CapsLock => windows::Key::CapsLock,
        Key::Tab => windows::Key::Tab,
        Key::Space => windows::Key::Space,
        Key::Return => windows::Key::Return,
        Key::Backspace => windows::Key::Backspace,
        Key::Delete => windows::Key::Delete,
        Key::Escape => windows::Key::Escape,
        Key::UpArrow => windows::Key::UpArrow,
        Key::DownArrow => windows::Key::DownArrow,
        Key::LeftArrow => windows::Key::LeftArrow,
        Key::RightArrow => windows::Key::RightArrow,
        Key::PageUp => windows::Key::PageUp,
        Key::PageDown => windows::Key::PageDown,
        Key::Home => windows::Key::Home,
        Key::End => windows::Key::End,
        Key::F1 => windows::Key::F1,
        Key::F2 => windows::Key::F2,
        Key::F3 => windows::Key::F3,
        Key::F4 => windows::Key::F4,
        Key::F5 => windows::Key::F5,
        Key::F6 => windows::Key::F6,
        Key::F7 => windows::Key::F7,
        Key::F8 => windows::Key::F8,
        Key::F9 => windows::Key::F9,
        Key::F10 => windows::Key::F10,
        Key::F11 => windows::Key::F11,
        Key::F12 => windows::Key::F12,
        Key::A => windows::Key::A,
        Key::B => windows::Key::B,
        Key::C => windows::Key::C,
        Key::D => windows::Key::D,
        Key::E => windows::Key::E,
        Key::F => windows::Key::F,
        Key::G => windows::Key::G,
        Key::H => windows::Key::H,
        Key::I => windows::Key::I,
        Key::J => windows::Key::J,
        Key::K => windows::Key::K,
        Key::L => windows::Key::L,
        Key::M => windows::Key::M,
        Key::N => windows::Key::N,
        Key::O => windows::Key::O,
        Key::P => windows::Key::P,
        Key::Q => windows::Key::Q,
        Key::R => windows::Key::R,
        Key::S => windows::Key::S,
        Key::T => windows::Key::T,
        Key::U => windows::Key::U,
        Key::V => windows::Key::V,
        Key::W => windows::Key::W,
        Key::X => windows::Key::X,
        Key::Y => windows::Key::Y,
        Key::Z => windows::Key::Z,
        Key::Number1 => windows::Key::Number1,
        Key::Number2 => windows::Key::Number2,
        Key::Number3 => windows::Key::Number3,
        Key::Number4 => windows::Key::Number4,
        Key::Number5 => windows::Key::Number5,
        Key::Number6 => windows::Key::Number6,
        Key::Number7 => windows::Key::Number7,
        Key::Number8 => windows::Key::Number8,
        Key::Number9 => windows::Key::Number9,
        Key::Number0 => windows::Key::Number0,
    }
}

/// The key of the title-case table with the same variant: the table of the
/// names keys are written with (`LeftControl`, `H`, `Return`).
pub open spec fn spec_title_key(k: Key) -> TitleKey {
    match k {
        Key::LeftControl => TitleKey::LeftControl,
        Key::RightControl => TitleKey::RightControl,
        Key::LeftShift => TitleKey::LeftShift,
        Key::RightShift => TitleKey::RightShift,
        Key::LeftAlt => TitleKey::LeftAlt,
        Key::RightAlt => TitleKey::RightAlt,
        Key::LeftCommand => TitleKey::LeftCommand,
        Key::RightCommand => TitleKey::RightCommand,
        Key::CapsLock => TitleKey::CapsLock,
        Key::Tab => TitleKey::Tab,
        Key::Space => TitleKey::Space,
        Key::Return => TitleKey::Return,
        Key::Backspace => TitleKey::Backspace,
        Key::Delete => TitleKey::Delete,
        Key::Escape => TitleKey::Escape,
        Key::UpArrow => TitleKey::UpArrow,
        Key::DownArrow => TitleKey::DownArrow,
        Key::LeftArrow => TitleKey::LeftArrow,
        Key::RightArrow => TitleKey::RightArrow,
        Key::PageUp => TitleKey::PageUp,
        Key::PageDown => TitleKey::PageDown,
        Key::Home => TitleKey::Home,
        Key::End => TitleKey::End,
        Key::F1 => TitleKey::F1,
        Key::F2 => TitleKey::F2,
        Key::F3 => TitleKey::F3,
        Key::F4 => TitleKey::F4,
        Key::F5 => TitleKey::F5,
        Key::F6 => TitleKey::F6,
        Key::F7 => TitleKey::F7,
        Key::F8 => TitleKey::F8,
        Key::F9 => TitleKey::F9,
        Key::F10 => TitleKey::F10,
        Key::F11 => TitleKey::F11,
        Key::F12 => TitleKey::F12,
        Key::A => TitleKey::A,
        Key::B => TitleKey::B,
        Key::C => TitleKey::C,
        Key::D => TitleKey::D,
        Key::E => TitleKey::E,
        Key::F => TitleKey::F,
        Key::G => TitleKey::G,
        Key::H => TitleKey::H,
        Key::I => TitleKey::I,
        Key::J => TitleKey::J,
        Key::K => TitleKey::K,
        Key::L => TitleKey::L,
        Key::M => TitleKey::M,
        Key::N => TitleKey::N,
        Key::O => TitleKey::O,
        Key::P => TitleKey::P,
        Key::Q => TitleKey::Q,
        Key::R => TitleKey::R,
        Key::S => TitleKey::S,
        Key::T => TitleKey::T,
        Key::U => TitleKey::U,
        Key::V => TitleKey::V,
        Key::W => TitleKey::W,
        Key::X => TitleKey::X,
        Key::Y => TitleKey::Y,
        Key::Z => TitleKey::Z,
        Key::Number1 => TitleKey::Number1,
        Key::Number2 => TitleKey::Number2,
        Key::Number3 => TitleKey::Number3,
        Key::Number4 => TitleKey::Number4,
        Key::Number5 => TitleKey::Number5,
        Key::Number6 => TitleKey::Number6,
        Key::Number7 => TitleKey::Number7,
        Key::Number8 => TitleKey::Number8,
        Key::Number9 => TitleKey::Number9,
        Key::Number0 => TitleKey::Number0,
    }
}

/// The key of the title-case table with the same name.
pub fn title_key(k: Key) -> (r: TitleKey)
    ensures
        r == spec_title_key(k),
{
    match k {
        Key::LeftControl => TitleKey::LeftControl,
        Key::RightControl => TitleKey::RightControl,
        Key::LeftShift => TitleKey::LeftShift,
        Key::RightShift => TitleKey::RightShift,
        Key::LeftAlt => TitleKey::LeftAlt,
        Key::RightAlt => TitleKey::RightAlt,
        Key::LeftCommand => TitleKey::LeftCommand,
        Key::RightCommand => TitleKey::RightCommand,
        Key::CapsLock => TitleKey::CapsLock,
        Key::Tab => TitleKey::Tab,
        Key::Space => TitleKey::Space,
        Key::Return => TitleKey::Return,
        Key::Backspace => TitleKey::Backspace,
        Key::Delete => TitleKey::Delete,
        Key::Escape => TitleKey::Escape,
        Key::UpArrow => TitleKey::UpArrow,
        Key::DownArrow => TitleKey::DownArrow,
        Key::LeftArrow => TitleKey::LeftArrow,
        Key::RightArrow => TitleKey::RightArrow,
        Key::PageUp => TitleKey::PageUp,
        Key::PageDown => TitleKey::PageDown,
        Key::Home => TitleKey::Home,
        Key::End => TitleKey::End,
        Key::F1 => TitleKey::F1,
        Key::F2 => TitleKey::F2,
        Key::F3 => TitleKey::F3,
        Key::F4 => TitleKey::F4,
        Key::F5 => TitleKey::F5,
        Key::F6 => TitleKey::F6,
        Key::F7 => TitleKey::F7,
        Key::F8 => TitleKey::F8,
        Key::F9 => TitleKey::F9,
        Key::F10 => TitleKey::F10,
        Key::F11 => TitleKey::F11,
        Key::F12 => TitleKey::F12,
        Key::A => TitleKey::A,
        Key::B => TitleKey::B,
        Key::C => TitleKey::C,
        Key::D => TitleKey::D,
        Key::E => TitleKey::E,
        Key::F => TitleKey::F,
        Key::G => TitleKey::G,
        Key::H => TitleKey::H,
        Key::I => TitleKey::I,
        Key::J => TitleKey::J,
        Key::K => TitleKey::K,
        Key::L => TitleKey::L,
        Key::M => TitleKey::M,
        Key::N => TitleKey::N,
        Key::O => TitleKey::O,
        Key::P => TitleKey::P,
        Key::Q => TitleKey::Q,
        Key::R => TitleKey::R,
        Key::S => TitleKey::S,
        Key::T => TitleKey::T,
        Key::U => TitleKey::U,
        Key::V => TitleKey::V,
        Key::W => TitleKey::W,
        Key::X => TitleKey::X,
        Key::Y => TitleKey::Y,
        Key::Z => TitleKey::Z,
        Key::Number1 => TitleKey::Number1,
        Key::Number2 => TitleKey::Number2,
        Key::Number3 => TitleKey::Number3,
        Key::Number4 => TitleKey::Number4,
        Key::Number5 => TitleKey::Number5,
        Key::Number6 => TitleKey::Number6,
        Key::Number7 => TitleKey::Number7,
        Key::Number8 => TitleKey::Number8,
        Key::Number9 => TitleKey::Number9,
        Key::Number0 => TitleKey::Number0,
    }
}

/// The native code of key `k` on platform `p`.
pub open spec fn native_code(k: Key, p: Platform) -> u16 {
    match p {
        Platform::Linux => linux_key(k).spec_native(),
        Platform::MacOs => k.spec_native(),
        Platform::Windows => windows_key(k).spec_native(),
    }
}

/// The Linux key with the same variant as `k`.
pub fn to_linux_key(k: Key) -> (r: linux::Key)
    ensures
        r == linux_key(k),
{
    match k {
        Key::LeftControl => linux::Key::LeftControl,
        Key::RightControl => linux::Key::RightControl,
        Key::LeftShift => linux::Key::LeftShift,
        Key::RightShift => linux::Key::RightShift,
        Key::LeftAlt => linux::Key::LeftAlt,
        Key::RightAlt => linux::Key::RightAlt,
        Key::LeftCommand => linux::Key::LeftCommand,
        Key::RightCommand => linux::Key::RightCommand,
        Key::CapsLock => linux::Key::CapsLock,
        Key::Tab => linux::Key::Tab,
        Key::Space => linux::Key::Space,
        Key::Return => linux::Key::Return,
        Key::Backspace => linux::Key::Backspace,
        Key::Delete => linux::Key::Delete,
        Key::Escape => linux::Key::Escape,
        Key::UpArrow => linux::Key::UpArrow,
        Key::DownArrow => linux::Key::DownArrow,
        Key::LeftArrow => linux::Key::LeftArrow,
        Key::RightArrow => linux::Key::RightArrow,
        Key::PageUp => linux::Key::PageUp,
        Key::PageDown => linux::Key::PageDown,
        Key::Home => linux::Key::Home,
        Key::End => linux::Key::End,
        Key::F1 => linux::Key::F1,
        Key::F2 => linux::Key::F2,
        Key::F3 => linux::Key::F3,
        Key::F4 => linux::Key::F4,
        Key::F5 => linux::Key::F5,
        Key::F6 => linux::Key::F6,
        Key::F7 => linux::Key::F7,
        Key::F8 => linux::Key::F8,
        Key::F9 => linux::Key::F9,
        Key::F10 => linux::Key::F10,
        Key::F11 => linux::Key::F11,
        Key::F12 => linux::Key::F12,
        Key::A => linux::Key::A,
        Key::B => linux::Key::B,
        Key::C => linux::Key::C,
        Key::D => linux::Key::D,
        Key::E => linux::Key::E,
        Key::F => linux::Key::F,
        Key::G => linux::Key::G,
        Key::H => linux::Key::H,
        Key::I => linux::Key::I,
        Key::J => linux::Key::J,
        Key::K => linux::Key::K,
        Key::L => linux::Key::L,
        Key::M => linux::Key::M,
        Key::N => linux::Key::N,
        Key::O => linux::Key::O,
        Key::P => linux::Key::P,
        Key::Q => linux::Key::Q,
        Key::R => linux::Key::R,
        Key::S => linux::Key::S,
        Key::T => linux::Key::T,
        Key::U => linux::Key::U,
        Key::V => linux::Key::V,
        Key::W => linux::Key::W,
        Key::X => linux::Key::X,
        Key::Y => linux::Key::Y,
        Key::Z => linux::Key::Z,
        Key::Number1 => linux::Key::Number1,
        Key::Number2 => linux::Key::Number2,
        Key::Number3 => linux::Key::Number3,
        Key::Number4 => linux::Key::Number4,
        Key::Number5 => linux::Key::Number5,
        Key::Number6 => linux::Key::Number6,
        Key::Number7 => linux::Key::Number7,
        Key::Number8 => linux::Key::Number8,
        Key::Number9 => linux::Key::Number9,
        Key::Number0 => linux::Key::Number0,
    }
}

/// The Windows key with the same variant as `k`.
pub fn to_windows_key(k: Key) -> (r: windows::Key)
    ensures
        r == windows_key(k),
{
    match k {
        Key::LeftControl => windows::Key::LeftControl,
        Key::RightControl => windows::Key::RightControl,
        Key::LeftShift => windows::Key::LeftShift,
        Key::RightShift => windows::Key::RightShift,
        Key::LeftAlt => windows::Key::LeftAlt,
        Key::RightAlt => windows::Key::RightAlt,
        Key::LeftCommand => windows::Key::LeftCommand,
        Key::RightCommand => windows::Key::RightCommand,
        Key::CapsLock => windows::Key::CapsLock,
        Key::Tab => windows::Key::Tab,
        Key::Space => windows::Key::Space,
        Key::Return => windows::Key::Return,
        Key::Backspace => windows::Key::Backspace,
        Key::Delete => windows::Key::Delete,
        Key::Escape => windows::Key::Escape,
        Key::UpArrow => windows::Key::UpArrow,
        Key::DownArrow => windows::Key::DownArrow,
        Key::LeftArrow => windows::Key::LeftArrow,
        Key::RightArrow => windows::Key::RightArrow,
        Key::PageUp => windows::Key::PageUp,
        Key::PageDown => windows::Key::PageDown,
        Key::Home => windows::Key::Home,
        Key::End => windows::Key::End,
        Key::F1 => windows::Key::F1,
        Key::F2 => windows::Key::F2,
        Key::F3 => windows::Key::F3,
        Key::F4 => windows::Key::F4,
        Key::F5 => windows::Key::F5,
        Key::F6 => windows::Key::F6,
        Key::F7 => windows::Key::F7,
        Key::F8 => windows::Key::F8,
        Key::F9 => windows::Key::F9,
        Key::F10 => windows::Key::F10,
        Key::F11 => windows::Key::F11,
        Key::F12 => windows::Key::F12,
        Key::A => windows::Key::A,
        Key::B => windows::Key::B,
        Key::C => windows::Key::C,
        Key::D => windows::Key::D,
        Key::E => windows::Key::E,
        Key::F => windows::Key::F,
        Key::G => windows::Key::G,
        Key::H => windows::Key::H,
        Key::I => windows::Key::I,
        Key::J => windows::Key::J,
        Key::K => windows::Key::K,
        Key::L => windows::Key::L,
        Key::M => windows::Key::M,
        Key::N => windows::Key::N,
        Key::O => windows::Key::O,
        Key::P => windows::Key::P,
        Key::Q => windows::Key::Q,
        Key::R => windows::Key::R,
        Key::S => windows::Key::S,
        Key::T => windows::Key::T,
        Key::U => windows::Key::U,
        Key::V => windows::Key::V,
        Key::W => windows::Key::W,
        Key::X => windows::Key::X,
        Key::Y => windows::Key::Y,
        Key::Z => windows::Key::Z,
        Key::Number1 => windows::Key::Number1,
        Key::Number2 => windows::Key::Number2,
        Key::Number3 => windows::Key::Number3,
        Key::Number4 => windows::Key::Number4,
        Key::Number5 => windows::Key::Number5,
        Key::Number6 => windows::Key::Number6,
        Key::Number7 => windows::Key::Number7,
        Key::Number8 => windows::Key::Number8,
        Key::Number9 => windows::Key::Number9,
        Key::Number0 => windows::Key::Number0,
    }
}

/// The native code of key `k` on platform `p`.
pub fn key_code(k: Key, p: Platform) -> (r: u16)
    ensures
        r == native_code(k, p),
{
    match p {
        Platform::Linux => to_linux_key(k).as_native(),
        Platform::MacOs => k.as_native(),
        Platform::Windows => to_windows_key(k).as_native(),
    }
}

/// The three tables name each key alike.
pub proof fn law_tables_share_names(k: Key)
    ensures
        linux_key(k).spec_name() == k.spec_name(),
        windows_key(k).spec_name() == k.spec_name(),
{
}

/// The three tables read a name alike: a name the configuration's table
/// reads as key `k` the Linux and Windows tables read as their key of the
/// same variant, and a name it does not read they do not read either.
pub proof fn law_tables_read_alike(name: Seq<char>)
    ensures
        match Key::spec_from_canonical(name) {
            Some(k) => {
                &&& linux::Key::spec_from_canonical(name) == Some(linux_key(k))
                &&& windows::Key::spec_from_canonical(name) == Some(windows_key(k))
            },
            None => {
                &&& linux::Key::spec_from_canonical(name) is None
                &&& windows::Key::spec_from_canonical(name) is None
            },
        },
{
}

/// Each table gives distinct keys distinct native codes.
pub proof fn law_native_codes_distinct(a: Key, b: Key, p: Platform)
    ensures
        native_code(a, p) == native_code(b, p) ==> a == b,
{
}

/// The modifier bit of the modifier key whose code on platform `p` is
/// `code`, if there is one.
pub open spec fn native_modifier_bit(code: u16, p: Platform) -> Option<u8> {
    if code == native_code(Key::LeftControl, p) {
        Some(0u8)
    } else if code == native_code(Key::RightControl, p) {
        Some(1u8)
    } else if code == native_code(Key::LeftShift, p) {
        Some(2u8)
    } else if code == native_code(Key::RightShift, p) {
        Some(3u8)
    } else if code == native_code(Key::LeftAlt, p) {
        Some(4u8)
    } else if code == native_code(Key::RightAlt, p) {
        Some(5u8)
    } else if code == native_code(Key::LeftCommand, p) {
        Some(6u8)
    } else if code == native_code(Key::RightCommand, p) {
        Some(7u8)
    } else {
        None
    }
}

/// The modifier bit of the modifier key whose code on platform `p` is
/// `code`, if there is one.
pub fn modifier_bit_of_code(code: u16, p: Platform) -> (r: Option<u8>)
    ensures
        r == native_modifier_bit(code, p),
{
    if code == key_code(Key::LeftControl, p) {
        Some(0u8)
    } else if code == key_code(Key::RightControl, p) {
        Some(1u8)
    } else if code == key_code(Key::LeftShift, p) {
        Some(2u8)
    } else if code == key_code(Key::RightShift, p) {
        Some(3u8)
    } else if code == key_code(Key::LeftAlt, p) {
        Some(4u8)
    } else if code == key_code(Key::RightAlt, p) {
        Some(5u8)
    } else if code == key_code(Key::LeftCommand, p) {
        Some(6u8)
    } else if code == key_code(Key::RightCommand, p) {
        Some(7u8)
    } else {
        None
    }
}

/// On every platform the code of a key gives back the key's modifier bit:
/// its own bit for a modifier key, none for any other key.
pub proof fn law_modifier_bit_of_code(k: Key, p: Platform)
    ensures
        native_modifier_bit(native_code(k, p), p) == k.spec_modifier_bit(),
{
    law_native_codes_distinct(k, Key::LeftControl, p);
    law_native_codes_distinct(k, Key::RightControl, p);
    law_native_codes_distinct(k, Key::LeftShift, p);
    law_native_codes_distinct(k, Key::RightShift, p);
    law_native_codes_distinct(k, Key::LeftAlt, p);
    law_native_codes_distinct(k, Key::RightAlt, p);
    law_native_codes_distinct(k, Key::LeftCommand, p);
    law_native_codes_distinct(k, Key::RightCommand, p);
}

/// On Linux every key compiles to its evdev `KEY_*` code of `<linux/input-event-codes.h>`.
pub proof fn law_linux_codes()
    ensures
        native_code(Key::LeftControl, Platform::Linux) == 29u16,
        native_code(Key::RightControl, Platform::Linux) == 97u16,
        native_code(Key::LeftShift, Platform::Linux) == 42u16,
        native_code(Key::RightShift, Platform::Linux) == 54u16,
        native_code(Key::LeftAlt, Platform::Linux) == 56u16,
        native_code(Key::RightAlt, Platform::Linux) == 100u16,
        native_code(Key::LeftCommand, Platform::Linux) == 125u16,
        native_code(Key::RightCommand, Platform::Linux) == 126u16,
        native_code(Key::CapsLock, Platform::Linux) == 58u16,
        native_code(Key::Tab, Platform::Linux) == 15u16,
        native_code(Key::Space, Platform::Linux) == 57u16,
        native_code(Key::Return, Platform::Linux) == 28u16,
        native_code(Key::Backspace, Platform::Linux) == 14u16,
        native_code(Key::Delete, Platform::Linux) == 111u16,
        native_code(Key::Escape, Platform::Linux) == 1u16,
        native_code(Key::UpArrow, Platform::Linux) == 103u16,
        native_code(Key::DownArrow, Platform::Linux) == 108u16,
        native_code(Key::LeftArrow, Platform::Linux) == 105u16,
        native_code(Key::RightArrow, Platform::Linux) == 106u16,
        native_code(Key::PageUp, Platform::Linux) == 104u16,
        native_code(Key::PageDown, Platform::Linux) == 109u16,
        native_code(Key::Home, Platform::Linux) == 102u16,
        native_code(Key::End, Platform::Linux) == 107u16,
        native_code(Key::F1, Platform::Linux) == 59u16,
        native_code(Key::F2, Platform::Linux) == 60u16,
        native_code(Key::F3, Platform::Linux) == 61u16,
        native_code(Key::F4, Platform::Linux) == 62u16,
        native_code(Key::F5, Platform::Linux) == 63u16,
        native_code(Key::F6, Platform::Linux) == 64u16,
        native_code(Key::F7, Platform::Linux) == 65u16,
        native_code(Key::F8, Platform::Linux) == 66u16,
        native_code(Key::F9, Platform::Linux) == 67u16,
        native_code(Key::F10, Platform::Linux) == 68u16,
        native_code(Key::F11, Platform::Linux) == 87u16,
        native_code(Key::F12, Platform::Linux) == 88u16,
        native_code(Key::A, Platform::Linux) == 30u16,
        native_code(Key::B, Platform::Linux) == 48u16,
        native_code(Key::C, Platform::Linux) == 46u16,
        native_code(Key::D, Platform::Linux) == 32u16,
        native_code(Key::E, Platform::Linux) == 18u16,
        native_code(Key::F, Platform::Linux) == 33u16,
        native_code(Key::G, Platform::Linux) == 34u16,
        native_code(Key::H, Platform::Linux) == 35u16,
        native_code(Key::I, Platform::Linux) == 23u16,
        native_code(Key::J, Platform::Linux) == 36u16,
        native_code(Key::K, Platform::Linux) == 37u16,
        native_code(Key::L, Platform::Linux) == 38u16,
        native_code(Key::M, Platform::Linux) == 50u16,
        native_code(Key::N, Platform::Linux) == 49u16,
        native_code(Key::O, Platform::Linux) == 24u16,
        native_code(Key::P, Platform::Linux) == 25u16,
        native_code(Key::Q, Platform::Linux) == 16u16,
        native_code(Key::R, Platform::Linux) == 19u16,
        native_code(Key::S, Platform::Linux) == 31u16,
        native_code(Key::T, Platform::Linux) == 20u16,
        native_code(Key::U, Platform::Linux) == 22u16,
        native_code(Key::V, Platform::Linux) == 47u16,
        native_code(Key::W, Platform::Linux) == 17u16,
        native_code(Key::X, Platform::Linux) == 45u16,
        native_code(Key::Y, Platform::Linux) == 21u16,
        native_code(Key::Z, Platform::Linux) == 44u16,
        native_code(Key::Number1, Platform::Linux) == 2u16,
        native_code(Key::Number2, Platform::Linux) == 3u16,
        native_code(Key::Number3, Platform::Linux) == 4u16,
        native_code(Key::Number4, Platform::Linux) == 5u16,
        native_code(Key::Number5, Platform::Linux) == 6u16,
        native_code(Key::Number6, Platform::Linux) == 7u16,
        native_code(Key::Number7, Platform::Linux) == 8u16,
        native_code(Key::Number8, Platform::Linux) == 9u16,
        native_code(Key::Number9, Platform::Linux) == 10u16,
        native_code(Key::Number0, Platform::Linux) == 11u16,
{
}

/// On macOS every key compiles to its `kVK_*` virtual key code of `<HIToolbox/Events.h>`.
pub proof fn law_macos_codes()
    ensures
        native_code(Key::LeftControl, Platform::MacOs) == 59u16,
        native_code(Key::RightControl, Platform::MacOs) == 62u16,
        native_code(Key::LeftShift, Platform::MacOs) == 56u16,
        native_code(Key::RightShift, Platform::MacOs) == 60u16,
        native_code(Key::LeftAlt, Platform::MacOs) == 58u16,
        native_code(Key::RightAlt, Platform::MacOs) == 61u16,
        native_code(Key::LeftCommand, Platform::MacOs) == 55u16,
        native_code(Key::RightCommand, Platform::MacOs) == 54u16,
        native_code(Key::CapsLock, Platform::MacOs) == 57u16,
        native_code(Key::Tab, Platform::MacOs) == 48u16,
        native_code(Key::Space, Platform::MacOs) == 49u16,
        native_code(Key::Return, Platform::MacOs) == 36u16,
        native_code(Key::Backspace, Platform::MacOs) == 51u16,
        native_code(Key::Delete, Platform::MacOs) == 117u16,
        native_code(Key::Escape, Platform::MacOs) == 53u16,
        native_code(Key::UpArrow, Platform::MacOs) == 126u16,
        native_code(Key::DownArrow, Platform::MacOs) == 125u16,
        native_code(Key::LeftArrow, Platform::MacOs) == 123u16,
        native_code(Key::RightArrow, Platform::MacOs) == 124u16,
        native_code(Key::PageUp, Platform::MacOs) == 116u16,
        native_code(Key::PageDown, Platform::MacOs) == 121u16,
        native_code(Key::Home, Platform::MacOs) == 115u16,
        native_code(Key::End, Platform::MacOs) == 119u16,
        native_code(Key::F1, Platform::MacOs) == 122u16,
        native_code(Key::F2, Platform::MacOs) == 120u16,
        native_code(Key::F3, Platform::MacOs) == 99u16,
        native_code(Key::F4, Platform::MacOs) == 118u16,
        native_code(Key::F5, Platform::MacOs) == 96u16,
        native_code(Key::F6, Platform::MacOs) == 97u16,
        native_code(Key::F7, Platform::MacOs) == 98u16,
        native_code(Key::F8, Platform::MacOs) == 100u16,
        native_code(Key::F9, Platform::MacOs) == 101u16,
        native_code(Key::F10, Platform::MacOs) == 109u16,
        native_code(Key::F11, Platform::MacOs) == 103u16,
        native_code(Key::F12, Platform::MacOs) == 111u16,
        native_code(Key::A, Platform::MacOs) == 0u16,
        native_code(Key::B, Platform::MacOs) == 11u16,
        native_code(Key::C, Platform::MacOs) == 8u16,
        native_code(Key::D, Platform::MacOs) == 2u16,
        native_code(Key::E, Platform::MacOs) == 14u16,
        native_code(Key::F, Platform::MacOs) == 3u16,
        native_code(Key::G, Platform::MacOs) == 5u16,
        native_code(Key::H, Platform::MacOs) == 4u16,
        native_code(Key::I, Platform::MacOs) == 34u16,
        native_code(Key::J, Platform::MacOs) == 38u16,
        native_code(Key::K, Platform::MacOs) == 40u16,
        native_code(Key::L, Platform::MacOs) == 37u16,
        native_code(Key::M, Platform::MacOs) == 46u16,
        native_code(Key::N, Platform::MacOs) == 45u16,
        native_code(Key::O, Platform::MacOs) == 31u16,
        native_code(Key::P, Platform::MacOs) == 35u16,
        native_code(Key::Q, Platform::MacOs) == 12u16,
        native_code(Key::R, Platform::MacOs) == 15u16,
        native_code(Key::S, Platform::MacOs) == 1u16,
        native_code(Key::T, Platform::MacOs) == 17u16,
        native_code(Key::U, Platform::MacOs) == 32u16,
        native_code(Key::V, Platform::MacOs) == 9u16,
        native_code(Key::W, Platform::MacOs) == 13u16,
        native_code(Key::X, Platform::MacOs) == 7u16,
        native_code(Key::Y, Platform::MacOs) == 16u16,
        native_code(Key::Z, Platform::MacOs) == 6u16,
        native_code(Key::Number1, Platform::MacOs) == 18u16,
        native_code(Key::Number2, Platform::MacOs) == 19u16,
        native_code(Key::Number3, Platform::MacOs) == 20u16,
        native_code(Key::Number4, Platform::MacOs) == 21u16,
        native_code(Key::Number5, Platform::MacOs) == 23u16,
        native_code(Key::Number6, Platform::MacOs) == 22u16,
        native_code(Key::Number7, Platform::MacOs) == 26u16,
        native_code(Key::Number8, Platform::MacOs) == 28u16,
        native_code(Key::Number9, Platform::MacOs) == 25u16,
        native_code(Key::Number0, Platform::MacOs) == 29u16,
{
}

/// On Windows every key compiles to its `VK_*` virtual-key code of `<WinUser.h>`.
pub proof fn law_windows_codes()
    ensures
        native_code(Key::LeftControl, Platform::Windows) == 0xA2u16,
        native_code(Key::RightControl, Platform::Windows) == 0xA3u16,
        native_code(Key::LeftShift, Platform::Windows) == 0xA0u16,
        native_code(Key::RightShift, Platform::Windows) == 0xA1u16,
        native_code(Key::LeftAlt, Platform::Windows) == 0xA4u16,
        native_code(Key::RightAlt, Platform::Windows) == 0xA5u16,
        native_code(Key::LeftCommand, Platform::Windows) == 0x5Bu16,
        native_code(Key::RightCommand, Platform::Windows) == 0x5Cu16,
        native_code(Key::CapsLock, Platform::Windows) == 0x14u16,
        native_code(Key::Tab, Platform::Windows) == 0x09u16,
        native_code(Key::Space, Platform::Windows) == 0x20u16,
        native_code(Key::Return, Platform::Windows) == 0x0Du16,
        native_code(Key::Backspace, Platform::Windows) == 0x08u16,
        native_code(Key::Delete, Platform::Windows) == 0x2Eu16,
        native_code(Key::Escape, Platform::Windows) == 0x1Bu16,
        native_code(Key::UpArrow, Platform::Windows) == 0x26u16,
        native_code(Key::DownArrow, Platform::Windows) == 0x28u16,
        native_code(Key::LeftArrow, Platform::Windows) == 0x25u16,
        native_code(Key::RightArrow, Platform::Windows) == 0x27u16,
        native_code(Key::PageUp, Platform::Windows) == 0x21u16,
        native_code(Key::PageDown, Platform::Windows) == 0x22u16,
        native_code(Key::Home, Platform::Windows) == 0x24u16,
        native_code(Key::End, Platform::Windows) == 0x23u16,
        native_code(Key::F1, Platform::Windows) == 0x70u16,
        native_code(Key::F2, Platform::Windows) == 0x71u16,
        native_code(Key::F3, Platform::Windows) == 0x72u16,
        native_code(Key::F4, Platform::Windows) == 0x73u16,
        native_code(Key::F5, Platform::Windows) == 0x74u16,
        native_code(Key::F6, Platform::Windows) == 0x75u16,
        native_code(Key::F7, Platform::Windows) == 0x76u16,
        native_code(Key::F8, Platform::Windows) == 0x77u16,
        native_code(Key::F9, Platform::Windows) == 0x78u16,
        native_code(Key::F10, Platform::Windows) == 0x79u16,
        native_code(Key::F11, Platform::Windows) == 0x7Au16,
        native_code(Key::F12, Platform::Windows) == 0x7Bu16,
        native_code(Key::A, Platform::Windows) == 0x41u16,
        native_code(Key::B, Platform::Windows) == 0x42u16,
        native_code(Key::C, Platform::Windows) == 0x43u16,
        native_code(Key::D, Platform::Windows) == 0x44u16,
        native_code(Key::E, Platform::Windows) == 0x45u16,
        native_code(Key::F, Platform::Windows) == 0x46u16,
        native_code(Key::G, Platform::Windows) == 0x47u16,
        native_code(Key::H, Platform::Windows) == 0x48u16,
        native_code(Key::I, Platform::Windows) == 0x49u16,
        native_code(Key::J, Platform::Windows) == 0x4Au16,
        native_code(Key::K, Platform::Windows) == 0x4Bu16,
        native_code(Key::L, Platform::Windows) == 0x4Cu16,
        native_code(Key::M, Platform::Windows) == 0x4Du16,
        native_code(Key::N, Platform::Windows) == 0x4Eu16,
        native_code(Key::O, Platform::Windows) == 0x4Fu16,
        native_code(Key::P, Platform::Windows) == 0x50u16,
        native_code(Key::Q, Platform::Windows) == 0x51u16,
        native_code(Key::R, Platform::Windows) == 0x52u16,
        native_code(Key::S, Platform::Windows) == 0x53u16,
        native_code(Key::T, Platform::Windows) == 0x54u16,
        native_code(Key::U, Platform::Windows) == 0x55u16,
        native_code(Key::V, Platform::Windows) == 0x56u16,
        native_code(Key::W, Platform::Windows) == 0x57u16,
        native_code(Key::X, Platform::Windows) == 0x58u16,
        native_code(Key::Y, Platform::Windows) == 0x59u16,
        native_code(Key::Z, Platform::Windows) == 0x5Au16,
        native_code(Key::Number1, Platform::Windows) == 0x31u16,
        native_code(Key::Number2, Platform::Windows) == 0x32u16,
        native_code(Key::Number3, Platform::Windows) == 0x33u16,
        native_code(Key::Number4, Platform::Windows) == 0x34u16,
        native_code(Key::Number5, Platform::Windows) == 0x35u16,
        native_code(Key::Number6, Platform::Windows) == 0x36u16,
        native_code(Key::Number7, Platform::Windows) == 0x37u16,
        native_code(Key::Number8, Platform::Windows) == 0x38u16,
        native_code(Key::Number9, Platform::Windows) == 0x39u16,
        native_code(Key::Number0, Platform::Windows) == 0x30u16,
{
}

/// The macOS code of every key is the code the title-case macOS table gives
/// the same key: the two macOS tables agree.
pub proof fn law_macos_tables_agree(k: Key)
    ensures
        native_code(k, Platform::MacOs) == spec_title_key(k).spec_native(),
        TitleKey::spec_from_native(native_code(k, Platform::MacOs)) == Some(spec_title_key(k)),
{
}

} // verus!
