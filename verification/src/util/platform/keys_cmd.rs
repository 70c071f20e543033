//! `keymapper keys`: the list of key names, and what the probe reports for
//! each key event.
//!
//! The probe's event sources differ per platform; the decisions (when to
//! stop, which events to skip, and the line printed for a key) are made
//! here, each over the codes its source delivers: the macOS event tap's
//! key codes (`probe_key_down`), the Linux evdev codes (`probe_key_event`)
//! and the Windows virtual keys (`probe_vk_event`).
use vstd::prelude::*;

use crate::os::windows::is_modifier as is_modifier_vk;
use crate::os::windows::spec_is_modifier_vk;
use crate::os::linux::Key as EvKey;
use crate::platform::macos::Key;
use crate::text::{decimal, push_decimal};
use crate::util::sorting::{names_sorted, names_view, sorted_unique};

verus! {

/// The names of all keys, sorted.
pub fn key_names() -> (r: Vec<String>)
    ensures
        names_sorted(names_view(r@)),
        forall|x: Seq<char>|
            names_view(r@).contains(x) <==> exists|k: Key| #[trigger] k.spec_name() == x,
{
    let keys = Key::all();
    let mut names: Vec<String> = Vec::new();
    let mut i: usize = 0;
    while i < keys.len()
        invariant
            i <= keys@.len(),
            keys@ == Key::spec_all(),
            names@.len() == i,
            forall|j: int| 0 <= j < i ==> #[trigger] names_view(names@)[j] == keys@[j].spec_name(),
        decreases keys@.len() - i,
    {
        let ghost prev = names@;
        names.push(String::from_str(keys[i].as_str()));
        assert forall|j: int| 0 <= j < i + 1 implies #[trigger] names_view(names@)[j]
            == keys@[j].spec_name() by {
            if j < i {
                assert(names_view(names@)[j] == names_view(prev)[j]);
            }
        }
        i = i + 1;
    }
    proof {
        assert forall|x: Seq<char>|
            names_view(names@).contains(x) <==> exists|k: Key| #[trigger] k.spec_name() == x by {
            if names_view(names@).contains(x) {
                let j = choose|j: int| 0 <= j < names@.len() && names_view(names@)[j] == x;
                assert(keys@[j].spec_name() == x);
            }
            if exists|k: Key| #[trigger] k.spec_name() == x {
                let k = choose|k: Key| #[trigger] k.spec_name() == x;
                crate::platform::macos::lemma_all_lists_every_key(k);
                let j = k.spec_index();
                assert(names_view(names@)[j] == x);
            }
        }
    }
    sorted_unique(&names)
}

/// The line printed for a pressed key: its name and code, or `Unknown`
/// with the code for a code that names no key.
pub open spec fn probe_line_text(code: u16) -> Seq<char> {
    match Key::spec_from_native(code) {
        Some(k) => k.spec_name() + ": "@ + decimal(k.spec_native() as nat),
        None => "Unknown("@ + decimal(code as nat) + "): "@ + decimal(code as nat),
    }
}

/// The line printed for a pressed key with native code `code`.
pub fn probe_line(code: u16) -> (r: String)
    ensures
        r@ == probe_line_text(code),
{
    match Key::from_native(code) {
        Some(key) => {
            let mut line = String::from_str(key.as_str());
            line.append(": ");
            push_decimal(&mut line, key.as_native() as u64);
            line
        },
        None => {
            let mut line = String::from_str("Unknown(");
            push_decimal(&mut line, code as u64);
            line.append("): ");
            push_decimal(&mut line, code as u64);
            line
        },
    }
}

/// `code` is the native code of a modifier key.
pub open spec fn is_modifier_code(code: u16) -> bool {
    code == Key::LeftControl.spec_native() || code == Key::RightControl.spec_native()
        || code == Key::LeftShift.spec_native() || code == Key::RightShift.spec_native()
        || code == Key::LeftAlt.spec_native() || code == Key::RightAlt.spec_native()
        || code == Key::LeftCommand.spec_native() || code == Key::RightCommand.spec_native()
}

/// Check whether a keycode corresponds to a modifier key.
pub fn is_modifier(code: u16) -> (r: bool)
    ensures
        r == is_modifier_code(code),
{
    code == Key::LeftControl.as_native() || code == Key::RightControl.as_native()
        || code == Key::LeftShift.as_native() || code == Key::RightShift.as_native()
        || code == Key::LeftAlt.as_native() || code == Key::RightAlt.as_native()
        || code == Key::LeftCommand.as_native() || code == Key::RightCommand.as_native()
}

/// What the probe does with one key event.
#[derive(PartialEq, Eq, Debug, Clone)]
pub enum ProbeAction {
    /// Control+Escape was pressed: stop probing.
    Exit,
    /// Nothing to report.
    Skip,
    /// Print this line.
    Print(String),
}

/// The value of a probe action, with the line as characters.
pub enum ProbeOutcome {
    Exit,
    Skip,
    Print(Seq<char>),
}

impl ProbeAction {
    pub open spec fn outcome(&self) -> ProbeOutcome {
        match self {
            ProbeAction::Exit => ProbeOutcome::Exit,
            ProbeAction::Skip => ProbeOutcome::Skip,
            ProbeAction::Print(s) => ProbeOutcome::Print(s@),
        }
    }
}

/// The probe's decision for a key press (the event tap's view on macOS):
/// Escape with Control held stops, modifiers are skipped, every other key
/// is printed.
pub open spec fn key_down_outcome(code: u16, control_held: bool) -> ProbeOutcome {
    if code == Key::Escape.spec_native() && control_held {
        ProbeOutcome::Exit
    } else if is_modifier_code(code) {
        ProbeOutcome::Skip
    } else {
        ProbeOutcome::Print(probe_line_text(code))
    }
}

/// Decides what to do with a key-down event of the event tap.
pub fn probe_key_down(code: u16, control_held: bool) -> (r: ProbeAction)
    ensures
        r.outcome() == key_down_outcome(code, control_held),
{
    if code == Key::Escape.as_native() && control_held {
        ProbeAction::Exit
    } else if is_modifier(code) {
        ProbeAction::Skip
    } else {
        ProbeAction::Print(probe_line(code))
    }
}

/// The line the evdev probe prints for a key: its name in the Linux table
/// and its evdev code, or `Unknown` with the code for a code that names no
/// key.
pub open spec fn evdev_line_text(code: u16) -> Seq<char> {
    match EvKey::spec_from_native(code) {
        Some(k) => k.spec_name() + ": "@ + decimal(k.spec_native() as nat),
        None => "Unknown("@ + decimal(code as nat) + "): "@ + decimal(code as nat),
    }
}

/// The line the evdev probe prints for a key with evdev code `code`.
pub fn evdev_probe_line(code: u16) -> (r: String)
    ensures
        r@ == evdev_line_text(code),
{
    match EvKey::from_native(code) {
        Some(key) => {
            let mut line = String::from_str(key.as_str());
            line.append(": ");
            push_decimal(&mut line, key.as_native() as u64);
            line
        },
        None => {
            let mut line = String::from_str("Unknown(");
            push_decimal(&mut line, code as u64);
            line.append("): ");
            push_decimal(&mut line, code as u64);
            line
        },
    }
}

/// `code` is the evdev code of a modifier key.
pub open spec fn is_evdev_modifier_code(code: u16) -> bool {
    code == EvKey::LeftControl.spec_native() || code == EvKey::RightControl.spec_native()
        || code == EvKey::LeftShift.spec_native() || code == EvKey::RightShift.spec_native()
        || code == EvKey::LeftAlt.spec_native() || code == EvKey::RightAlt.spec_native()
        || code == EvKey::LeftCommand.spec_native() || code == EvKey::RightCommand.spec_native()
}

/// Whether an evdev code is that of a modifier key.
pub fn is_evdev_modifier(code: u16) -> (r: bool)
    ensures
        r == is_evdev_modifier_code(code),
{
    code == EvKey::LeftControl.as_native() || code == EvKey::RightControl.as_native()
        || code == EvKey::LeftShift.as_native() || code == EvKey::RightShift.as_native()
        || code == EvKey::LeftAlt.as_native() || code == EvKey::RightAlt.as_native()
        || code == EvKey::LeftCommand.as_native() || code == EvKey::RightCommand.as_native()
}

/// The probe reading raw evdev key events (value 1 is a press, 2 an
/// auto-repeat, 0 a release; codes of the Linux table): the Control state
/// it tracks after the event, and its decision.  Control counts as held
/// from its press until its release; an auto-repeat keeps it held.
pub open spec fn key_event_outcome(control_pressed: bool, code: u16, value: i32) -> (
    bool,
    ProbeOutcome,
) {
    let down = value == 1;
    let control = if code == EvKey::LeftControl.spec_native() || code
        == EvKey::RightControl.spec_native() {
        value != 0
    } else {
        control_pressed
    };
    if down && code == EvKey::Escape.spec_native() && control {
        (control, ProbeOutcome::Exit)
    } else if is_evdev_modifier_code(code) || !down {
        (control, ProbeOutcome::Skip)
    } else {
        (control, ProbeOutcome::Print(evdev_line_text(code)))
    }
}

/// One step of the probe over raw evdev key events: takes whether Control
/// is held and the event's code and value, and gives the new Control state
/// and the decision.
pub fn probe_key_event(control_pressed: bool, code: u16, value: i32) -> (r: (bool, ProbeAction))
    ensures
        (r.0, r.1.outcome()) == key_event_outcome(control_pressed, code, value),
{
    let down = value == 1;
    let mut control = control_pressed;
    if code == EvKey::LeftControl.as_native() || code == EvKey::RightControl.as_native() {
        control = value != 0;
    }
    if down && code == EvKey::Escape.as_native() && control {
        (control, ProbeAction::Exit)
    } else if is_evdev_modifier(code) || !down {
        (control, ProbeAction::Skip)
    } else {
        (control, ProbeAction::Print(evdev_probe_line(code)))
    }
}

/// The virtual-key code of Escape.
pub const VK_ESCAPE: u16 = 0x1B;

/// The line printed for a virtual key that names no key: its code, and the
/// character it produces when there is one.
pub open spec fn unknown_vk_line(vk: u16, char_code: u32) -> Seq<char> {
    if char_code != 0 && (char_code as u8) != 0 {
        "Unknown("@ + decimal(vk as nat) + ", "@ + seq![((char_code as u8) as char)] + "): "@
            + decimal(vk as nat)
    } else {
        "Unknown("@ + decimal(vk as nat) + "): "@ + decimal(vk as nat)
    }
}

/// The Windows hook's decision for a keyboard event: `char_code` is the
/// character the key maps to (zero when none).
pub open spec fn vk_event_outcome(vk: u16, down: bool, control_held: bool, char_code: u32) -> ProbeOutcome {
    if down && vk == VK_ESCAPE && control_held {
        ProbeOutcome::Exit
    } else if spec_is_modifier_vk(vk) || !down {
        ProbeOutcome::Skip
    } else {
        match Key::spec_from_native(vk) {
            Some(_) => ProbeOutcome::Print(probe_line_text(vk)),
            None => ProbeOutcome::Print(unknown_vk_line(vk, char_code)),
        }
    }
}

/// Decides what the Windows hook does with a keyboard event.
pub fn probe_vk_event(vk: u16, down: bool, control_held: bool, char_code: u32) -> (r: ProbeAction)
    ensures
        r.outcome() == vk_event_outcome(vk, down, control_held, char_code),
{
    if down && vk == VK_ESCAPE && control_held {
        return ProbeAction::Exit;
    }
    if is_modifier_vk(vk) || !down {
        return ProbeAction::Skip;
    }
    match Key::from_native(vk) {
        Some(_) => ProbeAction::Print(probe_line(vk)),
        None => {
            let mut line = String::from_str("Unknown(");
            push_decimal(&mut line, vk as u64);
            let low: u8 = (#[verifier::truncate] (char_code as u8));
            if char_code != 0 && low != 0 {
                line.append(", ");
                crate::text::string_push(&mut line, low as char);
            }
            line.append("): ");
            push_decimal(&mut line, vk as u64);
            assert(line@ =~= unknown_vk_line(vk, char_code));
            ProbeAction::Print(line)
        },
    }
}

} // verus!
