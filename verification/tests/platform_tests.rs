use keymapper::config::{AppConfig, MappingTable, MappingValue, RuleGroup};
use keymapper::daemon::state::NativeAction;
use keymapper::key_table::{key_code, modifier_bit_of_code, to_linux_key, to_windows_key, Platform};
use keymapper::mapping_cache::RuntimeLookupCache;
use keymapper::state::RuntimeState;
use keymapper::key_names::{resolve_alias, unknown_key_error};
use keymapper::mapping_cache::NativeKey;
use keymapper::os::linux::{event_ops, select_keyboard, KeyOp};
use keymapper::os::macos::{
    chord_sequence, keycode_to_modifier_bit, modifier_bit_to_code, tap_decision, TapAction,
};
use keymapper::os::windows::{hook_inputs, is_extended_key, is_modifier, key_input_flags};
use keymapper::os::{linux, macos, windows};
use keymapper::platform::macos::Key;

#[test]
fn aliases_resolve_to_canonical_names() {
    assert_eq!(resolve_alias("ctrl"), Some("leftcontrol"));
    assert_eq!(resolve_alias("optionright"), Some("rightalt"));
    assert_eq!(resolve_alias("super"), Some("leftcommand"));
    assert_eq!(resolve_alias("pgdn"), Some("pagedown"));
    assert_eq!(resolve_alias("leftcontrol"), Some("leftcontrol"));
    assert_eq!(resolve_alias("escape"), None);
    assert_eq!(resolve_alias("Ctrl"), None);
}

#[test]
fn unknown_key_message() {
    assert_eq!(
        unknown_key_error("Foo"),
        "unknown key name 'Foo'. Use names like capslock, leftcontrol, a, f1, 1, etc."
    );
}

#[test]
fn os_key_tables_round_trip() {
    assert_eq!(linux::Key::from_canonical("a"), Some(linux::Key::A));
    assert_eq!(linux::Key::A.as_native(), 30);
    assert_eq!(linux::Key::from_native(58), Some(linux::Key::CapsLock));
    assert_eq!(linux::Key::from_native(0), None);
    assert_eq!(linux::Key::Escape.as_str(), "escape");
    assert_eq!(linux::Key::from_canonical("nosuch"), None);

    assert_eq!(macos::Key::from_canonical("leftcontrol"), Some(macos::Key::LeftControl));
    assert_eq!(macos::Key::LeftControl.as_native(), 59);
    assert_eq!(macos::Key::CapsLock.as_native(), 57);
    assert_eq!(macos::Key::RightCommand.as_native(), 54);
    assert_eq!(macos::Key::A.as_native(), 0);
    assert_eq!(macos::Key::RightCommand.as_modifier_bit(), Some(7));
    assert_eq!(macos::Key::Tab.as_modifier_bit(), None);
    assert_eq!(macos::Key::LeftShift.as_modifier_positions(), Some(vec![2, 3]));
    assert_eq!(macos::Key::Space.as_modifier_positions(), None);

    assert_eq!(windows::Key::from_canonical("capslock"), Some(windows::Key::CapsLock));
    assert_eq!(windows::Key::CapsLock.as_native(), 0x14);
    assert_eq!(windows::Key::Home.as_native(), 0x24);
    assert_eq!(windows::Key::End.as_native(), 0x23);
    assert_eq!(windows::Key::A.as_str(), "a");
}

#[test]
fn platform_key_table() {
    assert_eq!(Key::try_from_str("Ctrl"), Some(Key::LeftControl));
    assert_eq!(Key::try_from_str("RightOption"), Some(Key::RightAlt));
    assert_eq!(Key::try_from_str("KP_Enter"), Some(Key::NumpadEnter));
    assert_eq!(Key::try_from_str("7"), Some(Key::Number7));
    assert_eq!(Key::try_from_str("ctrl"), None);
    assert_eq!(Key::from_native(53), Some(Key::Escape));
    assert_eq!(Key::from_native(200), None);
    assert_eq!(Key::IsoExtra.as_native(), 10);
    assert_eq!(Key::NumpadEnter.as_str(), "NumpadEnter");
    assert_eq!(Key::RightShift.as_modifier_bit(), Some(3));
    assert_eq!(Key::RightShift.as_modifier_positions(), Some(vec![2, 3]));
    let all = Key::all();
    assert_eq!(all.len(), 101);
    for k in all {
        assert_eq!(Key::from_native(k.as_native()), Some(k));
        assert_eq!(Key::try_from_str(k.as_str()), Some(k));
    }
}

#[test]
fn macos_modifier_codes() {
    assert_eq!(keycode_to_modifier_bit(61), Some(5));
    assert_eq!(keycode_to_modifier_bit(0), None);
    assert_eq!(modifier_bit_to_code(5), Some(61));
    assert_eq!(modifier_bit_to_code(8), None);
}

#[test]
fn chords_press_modifiers_then_release_them_in_reverse() {
    let seq = chord_sequence(&NativeKey { modifiers: 0b0100_0001, base: 37 });
    assert_eq!(
        seq,
        vec![(59, true), (55, true), (37, true), (37, false), (55, false), (59, false)]
    );
    assert_eq!(chord_sequence(&NativeKey { modifiers: 0, base: 4 }), vec![(4, true), (4, false)]);
}

#[test]
fn event_tap_decisions() {
    let mappings = MappingTable::from_entries(vec![(
        "ctrl+h".to_string(),
        MappingValue::Event("left".to_string()),
    )])
    .unwrap();
    let config = AppConfig {
        groups: vec![RuleGroup { name: None, apps: vec!["Terminal".to_string()], mappings }],
    };
    let state = RuntimeState::new(RuntimeLookupCache::compile_from_config(&config, Platform::MacOs), "Terminal".to_string());

    // Left control goes down: tracked, passed through.
    let (mask, action) = tap_decision(&state, 0, 59, true);
    assert_eq!(mask, 1);
    assert!(matches!(action, TapAction::PassThrough));
    // H with left control held, in the (lower-cased) foreground app.
    let (mask, action) = tap_decision(&state, 1, 4, true);
    assert_eq!(mask, 1);
    match action {
        TapAction::Suppress(out) => assert_eq!(out, vec![NativeKey { modifiers: 0, base: 123 }]),
        TapAction::PassThrough => panic!("expected the rule to fire"),
    }
    // Key-up of a remapped key is swallowed without output.
    let (_, action) = tap_decision(&state, 1, 4, false);
    assert!(matches!(action, TapAction::Suppress(ref v) if v.is_empty()));
    // Releasing the control key clears its bit.
    let (mask, _) = tap_decision(&state, 1, 59, false);
    assert_eq!(mask, 0);
    // Without the modifier the key passes.
    let (_, action) = tap_decision(&state, 0, 4, true);
    assert!(matches!(action, TapAction::PassThrough));

    // The platform table's tap looks the application up by its lower-cased
    // name too.
    let (_, action) = keymapper::platform::macos::tap_decision(&state, 1, 4, true);
    match action {
        TapAction::Suppress(out) => assert_eq!(out, vec![NativeKey { modifiers: 0, base: 123 }]),
        TapAction::PassThrough => panic!("expected the rule to fire"),
    }
}

#[test]
fn linux_event_forwarding() {
    assert_eq!(event_ops(None, 30, 1), vec![KeyOp::Press(30), KeyOp::Synchronize]);
    assert_eq!(event_ops(None, 30, 0), vec![KeyOp::Release(30), KeyOp::Synchronize]);
    assert_eq!(
        event_ops(Some(&NativeAction::RemapTo(1)), 58, 2),
        vec![KeyOp::Press(1), KeyOp::Release(1), KeyOp::Synchronize]
    );
    let shortcut = NativeAction::Shortcut(vec![29, 46]);
    assert_eq!(
        event_ops(Some(&shortcut), 58, 1),
        vec![KeyOp::Press(29), KeyOp::Press(46), KeyOp::Synchronize]
    );
    assert_eq!(
        event_ops(Some(&shortcut), 58, 0),
        vec![KeyOp::Release(46), KeyOp::Release(29), KeyOp::Synchronize]
    );
    assert_eq!(event_ops(Some(&shortcut), 58, 2), vec![KeyOp::Synchronize]);
}

#[test]
fn linux_keyboard_selection() {
    let names = vec![
        "Power Button".to_string(),
        "Virtual Keyboard".to_string(),
        "USB Receiver".to_string(),
        "AT Translated Set 2 keyboard".to_string(),
    ];
    assert_eq!(select_keyboard(&names, &vec![true, true, true, true]), Some(3));
    assert_eq!(select_keyboard(&names, &vec![true, true, true, false]), Some(0));
    assert_eq!(select_keyboard(&names, &vec![false, true, false, false]), None);
}

#[test]
fn windows_hook_inputs() {
    assert!(is_extended_key(0x25));
    assert!(is_extended_key(0x24));
    assert!(is_extended_key(0x23));
    assert!(is_extended_key(0xA3));
    assert!(!is_extended_key(0xA2));
    assert!(!is_extended_key(0x41));
    assert_eq!(key_input_flags(0x25, true), 0x0003);
    assert_eq!(key_input_flags(0x41, false), 0);
    assert_eq!(hook_inputs(&NativeAction::RemapTo(0x11), false, true), vec![(0x11, true)]);
    let shortcut = NativeAction::Shortcut(vec![0xA2, 0x43]);
    assert_eq!(hook_inputs(&shortcut, true, false), vec![(0xA2, false), (0x43, false)]);
    assert_eq!(hook_inputs(&shortcut, false, true), vec![(0x43, true), (0xA2, true)]);
    assert_eq!(hook_inputs(&shortcut, false, false), vec![]);
    assert!(is_modifier(0x5B));
    assert!(!is_modifier(0x1B));
}

#[test]
fn application_names_match_without_case() {
    let mappings = MappingTable::from_entries(vec![(
        "capslock".to_string(),
        MappingValue::Event("escape".to_string()),
    )])
    .unwrap();
    let config = AppConfig {
        groups: vec![RuleGroup { name: None, apps: vec!["iTerm2".to_string()], mappings }],
    };
    let state = RuntimeState::new(RuntimeLookupCache::compile_from_config(&config, Platform::MacOs), "ITERM2".to_string());
    let (_, action) = tap_decision(&state, 0, 57, true);
    match action {
        TapAction::Suppress(out) => assert_eq!(out, vec![NativeKey { modifiers: 0, base: 53 }]),
        TapAction::PassThrough => panic!("expected the rule to fire"),
    }
}

#[test]
fn alias_targets_are_known_to_every_table() {
    for alias in ["ctrl", "rightctrl", "optionright", "super", "caps", "enter", "esc", "up_arrow", "pgdn", "del"] {
        if let Some(target) = resolve_alias(alias) {
            assert_eq!(target, target.to_lowercase());
            assert!(linux::Key::from_canonical(target).is_some());
            assert!(macos::Key::from_canonical(target).is_some());
            assert!(windows::Key::from_canonical(target).is_some());
            let again = resolve_alias(target);
            assert!(again.is_none() || again == Some(target));
        }
    }
    assert_eq!(resolve_alias("ctrl"), Some("leftcontrol"));
    assert_eq!(resolve_alias("optionright"), Some("rightalt"));
}

#[test]
fn tables_share_keys_and_codes_per_platform() {
    assert_eq!(to_linux_key(macos::Key::CapsLock), linux::Key::CapsLock);
    assert_eq!(to_windows_key(macos::Key::Home), windows::Key::Home);
    assert_eq!(key_code(macos::Key::CapsLock, Platform::Linux), 58);
    assert_eq!(key_code(macos::Key::CapsLock, Platform::MacOs), 57);
    assert_eq!(key_code(macos::Key::CapsLock, Platform::Windows), 0x14);
    assert_eq!(linux::Key::from_canonical("number1"), Some(linux::Key::Number1));
    assert_eq!(windows::Key::from_canonical("1"), Some(windows::Key::Number1));
    assert_ne!(key_code(macos::Key::Home, Platform::Windows), key_code(macos::Key::End, Platform::Windows));
}

#[test]
fn modifier_bits_from_each_platforms_codes() {
    // KEY_RIGHTALT on Linux, VK_RCONTROL on Windows, kVK_Command on macOS.
    assert_eq!(modifier_bit_of_code(100, Platform::Linux), Some(5));
    assert_eq!(modifier_bit_of_code(0xA3, Platform::Windows), Some(1));
    assert_eq!(modifier_bit_of_code(55, Platform::MacOs), Some(6));
    // KEY_A and 'A' are no modifiers.
    assert_eq!(modifier_bit_of_code(30, Platform::Linux), None);
    assert_eq!(modifier_bit_of_code(0x41, Platform::Windows), None);
    assert_eq!(keymapper::os::macos::track_modifier_mask(0, 5, true), 1 << 5);
    assert_eq!(keymapper::os::macos::track_modifier_mask(0b110, 1, false), 0b100);
}
