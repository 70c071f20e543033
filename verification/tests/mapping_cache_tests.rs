use keymapper::config::{AppConfig, Key, KeyEvent, MappingTable, MappingValue, RuleGroup};
use keymapper::key_table::Platform;
use keymapper::daemon::state::{action_for_outputs, find_chord, NativeAction, NativeChord};
use keymapper::mapping_cache::{
    compile_modifier_bits, compile_outputs, expand_modifier_bits, CompiledRule, NativeKey,
    RuntimeLookupCache,
};
use keymapper::state::{find_match, resolve_outputs, Lookup, RuntimeState};

fn table(entries: Vec<(&str, &str)>) -> MappingTable {
    MappingTable::from_entries(
        entries
            .into_iter()
            .map(|(k, v)| (k.to_string(), MappingValue::Event(v.to_string())))
            .collect(),
    )
    .unwrap()
}

fn group(apps: &[&str], mappings: MappingTable) -> RuleGroup {
    RuleGroup { name: None, apps: apps.iter().map(|a| a.to_string()).collect(), mappings }
}

fn sample_config() -> AppConfig {
    AppConfig {
        groups: vec![
            group(&[], table(vec![("capslock", "leftcontrol"), ("ctrl+h", "backspace")])),
            group(&["iTerm2", "Terminal"], table(vec![("ctrl+h", "left")])),
            group(&["Empty"], MappingTable::new()),
            group(&[], table(vec![("capslock", "escape")])),
        ],
    }
}

const CAPS: u16 = 57;
const LEFT_CONTROL: u16 = 59;
const H: u16 = 4;
const LEFT_ARROW: u16 = 123;
const BACKSPACE: u16 = 51;

#[test]
fn modifier_masks_use_specific_bits() {
    assert_eq!(compile_modifier_bits(&[]), 0);
    assert_eq!(compile_modifier_bits(&[Key::RightAlt, Key::LeftCommand]), (1 << 5) | (1 << 6));
    assert_eq!(compile_modifier_bits(&[Key::LeftControl, Key::A]), 1);
}

#[test]
fn either_side_variants() {
    assert_eq!(expand_modifier_bits(&[]), vec![0]);
    // A specific right-side key matches only its own bit.
    assert_eq!(expand_modifier_bits(&[Key::RightControl]), vec![2]);
    assert_eq!(expand_modifier_bits(&[Key::LeftControl]), vec![1, 2]);
    assert_eq!(expand_modifier_bits(&[Key::LeftControl, Key::LeftShift]), vec![5, 9, 6, 10]);
    assert_eq!(expand_modifier_bits(&[Key::LeftControl, Key::RightShift]), vec![9, 10]);
    // A key that is not a modifier contributes nothing.
    assert_eq!(expand_modifier_bits(&[Key::A]), vec![0]);
    assert_eq!(expand_modifier_bits(&[Key::A, Key::LeftAlt]), vec![16, 32]);
}

#[test]
fn outputs_compile_to_native_events() {
    let events = vec![KeyEvent::parse("cmd+left").unwrap(), KeyEvent::parse("h").unwrap()];
    assert_eq!(
        compile_outputs(&events, Platform::MacOs),
        vec![NativeKey { modifiers: 1 << 6, base: LEFT_ARROW }, NativeKey { modifiers: 0, base: H }]
    );
    // Linux evdev codes: KEY_LEFT is 105, KEY_H is 35.
    assert_eq!(
        compile_outputs(&events, Platform::Linux),
        vec![NativeKey { modifiers: 1 << 6, base: 105 }, NativeKey { modifiers: 0, base: 35 }]
    );
    // Windows virtual keys: VK_LEFT is 0x25, 'H' is 0x48.
    assert_eq!(
        compile_outputs(&events, Platform::Windows),
        vec![NativeKey { modifiers: 1 << 6, base: 0x25 }, NativeKey { modifiers: 0, base: 0x48 }]
    );
}

#[test]
fn rules_compile_to_the_codes_of_each_platform() {
    // capslock -> leftcontrol, filed under each platform's CapsLock code.
    let linux = RuntimeState::new(RuntimeLookupCache::compile_from_config(&sample_config(), Platform::Linux), String::new());
    assert_eq!(linux.global(58, 0).unwrap(), &[NativeKey { modifiers: 0, base: 29 }]);
    assert!(linux.global(CAPS, 0).is_none());
    let windows =
        RuntimeState::new(RuntimeLookupCache::compile_from_config(&sample_config(), Platform::Windows), String::new());
    assert_eq!(windows.global(0x14, 0).unwrap(), &[NativeKey { modifiers: 0, base: 0xA2 }]);
    let mac = RuntimeState::new(RuntimeLookupCache::compile_from_config(&sample_config(), Platform::MacOs), String::new());
    assert_eq!(mac.global(CAPS, 0).unwrap(), &[NativeKey { modifiers: 0, base: LEFT_CONTROL }]);
    assert!(mac.global(58, 0).is_none());
}

#[test]
fn compiled_cache_keeps_global_order_and_lowercases_apps() {
    let cache = RuntimeLookupCache::compile_from_config(&sample_config(), Platform::MacOs);
    let global = cache.global_rules();
    // capslock (1 variant), ctrl+h (2 variants), capslock again (1 variant)
    assert_eq!(global.len(), 4);
    assert_eq!((global[0].base, global[0].modifiers), (CAPS, 0));
    assert_eq!((global[1].base, global[1].modifiers), (H, 1));
    assert_eq!((global[2].base, global[2].modifiers), (H, 2));
    assert_eq!((global[3].base, global[3].modifiers), (CAPS, 0));
    // Each rule remembers its group.
    assert_eq!((global[0].group, global[2].group, global[3].group), (0, 0, 3));
    assert_eq!(global[0].outputs, vec![NativeKey { modifiers: 0, base: LEFT_CONTROL }]);

    let iterm = cache.process_rules("iterm2").unwrap();
    assert_eq!(iterm.len(), 2);
    assert_eq!(iterm[0].outputs, vec![NativeKey { modifiers: 0, base: LEFT_ARROW }]);
    assert_eq!(iterm[0].group, 1);
    assert!(cache.process_rules("terminal").is_some());
    assert!(cache.process_rules("iTerm2").is_none());
    // A group without mappings adds nothing.
    assert!(cache.process_rules("empty").is_none());
}

#[test]
fn lookups_match_exact_masks_first_rule_first() {
    let cache = RuntimeLookupCache::compile_from_config(&sample_config(), Platform::MacOs);
    let state = RuntimeState::new(cache, "iterm2".to_string());
    // The first global capslock rule wins over the later one.
    assert_eq!(state.global(CAPS, 0).unwrap(), &[NativeKey { modifiers: 0, base: LEFT_CONTROL }]);
    // Either control key triggers ctrl+h, but not both, and not none.
    assert!(state.for_app("iterm2", H, 1).is_some());
    assert!(state.for_app("iterm2", H, 2).is_some());
    assert!(state.for_app("iterm2", H, 3).is_none());
    assert!(state.for_app("iterm2", H, 0).is_none());
    assert!(state.for_app("unknown", H, 1).is_none());
    assert_eq!(state.active_app(), "iterm2");
}

#[test]
fn rule_groups_count_in_definition_order() {
    let cache = RuntimeLookupCache::compile_from_config(&sample_config(), Platform::MacOs);
    let state = RuntimeState::new(cache, "finder".to_string());
    // The global group defines ctrl+h before the iTerm2 group does.
    assert_eq!(
        resolve_outputs(&state, "iterm2", H, 1),
        Some(vec![NativeKey { modifiers: 0, base: BACKSPACE }])
    );
    // The application group's rule is found, but belongs to a later group.
    assert_eq!(state.for_app("iterm2", H, 1).unwrap(), &[NativeKey { modifiers: 0, base: LEFT_ARROW }]);
    // capslock: the first global group wins over the fourth.
    assert_eq!(
        resolve_outputs(&state, "iterm2", CAPS, 0),
        Some(vec![NativeKey { modifiers: 0, base: LEFT_CONTROL }])
    );
    assert_eq!(
        resolve_outputs(&state, "finder", H, 1),
        Some(vec![NativeKey { modifiers: 0, base: BACKSPACE }])
    );
    assert_eq!(resolve_outputs(&state, "finder", H, 0), None);
}

#[test]
fn an_earlier_application_group_wins_over_a_later_global_group() {
    let config = AppConfig {
        groups: vec![
            group(&["iTerm2"], table(vec![("ctrl+h", "left")])),
            group(&[], table(vec![("ctrl+h", "backspace"), ("capslock", "escape")])),
        ],
    };
    let state = RuntimeState::new(RuntimeLookupCache::compile_from_config(&config, Platform::MacOs), String::new());
    assert_eq!(
        resolve_outputs(&state, "iterm2", H, 2),
        Some(vec![NativeKey { modifiers: 0, base: LEFT_ARROW }])
    );
    assert_eq!(
        resolve_outputs(&state, "terminal", H, 2),
        Some(vec![NativeKey { modifiers: 0, base: BACKSPACE }])
    );
    // No application rule fires: the global one does.
    assert_eq!(resolve_outputs(&state, "iterm2", CAPS, 0), Some(vec![NativeKey { modifiers: 0, base: 53 }]));
    let cache = RuntimeLookupCache::compile_from_config(&config, Platform::MacOs);
    assert_eq!(cache.process_rules("iterm2").unwrap()[0].group, 0);
    assert_eq!(cache.global_rules()[0].group, 1);
}

#[test]
fn replacing_state_parts() {
    let mut state = RuntimeState::new(
        RuntimeLookupCache::compile_from_config(&AppConfig { groups: Vec::new() }, Platform::MacOs),
        String::new(),
    );
    assert!(state.global(CAPS, 0).is_none());
    state.set_lookup_cache(RuntimeLookupCache::compile_from_config(&sample_config(), Platform::MacOs));
    state.set_active_app("terminal".to_string());
    assert_eq!(state.active_app(), "terminal");
    assert!(state.global(CAPS, 0).is_some());
}

#[test]
fn find_match_returns_first_exact_match() {
    let rules = vec![
        CompiledRule { base: 1, modifiers: 0, outputs: vec![NativeKey { modifiers: 0, base: 10 }], group: 0 },
        CompiledRule { base: 1, modifiers: 4, outputs: vec![NativeKey { modifiers: 0, base: 11 }], group: 0 },
        CompiledRule { base: 1, modifiers: 4, outputs: vec![NativeKey { modifiers: 0, base: 12 }], group: 1 },
    ];
    assert_eq!(find_match(&rules, 1, 4).unwrap(), &[NativeKey { modifiers: 0, base: 11 }]);
    assert_eq!(find_match(&rules, 1, 0).unwrap(), &[NativeKey { modifiers: 0, base: 10 }]);
    assert!(find_match(&rules, 1, 5).is_none());
    assert!(find_match(&rules, 2, 0).is_none());
}

#[test]
fn chords_fire_when_their_modifiers_are_held() {
    let chords = vec![
        (NativeChord { base: 5, modifiers: 0b0011 }, NativeAction::RemapTo(7)),
        (NativeChord { base: 5, modifiers: 0b0001 }, NativeAction::Shortcut(vec![1, 2])),
    ];
    assert!(matches!(find_chord(&chords, 5, 0b0111), Some(NativeAction::RemapTo(7))));
    assert!(matches!(find_chord(&chords, 5, 0b0101), Some(NativeAction::Shortcut(_))));
    assert!(find_chord(&chords, 5, 0b0100).is_none());
    assert!(find_chord(&chords, 6, 0b0011).is_none());
}

#[test]
fn outputs_become_remaps_or_shortcuts() {
    let codes = [29, 97, 42, 54, 56, 100, 125, 126];
    assert!(matches!(
        action_for_outputs(&[NativeKey { modifiers: 0, base: 1 }], &codes),
        NativeAction::RemapTo(1)
    ));
    match action_for_outputs(
        &[NativeKey { modifiers: 0b0100_0100, base: 20 }, NativeKey { modifiers: 0, base: 30 }],
        &codes,
    ) {
        NativeAction::Shortcut(keys) => assert_eq!(keys, vec![42, 125, 20, 30]),
        NativeAction::RemapTo(_) => panic!("expected a shortcut"),
    }
}
