use keymapper::config::{AppConfig, Key, MappingTable, MappingValue, RuleGroup};
use keymapper::key_table::Platform;
use keymapper::mapping_cache::{compile_modifier_bits, expand_modifier_bits, RuntimeLookupCache};
use keymapper::state::{Lookup, RuntimeState};

fn table(entries: Vec<(&str, &str)>) -> MappingTable {
    MappingTable::from_entries(
        entries
            .into_iter()
            .map(|(k, v)| (k.to_string(), MappingValue::Event(v.to_string())))
            .collect(),
    )
    .unwrap()
}

fn group(name: Option<&str>, mappings: MappingTable) -> RuleGroup {
    RuleGroup { name: name.map(|n| n.to_string()), apps: Vec::new(), mappings }
}

fn joined(config: &AppConfig) -> String {
    let findings = config.check();
    if findings.is_empty() {
        "no issues found".to_string()
    } else {
        findings.join("\n")
    }
}

#[test]
fn check_clean_config() {
    let config = AppConfig { groups: vec![group(None, table(vec![("CapsLock", "LeftControl")]))] };
    let out = joined(&config);
    assert!(out.contains("no issues found"));
}

#[test]
fn check_chord_mapping_clean() {
    let config = AppConfig {
        groups: vec![group(
            None,
            table(vec![("Ctrl+H", "LeftArrow"), ("Ctrl+Shift+Left", "Cmd+Left")]),
        )],
    };
    let out = joined(&config);
    assert!(out.contains("no issues found"));
}

#[test]
fn check_empty_config() {
    // groups: []
    let config = AppConfig { groups: Vec::new() };
    let out = joined(&config);
    assert!(out.contains("no rule groups defined"));
}

#[test]
fn check_no_op_mapping() {
    let config = AppConfig { groups: vec![group(None, table(vec![("A", "A")]))] };
    let out = joined(&config);
    assert!(out.contains("A remaps to itself (no-op)"));
}

#[test]
fn check_no_op_chord() {
    // A chord that maps to itself.
    let config = AppConfig { groups: vec![group(None, table(vec![("Ctrl+H", "Ctrl+H")]))] };
    let out = joined(&config);
    assert!(out.contains("remaps to itself (no-op)"));
}

#[test]
fn check_duplicate_trigger_across_groups() {
    let config = AppConfig {
        groups: vec![
            group(None, table(vec![("CapsLock", "LeftControl")])),
            group(Some("override"), table(vec![("CapsLock", "Tab")])),
        ],
    };
    let out = joined(&config);
    assert!(out.contains("CapsLock appears in multiple groups"));
}

#[test]
fn check_empty_group() {
    let config = AppConfig { groups: vec![group(Some("placeholder"), MappingTable::new())] };
    let out = joined(&config);
    assert!(out.contains("has no mappings"));
}

#[test]
fn check_circular_swap() {
    let config = AppConfig {
        groups: vec![group(None, table(vec![("CapsLock", "LeftControl"), ("LeftControl", "CapsLock")]))],
    };
    let out = joined(&config);
    assert!(out.contains("form a circular pair (swap)"));
}

#[test]
fn check_multiple_issues() {
    let config = AppConfig {
        groups: vec![
            group(Some("empty"), MappingTable::new()),
            group(Some("duplicates"), table(vec![("CapsLock", "A"), ("Tab", "Tab")])),
            group(Some("more"), table(vec![("CapsLock", "LeftControl"), ("LeftControl", "CapsLock")])),
        ],
    };
    let out = joined(&config);

    assert!(out.contains("has no mappings"));
    assert!(out.contains("remaps to itself (no-op)"));
    assert!(out.contains("CapsLock appears in multiple groups"));
    assert!(out.contains("form a circular pair (swap)"));
}

#[test]
fn findings_are_ordered_by_kind() {
    let config = AppConfig {
        groups: vec![
            group(None, MappingTable::new()),
            group(Some("a"), table(vec![("ctrl+h", "ctrl+h"), ("tab", "escape"), ("escape", "tab")])),
            group(Some("b"), table(vec![("ctrl+h", "left")])),
            group(Some("c"), table(vec![("ctrl+h", "right")])),
        ],
    };
    assert_eq!(
        config.check(),
        vec![
            "group #1 has no mappings".to_string(),
            "LeftControl+H remaps to itself (no-op)".to_string(),
            "LeftControl+H appears in multiple groups".to_string(),
            "Tab and Escape form a circular pair (swap)".to_string(),
        ]
    );
}

// ---------------------------------------------------------------------------
// Laws on concrete values
// ---------------------------------------------------------------------------

#[test]
fn exact_mask_is_among_the_variants() {
    let mods = [Key::RightControl, Key::LeftShift, Key::RightCommand];
    let variants = expand_modifier_bits(&mods);
    // Only the left-side key may be pressed on either side.
    assert_eq!(variants.len(), 2);
    assert!(variants.contains(&compile_modifier_bits(&mods)));
    let mods = [Key::LeftControl, Key::LeftShift, Key::LeftCommand, Key::Tab];
    let variants = expand_modifier_bits(&mods);
    assert_eq!(variants.len(), 8);
    assert!(variants.contains(&compile_modifier_bits(&mods)));
}

#[test]
fn app_mapping_answers_its_trigger() {
    let config = AppConfig {
        groups: vec![RuleGroup {
            name: None,
            apps: vec!["Code".to_string(), "Xcode".to_string()],
            mappings: table(vec![("alt+cmd+j", "down")]),
        }],
    };
    let state = RuntimeState::new(RuntimeLookupCache::compile_from_config(&config, Platform::MacOs), String::new());
    // left alt (bit 4) and left command (bit 6)
    assert!(state.for_app("xcode", 38, (1 << 4) | (1 << 6)).is_some());
    assert!(state.for_app("code", 38, (1 << 5) | (1 << 7)).is_some());
    assert!(state.global(38, (1 << 4) | (1 << 6)).is_none());
}

#[test]
fn reloading_keeps_rules_on_failure() {
    let config = AppConfig { groups: vec![group(None, table(vec![("capslock", "escape")]))] };
    let mut state = RuntimeState::new(RuntimeLookupCache::compile_from_config(&config, Platform::MacOs), String::new());
    assert!(!state.reload_cache(Err::<RuntimeLookupCache, String>("bad yaml".to_string())));
    assert!(state.global(57, 0).is_some());
    let empty = RuntimeLookupCache::compile_from_config(&AppConfig { groups: Vec::new() }, Platform::MacOs);
    assert!(state.reload_cache(Ok::<RuntimeLookupCache, String>(empty)));
    assert!(state.global(57, 0).is_none());
}

#[test]
fn tracking_the_foreground_application() {
    let mut state = RuntimeState::new(
        RuntimeLookupCache::compile_from_config(&AppConfig { groups: Vec::new() }, Platform::MacOs),
        "unknown".to_string(),
    );
    assert!(state.track_active_app("Safari".to_string()));
    assert!(!state.track_active_app("Safari".to_string()));
    assert_eq!(state.active_app(), "Safari");
}
