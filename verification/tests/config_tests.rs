use keymapper::config::{
    parse_key, trigger_to_string, AppConfig, Key, KeyEvent, MappingTable, MappingValue, RuleGroup,
};

// The configuration document is parsed into plain values by the
// application; these helpers build the same values directly.

fn event(s: &str) -> MappingValue {
    MappingValue::Event(s.to_string())
}

fn events(items: &[&str]) -> MappingValue {
    MappingValue::Events(items.iter().map(|s| Some(s.to_string())).collect())
}

fn table(entries: Vec<(&str, MappingValue)>) -> MappingTable {
    MappingTable::from_entries(entries.into_iter().map(|(k, v)| (k.to_string(), v)).collect())
        .unwrap()
}

fn group(name: Option<&str>, apps: &[&str], mappings: MappingTable) -> RuleGroup {
    RuleGroup {
        name: name.map(|n| n.to_string()),
        apps: apps.iter().map(|a| a.to_string()).collect(),
        mappings,
    }
}

#[test]
fn parse_empty_config() {
    // groups: []
    let config = AppConfig { groups: Vec::new() };
    assert!(config.groups.is_empty());
}

#[test]
fn parse_global_group() {
    // - mappings:
    //     capslock: left_control
    let config = AppConfig {
        groups: vec![group(None, &[], table(vec![("capslock", event("left_control"))]))],
    };
    assert_eq!(config.groups.len(), 1);

    let group = &config.groups[0];
    assert!(group.apps.is_empty()); // global

    let mappings = group.mappings.iter();
    let (trigger, outputs) = mappings[0];
    assert!(trigger.modifiers.is_empty());
    assert!(matches!(trigger.base, Key::CapsLock));
    assert_eq!(outputs.len(), 1);
    assert!(outputs[0].modifiers.is_empty());
    assert!(matches!(outputs[0].base, Key::LeftControl));
    assert!(mappings.len() == 1);
}

#[test]
fn parse_app_scoped_group() {
    // - name: "iterm nav"
    //   apps: [iTerm2]
    //   mappings:
    //     ctrl+h: left
    //     ctrl+l: right
    let config = AppConfig {
        groups: vec![group(
            Some("iterm nav"),
            &["iTerm2"],
            table(vec![("ctrl+h", event("left")), ("ctrl+l", event("right"))]),
        )],
    };
    assert_eq!(config.groups.len(), 1);

    let group = &config.groups[0];
    assert_eq!(group.name.as_deref(), Some("iterm nav"));
    assert_eq!(group.apps, vec!["iTerm2".to_string()]);

    let mappings = group.mappings.iter();

    // ctrl+h -> left
    let (trigger, outputs) = mappings[0];
    assert_eq!(trigger.modifiers.len(), 1);
    assert!(matches!(trigger.modifiers[0], Key::LeftControl));
    assert!(matches!(trigger.base, Key::H));
    assert_eq!(outputs.len(), 1);
    assert!(outputs[0].modifiers.is_empty());
    assert!(matches!(outputs[0].base, Key::LeftArrow));

    // ctrl+l -> right
    let (trigger, outputs) = mappings[1];
    assert_eq!(trigger.modifiers.len(), 1);
    assert!(matches!(trigger.base, Key::L));
    assert!(matches!(outputs[0].base, Key::RightArrow));
}

#[test]
fn parse_multi_output() {
    // - mappings:
    //     capslock: [left_control, capslock]
    let config = AppConfig {
        groups: vec![group(
            None,
            &[],
            table(vec![("capslock", events(&["left_control", "capslock"]))]),
        )],
    };
    let group = &config.groups[0];

    let mappings = group.mappings.iter();
    let (_trigger, outputs) = mappings[0];
    assert_eq!(outputs.len(), 2);
}

#[test]
fn parse_chord_output() {
    // A chord output: cmd+l is a single event (hold cmd, press l).
    // - mappings:
    //     optionright: optionleft+l
    let config = AppConfig {
        groups: vec![group(None, &[], table(vec![("optionright", event("optionleft+l"))]))],
    };
    let group = &config.groups[0];

    let mappings = group.mappings.iter();
    let (trigger, outputs) = mappings[0];

    // Trigger: bare OptionRight
    assert!(trigger.modifiers.is_empty());
    assert!(matches!(trigger.base, Key::RightAlt));

    // Output: single event — hold LeftAlt, press L
    assert_eq!(outputs.len(), 1);
    assert_eq!(outputs[0].modifiers.len(), 1);
    assert!(matches!(outputs[0].modifiers[0], Key::LeftAlt));
    assert!(matches!(outputs[0].base, Key::L));
}

#[test]
fn parse_multiple_groups() {
    // - mappings:
    //     capslock: left_control
    //
    // - name: "iterm nav"
    //   apps: [iTerm2]
    //   mappings:
    //     ctrl+h: left
    let config = AppConfig {
        groups: vec![
            group(None, &[], table(vec![("capslock", event("left_control"))])),
            group(Some("iterm nav"), &["iTerm2"], table(vec![("ctrl+h", event("left"))])),
        ],
    };
    assert_eq!(config.groups.len(), 2);
    assert!(config.groups[0].apps.is_empty());
    assert_eq!(config.groups[1].apps.len(), 1);
}

#[test]
fn parse_group_without_mappings() {
    // - name: "placeholder"
    let config = AppConfig { groups: vec![group(Some("placeholder"), &[], MappingTable::new())] };
    assert_eq!(config.groups.len(), 1);
    assert!(config.groups[0].mappings.is_empty());
}

#[test]
fn parse_complex_config() {
    let config = AppConfig {
        groups: vec![
            group(
                None,
                &[],
                table(vec![
                    ("capslock", event("left_control")),
                    ("left_control", events(&["left_control", "capslock"])),
                ]),
            ),
            group(
                Some("iterm nav"),
                &["iTerm2"],
                table(vec![
                    ("ctrl+h", event("left")),
                    ("ctrl+j", event("down")),
                    ("ctrl+k", event("up")),
                    ("ctrl+l", event("right")),
                ]),
            ),
            group(
                Some("global shortcuts"),
                &[],
                table(vec![
                    ("ctrl+shift+left", event("cmd+left")),
                    ("ctrl+shift+right", event("cmd+right")),
                ]),
            ),
        ],
    };
    assert_eq!(config.groups.len(), 3);

    // Global group: capslock swap
    assert!(config.groups[0].apps.is_empty());
    assert_eq!(config.groups[0].mappings.iter().len(), 2);

    // iTerm group
    assert_eq!(config.groups[1].apps, vec!["iTerm2".to_string()]);
    assert_eq!(config.groups[1].mappings.iter().len(), 4);

    // Global shortcuts — chord outputs
    assert!(config.groups[2].apps.is_empty());
    assert_eq!(config.groups[2].mappings.iter().len(), 2);

    for (_trigger, outputs) in config.groups[2].mappings.iter() {
        assert_eq!(outputs.len(), 1);
        assert_eq!(outputs[0].modifiers.len(), 1);
    }
}

#[test]
fn parse_underscored_keys() {
    // Underscores are stripped, so "left_control" == "leftcontrol".
    let config = AppConfig {
        groups: vec![group(None, &[], table(vec![("left_control", event("caps_lock"))]))],
    };
    let group = &config.groups[0];
    let mappings = group.mappings.iter();
    let (trigger, outputs) = mappings[0];
    assert!(matches!(trigger.base, Key::LeftControl));
    assert!(matches!(outputs[0].base, Key::CapsLock));
}

// ---------------------------------------------------------------------------
// Key names and key events
// ---------------------------------------------------------------------------

#[test]
fn key_tokens_are_trimmed_lowercased_and_resolved() {
    assert_eq!(parse_key("  CapsLock \t"), Ok(Key::CapsLock));
    assert_eq!(parse_key("LEFT_CONTROL"), Ok(Key::LeftControl));
    assert_eq!(parse_key("Ctrl"), Ok(Key::LeftControl));
    assert_eq!(parse_key("esc"), Ok(Key::Escape));
    assert_eq!(parse_key("page_down"), Ok(Key::PageDown));
    assert_eq!(parse_key("win"), Ok(Key::LeftCommand));
    assert_eq!(parse_key("F12"), Ok(Key::F12));
    assert_eq!(parse_key("7"), Ok(Key::Number7));
}

#[test]
fn unknown_and_empty_key_tokens_are_errors() {
    assert_eq!(
        parse_key(" NoSuchKey "),
        Err("unknown key name 'NoSuchKey'. Use names like capslock, leftcontrol, a, f1, 1, etc."
            .to_string())
    );
    assert_eq!(parse_key("   "), Err("empty key token in event string".to_string()));
}

#[test]
fn event_strings_name_modifiers_then_base() {
    let e = KeyEvent::parse("cmd+shift+t").unwrap();
    assert_eq!(e.modifiers, vec![Key::LeftCommand, Key::LeftShift]);
    assert_eq!(e.base, Key::T);

    let bare = KeyEvent::parse("leftcontrol").unwrap();
    assert!(bare.modifiers.is_empty());
    assert_eq!(bare.base, Key::LeftControl);
}

#[test]
fn event_string_errors() {
    assert_eq!(KeyEvent::parse("  "), Err("empty key event string".to_string()));
    assert_eq!(KeyEvent::parse("ctrl+"), Err("empty key token in event string".to_string()));
    assert_eq!(
        KeyEvent::parse("bogus+a"),
        Err("unknown key name 'bogus'. Use names like capslock, leftcontrol, a, f1, 1, etc."
            .to_string())
    );
    // The base key is parsed before the modifiers.
    assert_eq!(
        KeyEvent::parse("bogus+nokey"),
        Err("unknown key name 'nokey'. Use names like capslock, leftcontrol, a, f1, 1, etc."
            .to_string())
    );
}

#[test]
fn unicode_white_space_is_trimmed() {
    assert_eq!(parse_key("\u{3000}Tab\u{00A0}"), Ok(Key::Tab));
    assert_eq!(KeyEvent::parse("ctrl +\u{2003}h").map(|e| e.base), Ok(Key::H));
}

#[test]
fn written_events_parse_back() {
    let e = KeyEvent::parse("Ctrl + Alt + Delete").unwrap();
    let text = trigger_to_string(&e);
    assert_eq!(text, "LeftControl+LeftAlt+Delete");
    assert_eq!(KeyEvent::parse(&text), Ok(e));

    let bare = KeyEvent::parse("Return").unwrap();
    assert_eq!(trigger_to_string(&bare), "Return");

    let digit = KeyEvent::parse("rightctrl+number1").unwrap();
    assert_eq!(trigger_to_string(&digit), "RightControl+1");
    assert_eq!(KeyEvent::parse("RightControl+1"), Ok(digit));
}

// ---------------------------------------------------------------------------
// Mapping tables
// ---------------------------------------------------------------------------

#[test]
fn mapping_tables_keep_definition_order_and_replace_in_place() {
    let mut t = table(vec![("a", event("b")), ("c", event("d"))]);
    t.insert(KeyEvent::parse("a").unwrap(), vec![KeyEvent::parse("x").unwrap()]);
    t.insert(KeyEvent::parse("e").unwrap(), vec![KeyEvent::parse("f").unwrap()]);
    let entries = t.iter();
    assert_eq!(entries.len(), 3);
    assert_eq!(entries[0].0.base, Key::A);
    assert_eq!(entries[0].1[0].base, Key::X);
    assert_eq!(entries[1].0.base, Key::C);
    assert_eq!(entries[2].0.base, Key::E);
    assert_eq!(t.len(), 3);
    assert!(t.entry_at(3).is_none());
    assert_eq!(t.entry_at(1).unwrap().1[0].base, Key::D);
}

#[test]
fn mapping_value_errors() {
    let invalid = MappingTable::from_entries(vec![("a".to_string(), MappingValue::Invalid)]);
    assert_eq!(
        invalid.err(),
        Some("expected an event string or list of event strings".to_string())
    );
    let bad_item = MappingTable::from_entries(vec![(
        "a".to_string(),
        MappingValue::Events(vec![Some("b".to_string()), None]),
    )]);
    assert_eq!(bad_item.err(), Some("expected an event string in output sequence".to_string()));
    let bad_key = MappingTable::from_entries(vec![("BadKeyThatDoesNotExist".to_string(), event("capslock"))]);
    assert!(bad_key.is_err());
}

#[test]
fn add_rule_creates_or_extends_groups() {
    let mut config = AppConfig {
        groups: vec![group(Some("my rules"), &[], table(vec![("capslock", event("leftcontrol"))]))],
    };
    config.add_rule(
        KeyEvent::parse("tab").unwrap(),
        KeyEvent::parse("backspace").unwrap(),
        "my rules",
        None,
    );
    assert_eq!(config.groups.len(), 1);
    assert_eq!(config.groups[0].mappings.len(), 2);

    config.add_rule(
        KeyEvent::parse("ctrl+h").unwrap(),
        KeyEvent::parse("leftarrow").unwrap(),
        "iterm",
        Some(vec!["iTerm2".to_string()]),
    );
    assert_eq!(config.groups.len(), 2);
    assert_eq!(config.groups[1].name.as_deref(), Some("iterm"));
    assert_eq!(config.groups[1].apps, vec!["iTerm2".to_string()]);
    let entries = config.groups[1].mappings.iter();
    assert_eq!(trigger_to_string(entries[0].0), "LeftControl+H");

    // Remapping the same trigger replaces the output in place.
    config.add_rule(
        KeyEvent::parse("tab").unwrap(),
        KeyEvent::parse("escape").unwrap(),
        "my rules",
        Some(vec!["Ignored".to_string()]),
    );
    assert_eq!(config.groups[0].mappings.len(), 2);
    assert_eq!(config.groups[0].mappings.iter()[1].1[0].base, Key::Escape);
    // A group without applications takes the given ones.
    assert_eq!(config.groups[0].apps, vec!["Ignored".to_string()]);
}
