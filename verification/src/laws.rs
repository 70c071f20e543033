//! Properties of the library as a whole: how writing and reading key events
//! fit together, and how compiled rules answer lookups.
use vstd::prelude::*;

use crate::config::{
    canonical_of, event_string, written_name, find_group, insert_entry, is_first_named, keys_distinct,
    lemma_insert_keeps_keys_distinct, modifier_prefix, spec_add_rule, spec_parse_event,
    spec_parse_key, spec_parse_keys, spec_parse_output_items, split_plus, EventView, GroupView, Key, TableView,
};
use crate::key_table::{law_tables_read_alike, native_code, Platform};
use crate::key_names::spec_resolve_alias;
use crate::os::{linux, windows};
use crate::key_names::{lemma_alias_literals_1, lemma_alias_literals_2, lemma_alias_literals_3};
use crate::mapping_cache::{
    app_pushes, apply_pushes, config_pushes, entry_rules, extend_bits, lemma_apply_pushes_concat, lowered,
    natives_of,
    is_right_side, rules_of, spec_compile_bits, spec_expand, spec_global_rules, spec_process_rules,
    table_rules, variant_bits, NativeKey, RuleView,
};
use crate::os::macos::{
    lemma_from_canonical_inverts_as_str, lemma_key_name_literals_1, lemma_key_name_literals_2,
    lemma_key_name_literals_3, lemma_key_name_literals_4, lemma_key_name_literals_5,
    lemma_modifier_bit_in_positions, track_modifier,
};
use crate::platform::macos::{
    lemma_key_name_literals_1 as title_literals_1, lemma_key_name_literals_2 as title_literals_2,
    lemma_key_name_literals_3 as title_literals_3, lemma_key_name_literals_4 as title_literals_4,
};
use crate::diagnostics::{
    duplicate_findings, duplicate_message, empty_group_findings, in_groups, in_table, per_group, spec_diagnostics,
};
use crate::state::{
    lemma_find_match_first_rule, app_rules, rule_matches, spec_find_match, spec_first_rule, spec_resolve,
};
use crate::text::{all_ascii, ascii_lower_char, remove_char, to_lower, trim, trim_start, white_space};

verus! {

// ---------------------------------------------------------------------------
// Key names are plain
// ---------------------------------------------------------------------------

/// A character of a plain name: a lower-case ASCII letter or a digit.
pub open spec fn plain_char(c: char) -> bool {
    ('a' <= c && c <= 'z') || ('0' <= c && c <= '9')
}

/// A non-empty name of lower-case ASCII letters and digits.
pub open spec fn plain_name(s: Seq<char>) -> bool {
    s.len() > 0 && forall|i: int| 0 <= i < s.len() ==> plain_char(#[trigger] s[i])
}

/// A plain name has nothing to trim.
proof fn lemma_plain_trim(s: Seq<char>)
    requires
        plain_name(s),
    ensures
        trim(s) == s,
{
    assert(plain_char(s[0]));
    assert(!white_space(s[0]));
    assert(trim_start(s) == s);
    assert(plain_char(s.last()));
    assert(!white_space(s.last()));
}

/// Removing a character that does not occur changes nothing.
proof fn lemma_remove_absent(s: Seq<char>, c: char)
    requires
        forall|i: int| 0 <= i < s.len() ==> #[trigger] s[i] != c,
    ensures
        remove_char(s, c) == s,
    decreases s.len(),
{
    if s.len() > 0 {
        assert forall|i: int| 0 <= i < s.drop_last().len() implies #[trigger] s.drop_last()[i] != c by {
            assert(s.drop_last()[i] == s[i]);
        }
        lemma_remove_absent(s.drop_last(), c);
        assert(s.drop_last().push(s.last()) =~= s);
    }
}

/// A plain name is already lower-case and holds no underscore.
proof fn lemma_plain_normal(s: Seq<char>)
    requires
        plain_name(s),
    ensures
        remove_char(s, '_') == s,
        to_lower(s) == s,
{
    assert forall|i: int| 0 <= i < s.len() implies #[trigger] s[i] != '_' by {
        assert(plain_char(s[i]));
    }
    lemma_remove_absent(s, '_');
    assert forall|i: int| 0 <= i < s.len() implies (#[trigger] s[i] as u32) < 0x80 by {
        assert(plain_char(s[i]));
    }
    assert(all_ascii(s));
    assert forall|i: int| 0 <= i < s.len() implies ascii_lower_char(#[trigger] s[i]) == s[i] by {
        assert(plain_char(s[i]));
    }
    assert(s.map_values(|c: char| ascii_lower_char(c)) =~= s);
}

/// The canonical name of every key is plain, and looking it up as an alias
/// leads back to it.
pub proof fn lemma_key_name_plain(k: Key)
    ensures
        plain_name(k.spec_name()),
        canonical_of(k.spec_name()) == k.spec_name(),
{
    lemma_key_name_literals_1();
    lemma_key_name_literals_2();
    lemma_key_name_literals_3();
    lemma_key_name_literals_4();
    lemma_key_name_literals_5();
    lemma_alias_literals_1();
    lemma_alias_literals_2();
    lemma_alias_literals_3();
    let s = k.spec_name();
    assert forall|i: int| 0 <= i < s.len() implies plain_char(#[trigger] s[i]) by {
        match k {
            _ => {},
        }
    }
}

/// Every key's canonical name parses back to the key.
pub proof fn law_canonical_name_parses(k: Key)
    ensures
        spec_parse_key(k.spec_name()) == Ok::<Key, Seq<char>>(k),
{
    lemma_key_name_plain(k);
    lemma_plain_trim(k.spec_name());
    lemma_plain_normal(k.spec_name());
    lemma_from_canonical_inverts_as_str(k);
}

/// A character of a written name: an ASCII letter or a digit.
pub open spec fn name_char(c: char) -> bool {
    ('a' <= c && c <= 'z') || ('A' <= c && c <= 'Z') || ('0' <= c && c <= '9')
}

/// The written name of every key is made of ASCII letters and digits and
/// lower-cases to the key's canonical name.
pub proof fn lemma_written_name(k: Key)
    ensures
        written_name(k).len() > 0,
        forall|i: int| 0 <= i < written_name(k).len() ==> name_char(#[trigger] written_name(k)[i]),
        to_lower(written_name(k)) == k.spec_name(),
{
    lemma_key_name_literals_1();
    lemma_key_name_literals_2();
    lemma_key_name_literals_3();
    lemma_key_name_literals_4();
    lemma_key_name_literals_5();
    title_literals_1();
    title_literals_2();
    title_literals_3();
    title_literals_4();
    let w = written_name(k);
    assert forall|i: int| 0 <= i < w.len() implies name_char(#[trigger] w[i]) by {
        match k {
            _ => {},
        }
    }
    assert(all_ascii(w));
    assert(w.map_values(|c: char| ascii_lower_char(c)) =~= k.spec_name()) by {
        match k {
            _ => {},
        }
    }
}

/// Every key's written name parses back to the key.
pub proof fn lemma_parse_written_name(k: Key)
    ensures
        spec_parse_key(written_name(k)) == Ok::<Key, Seq<char>>(k),
        trim(written_name(k)) == written_name(k),
{
    let w = written_name(k);
    lemma_written_name(k);
    assert(!white_space(w[0])) by {
        assert(name_char(w[0]));
    }
    assert(!white_space(w.last())) by {
        assert(name_char(w[w.len() - 1]));
    }
    assert(trim_start(w) == w);
    assert forall|i: int| 0 <= i < w.len() implies #[trigger] w[i] != '_' by {
        assert(name_char(w[i]));
    }
    lemma_remove_absent(w, '_');
    lemma_key_name_plain(k);
    lemma_from_canonical_inverts_as_str(k);
}

/// What holds of a key's canonical name as an alias target.
proof fn lemma_alias_target(k: Key)
    ensures
        plain_name(k.spec_name()),
        to_lower(k.spec_name()) == k.spec_name(),
        Key::spec_from_canonical(k.spec_name()) == Some(k),
        spec_resolve_alias(k.spec_name()) is None || spec_resolve_alias(k.spec_name()) == Some(k.spec_name()),
{
    lemma_key_name_plain(k);
    lemma_plain_normal(k.spec_name());
    lemma_from_canonical_inverts_as_str(k);
}

/// Every alias stands for a name that all three key tables read: a plain
/// lower-case canonical name, which looked up as an alias again gives
/// itself or nothing.
pub proof fn law_alias_targets_are_keys(s: Seq<char>)
    ensures
        spec_resolve_alias(s) matches Some(r) ==> {
            &&& plain_name(r)
            &&& to_lower(r) == r
            &&& Key::spec_from_canonical(r) is Some
            &&& linux::Key::spec_from_canonical(r) is Some
            &&& windows::Key::spec_from_canonical(r) is Some
            &&& (spec_resolve_alias(r) is None || spec_resolve_alias(r) == Some(r))
        },
{
    if spec_resolve_alias(s) is Some {
        let r = spec_resolve_alias(s)->0;
        if r == "leftcontrol"@ {
            lemma_alias_target(Key::LeftControl);
        } else if r == "rightcontrol"@ {
            lemma_alias_target(Key::RightControl);
        } else if r == "leftshift"@ {
            lemma_alias_target(Key::LeftShift);
        } else if r == "rightshift"@ {
            lemma_alias_target(Key::RightShift);
        } else if r == "leftalt"@ {
            lemma_alias_target(Key::LeftAlt);
        } else if r == "rightalt"@ {
            lemma_alias_target(Key::RightAlt);
        } else if r == "leftcommand"@ {
            lemma_alias_target(Key::LeftCommand);
        } else if r == "rightcommand"@ {
            lemma_alias_target(Key::RightCommand);
        } else if r == "capslock"@ {
            lemma_alias_target(Key::CapsLock);
        } else if r == "return"@ {
            lemma_alias_target(Key::Return);
        } else if r == "escape"@ {
            lemma_alias_target(Key::Escape);
        } else if r == "uparrow"@ {
            lemma_alias_target(Key::UpArrow);
        } else if r == "downarrow"@ {
            lemma_alias_target(Key::DownArrow);
        } else if r == "leftarrow"@ {
            lemma_alias_target(Key::LeftArrow);
        } else if r == "rightarrow"@ {
            lemma_alias_target(Key::RightArrow);
        } else if r == "pageup"@ {
            lemma_alias_target(Key::PageUp);
        } else if r == "pagedown"@ {
            lemma_alias_target(Key::PageDown);
        }
        law_tables_read_alike(r);
    }
}

/// Every shared alias stands for the canonical name of the key it names:
/// the control, shift, alt and command aliases for their sides, `caps`,
/// `enter`, `esc`, the arrow and page aliases, and `win` for the command
/// key.
pub proof fn law_alias_table()
    ensures
        spec_resolve_alias("ctrl"@) == Some(Key::LeftControl.spec_name()),
        spec_resolve_alias("leftctrl"@) == Some(Key::LeftControl.spec_name()),
        spec_resolve_alias("leftcontrol"@) == Some(Key::LeftControl.spec_name()),
        spec_resolve_alias("rightctrl"@) == Some(Key::RightControl.spec_name()),
        spec_resolve_alias("rightcontrol"@) == Some(Key::RightControl.spec_name()),
        spec_resolve_alias("shift"@) == Some(Key::LeftShift.spec_name()),
        spec_resolve_alias("leftshift"@) == Some(Key::LeftShift.spec_name()),
        spec_resolve_alias("rightshift"@) == Some(Key::RightShift.spec_name()),
        spec_resolve_alias("alt"@) == Some(Key::LeftAlt.spec_name()),
        spec_resolve_alias("leftalt"@) == Some(Key::LeftAlt.spec_name()),
        spec_resolve_alias("optionleft"@) == Some(Key::LeftAlt.spec_name()),
        spec_resolve_alias("rightalt"@) == Some(Key::RightAlt.spec_name()),
        spec_resolve_alias("rightoption"@) == Some(Key::RightAlt.spec_name()),
        spec_resolve_alias("optionright"@) == Some(Key::RightAlt.spec_name()),
        spec_resolve_alias("cmd"@) == Some(Key::LeftCommand.spec_name()),
        spec_resolve_alias("command"@) == Some(Key::LeftCommand.spec_name()),
        spec_resolve_alias("leftcmd"@) == Some(Key::LeftCommand.spec_name()),
        spec_resolve_alias("leftcommand"@) == Some(Key::LeftCommand.spec_name()),
        spec_resolve_alias("super"@) == Some(Key::LeftCommand.spec_name()),
        spec_resolve_alias("leftsuper"@) == Some(Key::LeftCommand.spec_name()),
        spec_resolve_alias("rightcmd"@) == Some(Key::RightCommand.spec_name()),
        spec_resolve_alias("rightcommand"@) == Some(Key::RightCommand.spec_name()),
        spec_resolve_alias("rightsuper"@) == Some(Key::RightCommand.spec_name()),
        spec_resolve_alias("caps"@) == Some(Key::CapsLock.spec_name()),
        spec_resolve_alias("capslock"@) == Some(Key::CapsLock.spec_name()),
        spec_resolve_alias("enter"@) == Some(Key::Return.spec_name()),
        spec_resolve_alias("esc"@) == Some(Key::Escape.spec_name()),
        spec_resolve_alias("up"@) == Some(Key::UpArrow.spec_name()),
        spec_resolve_alias("uparrow"@) == Some(Key::UpArrow.spec_name()),
        spec_resolve_alias("up_arrow"@) == Some(Key::UpArrow.spec_name()),
        spec_resolve_alias("down"@) == Some(Key::DownArrow.spec_name()),
        spec_resolve_alias("downarrow"@) == Some(Key::DownArrow.spec_name()),
        spec_resolve_alias("down_arrow"@) == Some(Key::DownArrow.spec_name()),
        spec_resolve_alias("left"@) == Some(Key::LeftArrow.spec_name()),
        spec_resolve_alias("leftarrow"@) == Some(Key::LeftArrow.spec_name()),
        spec_resolve_alias("left_arrow"@) == Some(Key::LeftArrow.spec_name()),
        spec_resolve_alias("right"@) == Some(Key::RightArrow.spec_name()),
        spec_resolve_alias("rightarrow"@) == Some(Key::RightArrow.spec_name()),
        spec_resolve_alias("right_arrow"@) == Some(Key::RightArrow.spec_name()),
        spec_resolve_alias("pageup"@) == Some(Key::PageUp.spec_name()),
        spec_resolve_alias("page_up"@) == Some(Key::PageUp.spec_name()),
        spec_resolve_alias("pgup"@) == Some(Key::PageUp.spec_name()),
        spec_resolve_alias("pagedown"@) == Some(Key::PageDown.spec_name()),
        spec_resolve_alias("page_down"@) == Some(Key::PageDown.spec_name()),
        spec_resolve_alias("pgdn"@) == Some(Key::PageDown.spec_name()),
        spec_resolve_alias("leftwin"@) == Some(Key::LeftCommand.spec_name()),
        spec_resolve_alias("win"@) == Some(Key::LeftCommand.spec_name()),
{
    lemma_alias_literals_1();
    lemma_alias_literals_2();
    lemma_alias_literals_3();
}

/// A plain name parses as the key its canonical name names.
proof fn lemma_alias_parses(a: Seq<char>, k: Key)
    requires
        plain_name(a),
        spec_resolve_alias(a) == Some(k.spec_name()),
    ensures
        spec_parse_key(a) == Ok::<Key, Seq<char>>(k),
{
    lemma_plain_trim(a);
    lemma_plain_normal(a);
    lemma_from_canonical_inverts_as_str(k);
}

/// Shared aliases parse as the keys they name (part 1).
proof fn lemma_aliases_parse_1()
    ensures
        spec_parse_key("ctrl"@) == Ok::<Key, Seq<char>>(Key::LeftControl),
        spec_parse_key("leftctrl"@) == Ok::<Key, Seq<char>>(Key::LeftControl),
        spec_parse_key("leftcontrol"@) == Ok::<Key, Seq<char>>(Key::LeftControl),
        spec_parse_key("rightctrl"@) == Ok::<Key, Seq<char>>(Key::RightControl),
{
    law_alias_table();
    assert(plain_name("ctrl"@)) by {
        lemma_alias_literals_1();
        lemma_alias_literals_2();
        lemma_alias_literals_3();
    }
    lemma_alias_parses("ctrl"@, Key::LeftControl);
    assert(plain_name("leftctrl"@)) by {
        lemma_alias_literals_1();
        lemma_alias_literals_2();
        lemma_alias_literals_3();
    }
    lemma_alias_parses("leftctrl"@, Key::LeftControl);
    assert(plain_name("leftcontrol"@)) by {
        lemma_alias_literals_1();
        lemma_alias_literals_2();
        lemma_alias_literals_3();
    }
    lemma_alias_parses("leftcontrol"@, Key::LeftControl);
    assert(plain_name("rightctrl"@)) by {
        lemma_alias_literals_1();
        lemma_alias_literals_2();
        lemma_alias_literals_3();
    }
    lemma_alias_parses("rightctrl"@, Key::RightControl);
}

/// Shared aliases parse as the keys they name (part 2).
proof fn lemma_aliases_parse_2()
    ensures
        spec_parse_key("rightcontrol"@) == Ok::<Key, Seq<char>>(Key::RightControl),
        spec_parse_key("shift"@) == Ok::<Key, Seq<char>>(Key::LeftShift),
        spec_parse_key("leftshift"@) == Ok::<Key, Seq<char>>(Key::LeftShift),
        spec_parse_key("rightshift"@) == Ok::<Key, Seq<char>>(Key::RightShift),
{
    law_alias_table();
    assert(plain_name("rightcontrol"@)) by {
        lemma_alias_literals_1();
        lemma_alias_literals_2();
        lemma_alias_literals_3();
    }
    lemma_alias_parses("rightcontrol"@, Key::RightControl);
    assert(plain_name("shift"@)) by {
        lemma_alias_literals_1();
        lemma_alias_literals_2();
        lemma_alias_literals_3();
    }
    lemma_alias_parses("shift"@, Key::LeftShift);
    assert(plain_name("leftshift"@)) by {
        lemma_alias_literals_1();
        lemma_alias_literals_2();
        lemma_alias_literals_3();
    }
    lemma_alias_parses("leftshift"@, Key::LeftShift);
    assert(plain_name("rightshift"@)) by {
        lemma_alias_literals_1();
        lemma_alias_literals_2();
        lemma_alias_literals_3();
    }
    lemma_alias_parses("rightshift"@, Key::RightShift);
}

/// Shared aliases parse as the keys they name (part 3).
proof fn lemma_aliases_parse_3()
    ensures
        spec_parse_key("alt"@) == Ok::<Key, Seq<char>>(Key::LeftAlt),
        spec_parse_key("leftalt"@) == Ok::<Key, Seq<char>>(Key::LeftAlt),
        spec_parse_key("optionleft"@) == Ok::<Key, Seq<char>>(Key::LeftAlt),
        spec_parse_key("rightalt"@) == Ok::<Key, Seq<char>>(Key::RightAlt),
{
    law_alias_table();
    assert(plain_name("alt"@)) by {
        lemma_alias_literals_1();
        lemma_alias_literals_2();
        lemma_alias_literals_3();
    }
    lemma_alias_parses("alt"@, Key::LeftAlt);
    assert(plain_name("leftalt"@)) by {
        lemma_alias_literals_1();
        lemma_alias_literals_2();
        lemma_alias_literals_3();
    }
    lemma_alias_parses("leftalt"@, Key::LeftAlt);
    assert(plain_name("optionleft"@)) by {
        lemma_alias_literals_1();
        lemma_alias_literals_2();
        lemma_alias_literals_3();
    }
    lemma_alias_parses("optionleft"@, Key::LeftAlt);
    assert(plain_name("rightalt"@)) by {
        lemma_alias_literals_1();
        lemma_alias_literals_2();
        lemma_alias_literals_3();
    }
    lemma_alias_parses("rightalt"@, Key::RightAlt);
}

/// Shared aliases parse as the keys they name (part 4).
proof fn lemma_aliases_parse_4()
    ensures
        spec_parse_key("rightoption"@) == Ok::<Key, Seq<char>>(Key::RightAlt),
        spec_parse_key("optionright"@) == Ok::<Key, Seq<char>>(Key::RightAlt),
        spec_parse_key("cmd"@) == Ok::<Key, Seq<char>>(Key::LeftCommand),
        spec_parse_key("command"@) == Ok::<Key, Seq<char>>(Key::LeftCommand),
{
    law_alias_table();
    assert(plain_name("rightoption"@)) by {
        lemma_alias_literals_1();
        lemma_alias_literals_2();
        lemma_alias_literals_3();
    }
    lemma_alias_parses("rightoption"@, Key::RightAlt);
    assert(plain_name("optionright"@)) by {
        lemma_alias_literals_1();
        lemma_alias_literals_2();
        lemma_alias_literals_3();
    }
    lemma_alias_parses("optionright"@, Key::RightAlt);
    assert(plain_name("cmd"@)) by {
        lemma_alias_literals_1();
        lemma_alias_literals_2();
        lemma_alias_literals_3();
    }
    lemma_alias_parses("cmd"@, Key::LeftCommand);
    assert(plain_name("command"@)) by {
        lemma_alias_literals_1();
        lemma_alias_literals_2();
        lemma_alias_literals_3();
    }
    lemma_alias_parses("command"@, Key::LeftCommand);
}

/// Shared aliases parse as the keys they name (part 5).
proof fn lemma_aliases_parse_5()
    ensures
        spec_parse_key("leftcmd"@) == Ok::<Key, Seq<char>>(Key::LeftCommand),
        spec_parse_key("leftcommand"@) == Ok::<Key, Seq<char>>(Key::LeftCommand),
        spec_parse_key("super"@) == Ok::<Key, Seq<char>>(Key::LeftCommand),
        spec_parse_key("leftsuper"@) == Ok::<Key, Seq<char>>(Key::LeftCommand),
{
    law_alias_table();
    assert(plain_name("leftcmd"@)) by {
        lemma_alias_literals_1();
        lemma_alias_literals_2();
        lemma_alias_literals_3();
    }
    lemma_alias_parses("leftcmd"@, Key::LeftCommand);
    assert(plain_name("leftcommand"@)) by {
        lemma_alias_literals_1();
        lemma_alias_literals_2();
        lemma_alias_literals_3();
    }
    lemma_alias_parses("leftcommand"@, Key::LeftCommand);
    assert(plain_name("super"@)) by {
        lemma_alias_literals_1();
        lemma_alias_literals_2();
        lemma_alias_literals_3();
    }
    lemma_alias_parses("super"@, Key::LeftCommand);
    assert(plain_name("leftsuper"@)) by {
        lemma_alias_literals_1();
        lemma_alias_literals_2();
        lemma_alias_literals_3();
    }
    lemma_alias_parses("leftsuper"@, Key::LeftCommand);
}

/// Shared aliases parse as the keys they name (part 6).
proof fn lemma_aliases_parse_6()
    ensures
        spec_parse_key("rightcmd"@) == Ok::<Key, Seq<char>>(Key::RightCommand),
        spec_parse_key("rightcommand"@) == Ok::<Key, Seq<char>>(Key::RightCommand),
        spec_parse_key("rightsuper"@) == Ok::<Key, Seq<char>>(Key::RightCommand),
        spec_parse_key("caps"@) == Ok::<Key, Seq<char>>(Key::CapsLock),
{
    law_alias_table();
    assert(plain_name("rightcmd"@)) by {
        lemma_alias_literals_1();
        lemma_alias_literals_2();
        lemma_alias_literals_3();
    }
    lemma_alias_parses("rightcmd"@, Key::RightCommand);
    assert(plain_name("rightcommand"@)) by {
        lemma_alias_literals_1();
        lemma_alias_literals_2();
        lemma_alias_literals_3();
    }
    lemma_alias_parses("rightcommand"@, Key::RightCommand);
    assert(plain_name("rightsuper"@)) by {
        lemma_alias_literals_1();
        lemma_alias_literals_2();
        lemma_alias_literals_3();
    }
    lemma_alias_parses("rightsuper"@, Key::RightCommand);
    assert(plain_name("caps"@)) by {
        lemma_alias_literals_1();
        lemma_alias_literals_2();
        lemma_alias_literals_3();
    }
    lemma_alias_parses("caps"@, Key::CapsLock);
}

/// Shared aliases parse as the keys they name (part 7).
proof fn lemma_aliases_parse_7()
    ensures
        spec_parse_key("capslock"@) == Ok::<Key, Seq<char>>(Key::CapsLock),
        spec_parse_key("enter"@) == Ok::<Key, Seq<char>>(Key::Return),
        spec_parse_key("esc"@) == Ok::<Key, Seq<char>>(Key::Escape),
        spec_parse_key("up"@) == Ok::<Key, Seq<char>>(Key::UpArrow),
{
    law_alias_table();
    assert(plain_name("capslock"@)) by {
        lemma_alias_literals_1();
        lemma_alias_literals_2();
        lemma_alias_literals_3();
    }
    lemma_alias_parses("capslock"@, Key::CapsLock);
    assert(plain_name("enter"@)) by {
        lemma_alias_literals_1();
        lemma_alias_literals_2();
        lemma_alias_literals_3();
    }
    lemma_alias_parses("enter"@, Key::Return);
    assert(plain_name("esc"@)) by {
        lemma_alias_literals_1();
        lemma_alias_literals_2();
        lemma_alias_literals_3();
    }
    lemma_alias_parses("esc"@, Key::Escape);
    assert(plain_name("up"@)) by {
        lemma_alias_literals_1();
        lemma_alias_literals_2();
        lemma_alias_literals_3();
    }
    lemma_alias_parses("up"@, Key::UpArrow);
}

/// Shared aliases parse as the keys they name (part 8).
proof fn lemma_aliases_parse_8()
    ensures
        spec_parse_key("uparrow"@) == Ok::<Key, Seq<char>>(Key::UpArrow),
        spec_parse_key("down"@) == Ok::<Key, Seq<char>>(Key::DownArrow),
        spec_parse_key("downarrow"@) == Ok::<Key, Seq<char>>(Key::DownArrow),
        spec_parse_key("left"@) == Ok::<Key, Seq<char>>(Key::LeftArrow),
{
    law_alias_table();
    assert(plain_name("uparrow"@)) by {
        lemma_alias_literals_1();
        lemma_alias_literals_2();
        lemma_alias_literals_3();
    }
    lemma_alias_parses("uparrow"@, Key::UpArrow);
    assert(plain_name("down"@)) by {
        lemma_alias_literals_1();
        lemma_alias_literals_2();
        lemma_alias_literals_3();
    }
    lemma_alias_parses("down"@, Key::DownArrow);
    assert(plain_name("downarrow"@)) by {
        lemma_alias_literals_1();
        lemma_alias_literals_2();
        lemma_alias_literals_3();
    }
    lemma_alias_parses("downarrow"@, Key::DownArrow);
    assert(plain_name("left"@)) by {
        lemma_alias_literals_1();
        lemma_alias_literals_2();
        lemma_alias_literals_3();
    }
    lemma_alias_parses("left"@, Key::LeftArrow);
}

/// Shared aliases parse as the keys they name (part 9).
proof fn lemma_aliases_parse_9()
    ensures
        spec_parse_key("leftarrow"@) == Ok::<Key, Seq<char>>(Key::LeftArrow),
        spec_parse_key("right"@) == Ok::<Key, Seq<char>>(Key::RightArrow),
        spec_parse_key("rightarrow"@) == Ok::<Key, Seq<char>>(Key::RightArrow),
        spec_parse_key("pageup"@) == Ok::<Key, Seq<char>>(Key::PageUp),
{
    law_alias_table();
    assert(plain_name("leftarrow"@)) by {
        lemma_alias_literals_1();
        lemma_alias_literals_2();
        lemma_alias_literals_3();
    }
    lemma_alias_parses("leftarrow"@, Key::LeftArrow);
    assert(plain_name("right"@)) by {
        lemma_alias_literals_1();
        lemma_alias_literals_2();
        lemma_alias_literals_3();
    }
    lemma_alias_parses("right"@, Key::RightArrow);
    assert(plain_name("rightarrow"@)) by {
        lemma_alias_literals_1();
        lemma_alias_literals_2();
        lemma_alias_literals_3();
    }
    lemma_alias_parses("rightarrow"@, Key::RightArrow);
    assert(plain_name("pageup"@)) by {
        lemma_alias_literals_1();
        lemma_alias_literals_2();
        lemma_alias_literals_3();
    }
    lemma_alias_parses("pageup"@, Key::PageUp);
}

/// Shared aliases parse as the keys they name (part 10).
proof fn lemma_aliases_parse_10()
    ensures
        spec_parse_key("pgup"@) == Ok::<Key, Seq<char>>(Key::PageUp),
        spec_parse_key("pagedown"@) == Ok::<Key, Seq<char>>(Key::PageDown),
        spec_parse_key("pgdn"@) == Ok::<Key, Seq<char>>(Key::PageDown),
        spec_parse_key("leftwin"@) == Ok::<Key, Seq<char>>(Key::LeftCommand),
{
    law_alias_table();
    assert(plain_name("pgup"@)) by {
        lemma_alias_literals_1();
        lemma_alias_literals_2();
        lemma_alias_literals_3();
    }
    lemma_alias_parses("pgup"@, Key::PageUp);
    assert(plain_name("pagedown"@)) by {
        lemma_alias_literals_1();
        lemma_alias_literals_2();
        lemma_alias_literals_3();
    }
    lemma_alias_parses("pagedown"@, Key::PageDown);
    assert(plain_name("pgdn"@)) by {
        lemma_alias_literals_1();
        lemma_alias_literals_2();
        lemma_alias_literals_3();
    }
    lemma_alias_parses("pgdn"@, Key::PageDown);
    assert(plain_name("leftwin"@)) by {
        lemma_alias_literals_1();
        lemma_alias_literals_2();
        lemma_alias_literals_3();
    }
    lemma_alias_parses("leftwin"@, Key::LeftCommand);
}

/// Shared aliases parse as the keys they name (part 11).
proof fn lemma_aliases_parse_11()
    ensures
        spec_parse_key("win"@) == Ok::<Key, Seq<char>>(Key::LeftCommand),
{
    law_alias_table();
    assert(plain_name("win"@)) by {
        lemma_alias_literals_1();
        lemma_alias_literals_2();
        lemma_alias_literals_3();
    }
    lemma_alias_parses("win"@, Key::LeftCommand);
}

/// Every shared alias written without underscores parses as the key it
/// names.
pub proof fn law_aliases_parse()
    ensures
        spec_parse_key("ctrl"@) == Ok::<Key, Seq<char>>(Key::LeftControl),
        spec_parse_key("leftctrl"@) == Ok::<Key, Seq<char>>(Key::LeftControl),
        spec_parse_key("leftcontrol"@) == Ok::<Key, Seq<char>>(Key::LeftControl),
        spec_parse_key("rightctrl"@) == Ok::<Key, Seq<char>>(Key::RightControl),
        spec_parse_key("rightcontrol"@) == Ok::<Key, Seq<char>>(Key::RightControl),
        spec_parse_key("shift"@) == Ok::<Key, Seq<char>>(Key::LeftShift),
        spec_parse_key("leftshift"@) == Ok::<Key, Seq<char>>(Key::LeftShift),
        spec_parse_key("rightshift"@) == Ok::<Key, Seq<char>>(Key::RightShift),
        spec_parse_key("alt"@) == Ok::<Key, Seq<char>>(Key::LeftAlt),
        spec_parse_key("leftalt"@) == Ok::<Key, Seq<char>>(Key::LeftAlt),
        spec_parse_key("optionleft"@) == Ok::<Key, Seq<char>>(Key::LeftAlt),
        spec_parse_key("rightalt"@) == Ok::<Key, Seq<char>>(Key::RightAlt),
        spec_parse_key("rightoption"@) == Ok::<Key, Seq<char>>(Key::RightAlt),
        spec_parse_key("optionright"@) == Ok::<Key, Seq<char>>(Key::RightAlt),
        spec_parse_key("cmd"@) == Ok::<Key, Seq<char>>(Key::LeftCommand),
        spec_parse_key("command"@) == Ok::<Key, Seq<char>>(Key::LeftCommand),
        spec_parse_key("leftcmd"@) == Ok::<Key, Seq<char>>(Key::LeftCommand),
        spec_parse_key("leftcommand"@) == Ok::<Key, Seq<char>>(Key::LeftCommand),
        spec_parse_key("super"@) == Ok::<Key, Seq<char>>(Key::LeftCommand),
        spec_parse_key("leftsuper"@) == Ok::<Key, Seq<char>>(Key::LeftCommand),
        spec_parse_key("rightcmd"@) == Ok::<Key, Seq<char>>(Key::RightCommand),
        spec_parse_key("rightcommand"@) == Ok::<Key, Seq<char>>(Key::RightCommand),
        spec_parse_key("rightsuper"@) == Ok::<Key, Seq<char>>(Key::RightCommand),
        spec_parse_key("caps"@) == Ok::<Key, Seq<char>>(Key::CapsLock),
        spec_parse_key("capslock"@) == Ok::<Key, Seq<char>>(Key::CapsLock),
        spec_parse_key("enter"@) == Ok::<Key, Seq<char>>(Key::Return),
        spec_parse_key("esc"@) == Ok::<Key, Seq<char>>(Key::Escape),
        spec_parse_key("up"@) == Ok::<Key, Seq<char>>(Key::UpArrow),
        spec_parse_key("uparrow"@) == Ok::<Key, Seq<char>>(Key::UpArrow),
        spec_parse_key("down"@) == Ok::<Key, Seq<char>>(Key::DownArrow),
        spec_parse_key("downarrow"@) == Ok::<Key, Seq<char>>(Key::DownArrow),
        spec_parse_key("left"@) == Ok::<Key, Seq<char>>(Key::LeftArrow),
        spec_parse_key("leftarrow"@) == Ok::<Key, Seq<char>>(Key::LeftArrow),
        spec_parse_key("right"@) == Ok::<Key, Seq<char>>(Key::RightArrow),
        spec_parse_key("rightarrow"@) == Ok::<Key, Seq<char>>(Key::RightArrow),
        spec_parse_key("pageup"@) == Ok::<Key, Seq<char>>(Key::PageUp),
        spec_parse_key("pgup"@) == Ok::<Key, Seq<char>>(Key::PageUp),
        spec_parse_key("pagedown"@) == Ok::<Key, Seq<char>>(Key::PageDown),
        spec_parse_key("pgdn"@) == Ok::<Key, Seq<char>>(Key::PageDown),
        spec_parse_key("leftwin"@) == Ok::<Key, Seq<char>>(Key::LeftCommand),
        spec_parse_key("win"@) == Ok::<Key, Seq<char>>(Key::LeftCommand),
{
    lemma_aliases_parse_1();
    lemma_aliases_parse_2();
    lemma_aliases_parse_3();
    lemma_aliases_parse_4();
    lemma_aliases_parse_5();
    lemma_aliases_parse_6();
    lemma_aliases_parse_7();
    lemma_aliases_parse_8();
    lemma_aliases_parse_9();
    lemma_aliases_parse_10();
    lemma_aliases_parse_11();
}

// ---------------------------------------------------------------------------
// Splitting written events
// ---------------------------------------------------------------------------

/// The written names of a list of keys.
pub open spec fn key_names_of(ks: Seq<Key>) -> Seq<Seq<char>> {
    ks.map_values(|k: Key| written_name(k))
}

/// Appending text without `+` extends the last piece.
proof fn lemma_split_append(s: Seq<char>, t: Seq<char>)
    requires
        forall|i: int| 0 <= i < t.len() ==> #[trigger] t[i] != '+',
    ensures
        split_plus(s + t) == split_plus(s).update(
            split_plus(s).len() - 1,
            split_plus(s).last() + t,
        ),
        split_plus(s + t).len() == split_plus(s).len(),
    decreases t.len(),
{
    crate::config::lemma_split_plus_nonempty(s);
    if t.len() == 0 {
        assert(s + t =~= s);
        assert(split_plus(s).last() + t =~= split_plus(s).last());
        assert(split_plus(s).update(split_plus(s).len() - 1, split_plus(s).last()) =~= split_plus(s));
    } else {
        let t0 = t.drop_last();
        assert forall|i: int| 0 <= i < t0.len() implies #[trigger] t0[i] != '+' by {
            assert(t0[i] == t[i]);
        }
        lemma_split_append(s, t0);
        assert((s + t).drop_last() =~= s + t0);
        assert((s + t).last() == t.last());
        let p = split_plus(s);
        let q = split_plus(s + t0);
        assert(q.last() == p.last() + t0);
        assert(p.last() + t0 + seq![t.last()] =~= p.last() + t);
        assert(q.last().push(t.last()) =~= p.last() + t);
        assert(q.update(q.len() - 1, q.last().push(t.last())) =~= p.update(p.len() - 1, p.last() + t));
    }
}

/// A `+` starts a new, empty piece.
proof fn lemma_split_plus_sign(s: Seq<char>)
    ensures
        split_plus(s + "+"@) == split_plus(s).push(Seq::<char>::empty()),
{
    reveal_strlit("+");
    assert((s + "+"@).drop_last() =~= s);
}

/// Splitting the modifier part of a written event gives the modifier names
/// and an empty last piece.
proof fn lemma_split_prefix(ms: Seq<Key>)
    ensures
        split_plus(modifier_prefix(ms)) == key_names_of(ms).push(Seq::<char>::empty()),
    decreases ms.len(),
{
    if ms.len() == 0 {
        assert(modifier_prefix(ms) =~= Seq::<char>::empty());
        assert(key_names_of(ms).push(Seq::<char>::empty()) =~= seq![Seq::<char>::empty()]);
    } else {
        let m0 = ms.drop_last();
        let name = written_name(ms.last());
        lemma_split_prefix(m0);
        lemma_written_name(ms.last());
        assert forall|i: int| 0 <= i < name.len() implies #[trigger] name[i] != '+' by {
            assert(name_char(name[i]));
        }
        lemma_split_append(modifier_prefix(m0), name);
        lemma_split_plus_sign(modifier_prefix(m0) + name);
        let p = key_names_of(m0).push(Seq::<char>::empty());
        assert(Seq::<char>::empty() + name =~= name);
        assert(p.update(p.len() - 1, name) =~= key_names_of(ms));
    }
}

/// Splitting a written event gives the names of its keys, the base last.
pub proof fn lemma_split_event_string(e: EventView)
    ensures
        split_plus(event_string(e)) == key_names_of(e.0).push(written_name(e.1)),
{
    let name = written_name(e.1);
    lemma_split_prefix(e.0);
    lemma_written_name(e.1);
    assert forall|i: int| 0 <= i < name.len() implies #[trigger] name[i] != '+' by {
        assert(name_char(name[i]));
    }
    lemma_split_append(modifier_prefix(e.0), name);
    let p = key_names_of(e.0).push(Seq::<char>::empty());
    assert(Seq::<char>::empty() + name =~= name);
    assert(p.update(p.len() - 1, name) =~= key_names_of(e.0).push(name));
}

/// The written names of a list of keys parse back to the keys.
proof fn lemma_parse_key_names(ms: Seq<Key>)
    ensures
        spec_parse_keys(key_names_of(ms)) == Ok::<Seq<Key>, Seq<char>>(ms),
    decreases ms.len(),
{
    if ms.len() > 0 {
        lemma_parse_key_names(ms.drop_last());
        lemma_parse_written_name(ms.last());
        let ts = key_names_of(ms);
        assert(ts.drop_last() =~= key_names_of(ms.drop_last()));
        assert(ts.last() == written_name(ms.last()));
        assert(ms.drop_last().push(ms.last()) =~= ms);
        assert(spec_parse_keys(ts) == Ok::<Seq<Key>, Seq<char>>(ms.drop_last().push(ms.last())));
    } else {
        assert(key_names_of(ms) =~= Seq::<Seq<char>>::empty());
        assert(ms =~= Seq::<Key>::empty());
    }
}

// ---------------------------------------------------------------------------
// Laws of key events
// ---------------------------------------------------------------------------

/// Writing a key event in its `+`-separated form (keys by their title-case
/// names) and parsing the text gives the event back: modifiers in order,
/// then the base key.
pub proof fn law_event_string_parses_back(e: EventView)
    ensures
        spec_parse_event(event_string(e)) == Ok::<EventView, Seq<char>>(e),
{
    lemma_split_event_string(e);
    let parts = key_names_of(e.0).push(written_name(e.1));
    lemma_parse_written_name(e.1);
    assert(parts.last() == written_name(e.1));
    if e.0.len() == 0 {
        assert(parts.len() == 1);
        assert(parts[0] == written_name(e.1));
        assert(e.0 =~= Seq::<Key>::empty());
    } else {
        lemma_parse_key_names(e.0);
        assert(parts.drop_last() =~= key_names_of(e.0));
    }
}

// ---------------------------------------------------------------------------
// Laws of compiled rules
// ---------------------------------------------------------------------------

/// The number of keys of `ms` that match either side of their modifier
/// group: the left-side modifier keys, which the group aliases name.
pub open spec fn either_side_count(ms: Seq<Key>) -> nat
    decreases ms.len(),
{
    if ms.len() == 0 {
        0
    } else {
        let k = ms.last();
        either_side_count(ms.drop_last()) + if k.spec_modifier_bit() is Some && !is_right_side(k) {
            1nat
        } else {
            0nat
        }
    }
}

/// Two to the power `n`.
pub open spec fn two_to(n: nat) -> nat
    decreases n,
{
    if n == 0 {
        1
    } else {
        2 * two_to((n - 1) as nat)
    }
}

/// Each mask of `rs` combined with each position of `choice` is among the
/// extended masks.
proof fn lemma_extend_contains(rs: Seq<u8>, choice: Seq<u8>, i: int, j: int)
    requires
        0 <= i < rs.len(),
        0 <= j < choice.len(),
    ensures
        extend_bits(rs, choice).contains(rs[i] | (1u8 << choice[j])),
    decreases rs.len(),
{
    let pre = extend_bits(rs.drop_last(), choice);
    let tail = choice.map_values(|b: u8| rs.last() | (1u8 << b));
    assert(extend_bits(rs, choice) == pre + tail);
    if i == rs.len() - 1 {
        assert((pre + tail)[pre.len() + j] == tail[j]);
    } else {
        assert(rs.drop_last()[i] == rs[i]);
        lemma_extend_contains(rs.drop_last(), choice, i, j);
        let k = choose|k: int| 0 <= k < pre.len() && pre[k] == rs[i] | (1u8 << choice[j]);
        assert((pre + tail)[k] == pre[k]);
    }
}

/// The number of extended masks is the product of the two lengths.
proof fn lemma_extend_len(rs: Seq<u8>, choice: Seq<u8>)
    ensures
        extend_bits(rs, choice).len() == rs.len() * choice.len(),
    decreases rs.len(),
{
    if rs.len() > 0 {
        lemma_extend_len(rs.drop_last(), choice);
        assert(rs.len() * choice.len() == (rs.len() - 1) * choice.len() + choice.len()) by (nonlinear_arith);
    }
}

/// Pressing exactly the modifier keys a trigger names matches one of the
/// trigger's compiled variants: the exact mask of the modifiers is among
/// the "either side" masks.
pub proof fn law_exact_mask_is_a_variant(ms: Seq<Key>)
    ensures
        spec_expand(ms).contains(spec_compile_bits(ms)),
    decreases ms.len(),
{
    if ms.len() == 0 {
        assert(spec_expand(ms)[0] == 0u8);
    } else {
        let m0 = ms.drop_last();
        let k = ms.last();
        law_exact_mask_is_a_variant(m0);
        lemma_modifier_bit_in_positions(k);
        let rs = spec_expand(m0);
        let i = choose|i: int| 0 <= i < rs.len() && rs[i] == spec_compile_bits(m0);
        match k.spec_modifier_bit() {
            Some(b) => {
                let ps = variant_bits(k)->0;
                if is_right_side(k) {
                    assert(ps[0] == b);
                    lemma_extend_contains(rs, ps, i, 0);
                } else {
                    assert(ps.contains(b));
                    let j = choose|j: int| 0 <= j < ps.len() && ps[j] == b;
                    lemma_extend_contains(rs, ps, i, j);
                }
            },
            None => {
                assert(!is_right_side(k));
                assert(spec_expand(ms) == rs);
                assert(rs[i] == spec_compile_bits(ms));
            },
        }
    }
}

/// A trigger compiles to `2^n` variants, `n` the number of its left-side
/// modifier keys: each of those may be pressed on either side, while a
/// right-side key keeps its own side and any other key adds nothing.
pub proof fn law_variant_count(ms: Seq<Key>)
    ensures
        spec_expand(ms).len() == two_to(either_side_count(ms)),
    decreases ms.len(),
{
    if ms.len() > 0 {
        let m0 = ms.drop_last();
        let k = ms.last();
        law_variant_count(m0);
        lemma_modifier_bit_in_positions(k);
        let a = spec_expand(m0).len();
        match variant_bits(k) {
            Some(ps) => {
                lemma_extend_len(spec_expand(m0), ps);
                let c = ps.len();
                if is_right_side(k) {
                    assert(c == 1);
                    assert(a * c == a) by (nonlinear_arith)
                        requires
                            c == 1,
                    ;
                } else {
                    assert(c == 2);
                    assert(a * c == 2 * a) by (nonlinear_arith)
                        requires
                            c == 2,
                    ;
                }
            },
            None => {},
        }
    }
}

/// The first matching rule of a list that holds a matching rule exists.
proof fn lemma_find_match_some(rules: Seq<RuleView>, i: int, key: u16, mods: u8)
    requires
        0 <= i < rules.len(),
        rule_matches(rules[i], key, mods),
    ensures
        spec_find_match(rules, key, mods) is Some,
    decreases rules.len(),
{
    if i > 0 && !rule_matches(rules[0], key, mods) {
        assert(rules.drop_first()[i - 1] == rules[i]);
        lemma_find_match_some(rules.drop_first(), i - 1, key, mods);
    }
}

/// A rule compiled from a table entry is among the rules of the table.
proof fn lemma_table_rules_contain(es: TableView, ei: int, r: RuleView, p: Platform, g: usize)
    requires
        0 <= ei < es.len(),
        entry_rules(es[ei].0, es[ei].1, p, g).contains(r),
    ensures
        table_rules(es, p, g).contains(r),
    decreases es.len(),
{
    let pre = table_rules(es.drop_last(), p, g);
    let last = entry_rules(es.last().0, es.last().1, p, g);
    assert(table_rules(es, p, g) == pre + last);
    if ei == es.len() - 1 {
        let k = choose|k: int| 0 <= k < last.len() && last[k] == r;
        assert((pre + last)[pre.len() + k] == r);
    } else {
        assert(es.drop_last()[ei] == es[ei]);
        lemma_table_rules_contain(es.drop_last(), ei, r, p, g);
        let k = choose|k: int| 0 <= k < pre.len() && pre[k] == r;
        assert((pre + last)[k] == r);
    }
}

/// The rules of a global group are among the global rules.
proof fn lemma_global_rules_contain(gs: Seq<GroupView>, gi: int, r: RuleView, p: Platform)
    requires
        0 <= gi < gs.len(),
        gs[gi].1.len() == 0,
        table_rules(gs[gi].2, p, gi as usize).contains(r),
    ensures
        spec_global_rules(gs, p).contains(r),
    decreases gs.len(),
{
    let g = gs.last();
    let pre = spec_global_rules(gs.drop_last(), p);
    let own = if g.2.len() > 0 && g.1.len() == 0 {
        table_rules(g.2, p, (gs.len() - 1) as usize)
    } else {
        Seq::<RuleView>::empty()
    };
    assert(spec_global_rules(gs, p) == pre + own);
    if gi == gs.len() - 1 {
        if g.2.len() == 0 {
            assert(table_rules(g.2, p, (gs.len() - 1) as usize) =~= Seq::<RuleView>::empty());
        }
        let k = choose|k: int| 0 <= k < own.len() && own[k] == r;
        assert((pre + own)[pre.len() + k] == r);
    } else {
        assert(gs.drop_last()[gi] == gs[gi]);
        lemma_global_rules_contain(gs.drop_last(), gi, r, p);
        let k = choose|k: int| 0 <= k < pre.len() && pre[k] == r;
        assert((pre + own)[k] == r);
    }
}

/// A mapping in a group without applications answers its own trigger on
/// every platform: in the rules compiled for platform `p`, the global
/// lookup for the trigger's base key (by its code on `p`), pressed with
/// exactly the trigger's modifier keys, finds a rule.
pub proof fn law_global_mapping_answers(gs: Seq<GroupView>, gi: int, ei: int, p: Platform)
    requires
        0 <= gi < gs.len(),
        gs[gi].1.len() == 0,
        0 <= ei < gs[gi].2.len(),
    ensures
        spec_find_match(
            spec_global_rules(gs, p),
            native_code(gs[gi].2[ei].0.1, p),
            spec_compile_bits(gs[gi].2[ei].0.0),
        ) is Some,
{
    let t = gs[gi].2[ei].0;
    let outs = gs[gi].2[ei].1;
    law_exact_mask_is_a_variant(t.0);
    let variants = spec_expand(t.0);
    let i = choose|i: int| 0 <= i < variants.len() && variants[i] == spec_compile_bits(t.0);
    let er = entry_rules(t, outs, p, gi as usize);
    let r = er[i];
    assert(r == (native_code(t.1, p), spec_compile_bits(t.0), natives_of(outs, p), gi as usize));
    assert(er.contains(r));
    lemma_table_rules_contain(gs[gi].2, ei, r, p, gi as usize);
    lemma_global_rules_contain(gs, gi, r, p);
    let rs = spec_global_rules(gs, p);
    let k = choose|k: int| 0 <= k < rs.len() && rs[k] == r;
    lemma_find_match_some(rs, k, native_code(t.1, p), spec_compile_bits(t.0));
}

/// Lookups answer with the first rule that fires: a rule fires only when no
/// earlier rule of the list fires for the same key and mask.
pub proof fn law_first_match_wins(rules: Seq<RuleView>, i: int, key: u16, mods: u8)
    requires
        0 <= i < rules.len(),
        rule_matches(rules[i], key, mods),
        forall|j: int| 0 <= j < i ==> !rule_matches(#[trigger] rules[j], key, mods),
    ensures
        spec_find_match(rules, key, mods) == Some(rules[i].2),
    decreases i,
{
    if i > 0 {
        assert(!rule_matches(rules[0], key, mods));
        assert forall|j: int| 0 <= j < i - 1 implies !rule_matches(#[trigger] rules.drop_first()[j], key, mods) by {
            assert(rules.drop_first()[j] == rules[j + 1]);
        }
        assert(rules.drop_first()[i - 1] == rules[i]);
        law_first_match_wins(rules.drop_first(), i - 1, key, mods);
    }
}

/// Releasing a modifier key undoes pressing it: the tracked mask loses the
/// key's bit and keeps every other bit.
pub proof fn law_modifier_release_undoes_press(state: u8, b: u8)
    requires
        b < 8,
    ensures
        track_modifier(track_modifier(state, b, true), b, false) == track_modifier(state, b, false),
        state & (1u8 << b) == 0 ==> track_modifier(track_modifier(state, b, true), b, false) == state,
{
    assert((state | (1u8 << b)) & !(1u8 << b) == state & !(1u8 << b)) by (bit_vector)
        requires
            b < 8,
    ;
    assert(state & (1u8 << b) == 0 ==> state & !(1u8 << b) == state) by (bit_vector)
        requires
            b < 8,
    ;
}

/// An addition of `r` for `a` gives `a` the rule `r`.
proof fn lemma_pushes_add(m: Map<Seq<char>, Seq<RuleView>>, ps: Seq<(Seq<char>, RuleView)>, a: Seq<char>, r: RuleView)
    requires
        ps.contains((a, r)),
    ensures
        rules_of(apply_pushes(m, ps), a).contains(r),
    decreases ps.len(),
{
    let prev = apply_pushes(m, ps.drop_last());
    if ps.last() == (a, r) {
        let now = rules_of(prev, a).push(r);
        assert(rules_of(apply_pushes(m, ps), a) == now);
        assert(now[now.len() - 1] == r);
    } else {
        let k = choose|k: int| 0 <= k < ps.len() && ps[k] == (a, r);
        assert(ps.drop_last()[k] == (a, r));
        lemma_pushes_add(m, ps.drop_last(), a, r);
        let (b, q) = ps.last();
        if b == a {
            let old_rules = rules_of(prev, a);
            let j = choose|j: int| 0 <= j < old_rules.len() && old_rules[j] == r;
            assert(rules_of(apply_pushes(m, ps), a) == old_rules.push(q));
            assert(old_rules.push(q)[j] == r);
        } else {
            assert(rules_of(apply_pushes(m, ps), a) == rules_of(prev, a));
        }
    }
}

/// A scoped group adds each of its rules for each of its applications.
proof fn lemma_app_pushes_contain(rules: Seq<RuleView>, apps: Seq<Seq<char>>, ri: int, ai: int)
    requires
        0 <= ri < rules.len(),
        0 <= ai < apps.len(),
    ensures
        app_pushes(rules, apps).contains((apps[ai], rules[ri])),
    decreases rules.len(),
{
    let pre = app_pushes(rules.drop_last(), apps);
    let tail = apps.map_values(|a: Seq<char>| (a, rules.last()));
    assert(app_pushes(rules, apps) == pre + tail);
    if ri == rules.len() - 1 {
        assert((pre + tail)[pre.len() + ai] == (apps[ai], rules[ri]));
    } else {
        assert(rules.drop_last()[ri] == rules[ri]);
        lemma_app_pushes_contain(rules.drop_last(), apps, ri, ai);
        let k = choose|k: int| 0 <= k < pre.len() && pre[k] == (apps[ai], rules[ri]);
        assert((pre + tail)[k] == pre[k]);
    }
}

/// The additions of a configuration include those of each scoped group.
proof fn lemma_config_pushes_contain(gs: Seq<GroupView>, gi: int, q: (Seq<char>, RuleView), p: Platform)
    requires
        0 <= gi < gs.len(),
        gs[gi].2.len() > 0,
        gs[gi].1.len() > 0,
        app_pushes(table_rules(gs[gi].2, p, gi as usize), lowered(gs[gi].1)).contains(q),
    ensures
        config_pushes(gs, p).contains(q),
    decreases gs.len(),
{
    let g = gs.last();
    let pre = config_pushes(gs.drop_last(), p);
    let own = if g.2.len() > 0 && g.1.len() > 0 {
        app_pushes(table_rules(g.2, p, (gs.len() - 1) as usize), lowered(g.1))
    } else {
        Seq::<(Seq<char>, RuleView)>::empty()
    };
    assert(config_pushes(gs, p) == pre + own);
    if gi == gs.len() - 1 {
        let k = choose|k: int| 0 <= k < own.len() && own[k] == q;
        assert((pre + own)[pre.len() + k] == q);
    } else {
        assert(gs.drop_last()[gi] == gs[gi]);
        lemma_config_pushes_contain(gs.drop_last(), gi, q, p);
        let k = choose|k: int| 0 <= k < pre.len() && pre[k] == q;
        assert((pre + own)[k] == q);
    }
}

/// A mapping in a group scoped to applications answers its own trigger for
/// each of them, on every platform: in the rules compiled for platform `p`,
/// the lookup among the rules of the lower-cased application name, for the
/// trigger's base key (by its code on `p`) pressed with exactly the
/// trigger's modifier keys, finds a rule.
pub proof fn law_app_mapping_answers(gs: Seq<GroupView>, gi: int, ei: int, ai: int, p: Platform)
    requires
        0 <= gi < gs.len(),
        0 <= ai < gs[gi].1.len(),
        0 <= ei < gs[gi].2.len(),
    ensures
        spec_find_match(
            rules_of(spec_process_rules(gs, p), to_lower(gs[gi].1[ai])),
            native_code(gs[gi].2[ei].0.1, p),
            spec_compile_bits(gs[gi].2[ei].0.0),
        ) is Some,
{
    let t = gs[gi].2[ei].0;
    let outs = gs[gi].2[ei].1;
    law_exact_mask_is_a_variant(t.0);
    let variants = spec_expand(t.0);
    let i = choose|i: int| 0 <= i < variants.len() && variants[i] == spec_compile_bits(t.0);
    let er = entry_rules(t, outs, p, gi as usize);
    let r = er[i];
    assert(r == (native_code(t.1, p), spec_compile_bits(t.0), natives_of(outs, p), gi as usize));
    assert(er.contains(r));
    lemma_table_rules_contain(gs[gi].2, ei, r, p, gi as usize);
    let tr = table_rules(gs[gi].2, p, gi as usize);
    let ri = choose|ri: int| 0 <= ri < tr.len() && tr[ri] == r;
    let apps = lowered(gs[gi].1);
    let a = to_lower(gs[gi].1[ai]);
    assert(apps[ai] == a);
    lemma_app_pushes_contain(tr, apps, ri, ai);
    lemma_config_pushes_contain(gs, gi, (a, r), p);
    lemma_pushes_add(Map::empty(), config_pushes(gs, p), a, r);
    let rs = rules_of(spec_process_rules(gs, p), a);
    let k = choose|k: int| 0 <= k < rs.len() && rs[k] == r;
    lemma_find_match_some(rs, k, native_code(t.1, p), spec_compile_bits(t.0));
}

/// Application names match without regard to case: when the foreground
/// application's name lower-cases to the lower-cased name of an application
/// a group lists, the lookup for one of the group's triggers (its base key
/// with exactly its modifier keys) in the configuration compiled for
/// platform `p` finds a rule, as the event taps look it up.
pub proof fn law_app_names_match_case_insensitively(
    gs: Seq<GroupView>,
    gi: int,
    ei: int,
    ai: int,
    active: Seq<char>,
    p: Platform,
)
    requires
        0 <= gi < gs.len(),
        0 <= ai < gs[gi].1.len(),
        0 <= ei < gs[gi].2.len(),
        to_lower(active) == to_lower(gs[gi].1[ai]),
    ensures
        spec_resolve(
            (spec_process_rules(gs, p), spec_global_rules(gs, p)),
            to_lower(active),
            native_code(gs[gi].2[ei].0.1, p),
            spec_compile_bits(gs[gi].2[ei].0.0),
        ) is Some,
{
    law_app_mapping_answers(gs, gi, ei, ai, p);
    let cache = (spec_process_rules(gs, p), spec_global_rules(gs, p));
    assert(app_rules(cache, to_lower(active)) == rules_of(spec_process_rules(gs, p), to_lower(active)));
    lemma_find_match_first_rule(
        app_rules(cache, to_lower(active)),
        native_code(gs[gi].2[ei].0.1, p),
        spec_compile_bits(gs[gi].2[ei].0.0),
    );
}

// ---------------------------------------------------------------------------
// Rule groups count in definition order
// ---------------------------------------------------------------------------

/// Group `g` applies to the application `a` (a lower-cased name): it lists
/// no applications, or lists `a` under some spelling.
pub open spec fn group_applies(g: GroupView, a: Seq<char>) -> bool {
    g.1.len() == 0 || lowered(g.1).contains(a)
}

/// What the groups of `gs`, taken in definition order, answer for `key`
/// pressed with `mods` in application `a` on platform `p`: the outputs of
/// the first firing rule of the first group that applies to `a` and has a
/// firing rule.
pub open spec fn definition_order_match(
    gs: Seq<GroupView>,
    a: Seq<char>,
    p: Platform,
    key: u16,
    mods: u8,
) -> Option<Seq<NativeKey>>
    decreases gs.len(),
{
    if gs.len() == 0 {
        None
    } else {
        match definition_order_match(gs.drop_last(), a, p, key, mods) {
            Some(o) => Some(o),
            None => if group_applies(gs.last(), a) {
                spec_find_match(table_rules(gs.last().2, p, (gs.len() - 1) as usize), key, mods)
            } else {
                None
            },
        }
    }
}

/// How often `a` occurs in `apps`.
pub open spec fn occurrences(apps: Seq<Seq<char>>, a: Seq<char>) -> nat
    decreases apps.len(),
{
    if apps.len() == 0 {
        0
    } else {
        occurrences(apps.drop_last(), a) + if apps.last() == a {
            1nat
        } else {
            0nat
        }
    }
}

/// Each rule of `rs` repeated `c` times in place.
pub open spec fn stutter(rs: Seq<RuleView>, c: nat) -> Seq<RuleView>
    decreases rs.len(),
{
    if rs.len() == 0 {
        Seq::empty()
    } else {
        stutter(rs.drop_last(), c) + Seq::new(c, |i: int| rs.last())
    }
}

/// The first firing rule of two lists one after the other.
proof fn lemma_first_rule_concat(l: Seq<RuleView>, m: Seq<RuleView>, key: u16, mods: u8)
    ensures
        spec_first_rule(l + m, key, mods) == match spec_first_rule(l, key, mods) {
            Some(r) => Some(r),
            None => spec_first_rule(m, key, mods),
        },
    decreases l.len(),
{
    if l.len() == 0 {
        assert(l + m =~= m);
    } else {
        assert((l + m)[0] == l[0]);
        assert((l + m).drop_first() =~= l.drop_first() + m);
        lemma_first_rule_concat(l.drop_first(), m, key, mods);
    }
}

/// The first firing rule of a list is one of its elements.
proof fn lemma_first_rule_member(l: Seq<RuleView>, key: u16, mods: u8)
    ensures
        spec_first_rule(l, key, mods) matches Some(r) ==> exists|k: int| 0 <= k < l.len() && l[k] == r,
    decreases l.len(),
{
    if l.len() > 0 && !rule_matches(l[0], key, mods) {
        lemma_first_rule_member(l.drop_first(), key, mods);
        if spec_first_rule(l, key, mods) is Some {
            let r = spec_first_rule(l, key, mods)->0;
            let k = choose|k: int| 0 <= k < l.drop_first().len() && l.drop_first()[k] == r;
            assert(l[k + 1] == r);
        }
    } else if l.len() > 0 {
        assert(l[0] == spec_first_rule(l, key, mods)->0);
    }
}

/// A rule repeated `c > 0` times fires first exactly when it fires.
proof fn lemma_first_rule_repeat(r: RuleView, c: nat, key: u16, mods: u8)
    ensures
        spec_first_rule(Seq::new(c, |i: int| r), key, mods) == if c > 0 && rule_matches(r, key, mods) {
            Some(r)
        } else {
            None
        },
    decreases c,
{
    if c > 0 {
        let s = Seq::new(c, |i: int| r);
        assert(s[0] == r);
        assert(s.drop_first() =~= Seq::new((c - 1) as nat, |i: int| r));
        lemma_first_rule_repeat(r, (c - 1) as nat, key, mods);
    } else {
        assert(Seq::new(c, |i: int| r).len() == 0);
    }
}

/// Repeating each rule in place keeps the first firing rule (when the rules
/// are repeated at all) and the rules' groups.
proof fn lemma_stutter(rs: Seq<RuleView>, c: nat, key: u16, mods: u8, g: usize)
    ensures
        spec_first_rule(stutter(rs, c), key, mods) == if c > 0 {
            spec_first_rule(rs, key, mods)
        } else {
            None
        },
        (forall|j: int| 0 <= j < rs.len() ==> (#[trigger] rs[j]).3 == g) ==> forall|k: int|
            0 <= k < stutter(rs, c).len() ==> (#[trigger] stutter(rs, c)[k]).3 == g,
    decreases rs.len(),
{
    if rs.len() > 0 {
        let r0 = rs.drop_last();
        let t = rs.last();
        let rep = Seq::new(c, |i: int| t);
        assert(stutter(rs, c) =~= stutter(r0, c) + rep);
        assert(seq![t][0] == t);
        lemma_stutter(r0, c, key, mods, g);
        lemma_first_rule_concat(stutter(r0, c), rep, key, mods);
        lemma_first_rule_repeat(t, c, key, mods);
        assert(rs =~= r0 + seq![t]);
        lemma_first_rule_concat(r0, seq![t], key, mods);
        assert(seq![t].drop_first() =~= Seq::<RuleView>::empty());
        assert(spec_first_rule(seq![t].drop_first(), key, mods) is None);
        assert(spec_first_rule(seq![t], key, mods) == if rule_matches(t, key, mods) {
            Some(t)
        } else {
            None
        });
        if forall|j: int| 0 <= j < rs.len() ==> (#[trigger] rs[j]).3 == g {
            assert forall|j: int| 0 <= j < r0.len() implies (#[trigger] r0[j]).3 == g by {
                assert(r0[j] == rs[j]);
            }
            assert(t == rs[rs.len() - 1]);
            let st = stutter(rs, c);
            assert forall|k: int| 0 <= k < st.len() implies (#[trigger] st[k]).3 == g by {
                if k < stutter(r0, c).len() {
                    assert(st[k] == stutter(r0, c)[k]);
                } else {
                    assert(st[k] == rep[k - stutter(r0, c).len()]);
                }
            }
        }
    } else {
        assert(stutter(rs, c) =~= Seq::<RuleView>::empty());
    }
}

/// `a` occurs in `apps` exactly when it is among them.
proof fn lemma_occurrences(apps: Seq<Seq<char>>, a: Seq<char>)
    ensures
        (occurrences(apps, a) > 0) == apps.contains(a),
    decreases apps.len(),
{
    if apps.len() > 0 {
        let a0 = apps.drop_last();
        lemma_occurrences(a0, a);
        if a0.contains(a) {
            let k = choose|k: int| 0 <= k < a0.len() && a0[k] == a;
            assert(apps[k] == a);
        }
        if apps.contains(a) && apps.last() != a {
            let k = choose|k: int| 0 <= k < apps.len() && apps[k] == a;
            assert(k < apps.len() - 1);
            assert(a0[k] == a);
        }
        if apps.last() == a {
            assert(apps[apps.len() - 1] == a);
        }
    }
}

/// Adding one rule for each of `apps` appends it to the list of `a` once
/// per occurrence of `a`.
proof fn lemma_push_one_rule(m: Map<Seq<char>, Seq<RuleView>>, apps: Seq<Seq<char>>, r: RuleView, a: Seq<char>)
    ensures
        rules_of(apply_pushes(m, apps.map_values(|b: Seq<char>| (b, r))), a) == rules_of(m, a) + Seq::new(
            occurrences(apps, a),
            |i: int| r,
        ),
    decreases apps.len(),
{
    let ps = apps.map_values(|b: Seq<char>| (b, r));
    if apps.len() == 0 {
        assert(ps.len() == 0);
        assert(rules_of(m, a) + Seq::new(0, |i: int| r) =~= rules_of(m, a));
    } else {
        let a0 = apps.drop_last();
        assert(ps.drop_last() =~= a0.map_values(|b: Seq<char>| (b, r)));
        lemma_push_one_rule(m, a0, r, a);
        assert(ps.last() == (apps.last(), r));
        let prev = apply_pushes(m, ps.drop_last());
        if apps.last() == a {
            assert(rules_of(prev, a).push(r) =~= rules_of(m, a) + Seq::new(occurrences(apps, a), |i: int| r));
        } else {
            assert(rules_of(apply_pushes(m, ps), a) == rules_of(prev, a));
        }
    }
}

/// Adding the rules of a scoped group appends each to the list of `a` once
/// per occurrence of `a` among the group's applications.
proof fn lemma_push_rules(m: Map<Seq<char>, Seq<RuleView>>, rs: Seq<RuleView>, apps: Seq<Seq<char>>, a: Seq<char>)
    ensures
        rules_of(apply_pushes(m, app_pushes(rs, apps)), a) == rules_of(m, a) + stutter(rs, occurrences(apps, a)),
    decreases rs.len(),
{
    if rs.len() == 0 {
        assert(app_pushes(rs, apps) =~= Seq::<(Seq<char>, RuleView)>::empty());
        assert(rules_of(m, a) + stutter(rs, occurrences(apps, a)) =~= rules_of(m, a));
    } else {
        let r0 = rs.drop_last();
        let step = apps.map_values(|b: Seq<char>| (b, rs.last()));
        lemma_push_rules(m, r0, apps, a);
        lemma_apply_pushes_concat(m, app_pushes(r0, apps), step);
        lemma_push_one_rule(apply_pushes(m, app_pushes(r0, apps)), apps, rs.last(), a);
        assert(rules_of(m, a) + stutter(r0, occurrences(apps, a)) + Seq::new(occurrences(apps, a), |i: int| rs.last())
            =~= rules_of(m, a) + stutter(rs, occurrences(apps, a)));
    }
}

/// Every rule of a table compiled for group `g` belongs to group `g`.
proof fn lemma_table_rules_group(es: TableView, p: Platform, g: usize)
    ensures
        forall|j: int| 0 <= j < table_rules(es, p, g).len() ==> (#[trigger] table_rules(es, p, g)[j]).3 == g,
    decreases es.len(),
{
    if es.len() > 0 {
        lemma_table_rules_group(es.drop_last(), p, g);
        let pre = table_rules(es.drop_last(), p, g);
        let last = entry_rules(es.last().0, es.last().1, p, g);
        assert forall|j: int| 0 <= j < table_rules(es, p, g).len() implies (#[trigger] table_rules(
            es,
            p,
            g,
        )[j]).3 == g by {
            if j < pre.len() {
                assert(table_rules(es, p, g)[j] == pre[j]);
            } else {
                assert(table_rules(es, p, g)[j] == last[j - pre.len()]);
            }
        }
    }
}

/// The compiled rules of a configuration belong to its groups, and looking
/// them up gives what the groups answer in definition order.
proof fn lemma_definition_order(gs: Seq<GroupView>, a: Seq<char>, p: Platform, key: u16, mods: u8)
    requires
        gs.len() <= usize::MAX,
    ensures
        forall|k: int|
            0 <= k < rules_of(spec_process_rules(gs, p), a).len() ==> (#[trigger] rules_of(
                spec_process_rules(gs, p),
                a,
            )[k]).3 < gs.len(),
        forall|k: int| 0 <= k < spec_global_rules(gs, p).len() ==> (#[trigger] spec_global_rules(gs, p)[k]).3 < gs.len(),
        spec_resolve((spec_process_rules(gs, p), spec_global_rules(gs, p)), a, key, mods)
            == definition_order_match(gs, a, p, key, mods),
    decreases gs.len(),
{
    let cache = (spec_process_rules(gs, p), spec_global_rules(gs, p));
    assert(app_rules(cache, a) == rules_of(spec_process_rules(gs, p), a));
    if gs.len() == 0 {
        assert(config_pushes(gs, p) =~= Seq::<(Seq<char>, RuleView)>::empty());
        assert(rules_of(spec_process_rules(gs, p), a) =~= Seq::<RuleView>::empty());
    } else {
        let gs0 = gs.drop_last();
        let g = gs.last();
        let n = (gs.len() - 1) as usize;
        let t = table_rules(g.2, p, n);
        lemma_definition_order(gs0, a, p, key, mods);
        lemma_table_rules_group(g.2, p, n);
        lemma_find_match_first_rule(t, key, mods);
        lemma_first_rule_member(t, key, mods);
        let m0 = spec_process_rules(gs0, p);
        let app0 = rules_of(m0, a);
        let glob0 = spec_global_rules(gs0, p);
        let app1 = rules_of(spec_process_rules(gs, p), a);
        let glob1 = spec_global_rules(gs, p);
        lemma_first_rule_member(app0, key, mods);
        lemma_first_rule_member(glob0, key, mods);
        let own = if g.2.len() > 0 && g.1.len() > 0 {
            app_pushes(t, lowered(g.1))
        } else {
            Seq::<(Seq<char>, RuleView)>::empty()
        };
        assert(config_pushes(gs, p) == config_pushes(gs0, p) + own);
        lemma_apply_pushes_concat(Map::empty(), config_pushes(gs0, p), own);
        if g.2.len() == 0 {
            assert(g.2 =~= Seq::<(EventView, Seq<EventView>)>::empty());
            assert(t =~= Seq::<RuleView>::empty());
        }
        if g.1.len() == 0 || g.2.len() == 0 {
            assert(own =~= Seq::<(Seq<char>, RuleView)>::empty());
            assert(config_pushes(gs, p) =~= config_pushes(gs0, p));
            assert(app1 == app0);
            if g.2.len() > 0 {
                assert(glob1 == glob0 + t);
                lemma_first_rule_concat(glob0, t, key, mods);
                assert forall|k: int| 0 <= k < glob1.len() implies (#[trigger] glob1[k]).3 < gs.len() by {
                    if k < glob0.len() {
                        assert(glob1[k] == glob0[k]);
                    } else {
                        assert(glob1[k] == t[k - glob0.len()]);
                    }
                }
            } else {
                assert(glob1 =~= glob0);
            }
        } else {
            assert(glob1 =~= glob0);
            let c = occurrences(lowered(g.1), a);
            lemma_push_rules(m0, t, lowered(g.1), a);
            assert(app1 == app0 + stutter(t, c));
            lemma_stutter(t, c, key, mods, n);
            lemma_occurrences(lowered(g.1), a);
            lemma_first_rule_concat(app0, stutter(t, c), key, mods);
            let st = stutter(t, c);
            assert forall|k: int| 0 <= k < app1.len() implies (#[trigger] app1[k]).3 < gs.len() by {
                if k < app0.len() {
                    assert(app1[k] == app0[k]);
                } else {
                    assert(app1[k] == st[k - app0.len()]);
                }
            }
        }
    }
}

/// Rule groups count in definition order, whatever their scope: looking up
/// `key` pressed with `mods` for the application `a` in the rules compiled
/// for platform `p` gives the outputs of the first firing rule of the first
/// group that applies to `a` (lists no applications, or lists `a`) and has
/// a firing rule, or nothing when no such group has one.
pub proof fn law_groups_in_definition_order(gs: Seq<GroupView>, a: Seq<char>, p: Platform, key: u16, mods: u8)
    requires
        gs.len() <= usize::MAX,
    ensures
        spec_resolve((spec_process_rules(gs, p), spec_global_rules(gs, p)), a, key, mods)
            == definition_order_match(gs, a, p, key, mods),
{
    lemma_definition_order(gs, a, p, key, mods);
}

/// A list of output strings that all parse gives one event per string, in
/// the list's order: the `i`-th event is what the `i`-th string parses to.
pub proof fn law_output_list_keeps_order(items: Seq<Option<String>>)
    requires
        forall|i: int|
            0 <= i < items.len() ==> (#[trigger] items[i]) is Some && spec_parse_event(items[i]->0@) is Ok,
    ensures
        spec_parse_output_items(items) is Ok,
        spec_parse_output_items(items)->Ok_0.len() == items.len(),
        forall|i: int|
            0 <= i < items.len() ==> spec_parse_output_items(items)->Ok_0[i] == spec_parse_event(
                (#[trigger] items[i])->0@,
            )->Ok_0,
    decreases items.len(),
{
    if items.len() > 0 {
        let i0 = items.drop_last();
        assert forall|i: int| 0 <= i < i0.len() implies (#[trigger] i0[i]) is Some && spec_parse_event(
            i0[i]->0@,
        ) is Ok by {
            assert(i0[i] == items[i]);
        }
        law_output_list_keeps_order(i0);
        let last = items[items.len() - 1];
        assert(items.last() == last);
        let es = spec_parse_output_items(items)->Ok_0;
        assert forall|i: int| 0 <= i < items.len() implies es[i] == spec_parse_event(
            (#[trigger] items[i])->0@,
        )->Ok_0 by {
            if i < i0.len() {
                assert(i0[i] == items[i]);
            }
        }
    }
}

/// A list of outputs fails exactly when one of its items is not a string
/// or does not parse, with the error of the first such item.
pub proof fn law_output_list_first_error(items: Seq<Option<String>>, k: int)
    requires
        0 <= k < items.len(),
        forall|i: int|
            0 <= i < k ==> (#[trigger] items[i]) is Some && spec_parse_event(items[i]->0@) is Ok,
        items[k] is None || spec_parse_event(items[k]->0@) is Err,
    ensures
        spec_parse_output_items(items) == match items[k] {
            None => Err::<Seq<EventView>, Seq<char>>("expected an event string in output sequence"@),
            Some(s) => Err(spec_parse_event(s@)->Err_0),
        },
{
    let pre = items.take(k);
    assert forall|i: int| 0 <= i < pre.len() implies (#[trigger] pre[i]) is Some && spec_parse_event(
        pre[i]->0@,
    ) is Ok by {
        assert(pre[i] == items[i]);
    }
    law_output_list_keeps_order(pre);
    assert(items.take(k + 1).drop_last() =~= pre);
    assert(items.take(k + 1).last() == items[k]);
    crate::config::lemma_output_items_prefix_error(items, k + 1);
}

// ---------------------------------------------------------------------------
// Laws of configuration edits
// ---------------------------------------------------------------------------

/// The outputs a table maps trigger `k` to, if it has `k`.
pub open spec fn table_lookup(es: TableView, k: EventView) -> Option<Seq<EventView>> {
    if exists|i: int| 0 <= i < es.len() && (#[trigger] es[i]).0 == k {
        Some(es[choose|i: int| 0 <= i < es.len() && (#[trigger] es[i]).0 == k].1)
    } else {
        None
    }
}

/// In a table whose triggers are distinct, an entry is what a lookup of its
/// trigger finds.
proof fn lemma_lookup_entry(es: TableView, i: int)
    requires
        keys_distinct(es),
        0 <= i < es.len(),
    ensures
        table_lookup(es, es[i].0) == Some(es[i].1),
{
    let k = es[i].0;
    assert(es[i].0 == k);
    let j = choose|j: int| 0 <= j < es.len() && (#[trigger] es[j]).0 == k;
    if j != i {
        if j < i {
            assert(es[j].0 != es[i].0);
        } else {
            assert(es[i].0 != es[j].0);
        }
    }
}

/// Inserting into a table with distinct triggers: the inserted trigger maps
/// to the inserted outputs, and the triggers stay distinct.
pub proof fn law_insert_then_lookup(es: TableView, k: EventView, v: Seq<EventView>)
    requires
        keys_distinct(es),
    ensures
        keys_distinct(insert_entry(es, k, v)),
        table_lookup(insert_entry(es, k, v), k) == Some(v),
{
    lemma_insert_keeps_keys_distinct(es, k, v);
    let r = insert_entry(es, k, v);
    let i = choose|i: int| 0 <= i < r.len() && #[trigger] r[i] == (k, v);
    lemma_lookup_entry(r, i);
}

/// A list with a group named `name` has a first such group.
proof fn lemma_first_named_exists(gs: Seq<GroupView>, name: Seq<char>, j: int)
    requires
        0 <= j < gs.len(),
        gs[j].0 == Some(name),
    ensures
        exists|i: int| is_first_named(gs, name, i),
    decreases j,
{
    if exists|m: int| 0 <= m < j && (#[trigger] gs[m]).0 == Some(name) {
        let m = choose|m: int| 0 <= m < j && (#[trigger] gs[m]).0 == Some(name);
        lemma_first_named_exists(gs, name, m);
    } else {
        assert(is_first_named(gs, name, j));
    }
}

/// Adding a rule to a configuration whose tables have distinct triggers:
/// afterwards the first group with the given name maps the trigger to the
/// single output, and every table still has distinct triggers.
pub proof fn law_add_rule_maps_trigger(
    gs: Seq<GroupView>,
    name: Seq<char>,
    apps: Option<Seq<Seq<char>>>,
    t: EventView,
    o: EventView,
)
    requires
        forall|i: int| 0 <= i < gs.len() ==> keys_distinct(#[trigger] gs[i].2),
    ensures
        find_group(spec_add_rule(gs, name, apps, t, o), name) is Some,
        table_lookup(
            spec_add_rule(gs, name, apps, t, o)[find_group(spec_add_rule(gs, name, apps, t, o), name)->0].2,
            t,
        ) == Some(seq![o]),
        forall|i: int|
            0 <= i < spec_add_rule(gs, name, apps, t, o).len() ==> keys_distinct(
                #[trigger] spec_add_rule(gs, name, apps, t, o)[i].2,
            ),
{
    let r = spec_add_rule(gs, name, apps, t, o);
    match find_group(gs, name) {
        Some(i) => {
            assert(is_first_named(gs, name, i));
            law_insert_then_lookup(gs[i].2, t, seq![o]);
            assert(r[i].0 == gs[i].0);
            assert(is_first_named(r, name, i)) by {
                assert forall|j: int| 0 <= j < i implies (#[trigger] r[j]).0 != Some(name) by {
                    assert(r[j] == gs[j]);
                    assert(gs[j].0 != Some(name));
                }
            }
            let f = choose|f: int| is_first_named(r, name, f);
            assert(f == i) by {
                if f < i {
                    assert(r[f].0 != Some(name));
                } else if f > i {
                    assert(r[i].0 != Some(name));
                }
            }
            assert forall|j: int| 0 <= j < r.len() implies keys_distinct(#[trigger] r[j].2) by {
                if j != i {
                    assert(r[j] == gs[j]);
                }
            }
        },
        None => {
            let n = gs.len() as int;
            assert(keys_distinct(Seq::<(EventView, Seq<EventView>)>::empty()));
            law_insert_then_lookup(Seq::empty(), t, seq![o]);
            assert(r[n].0 == Some(name));
            assert forall|j: int| 0 <= j < n implies (#[trigger] r[j]).0 != Some(name) by {
                assert(r[j] == gs[j]);
                if gs[j].0 == Some(name) {
                    lemma_first_named_exists(gs, name, j);
                }
            }
            assert(is_first_named(r, name, n));
            let f = choose|f: int| is_first_named(r, name, f);
            assert(f == n) by {
                if f < n {
                    assert(r[f].0 != Some(name));
                }
            }
            assert forall|j: int| 0 <= j < r.len() implies keys_distinct(#[trigger] r[j].2) by {
                if j != n {
                    assert(r[j] == gs[j]);
                }
            }
        },
    }
}

/// Adding a rule changes only the group named `name` and never rescopes a
/// group that already lists applications: an existing group keeps its name
/// and, when it lists applications, keeps them; a group without
/// applications takes the given ones, if any; every other group stays as
/// it was; without such a group a new one of that name, with the given
/// applications (none if none are given), comes last.
pub proof fn law_add_rule_scopes(
    gs: Seq<GroupView>,
    name: Seq<char>,
    apps: Option<Seq<Seq<char>>>,
    t: EventView,
    o: EventView,
)
    ensures
        find_group(gs, name) matches Some(i) ==> {
            let r = spec_add_rule(gs, name, apps, t, o);
            &&& r.len() == gs.len()
            &&& forall|j: int| 0 <= j < gs.len() && j != i ==> r[j] == gs[j]
            &&& r[i].0 == gs[i].0
            &&& gs[i].1.len() > 0 ==> r[i].1 == gs[i].1
            &&& gs[i].1.len() == 0 ==> r[i].1 == match apps {
                Some(a) => a,
                None => gs[i].1,
            }
        },
        find_group(gs, name) is None ==> {
            let r = spec_add_rule(gs, name, apps, t, o);
            &&& r.len() == gs.len() + 1
            &&& forall|j: int| 0 <= j < gs.len() ==> r[j] == gs[j]
            &&& r[gs.len() as int].0 == Some(name)
            &&& r[gs.len() as int].1 == match apps {
                Some(a) => a,
                None => Seq::<Seq<char>>::empty(),
            }
        },
{
    if find_group(gs, name) is Some {
        let i = find_group(gs, name)->0;
        assert(is_first_named(gs, name, i));
    }
}

// ---------------------------------------------------------------------------
// Laws of diagnostics
// ---------------------------------------------------------------------------

/// A trigger mapped by some group is mapped by a first group.
proof fn lemma_first_defining_group(gs: Seq<GroupView>, t: EventView, i: int) -> (f: int)
    requires
        0 <= i < gs.len(),
        in_table(gs[i].2, t),
    ensures
        0 <= f <= i,
        in_table(gs[f].2, t),
        !in_groups(gs, 0, f, t),
    decreases i,
{
    if in_groups(gs, 0, i, t) {
        let j = choose|j: int| 0 <= j < i && in_table((#[trigger] gs[j]).2, t);
        lemma_first_defining_group(gs, t, j)
    } else {
        i
    }
}

/// The duplicate findings of a table hold the finding of each of its
/// triggers that group `gi` defines first and a later group again.
proof fn lemma_duplicate_findings_contain(gs: Seq<GroupView>, gi: int, es: TableView, k: int)
    requires
        0 <= k < es.len(),
        !in_groups(gs, 0, gi, es[k].0),
        in_groups(gs, gi + 1, gs.len() as int, es[k].0),
    ensures
        duplicate_findings(gs, gi, es).contains(duplicate_message(es[k].0)),
    decreases es.len(),
{
    let pre = duplicate_findings(gs, gi, es.drop_last());
    let t = es.last().0;
    let own = if !in_groups(gs, 0, gi, t) && in_groups(gs, gi + 1, gs.len() as int, t) {
        seq![duplicate_message(t)]
    } else {
        Seq::<Seq<char>>::empty()
    };
    assert(duplicate_findings(gs, gi, es) == pre + own);
    if k == es.len() - 1 {
        assert((pre + own)[pre.len() as int] == duplicate_message(es[k].0));
    } else {
        assert(es.drop_last()[k] == es[k]);
        lemma_duplicate_findings_contain(gs, gi, es.drop_last(), k);
        let m = choose|m: int| 0 <= m < pre.len() && pre[m] == duplicate_message(es[k].0);
        assert((pre + own)[m] == pre[m]);
    }
}

/// The duplicate findings of all groups hold those of each group.
proof fn lemma_per_group_duplicates_contain(gs: Seq<GroupView>, n: int, gi: int, x: Seq<char>)
    requires
        0 <= gi < n <= gs.len(),
        duplicate_findings(gs, gi, gs[gi].2).contains(x),
    ensures
        per_group(gs, n, 1).contains(x),
    decreases n,
{
    let pre = per_group(gs, n - 1, 1);
    let own = duplicate_findings(gs, n - 1, gs[n - 1].2);
    assert(per_group(gs, n, 1) == pre + own);
    if gi == n - 1 {
        let m = choose|m: int| 0 <= m < own.len() && own[m] == x;
        assert((pre + own)[pre.len() + m] == x);
    } else {
        lemma_per_group_duplicates_contain(gs, n - 1, gi, x);
        let m = choose|m: int| 0 <= m < pre.len() && pre[m] == x;
        assert((pre + own)[m] == x);
    }
}

/// A trigger that two different groups map is reported: the findings of
/// `keymapper config check` include that it appears in multiple groups.
pub proof fn law_trigger_in_two_groups_is_reported(gs: Seq<GroupView>, t: EventView, i: int, j: int)
    requires
        0 <= i < j < gs.len(),
        in_table(gs[i].2, t),
        in_table(gs[j].2, t),
    ensures
        spec_diagnostics(gs).contains(duplicate_message(t)),
{
    let f = lemma_first_defining_group(gs, t, i);
    assert(in_groups(gs, f + 1, gs.len() as int, t)) by {
        assert(in_table(gs[j].2, t));
    }
    let es = gs[f].2;
    let k = choose|k: int| 0 <= k < es.len() && (#[trigger] es[k]).0 == t;
    lemma_duplicate_findings_contain(gs, f, es, k);
    lemma_per_group_duplicates_contain(gs, gs.len() as int, f, duplicate_message(t));
    let n = gs.len() as int;
    let a = empty_group_findings(gs, n);
    let b = per_group(gs, n, 0);
    let c = per_group(gs, n, 1);
    let d = per_group(gs, n, 2);
    assert(spec_diagnostics(gs) == a + b + c + d);
    let m = choose|m: int| 0 <= m < c.len() && c[m] == duplicate_message(t);
    assert((a + b + c + d)[a.len() + b.len() + m] == c[m]);
}

} // verus!
