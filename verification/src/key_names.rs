//! Key-name aliases shared by all platforms, and the unknown-key message.
use vstd::prelude::*;

use crate::text::str_eq;
use vstd::string::StringExecFns;

verus! {

broadcast use vstd::string::group_string_axioms;

/// The canonical name that the alias `s` stands for, if `s` is an alias.
pub open spec fn spec_resolve_alias(s: Seq<char>) -> Option<Seq<char>> {
    if s == "ctrl"@ || s == "leftctrl"@ || s == "leftcontrol"@ {
        Some("leftcontrol"@)
    } else if s == "rightctrl"@ || s == "rightcontrol"@ {
        Some("rightcontrol"@)
    } else if s == "shift"@ || s == "leftshift"@ {
        Some("leftshift"@)
    } else if s == "rightshift"@ {
        Some("rightshift"@)
    } else if s == "alt"@ || s == "leftalt"@ || s == "optionleft"@ {
        Some("leftalt"@)
    } else if s == "rightalt"@ || s == "rightoption"@ || s == "optionright"@ {
        Some("rightalt"@)
    } else if s == "cmd"@ || s == "command"@ || s == "leftcmd"@ || s == "leftcommand"@ || s == "super"@ || s == "leftsuper"@ {
        Some("leftcommand"@)
    } else if s == "rightcmd"@ || s == "rightcommand"@ || s == "rightsuper"@ {
        Some("rightcommand"@)
    } else if s == "caps"@ || s == "capslock"@ {
        Some("capslock"@)
    } else if s == "enter"@ {
        Some("return"@)
    } else if s == "esc"@ {
        Some("escape"@)
    } else if s == "up"@ || s == "uparrow"@ || s == "up_arrow"@ {
        Some("uparrow"@)
    } else if s == "down"@ || s == "downarrow"@ || s == "down_arrow"@ {
        Some("downarrow"@)
    } else if s == "left"@ || s == "leftarrow"@ || s == "left_arrow"@ {
        Some("leftarrow"@)
    } else if s == "right"@ || s == "rightarrow"@ || s == "right_arrow"@ {
        Some("rightarrow"@)
    } else if s == "pageup"@ || s == "page_up"@ || s == "pgup"@ {
        Some("pageup"@)
    } else if s == "pagedown"@ || s == "page_down"@ || s == "pgdn"@ {
        Some("pagedown"@)
    } else if s == "leftwin"@ || s == "win"@ {
        Some("leftcommand"@)
    } else {
        None
    }
}

/// Parses the common aliases that all platforms share.
///
/// Returns the canonical lower-case key name (e.g. `"leftcontrol"`),
/// which the platform-specific `from_canonical` function then maps to an
/// enum variant.
///
/// Returns `None` when the string is not a recognised alias, signalling
/// the caller to try a canonical-name lookup instead.
pub fn resolve_alias(s: &str) -> (r: Option<&'static str>)
    ensures
        r.is_some() == spec_resolve_alias(s@).is_some(),
        r matches Some(t) ==> Some(t@) == spec_resolve_alias(s@),
{
    if str_eq(s, "ctrl") || str_eq(s, "leftctrl") || str_eq(s, "leftcontrol") {
        Some("leftcontrol")
    } else if str_eq(s, "rightctrl") || str_eq(s, "rightcontrol") {
        Some("rightcontrol")
    } else if str_eq(s, "shift") || str_eq(s, "leftshift") {
        Some("leftshift")
    } else if str_eq(s, "rightshift") {
        Some("rightshift")
    } else if str_eq(s, "alt") || str_eq(s, "leftalt") || str_eq(s, "optionleft") {
        Some("leftalt")
    } else if str_eq(s, "rightalt") || str_eq(s, "rightoption") || str_eq(s, "optionright") {
        Some("rightalt")
    } else if str_eq(s, "cmd") || str_eq(s, "command") || str_eq(s, "leftcmd") || str_eq(s, "leftcommand") || str_eq(s, "super") || str_eq(s, "leftsuper") {
        Some("leftcommand")
    } else if str_eq(s, "rightcmd") || str_eq(s, "rightcommand") || str_eq(s, "rightsuper") {
        Some("rightcommand")
    } else if str_eq(s, "caps") || str_eq(s, "capslock") {
        Some("capslock")
    } else if str_eq(s, "enter") {
        Some("return")
    } else if str_eq(s, "esc") {
        Some("escape")
    } else if str_eq(s, "up") || str_eq(s, "uparrow") || str_eq(s, "up_arrow") {
        Some("uparrow")
    } else if str_eq(s, "down") || str_eq(s, "downarrow") || str_eq(s, "down_arrow") {
        Some("downarrow")
    } else if str_eq(s, "left") || str_eq(s, "leftarrow") || str_eq(s, "left_arrow") {
        Some("leftarrow")
    } else if str_eq(s, "right") || str_eq(s, "rightarrow") || str_eq(s, "right_arrow") {
        Some("rightarrow")
    } else if str_eq(s, "pageup") || str_eq(s, "page_up") || str_eq(s, "pgup") {
        Some("pageup")
    } else if str_eq(s, "pagedown") || str_eq(s, "page_down") || str_eq(s, "pgdn") {
        Some("pagedown")
    } else if str_eq(s, "leftwin") || str_eq(s, "win") {
        Some("leftcommand")
    } else {
        None
    }
}

/// The message for an unrecognised key name `s`.
pub open spec fn unknown_key_message(s: Seq<char>) -> Seq<char> {
    "unknown key name '"@ + s + "'. Use names like capslock, leftcontrol, a, f1, 1, etc."@
}

/// Returns a user-friendly error message for an unrecognised key name.
pub fn unknown_key_error(s: &str) -> (r: String)
    ensures
        r@ == unknown_key_message(s@),
{
    let mut msg = String::from_str("unknown key name '");
    msg.append(s);
    msg.append("'. Use names like capslock, leftcontrol, a, f1, 1, etc.");
    msg
}

/// The characters of the alias literals (part 1).
pub proof fn lemma_alias_literals_1()
    ensures
        "ctrl"@.len() == 4 && "ctrl"@[0] == 'c' && "ctrl"@[1] == 't' && "ctrl"@[2] == 'r' && "ctrl"@[3] == 'l',
        "leftctrl"@.len() == 8 && "leftctrl"@[0] == 'l' && "leftctrl"@[1] == 'e' && "leftctrl"@[2] == 'f' && "leftctrl"@[3] == 't' && "leftctrl"@[4] == 'c' && "leftctrl"@[5] == 't' && "leftctrl"@[6] == 'r' && "leftctrl"@[7] == 'l',
        "leftcontrol"@.len() == 11 && "leftcontrol"@[0] == 'l' && "leftcontrol"@[1] == 'e' && "leftcontrol"@[2] == 'f' && "leftcontrol"@[3] == 't' && "leftcontrol"@[4] == 'c' && "leftcontrol"@[5] == 'o' && "leftcontrol"@[6] == 'n' && "leftcontrol"@[7] == 't' && "leftcontrol"@[8] == 'r' && "leftcontrol"@[9] == 'o' && "leftcontrol"@[10] == 'l',
        "rightctrl"@.len() == 9 && "rightctrl"@[0] == 'r' && "rightctrl"@[1] == 'i' && "rightctrl"@[2] == 'g' && "rightctrl"@[3] == 'h' && "rightctrl"@[4] == 't' && "rightctrl"@[5] == 'c' && "rightctrl"@[6] == 't' && "rightctrl"@[7] == 'r' && "rightctrl"@[8] == 'l',
        "rightcontrol"@.len() == 12 && "rightcontrol"@[0] == 'r' && "rightcontrol"@[1] == 'i' && "rightcontrol"@[2] == 'g' && "rightcontrol"@[3] == 'h' && "rightcontrol"@[4] == 't' && "rightcontrol"@[5] == 'c' && "rightcontrol"@[6] == 'o' && "rightcontrol"@[7] == 'n' && "rightcontrol"@[8] == 't' && "rightcontrol"@[9] == 'r' && "rightcontrol"@[10] == 'o' && "rightcontrol"@[11] == 'l',
        "shift"@.len() == 5 && "shift"@[0] == 's' && "shift"@[1] == 'h' && "shift"@[2] == 'i' && "shift"@[3] == 'f' && "shift"@[4] == 't',
        "leftshift"@.len() == 9 && "leftshift"@[0] == 'l' && "leftshift"@[1] == 'e' && "leftshift"@[2] == 'f' && "leftshift"@[3] == 't' && "leftshift"@[4] == 's' && "leftshift"@[5] == 'h' && "leftshift"@[6] == 'i' && "leftshift"@[7] == 'f' && "leftshift"@[8] == 't',
        "rightshift"@.len() == 10 && "rightshift"@[0] == 'r' && "rightshift"@[1] == 'i' && "rightshift"@[2] == 'g' && "rightshift"@[3] == 'h' && "rightshift"@[4] == 't' && "rightshift"@[5] == 's' && "rightshift"@[6] == 'h' && "rightshift"@[7] == 'i' && "rightshift"@[8] == 'f' && "rightshift"@[9] == 't',
        "alt"@.len() == 3 && "alt"@[0] == 'a' && "alt"@[1] == 'l' && "alt"@[2] == 't',
        "leftalt"@.len() == 7 && "leftalt"@[0] == 'l' && "leftalt"@[1] == 'e' && "leftalt"@[2] == 'f' && "leftalt"@[3] == 't' && "leftalt"@[4] == 'a' && "leftalt"@[5] == 'l' && "leftalt"@[6] == 't',
        "optionleft"@.len() == 10 && "optionleft"@[0] == 'o' && "optionleft"@[1] == 'p' && "optionleft"@[2] == 't' && "optionleft"@[3] == 'i' && "optionleft"@[4] == 'o' && "optionleft"@[5] == 'n' && "optionleft"@[6] == 'l' && "optionleft"@[7] == 'e' && "optionleft"@[8] == 'f' && "optionleft"@[9] == 't',
        "rightalt"@.len() == 8 && "rightalt"@[0] == 'r' && "rightalt"@[1] == 'i' && "rightalt"@[2] == 'g' && "rightalt"@[3] == 'h' && "rightalt"@[4] == 't' && "rightalt"@[5] == 'a' && "rightalt"@[6] == 'l' && "rightalt"@[7] == 't',
        "rightoption"@.len() == 11 && "rightoption"@[0] == 'r' && "rightoption"@[1] == 'i' && "rightoption"@[2] == 'g' && "rightoption"@[3] == 'h' && "rightoption"@[4] == 't' && "rightoption"@[5] == 'o' && "rightoption"@[6] == 'p' && "rightoption"@[7] == 't' && "rightoption"@[8] == 'i' && "rightoption"@[9] == 'o' && "rightoption"@[10] == 'n',
        "optionright"@.len() == 11 && "optionright"@[0] == 'o' && "optionright"@[1] == 'p' && "optionright"@[2] == 't' && "optionright"@[3] == 'i' && "optionright"@[4] == 'o' && "optionright"@[5] == 'n' && "optionright"@[6] == 'r' && "optionright"@[7] == 'i' && "optionright"@[8] == 'g' && "optionright"@[9] == 'h' && "optionright"@[10] == 't',
        "cmd"@.len() == 3 && "cmd"@[0] == 'c' && "cmd"@[1] == 'm' && "cmd"@[2] == 'd',
        "command"@.len() == 7 && "command"@[0] == 'c' && "command"@[1] == 'o' && "command"@[2] == 'm' && "command"@[3] == 'm' && "command"@[4] == 'a' && "command"@[5] == 'n' && "command"@[6] == 'd',
        "leftcmd"@.len() == 7 && "leftcmd"@[0] == 'l' && "leftcmd"@[1] == 'e' && "leftcmd"@[2] == 'f' && "leftcmd"@[3] == 't' && "leftcmd"@[4] == 'c' && "leftcmd"@[5] == 'm' && "leftcmd"@[6] == 'd',
        "leftcommand"@.len() == 11 && "leftcommand"@[0] == 'l' && "leftcommand"@[1] == 'e' && "leftcommand"@[2] == 'f' && "leftcommand"@[3] == 't' && "leftcommand"@[4] == 'c' && "leftcommand"@[5] == 'o' && "leftcommand"@[6] == 'm' && "leftcommand"@[7] == 'm' && "leftcommand"@[8] == 'a' && "leftcommand"@[9] == 'n' && "leftcommand"@[10] == 'd',
        "super"@.len() == 5 && "super"@[0] == 's' && "super"@[1] == 'u' && "super"@[2] == 'p' && "super"@[3] == 'e' && "super"@[4] == 'r',
        "leftsuper"@.len() == 9 && "leftsuper"@[0] == 'l' && "leftsuper"@[1] == 'e' && "leftsuper"@[2] == 'f' && "leftsuper"@[3] == 't' && "leftsuper"@[4] == 's' && "leftsuper"@[5] == 'u' && "leftsuper"@[6] == 'p' && "leftsuper"@[7] == 'e' && "leftsuper"@[8] == 'r',
{
    reveal_strlit("ctrl");
    reveal_strlit("leftctrl");
    reveal_strlit("leftcontrol");
    reveal_strlit("rightctrl");
    reveal_strlit("rightcontrol");
    reveal_strlit("shift");
    reveal_strlit("leftshift");
    reveal_strlit("rightshift");
    reveal_strlit("alt");
    reveal_strlit("leftalt");
    reveal_strlit("optionleft");
    reveal_strlit("rightalt");
    reveal_strlit("rightoption");
    reveal_strlit("optionright");
    reveal_strlit("cmd");
    reveal_strlit("command");
    reveal_strlit("leftcmd");
    reveal_strlit("leftcommand");
    reveal_strlit("super");
    reveal_strlit("leftsuper");
}

/// The characters of the alias literals (part 2).
pub proof fn lemma_alias_literals_2()
    ensures
        "rightcmd"@.len() == 8 && "rightcmd"@[0] == 'r' && "rightcmd"@[1] == 'i' && "rightcmd"@[2] == 'g' && "rightcmd"@[3] == 'h' && "rightcmd"@[4] == 't' && "rightcmd"@[5] == 'c' && "rightcmd"@[6] == 'm' && "rightcmd"@[7] == 'd',
        "rightcommand"@.len() == 12 && "rightcommand"@[0] == 'r' && "rightcommand"@[1] == 'i' && "rightcommand"@[2] == 'g' && "rightcommand"@[3] == 'h' && "rightcommand"@[4] == 't' && "rightcommand"@[5] == 'c' && "rightcommand"@[6] == 'o' && "rightcommand"@[7] == 'm' && "rightcommand"@[8] == 'm' && "rightcommand"@[9] == 'a' && "rightcommand"@[10] == 'n' && "rightcommand"@[11] == 'd',
        "rightsuper"@.len() == 10 && "rightsuper"@[0] == 'r' && "rightsuper"@[1] == 'i' && "rightsuper"@[2] == 'g' && "rightsuper"@[3] == 'h' && "rightsuper"@[4] == 't' && "rightsuper"@[5] == 's' && "rightsuper"@[6] == 'u' && "rightsuper"@[7] == 'p' && "rightsuper"@[8] == 'e' && "rightsuper"@[9] == 'r',
        "caps"@.len() == 4 && "caps"@[0] == 'c' && "caps"@[1] == 'a' && "caps"@[2] == 'p' && "caps"@[3] == 's',
        "capslock"@.len() == 8 && "capslock"@[0] == 'c' && "capslock"@[1] == 'a' && "capslock"@[2] == 'p' && "capslock"@[3] == 's' && "capslock"@[4] == 'l' && "capslock"@[5] == 'o' && "capslock"@[6] == 'c' && "capslock"@[7] == 'k',
        "enter"@.len() == 5 && "enter"@[0] == 'e' && "enter"@[1] == 'n' && "enter"@[2] == 't' && "enter"@[3] == 'e' && "enter"@[4] == 'r',
        "esc"@.len() == 3 && "esc"@[0] == 'e' && "esc"@[1] == 's' && "esc"@[2] == 'c',
        "up"@.len() == 2 && "up"@[0] == 'u' && "up"@[1] == 'p',
        "uparrow"@.len() == 7 && "uparrow"@[0] == 'u' && "uparrow"@[1] == 'p' && "uparrow"@[2] == 'a' && "uparrow"@[3] == 'r' && "uparrow"@[4] == 'r' && "uparrow"@[5] == 'o' && "uparrow"@[6] == 'w',
        "up_arrow"@.len() == 8 && "up_arrow"@[0] == 'u' && "up_arrow"@[1] == 'p' && "up_arrow"@[2] == '_' && "up_arrow"@[3] == 'a' && "up_arrow"@[4] == 'r' && "up_arrow"@[5] == 'r' && "up_arrow"@[6] == 'o' && "up_arrow"@[7] == 'w',
        "down"@.len() == 4 && "down"@[0] == 'd' && "down"@[1] == 'o' && "down"@[2] == 'w' && "down"@[3] == 'n',
        "downarrow"@.len() == 9 && "downarrow"@[0] == 'd' && "downarrow"@[1] == 'o' && "downarrow"@[2] == 'w' && "downarrow"@[3] == 'n' && "downarrow"@[4] == 'a' && "downarrow"@[5] == 'r' && "downarrow"@[6] == 'r' && "downarrow"@[7] == 'o' && "downarrow"@[8] == 'w',
        "down_arrow"@.len() == 10 && "down_arrow"@[0] == 'd' && "down_arrow"@[1] == 'o' && "down_arrow"@[2] == 'w' && "down_arrow"@[3] == 'n' && "down_arrow"@[4] == '_' && "down_arrow"@[5] == 'a' && "down_arrow"@[6] == 'r' && "down_arrow"@[7] == 'r' && "down_arrow"@[8] == 'o' && "down_arrow"@[9] == 'w',
        "left"@.len() == 4 && "left"@[0] == 'l' && "left"@[1] == 'e' && "left"@[2] == 'f' && "left"@[3] == 't',
        "leftarrow"@.len() == 9 && "leftarrow"@[0] == 'l' && "leftarrow"@[1] == 'e' && "leftarrow"@[2] == 'f' && "leftarrow"@[3] == 't' && "leftarrow"@[4] == 'a' && "leftarrow"@[5] == 'r' && "leftarrow"@[6] == 'r' && "leftarrow"@[7] == 'o' && "leftarrow"@[8] == 'w',
        "left_arrow"@.len() == 10 && "left_arrow"@[0] == 'l' && "left_arrow"@[1] == 'e' && "left_arrow"@[2] == 'f' && "left_arrow"@[3] == 't' && "left_arrow"@[4] == '_' && "left_arrow"@[5] == 'a' && "left_arrow"@[6] == 'r' && "left_arrow"@[7] == 'r' && "left_arrow"@[8] == 'o' && "left_arrow"@[9] == 'w',
        "right"@.len() == 5 && "right"@[0] == 'r' && "right"@[1] == 'i' && "right"@[2] == 'g' && "right"@[3] == 'h' && "right"@[4] == 't',
        "rightarrow"@.len() == 10 && "rightarrow"@[0] == 'r' && "rightarrow"@[1] == 'i' && "rightarrow"@[2] == 'g' && "rightarrow"@[3] == 'h' && "rightarrow"@[4] == 't' && "rightarrow"@[5] == 'a' && "rightarrow"@[6] == 'r' && "rightarrow"@[7] == 'r' && "rightarrow"@[8] == 'o' && "rightarrow"@[9] == 'w',
        "right_arrow"@.len() == 11 && "right_arrow"@[0] == 'r' && "right_arrow"@[1] == 'i' && "right_arrow"@[2] == 'g' && "right_arrow"@[3] == 'h' && "right_arrow"@[4] == 't' && "right_arrow"@[5] == '_' && "right_arrow"@[6] == 'a' && "right_arrow"@[7] == 'r' && "right_arrow"@[8] == 'r' && "right_arrow"@[9] == 'o' && "right_arrow"@[10] == 'w',
        "pageup"@.len() == 6 && "pageup"@[0] == 'p' && "pageup"@[1] == 'a' && "pageup"@[2] == 'g' && "pageup"@[3] == 'e' && "pageup"@[4] == 'u' && "pageup"@[5] == 'p',
{
    reveal_strlit("rightcmd");
    reveal_strlit("rightcommand");
    reveal_strlit("rightsuper");
    reveal_strlit("caps");
    reveal_strlit("capslock");
    reveal_strlit("enter");
    reveal_strlit("esc");
    reveal_strlit("up");
    reveal_strlit("uparrow");
    reveal_strlit("up_arrow");
    reveal_strlit("down");
    reveal_strlit("downarrow");
    reveal_strlit("down_arrow");
    reveal_strlit("left");
    reveal_strlit("leftarrow");
    reveal_strlit("left_arrow");
    reveal_strlit("right");
    reveal_strlit("rightarrow");
    reveal_strlit("right_arrow");
    reveal_strlit("pageup");
}

/// The characters of the alias literals (part 3).
pub proof fn lemma_alias_literals_3()
    ensures
        "page_up"@.len() == 7 && "page_up"@[0] == 'p' && "page_up"@[1] == 'a' && "page_up"@[2] == 'g' && "page_up"@[3] == 'e' && "page_up"@[4] == '_' && "page_up"@[5] == 'u' && "page_up"@[6] == 'p',
        "pgup"@.len() == 4 && "pgup"@[0] == 'p' && "pgup"@[1] == 'g' && "pgup"@[2] == 'u' && "pgup"@[3] == 'p',
        "pagedown"@.len() == 8 && "pagedown"@[0] == 'p' && "pagedown"@[1] == 'a' && "pagedown"@[2] == 'g' && "pagedown"@[3] == 'e' && "pagedown"@[4] == 'd' && "pagedown"@[5] == 'o' && "pagedown"@[6] == 'w' && "pagedown"@[7] == 'n',
        "page_down"@.len() == 9 && "page_down"@[0] == 'p' && "page_down"@[1] == 'a' && "page_down"@[2] == 'g' && "page_down"@[3] == 'e' && "page_down"@[4] == '_' && "page_down"@[5] == 'd' && "page_down"@[6] == 'o' && "page_down"@[7] == 'w' && "page_down"@[8] == 'n',
        "pgdn"@.len() == 4 && "pgdn"@[0] == 'p' && "pgdn"@[1] == 'g' && "pgdn"@[2] == 'd' && "pgdn"@[3] == 'n',
        "leftwin"@.len() == 7 && "leftwin"@[0] == 'l' && "leftwin"@[1] == 'e' && "leftwin"@[2] == 'f' && "leftwin"@[3] == 't' && "leftwin"@[4] == 'w' && "leftwin"@[5] == 'i' && "leftwin"@[6] == 'n',
        "win"@.len() == 3 && "win"@[0] == 'w' && "win"@[1] == 'i' && "win"@[2] == 'n',
        "return"@.len() == 6 && "return"@[0] == 'r' && "return"@[1] == 'e' && "return"@[2] == 't' && "return"@[3] == 'u' && "return"@[4] == 'r' && "return"@[5] == 'n',
        "escape"@.len() == 6 && "escape"@[0] == 'e' && "escape"@[1] == 's' && "escape"@[2] == 'c' && "escape"@[3] == 'a' && "escape"@[4] == 'p' && "escape"@[5] == 'e',
{
    reveal_strlit("page_up");
    reveal_strlit("pgup");
    reveal_strlit("pagedown");
    reveal_strlit("page_down");
    reveal_strlit("pgdn");
    reveal_strlit("leftwin");
    reveal_strlit("win");
    reveal_strlit("return");
    reveal_strlit("escape");
}


} // verus!

