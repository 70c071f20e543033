//! The configuration model: key events, ordered mapping tables, rule groups.
//!
//! A key event is written as a `+`-separated string: all tokens but the last
//! are modifiers held down, the last token is the key that is pressed.
//! Tokens are matched case-insensitively, underscores are ignored and the
//! shared aliases of `key_names` are accepted.
use vstd::prelude::*;

use indexmap::IndexMap;
use vstd::string::StringExecFns;

use crate::key_table::{spec_title_key, title_key};
use crate::key_names::{resolve_alias, spec_resolve_alias, unknown_key_error, unknown_key_message};
/// The keys a configuration names: those of the macOS table, which the Linux
/// and Windows tables share variant for variant and name for name (see
/// `key_table`); rules compile them to the codes of one platform.
pub use crate::os::macos::Key;
use crate::text::{
    remove_char,
    remove_char_from,
    str_chars,
    str_eq,
    str_to_lowercase,
    string_from_chars,
    to_lower,
    trim,
    trim_bounds,
};

verus! {

/// The mathematical value of a key event: the modifiers in order, then the
/// base key.
pub type EventView = (Seq<Key>, Key);

/// The mathematical value of a mapping table: its (trigger, outputs) entries
/// in definition order.
pub type TableView = Seq<(EventView, Seq<EventView>)>;

/// Outcome of parsing one key name.
pub type KeyResult = Result<Key, Seq<char>>;

/// Outcome of parsing a list of key names.
pub type KeysResult = Result<Seq<Key>, Seq<char>>;

/// Outcome of parsing one key event.
pub type EventResult = Result<EventView, Seq<char>>;

/// Outcome of parsing a list of key events.
pub type EventsResult = Result<Seq<EventView>, Seq<char>>;

/// Outcome of building a mapping table.
pub type TableResult = Result<TableView, Seq<char>>;

/// A key event: modifiers held together with a base key press.
///
/// Accepts compact `+`-separated strings:
/// - `"CapsLock"` -- bare key press (no modifiers held)
/// - `"ctrl+a"` -- ctrl held while pressing a
/// - `"cmd+shift+t"` -- cmd + shift held while pressing t
/// - `"optionright+l"` -- right option held while pressing l
#[derive(Debug, Clone, PartialEq, Eq, Hash)]
pub struct KeyEvent {
    /// Modifier keys held during the event (empty for bare key presses).
    pub modifiers: Vec<Key>,
    /// The base key that is pressed (may itself be a modifier key, e.g.
    /// CapsLock).
    pub base: Key,
}

impl View for KeyEvent {
    type V = EventView;

    open spec fn view(&self) -> EventView {
        (self.modifiers@, self.base)
    }
}

/// The values of a sequence of key events.
pub open spec fn events_view(es: Seq<KeyEvent>) -> Seq<EventView> {
    es.map_values(|e: KeyEvent| e@)
}

// ---------------------------------------------------------------------------
// Parsing key names and key events
// ---------------------------------------------------------------------------

/// The name that a lower-cased token is looked up by: the target of its
/// alias, or the token itself.
pub open spec fn canonical_of(lower: Seq<char>) -> Seq<char> {
    match spec_resolve_alias(lower) {
        Some(a) => a,
        None => lower,
    }
}

/// The key a single token of an event string names, or the error message.
pub open spec fn spec_parse_key(token: Seq<char>) -> Result<Key, Seq<char>> {
    let trimmed = trim(token);
    if trimmed.len() == 0 {
        Err("empty key token in event string"@)
    } else {
        match Key::spec_from_canonical(canonical_of(to_lower(remove_char(trimmed, '_')))) {
            Some(k) => Ok(k),
            None => Err(unknown_key_message(trimmed)),
        }
    }
}

/// `s` split at every `+` (`str::split('+')`).
pub open spec fn split_plus(s: Seq<char>) -> Seq<Seq<char>>
    decreases s.len(),
{
    if s.len() == 0 {
        seq![Seq::empty()]
    } else {
        let p = split_plus(s.drop_last());
        if s.last() == '+' {
            p.push(Seq::empty())
        } else {
            p.update(p.len() - 1, p.last().push(s.last()))
        }
    }
}

/// The keys of a list of tokens, or the error of the first token that fails.
pub open spec fn spec_parse_keys(ts: Seq<Seq<char>>) -> Result<Seq<Key>, Seq<char>>
    decreases ts.len(),
{
    if ts.len() == 0 {
        Ok(Seq::empty())
    } else {
        match spec_parse_keys(ts.drop_last()) {
            Err(e) => Err(e),
            Ok(ks) => match spec_parse_key(ts.last()) {
                Ok(k) => Ok(ks.push(k)),
                Err(e) => Err(e),
            },
        }
    }
}

/// The key event an event string denotes, or the error message.
///
/// The base key (the last token) is parsed before the modifiers.
pub open spec fn spec_parse_event(s: Seq<char>) -> Result<EventView, Seq<char>> {
    let parts = split_plus(s);
    if parts.len() == 1 && trim(parts[0]).len() == 0 {
        Err("empty key event string"@)
    } else if parts.len() == 1 {
        match spec_parse_key(parts[0]) {
            Ok(b) => Ok((Seq::empty(), b)),
            Err(e) => Err(e),
        }
    } else {
        match spec_parse_key(parts.last()) {
            Err(e) => Err(e),
            Ok(b) => match spec_parse_keys(parts.drop_last()) {
                Err(e) => Err(e),
                Ok(ms) => Ok((ms, b)),
            },
        }
    }
}

/// Splitting never yields an empty list.
pub proof fn lemma_split_plus_nonempty(s: Seq<char>)
    ensures
        split_plus(s).len() >= 1,
    decreases s.len(),
{
    if s.len() > 0 {
        lemma_split_plus_nonempty(s.drop_last());
    }
}

/// Parse a single token (given as characters) into a `Key`.
fn parse_key_chars(token: &Vec<char>) -> (r: Result<Key, String>)
    ensures
        match r {
            Ok(k) => spec_parse_key(token@) == KeyResult::Ok(k),
            Err(e) => spec_parse_key(token@) == KeyResult::Err(e@),
        },
{
    let (lo, hi) = trim_bounds(token);
    if lo == hi {
        return Err(String::from_str("empty key token in event string"));
    }
    let trimmed = string_from_chars(token, lo, hi);
    let stripped = remove_char_from(&trimmed, '_');
    let lower = str_to_lowercase(stripped.as_str());
    let found = match resolve_alias(lower.as_str()) {
        Some(alias) => Key::from_canonical(alias),
        None => Key::from_canonical(lower.as_str()),
    };
    match found {
        Some(k) => Ok(k),
        None => Err(unknown_key_error(trimmed.as_str())),
    }
}

/// Parse a single token from the config string into a `Key`.
///
/// The token is trimmed, underscores are dropped (so that `left_control`
/// and `leftcontrol` match), it is lower-cased, an alias is replaced by its
/// canonical name, and the name is looked up.
pub fn parse_key(token: &str) -> (r: Result<Key, String>)
    ensures
        match r {
            Ok(k) => spec_parse_key(token@) == KeyResult::Ok(k),
            Err(e) => spec_parse_key(token@) == KeyResult::Err(e@),
        },
{
    let chars = str_chars(token);
    parse_key_chars(&chars)
}

/// The values of a list of token vectors.
pub open spec fn tokens_view(ts: Seq<Vec<char>>) -> Seq<Seq<char>> {
    ts.map_values(|t: Vec<char>| t@)
}

/// Split characters at every `+`.
fn split_tokens(v: &Vec<char>) -> (r: Vec<Vec<char>>)
    ensures
        tokens_view(r@) == split_plus(v@),
        r@.len() >= 1,
{
    let mut parts: Vec<Vec<char>> = Vec::new();
    let mut cur: Vec<char> = Vec::new();
    let mut i: usize = 0;
    assert(v@.take(0) =~= Seq::<char>::empty());
    assert(tokens_view(parts@).push(cur@) =~= split_plus(v@.take(0)));
    while i < v.len()
        invariant
            i <= v@.len(),
            tokens_view(parts@).push(cur@) == split_plus(v@.take(i as int)),
        decreases v@.len() - i,
    {
        let c = v[i];
        let ghost old_parts = parts@;
        let ghost old_cur = cur@;
        assert(v@.take(i as int + 1).drop_last() =~= v@.take(i as int));
        if c == '+' {
            parts.push(cur);
            cur = Vec::new();
            assert(tokens_view(parts@) =~= tokens_view(old_parts).push(old_cur));
            assert(tokens_view(parts@).push(cur@) =~= split_plus(v@.take(i as int + 1)));
        } else {
            cur.push(c);
            assert(tokens_view(parts@).push(cur@) =~= split_plus(v@.take(i as int + 1)));
        }
        i = i + 1;
    }
    assert(v@.take(v@.len() as int) =~= v@);
    let ghost before = parts@;
    parts.push(cur);
    assert(tokens_view(parts@) =~= tokens_view(before).push(cur@));
    parts
}

impl KeyEvent {
    /// Parse a `+`-separated string into a key event.
    ///
    /// The last token is the base key; all preceding tokens are modifiers.
    /// A single token (e.g. `"capslock"`) is a bare key press with no
    /// modifiers held, even if the token itself names a modifier key.
    pub fn parse(s: &str) -> (r: Result<KeyEvent, String>)
        ensures
            match r {
                Ok(e) => spec_parse_event(s@) == EventResult::Ok(e@),
                Err(m) => spec_parse_event(s@) == EventResult::Err(m@),
            },
    {
        let chars = str_chars(s);
        let parts = split_tokens(&chars);
        let n = parts.len();
        assert(tokens_view(parts@)[0] == parts@[0]@);
        if n == 1 {
            let (lo, hi) = trim_bounds(&parts[0]);
            if lo == hi {
                return Err(String::from_str("empty key event string"));
            }
        }
        if n == 1 {
            let base = match parse_key_chars(&parts[0]) {
                Ok(k) => k,
                Err(e) => return Err(e),
            };
            let r = KeyEvent { modifiers: Vec::new(), base };
            assert(r@ == (Seq::<Key>::empty(), base));
            Ok(r)
        } else {
            let base = match parse_key_chars(&parts[n - 1]) {
                Ok(k) => k,
                Err(e) => return Err(e),
            };
            let ghost ts = tokens_view(parts@);
            assert(ts.last() == parts@[n - 1]@);
            let mut modifiers: Vec<Key> = Vec::new();
            let mut i: usize = 0;
            assert(ts.take(0) =~= Seq::<Seq<char>>::empty());
            while i < n - 1
                invariant
                    n == parts@.len() >= 2,
                    ts == tokens_view(parts@),
                    ts == split_plus(s@),
                    spec_parse_key(ts.last()) == KeyResult::Ok(base),
                    i <= n - 1,
                    spec_parse_keys(ts.take(i as int)) == KeysResult::Ok(modifiers@),
                decreases n - 1 - i,
            {
                assert(ts.take(i as int + 1).drop_last() =~= ts.take(i as int));
                assert(ts.take(i as int + 1).last() == parts@[i as int]@);
                match parse_key_chars(&parts[i]) {
                    Ok(k) => {
                        modifiers.push(k);
                    },
                    Err(e) => {
                        assert(spec_parse_keys(ts.take(i as int + 1)) == KeysResult::Err(e@));
                        assert(ts.take(i as int + 1) =~= ts.drop_last().take(i as int + 1));
                        proof {
                            lemma_parse_keys_prefix_error(ts.drop_last(), i as int + 1);
                        }
                        return Err(e);
                    },
                }
                i = i + 1;
            }
            assert(ts.take(n - 1) =~= ts.drop_last());
            Ok(KeyEvent { modifiers, base })
        }
    }
}

/// An error on a prefix of the tokens is the error of the whole list.
pub proof fn lemma_parse_keys_prefix_error(ts: Seq<Seq<char>>, i: int)
    requires
        0 <= i <= ts.len(),
        spec_parse_keys(ts.take(i)) is Err,
    ensures
        spec_parse_keys(ts) == spec_parse_keys(ts.take(i)),
    decreases ts.len() - i,
{
    if i < ts.len() {
        assert(ts.take(i + 1).drop_last() =~= ts.take(i));
        lemma_parse_keys_prefix_error(ts, i + 1);
    } else {
        assert(ts.take(i) =~= ts);
    }
}

// ---------------------------------------------------------------------------
// Writing key events
// ---------------------------------------------------------------------------

/// How a key is written: its title-case name (`LeftControl`, `H`).
pub open spec fn written_name(k: Key) -> Seq<char> {
    spec_title_key(k).spec_name()
}

/// The written names of `ms`, each followed by `+`.
pub open spec fn modifier_prefix(ms: Seq<Key>) -> Seq<char>
    decreases ms.len(),
{
    if ms.len() == 0 {
        Seq::empty()
    } else {
        modifier_prefix(ms.drop_last()) + written_name(ms.last()) + "+"@
    }
}

/// The `+`-separated form of a key event, keys by their written names
/// (`LeftControl+H`).
pub open spec fn event_string(e: EventView) -> Seq<char> {
    modifier_prefix(e.0) + written_name(e.1)
}

/// Serialize a KeyEvent back to its `+`-separated string form.
pub fn trigger_to_string(event: &KeyEvent) -> (r: String)
    ensures
        r@ == event_string(event@),
{
    let mut s = String::new();
    let mut i: usize = 0;
    while i < event.modifiers.len()
        invariant
            i <= event.modifiers@.len(),
            s@ == modifier_prefix(event.modifiers@.take(i as int)),
        decreases event.modifiers@.len() - i,
    {
        assert(event.modifiers@.take(i as int + 1).drop_last() =~= event.modifiers@.take(i as int));
        s.append(title_key(event.modifiers[i]).as_str());
        s.append("+");
        i = i + 1;
    }
    assert(event.modifiers@.take(event.modifiers@.len() as int) =~= event.modifiers@);
    s.append(title_key(event.base).as_str());
    s
}

// ---------------------------------------------------------------------------
// MappingTable -- ordered key-event -> events mapping
// ---------------------------------------------------------------------------

/// The entries an `IndexMap` of key events holds, in its order.
pub uninterp spec fn index_map_entries(m: IndexMap<KeyEvent, Vec<KeyEvent>>) -> TableView;

/// `es` after inserting `k -> v` with `IndexMap::insert` semantics: an
/// existing equal key keeps its place and gets the new value, otherwise the
/// pair goes last.
pub open spec fn insert_entry(es: TableView, k: EventView, v: Seq<EventView>) -> TableView {
    if exists|i: int| 0 <= i < es.len() && (#[trigger] es[i]).0 == k {
        let i = choose|i: int| 0 <= i < es.len() && (#[trigger] es[i]).0 == k;
        es.update(i, (k, v))
    } else {
        es.push((k, v))
    }
}

/// No trigger occurs twice.
pub open spec fn keys_distinct(es: TableView) -> bool {
    forall|i: int, j: int| 0 <= i < j < es.len() ==> (#[trigger] es[i]).0 != (#[trigger] es[j]).0
}

/// `IndexMap::new`: an empty map.
#[verifier::external_body]
fn event_map_new() -> (res: IndexMap<KeyEvent, Vec<KeyEvent>>)
    ensures
        index_map_entries(res).len() == 0,
{
    IndexMap::new()
}

/// `IndexMap::insert`: replaces the value of an equal key in place, or
/// appends the pair.  Key equality is the derived `Eq` of `KeyEvent`, which
/// compares the modifier lists and base keys, i.e. the values `KeyEvent@`.
#[verifier::external_body]
fn event_map_insert(m: &mut IndexMap<KeyEvent, Vec<KeyEvent>>, k: KeyEvent, v: Vec<KeyEvent>)
    ensures
        index_map_entries(*final(m)) == insert_entry(index_map_entries(*old(m)), k@, events_view(v@)),
{
    m.insert(k, v);
}

/// `IndexMap::len`: the number of entries.
#[verifier::external_body]
fn event_map_len(m: &IndexMap<KeyEvent, Vec<KeyEvent>>) -> (r: usize)
    ensures
        r == index_map_entries(*m).len(),
{
    m.len()
}

/// `IndexMap::get_index`: the entry at position `i`, if there is one.
#[verifier::external_body]
fn event_map_get_index(m: &IndexMap<KeyEvent, Vec<KeyEvent>>, i: usize) -> (r: Option<(&KeyEvent, &Vec<KeyEvent>)>)
    ensures
        r is Some == (i < index_map_entries(*m).len()),
        r is Some ==> r.unwrap().0@ == index_map_entries(*m)[i as int].0,
        r is Some ==> events_view(r.unwrap().1@) == index_map_entries(*m)[i as int].1,
{
    m.get_index(i)
}

/// An ordered collection of mappings from a trigger event to output events.
///
/// Stored as an `IndexMap` to guarantee first-match-wins semantics when the
/// cache is compiled.  Read from a YAML mapping where keys are event
/// strings and values are either a single event string or a list of event
/// strings.
#[derive(Debug)]
pub struct MappingTable(IndexMap<KeyEvent, Vec<KeyEvent>>);

impl View for MappingTable {
    type V = TableView;

    closed spec fn view(&self) -> TableView {
        index_map_entries(self.0)
    }
}

impl MappingTable {
    /// Every trigger occurs in one entry only.
    #[verifier::type_invariant]
    spec fn triggers_distinct(&self) -> bool {
        keys_distinct(self@)
    }

    /// An empty table.
    pub fn new() -> (r: MappingTable)
        ensures
            r@.len() == 0,
    {
        let m = event_map_new();
        assert(keys_distinct(index_map_entries(m)));
        MappingTable(m)
    }

    /// Whether the table has no entries.
    pub fn is_empty(&self) -> (r: bool)
        ensures
            r == (self@.len() == 0),
    {
        event_map_len(&self.0) == 0
    }

    /// The number of entries.
    pub fn len(&self) -> (r: usize)
        ensures
            r == self@.len(),
    {
        event_map_len(&self.0)
    }

    /// The entry at position `i` (definition order), if there is one.
    pub fn entry_at(&self, i: usize) -> (r: Option<(&KeyEvent, &Vec<KeyEvent>)>)
        ensures
            r is Some == (i < self@.len()),
            r is Some ==> r.unwrap().0@ == self@[i as int].0,
            r is Some ==> events_view(r.unwrap().1@) == self@[i as int].1,
    {
        event_map_get_index(&self.0, i)
    }

    /// The (trigger, outputs) pairs in definition order; no trigger occurs
    /// twice.
    pub fn iter(&self) -> (r: Vec<(&KeyEvent, &Vec<KeyEvent>)>)
        ensures
            keys_distinct(self@),
            r@.len() == self@.len(),
            forall|i: int|
                0 <= i < r@.len() ==> (#[trigger] r@[i]).0@ == self@[i].0 && events_view(r@[i].1@)
                    == self@[i].1,
    {
        proof {
            use_type_invariant(self);
        }
        let n = event_map_len(&self.0);
        let mut out: Vec<(&KeyEvent, &Vec<KeyEvent>)> = Vec::new();
        let mut i: usize = 0;
        while i < n
            invariant
                i <= n == self@.len(),
                out@.len() == i,
                forall|j: int|
                    0 <= j < i ==> (#[trigger] out@[j]).0@ == self@[j].0 && events_view(out@[j].1@)
                        == self@[j].1,
            decreases n - i,
        {
            match event_map_get_index(&self.0, i) {
                Some(p) => {
                    out.push(p);
                },
                None => {
                    assert(false);
                },
            }
            i = i + 1;
        }
        out
    }

    /// Map `trigger` to `outputs`: an existing equal trigger keeps its place
    /// and gets the new outputs, a new trigger goes last.
    pub fn insert(&mut self, trigger: KeyEvent, outputs: Vec<KeyEvent>)
        ensures
            final(self)@ == insert_entry(old(self)@, trigger@, events_view(outputs@)),
            keys_distinct(final(self)@),
    {
        proof {
            use_type_invariant(&*self);
            lemma_insert_keeps_keys_distinct(self@, trigger@, events_view(outputs@));
        }
        let mut taken = MappingTable::new();
        std::mem::swap(&mut taken, self);
        let MappingTable(mut m) = taken;
        event_map_insert(&mut m, trigger, outputs);
        *self = MappingTable(m);
    }
}

impl Default for MappingTable {
    fn default() -> (r: Self)
        ensures
            r@.len() == 0,
    {
        MappingTable::new()
    }
}

/// Inserting keeps the triggers distinct.
pub proof fn lemma_insert_keeps_keys_distinct(es: TableView, k: EventView, v: Seq<EventView>)
    requires
        keys_distinct(es),
    ensures
        keys_distinct(insert_entry(es, k, v)),
        exists|i: int|
            0 <= i < insert_entry(es, k, v).len() && #[trigger] insert_entry(es, k, v)[i] == (k, v),
{
    let r = insert_entry(es, k, v);
    if exists|i: int| 0 <= i < es.len() && (#[trigger] es[i]).0 == k {
        let i = choose|i: int| 0 <= i < es.len() && (#[trigger] es[i]).0 == k;
        assert(r[i] == (k, v));
        assert forall|a: int, b: int| 0 <= a < b < r.len() implies (#[trigger] r[a]).0 != (
        #[trigger] r[b]).0 by {
            if a == i {
                assert(es[b].0 != es[i].0);
            } else if b == i {
                assert(es[a].0 != es[i].0);
            } else {
                assert(es[a].0 != es[b].0);
            }
        }
    } else {
        assert(r[es.len() as int] == (k, v));
        assert forall|a: int, b: int| 0 <= a < b < r.len() implies (#[trigger] r[a]).0 != (
        #[trigger] r[b]).0 by {
            if b == es.len() {
                assert(es[a].0 != k);
            } else {
                assert(es[a].0 != es[b].0);
            }
        }
    }
}

// ---------------------------------------------------------------------------
// Building a mapping table from the raw document values
// ---------------------------------------------------------------------------

/// The value side of one mapping entry, as the configuration document
/// holds it.
pub enum MappingValue {
    /// A single event string.
    Event(String),
    /// A list of values; `None` stands for an item that is not a string.
    Events(Vec<Option<String>>),
    /// Anything else.
    Invalid,
}

/// The events of a list of output items, or the first error.
pub open spec fn spec_parse_output_items(items: Seq<Option<String>>) -> Result<
    Seq<EventView>,
    Seq<char>,
>
    decreases items.len(),
{
    if items.len() == 0 {
        Ok(Seq::empty())
    } else {
        match spec_parse_output_items(items.drop_last()) {
            Err(e) => Err(e),
            Ok(es) => match items.last() {
                None => Err("expected an event string in output sequence"@),
                Some(s) => match spec_parse_event(s@) {
                    Ok(e) => Ok(es.push(e)),
                    Err(m) => Err(m),
                },
            },
        }
    }
}

/// The output events a mapping value denotes, or the error message.
pub open spec fn spec_parse_outputs(v: MappingValue) -> Result<Seq<EventView>, Seq<char>> {
    match v {
        MappingValue::Event(s) => match spec_parse_event(s@) {
            Ok(e) => Ok(seq![e]),
            Err(m) => Err(m),
        },
        MappingValue::Events(items) => spec_parse_output_items(items@),
        MappingValue::Invalid => Err("expected an event string or list of event strings"@),
    }
}

/// The table that a list of raw entries denotes, or the first error: each
/// entry's trigger is parsed before its outputs, and entries are inserted in
/// order.
pub open spec fn spec_table_from_entries(entries: Seq<(String, MappingValue)>) -> Result<
    TableView,
    Seq<char>,
>
    decreases entries.len(),
{
    if entries.len() == 0 {
        Ok(Seq::empty())
    } else {
        match spec_table_from_entries(entries.drop_last()) {
            Err(e) => Err(e),
            Ok(t) => match spec_parse_event(entries.last().0@) {
                Err(e) => Err(e),
                Ok(trigger) => match spec_parse_outputs(entries.last().1) {
                    Err(e) => Err(e),
                    Ok(outs) => Ok(insert_entry(t, trigger, outs)),
                },
            },
        }
    }
}

/// Parse the outputs of one mapping value.
fn parse_outputs(v: &MappingValue) -> (r: Result<Vec<KeyEvent>, String>)
    ensures
        match r {
            Ok(es) => spec_parse_outputs(*v) == EventsResult::Ok(events_view(es@)),
            Err(m) => spec_parse_outputs(*v) == EventsResult::Err(m@),
        },
{
    match v {
        MappingValue::Event(s) => match KeyEvent::parse(s.as_str()) {
            Ok(e) => {
                let out = vec![e];
                assert(events_view(out@) =~= seq![e@]);
                Ok(out)
            },
            Err(m) => Err(m),
        },
        MappingValue::Events(items) => {
            let mut out: Vec<KeyEvent> = Vec::new();
            let mut i: usize = 0;
            assert(items@.take(0) =~= Seq::<Option<String>>::empty());
            assert(events_view(out@) =~= Seq::<EventView>::empty());
            assert(spec_parse_outputs(*v) == spec_parse_output_items(items@));
            while i < items.len()
                invariant
                    i <= items@.len(),
                    spec_parse_outputs(*v) == spec_parse_output_items(items@),
                    spec_parse_output_items(items@.take(i as int)) == EventsResult::Ok(events_view(out@)),
                decreases items@.len() - i,
            {
                assert(items@.take(i as int + 1).drop_last() =~= items@.take(i as int));
                assert(items@.take(i as int + 1).last() == items@[i as int]);
                match &items[i] {
                    None => {
                        proof {
                            lemma_output_items_prefix_error(items@, i as int + 1);
                        }
                        return Err(String::from_str("expected an event string in output sequence"));
                    },
                    Some(s) => match KeyEvent::parse(s.as_str()) {
                        Ok(e) => {
                            let ghost before = out@;
                            out.push(e);
                            assert(events_view(out@) =~= events_view(before).push(e@));
                        },
                        Err(m) => {
                            proof {
                                lemma_output_items_prefix_error(items@, i as int + 1);
                            }
                            return Err(m);
                        },
                    },
                }
                i = i + 1;
            }
            assert(items@.take(items@.len() as int) =~= items@);
            Ok(out)
        },
        MappingValue::Invalid => Err(
            String::from_str("expected an event string or list of event strings"),
        ),
    }
}

/// An error on a prefix of the output items is the error of the whole list.
pub proof fn lemma_output_items_prefix_error(items: Seq<Option<String>>, i: int)
    requires
        0 <= i <= items.len(),
        spec_parse_output_items(items.take(i)) is Err,
    ensures
        spec_parse_output_items(items) == spec_parse_output_items(items.take(i)),
    decreases items.len() - i,
{
    if i < items.len() {
        assert(items.take(i + 1).drop_last() =~= items.take(i));
        lemma_output_items_prefix_error(items, i + 1);
    } else {
        assert(items.take(i) =~= items);
    }
}

/// An error on a prefix of the entries is the error of the whole list.
pub proof fn lemma_entries_prefix_error(entries: Seq<(String, MappingValue)>, i: int)
    requires
        0 <= i <= entries.len(),
        spec_table_from_entries(entries.take(i)) is Err,
    ensures
        spec_table_from_entries(entries) == spec_table_from_entries(entries.take(i)),
    decreases entries.len() - i,
{
    if i < entries.len() {
        assert(entries.take(i + 1).drop_last() =~= entries.take(i));
        lemma_entries_prefix_error(entries, i + 1);
    } else {
        assert(entries.take(i) =~= entries);
    }
}

impl MappingTable {
    /// Build a table from the entries of a configuration mapping, in
    /// document order.  Every trigger and output string is parsed as a key
    /// event; the first failure is returned.
    pub fn from_entries(entries: Vec<(String, MappingValue)>) -> (r: Result<MappingTable, String>)
        ensures
            match r {
                Ok(t) => spec_table_from_entries(entries@) == TableResult::Ok(t@),
                Err(m) => spec_table_from_entries(entries@) == TableResult::Err(m@),
            },
    {
        let mut table = MappingTable::new();
        assert(table@ =~= Seq::<(EventView, Seq<EventView>)>::empty());
        let mut i: usize = 0;
        assert(entries@.take(0) =~= Seq::<(String, MappingValue)>::empty());
        while i < entries.len()
            invariant
                i <= entries@.len(),
                spec_table_from_entries(entries@.take(i as int)) == TableResult::Ok(table@),
            decreases entries@.len() - i,
        {
            assert(entries@.take(i as int + 1).drop_last() =~= entries@.take(i as int));
            assert(entries@.take(i as int + 1).last() == entries@[i as int]);
            let trigger = match KeyEvent::parse(entries[i].0.as_str()) {
                Ok(e) => e,
                Err(m) => {
                    proof {
                        lemma_entries_prefix_error(entries@, i as int + 1);
                    }
                    return Err(m);
                },
            };
            let outputs = match parse_outputs(&entries[i].1) {
                Ok(es) => es,
                Err(m) => {
                    proof {
                        lemma_entries_prefix_error(entries@, i as int + 1);
                    }
                    return Err(m);
                },
            };
            table.insert(trigger, outputs);
            i = i + 1;
        }
        assert(entries@.take(entries@.len() as int) =~= entries@);
        Ok(table)
    }
}

// ---------------------------------------------------------------------------
// RuleGroup -- app-scoped collection of mappings
// ---------------------------------------------------------------------------

/// The mathematical value of a rule group: name, target applications,
/// mapping entries.
pub type GroupView = (Option<Seq<char>>, Seq<Seq<char>>, TableView);

/// The values of a list of strings.
pub open spec fn strings_view(ss: Seq<String>) -> Seq<Seq<char>> {
    ss.map_values(|s: String| s@)
}

/// A named group of key mappings, optionally scoped to specific applications.
///
/// When `apps` is empty the group applies globally (all applications).
/// Groups are evaluated in definition order; the first group whose app
/// scope matches is used.
#[derive(Debug)]
pub struct RuleGroup {
    /// Human-readable name for documentation/debugging.  Not required.
    pub name: Option<String>,
    /// Target applications (process names or bundle IDs).  An empty list
    /// means the group applies globally.
    pub apps: Vec<String>,
    /// Ordered event-to-events mappings.  The first matching rule wins.
    pub mappings: MappingTable,
}

impl View for RuleGroup {
    type V = GroupView;

    open spec fn view(&self) -> GroupView {
        (
            match self.name {
                Some(n) => Some(n@),
                None => None,
            },
            strings_view(self.apps@),
            self.mappings@,
        )
    }
}

// ---------------------------------------------------------------------------
// AppConfig -- root configuration document
// ---------------------------------------------------------------------------

/// The root configuration layout representing the YAML file structure.
///
/// The document is a sequence of rule groups.  Groups are evaluated in
/// definition order; within each group, mappings are evaluated in
/// definition order.  The first matching rule wins.
#[derive(Debug)]
pub struct AppConfig {
    pub groups: Vec<RuleGroup>,
}

/// The values of a list of rule groups.
pub open spec fn groups_view(gs: Seq<RuleGroup>) -> Seq<GroupView> {
    gs.map_values(|g: RuleGroup| g@)
}

impl View for AppConfig {
    type V = Seq<GroupView>;

    open spec fn view(&self) -> Seq<GroupView> {
        groups_view(self.groups@)
    }
}

impl Default for AppConfig {
    fn default() -> (r: Self)
        ensures
            r@.len() == 0,
    {
        AppConfig { groups: Vec::new() }
    }
}

/// Group `i` is the first group named `name`.
pub open spec fn is_first_named(gs: Seq<GroupView>, name: Seq<char>, i: int) -> bool {
    0 <= i < gs.len() && gs[i].0 == Some(name) && forall|j: int|
        0 <= j < i ==> (#[trigger] gs[j]).0 != Some(name)
}

/// The position of the first group named `name`, if any.
pub open spec fn find_group(gs: Seq<GroupView>, name: Seq<char>) -> Option<int> {
    if exists|i: int| is_first_named(gs, name, i) {
        Some(choose|i: int| is_first_named(gs, name, i))
    } else {
        None
    }
}

/// The value of an optional list of application names.
pub open spec fn apps_view(apps: Option<Vec<String>>) -> Option<Seq<Seq<char>>> {
    match apps {
        Some(a) => Some(strings_view(a@)),
        None => None,
    }
}

/// `g` after adding the rule `t -> [o]`; the given applications scope the
/// group only when it has none yet.
pub open spec fn group_with_rule(
    g: GroupView,
    apps: Option<Seq<Seq<char>>>,
    t: EventView,
    o: EventView,
) -> GroupView {
    (
        g.0,
        if apps is Some && g.1.len() == 0 {
            apps->0
        } else {
            g.1
        },
        insert_entry(g.2, t, seq![o]),
    )
}

/// The groups after adding the rule `t -> [o]` to the first group named
/// `name`, or to a new group of that name at the end.
pub open spec fn spec_add_rule(
    gs: Seq<GroupView>,
    name: Seq<char>,
    apps: Option<Seq<Seq<char>>>,
    t: EventView,
    o: EventView,
) -> Seq<GroupView> {
    match find_group(gs, name) {
        Some(i) => gs.update(i, group_with_rule(gs[i], apps, t, o)),
        None => gs.push(group_with_rule((Some(name), Seq::empty(), Seq::empty()), apps, t, o)),
    }
}

impl AppConfig {
    /// Add the mapping `trigger -> output` to the group named `group_name`.
    ///
    /// The first group with that name receives the rule; when there is none,
    /// a new group of that name is appended.  `apps`, when given, becomes
    /// the group's application list if the group has none yet.  An equal
    /// trigger already in the group is remapped in place.
    pub fn add_rule(
        &mut self,
        trigger: KeyEvent,
        output: KeyEvent,
        group_name: &str,
        apps: Option<Vec<String>>,
    )
        ensures
            final(self)@ == spec_add_rule(old(self)@, group_name@, apps_view(apps), trigger@, output@),
    {
        let ghost gs = self@;
        let mut idx: Option<usize> = None;
        let mut i: usize = 0;
        while idx.is_none() && i < self.groups.len()
            invariant
                i <= self.groups@.len(),
                gs == self@,
                gs.len() == self.groups@.len(),
                idx is None ==> forall|j: int| 0 <= j < i ==> (#[trigger] gs[j]).0 != Some(group_name@),
                idx matches Some(k) ==> is_first_named(gs, group_name@, k as int),
            decreases self.groups@.len() - i + (if idx is None { 1int } else { 0int }),
        {
            assert(gs[i as int] == self.groups@[i as int]@);
            let found = match &self.groups[i].name {
                Some(n) => str_eq(n.as_str(), group_name),
                None => false,
            };
            if found {
                idx = Some(i);
            } else {
                i = i + 1;
            }
        }
        let outputs = vec![output];
        assert(events_view(outputs@) =~= seq![output@]);
        match idx {
            Some(k) => {
                proof {
                    assert(find_group(gs, group_name@) == Some(k as int)) by {
                        let c = choose|c: int| is_first_named(gs, group_name@, c);
                        if c < k {
                            assert(gs[c].0 != Some(group_name@));
                        } else if c > k {
                            assert(gs[k as int].0 != Some(group_name@));
                        }
                    }
                }
                let mut g = self.groups.remove(k);
                if g.apps.len() == 0 {
                    match apps {
                        Some(a) => {
                            g.apps = a;
                        },
                        None => {},
                    }
                }
                g.mappings.insert(trigger, outputs);
                self.groups.insert(k, g);
                assert(self@ =~= gs.update(k as int, group_with_rule(gs[k as int], apps_view(apps), trigger@, output@)));
            },
            None => {
                proof {
                    assert(find_group(gs, group_name@) is None) by {
                        if exists|c: int| is_first_named(gs, group_name@, c) {
                            let c = choose|c: int| is_first_named(gs, group_name@, c);
                            assert(gs[c].0 == Some(group_name@));
                        }
                    }
                }
                let app_list = match apps {
                    Some(a) => a,
                    None => {
                        let empty: Vec<String> = Vec::new();
                        assert(strings_view(empty@) =~= Seq::<Seq<char>>::empty());
                        empty
                    },
                };
                let mut mappings = MappingTable::new();
                mappings.insert(trigger, outputs);
                let g = RuleGroup { name: Some(String::from_str(group_name)), apps: app_list, mappings };
                let ghost empty_table: TableView = Seq::empty();
                assert(mappings@ == insert_entry(empty_table, trigger@, seq![output@])) by {
                    assert(empty_table =~= Seq::<(EventView, Seq<EventView>)>::empty());
                }
                let ghost before = self.groups@;
                self.groups.push(g);
                assert(self@ =~= gs.push(group_with_rule((Some(group_name@), Seq::empty(), Seq::empty()), apps_view(apps), trigger@, output@)));
            },
        }
    }
}

} // verus!
