//! The compiled lookup cache: configuration rules turned into the native key
//! codes of one platform and exact modifier bitmasks.
//!
//! Modifier bitmask layout (u8), specific key bits only:
//!
//! bit 0: left control      bit 1: right control
//! bit 2: left shift        bit 3: right shift
//! bit 4: left alt          bit 5: right alt
//! bit 6: left command/win  bit 7: right command/win
//!
//! Input matching uses exact equality.  "Either side" semantics (e.g. "ctrl"
//! matching left or right) are achieved by compile-time rule expansion: a
//! rule with "ctrl" produces two entries, one with bit 0 and one with bit 1.
use vstd::prelude::*;

use indexmap::IndexMap;

use crate::config::{
    events_view,
    AppConfig,
    EventView,
    GroupView,
    Key,
    KeyEvent,
    MappingTable,
    TableView,
};
use crate::key_table::{key_code, native_code, Platform};
use crate::lemmas::lemma_map_values_push;
use crate::text::{str_to_lowercase, to_lower};

verus! {

/// A platform-native key event: modifiers held together with a base key press.
/// Used uniformly for both input matching and output emission.
#[derive(Debug, Clone, Copy, PartialEq, Eq, Hash, Structural)]
pub struct NativeKey {
    /// Bitmask of specific modifier keys currently held.
    pub modifiers: u8,
    /// Native key code of the base key (any key, including modifier keys).
    pub base: u16,
}

/// The mathematical value of a compiled rule: trigger base code, exact
/// modifier mask, output events, and the index of the rule group it comes
/// from.
pub type RuleView = (u16, u8, Seq<NativeKey>, usize);

/// A single compiled rule: trigger key paired with output events.
/// Multiple entries may share the same base key but differ in modifiers.
#[derive(Debug, Clone)]
pub struct CompiledRule {
    /// Native key code of the trigger's base key.
    pub base: u16,
    /// Exact modifier bitmask for matching.
    pub modifiers: u8,
    /// Output events to emit when this rule matches.
    pub outputs: Vec<NativeKey>,
    /// Index of the rule group the rule was compiled from: of two matching
    /// rules, the one of the earlier group wins.
    pub group: usize,
}

impl View for CompiledRule {
    type V = RuleView;

    open spec fn view(&self) -> RuleView {
        (self.base, self.modifiers, self.outputs@, self.group)
    }
}

/// Rule lists by application name.
pub type AppRulesView = Map<Seq<char>, Seq<RuleView>>;

/// The values of a list of compiled rules.
pub open spec fn rules_view(rs: Seq<CompiledRule>) -> Seq<RuleView> {
    rs.map_values(|r: CompiledRule| r@)
}

// ---------------------------------------------------------------------------
// Modifier bits
// ---------------------------------------------------------------------------

/// The exact modifier mask of a list of keys: each modifier key sets its own
/// bit, other keys contribute nothing.
pub open spec fn spec_compile_bits(ms: Seq<Key>) -> u8
    decreases ms.len(),
{
    if ms.len() == 0 {
        0
    } else {
        let b = spec_compile_bits(ms.drop_last());
        match ms.last().spec_modifier_bit() {
            Some(bit) => b | (1u8 << bit),
            None => b,
        }
    }
}

/// A right-side modifier key.  Only the specific names reach these keys
/// (the group aliases such as `ctrl` resolve to the left side).
pub open spec fn is_right_side(k: Key) -> bool {
    k == Key::RightControl || k == Key::RightShift || k == Key::RightAlt || k == Key::RightCommand
}

/// The bit positions a key in modifier position may take: both sides of
/// its group for a left-side modifier key (the group aliases name these),
/// its own bit for a right-side one, and none for a key that is not a
/// modifier (it contributes nothing).
pub open spec fn variant_bits(k: Key) -> Option<Seq<u8>> {
    if is_right_side(k) {
        Some(seq![k.spec_modifier_bit()->0])
    } else {
        k.spec_modifier_positions()
    }
}

/// Every mask of `rs` combined with every position of `choice`, in
/// mask-major order.
pub open spec fn extend_bits(rs: Seq<u8>, choice: Seq<u8>) -> Seq<u8>
    decreases rs.len(),
{
    if rs.len() == 0 {
        Seq::empty()
    } else {
        extend_bits(rs.drop_last(), choice) + choice.map_values(|b: u8| rs.last() | (1u8 << b))
    }
}

/// All variant masks of a modifier list: the Cartesian product of the
/// modifiers' bit positions; keys without positions leave the masks as
/// they are.
pub open spec fn spec_expand(ms: Seq<Key>) -> Seq<u8>
    decreases ms.len(),
{
    if ms.len() == 0 {
        seq![0u8]
    } else {
        match variant_bits(ms.last()) {
            Some(ps) => extend_bits(spec_expand(ms.drop_last()), ps),
            None => spec_expand(ms.drop_last()),
        }
    }
}

/// The native form of a key event on platform `p`.
pub open spec fn native_of(e: EventView, p: Platform) -> NativeKey {
    NativeKey { modifiers: spec_compile_bits(e.0), base: native_code(e.1, p) }
}

/// The native forms of a list of key events on platform `p`.
pub open spec fn natives_of(es: Seq<EventView>, p: Platform) -> Seq<NativeKey> {
    es.map_values(|e: EventView| native_of(e, p))
}

/// Compile a list of output key events into the native form of `platform`.
pub fn compile_outputs(events: &[KeyEvent], platform: Platform) -> (r: Vec<NativeKey>)
    ensures
        r@ == natives_of(events_view(events@), platform),
{
    let mut out: Vec<NativeKey> = Vec::new();
    let mut i: usize = 0;
    while i < events.len()
        invariant
            i <= events@.len(),
            out@ == natives_of(events_view(events@.take(i as int)), platform),
        decreases events@.len() - i,
    {
        let ghost before = out@;
        let event = &events[i];
        out.push(NativeKey { modifiers: compile_modifier_bits(event.modifiers.as_slice()), base: key_code(event.base, platform) });
        assert(events@.take(i as int + 1) =~= events@.take(i as int).push(events@[i as int]));
        assert(out@ =~= natives_of(events_view(events@.take(i as int + 1)), platform));
        i = i + 1;
    }
    assert(events@.take(events@.len() as int) =~= events@);
    out
}

/// Compile modifier keys into a specific bitmask.
///
/// Each modifier contributes its own specific bit (left vs right is
/// preserved).
pub fn compile_modifier_bits(keys: &[Key]) -> (r: u8)
    ensures
        r == spec_compile_bits(keys@),
{
    let mut bits: u8 = 0;
    let mut i: usize = 0;
    while i < keys.len()
        invariant
            i <= keys@.len(),
            bits == spec_compile_bits(keys@.take(i as int)),
        decreases keys@.len() - i,
    {
        assert(keys@.take(i as int + 1).drop_last() =~= keys@.take(i as int));
        proof {
            crate::os::macos::lemma_modifier_bit_in_positions(keys@[i as int]);
        }
        match keys[i].as_modifier_bit() {
            Some(bit) => {
                bits = bits | (1u8 << bit);
            },
            None => {},
        }
        i = i + 1;
    }
    assert(keys@.take(keys@.len() as int) =~= keys@);
    bits
}

/// The positions a key in modifier position may take.
fn positions_for(key: Key) -> (r: Option<Vec<u8>>)
    ensures
        r is Some == variant_bits(key) is Some,
        r is Some ==> r.unwrap()@ == variant_bits(key)->0,
        r is Some ==> forall|j: int| 0 <= j < r.unwrap()@.len() ==> r.unwrap()@[j] < 8,
{
    proof {
        crate::os::macos::lemma_modifier_bit_in_positions(key);
    }
    match key {
        Key::RightControl | Key::RightShift | Key::RightAlt | Key::RightCommand => {
            match key.as_modifier_bit() {
                Some(bit) => {
                    let v = vec![bit];
                    assert(v@ =~= seq![bit]);
                    Some(v)
                },
                None => None,
            }
        },
        _ => key.as_modifier_positions(),
    }
}

/// Expand modifier keys into all "either side" variant bitmasks.
///
/// For group aliases (e.g. "ctrl" -> LeftControl), both left and right bits
/// are valid matches.  For specific keys (e.g. "rightctrl" -> RightControl),
/// only the corresponding bit matches.  A key that is not a modifier
/// contributes nothing.
///
/// Returns a list of bitmasks, one per variant.  A bare key (no modifiers)
/// produces a single entry: `vec![0]`.
pub fn expand_modifier_bits(modifiers: &[Key]) -> (r: Vec<u8>)
    ensures
        r@ == spec_expand(modifiers@),
{
    let mut results: Vec<u8> = vec![0u8];
    assert(results@ =~= spec_expand(modifiers@.take(0)));
    let mut k: usize = 0;
    while k < modifiers.len()
        invariant
            k <= modifiers@.len(),
            results@ == spec_expand(modifiers@.take(k as int)),
        decreases modifiers@.len() - k,
    {
        assert(modifiers@.take(k as int + 1).drop_last() =~= modifiers@.take(k as int));
        assert(modifiers@.take(k as int + 1).last() == modifiers@[k as int]);
        match positions_for(modifiers[k]) {
            None => {},
            Some(choice) => {
                let mut next: Vec<u8> = Vec::new();
                let mut a: usize = 0;
                while a < results.len()
                    invariant
                        a <= results@.len(),
                        forall|j: int| 0 <= j < choice@.len() ==> choice@[j] < 8,
                        next@ == extend_bits(results@.take(a as int), choice@),
                    decreases results@.len() - a,
                {
                    let acc = results[a];
                    let ghost before = next@;
                    let mut c: usize = 0;
                    while c < choice.len()
                        invariant
                            c <= choice@.len(),
                            forall|j: int| 0 <= j < choice@.len() ==> choice@[j] < 8,
                            next@ == before + choice@.take(c as int).map_values(|b: u8| acc | (1u8 << b)),
                        decreases choice@.len() - c,
                    {
                        let bit = choice[c];
                        next.push(acc | (1u8 << bit));
                        assert(choice@.take(c as int + 1).map_values(|b: u8| acc | (1u8 << b)) =~= choice@.take(
                            c as int,
                        ).map_values(|b: u8| acc | (1u8 << b)).push(acc | (1u8 << bit)));
                        c = c + 1;
                    }
                    assert(choice@.take(choice@.len() as int) =~= choice@);
                    assert(results@.take(a as int + 1).drop_last() =~= results@.take(a as int));
                    a = a + 1;
                }
                assert(results@.take(results@.len() as int) =~= results@);
                results = next;
            },
        }
        k = k + 1;
    }
    assert(modifiers@.take(modifiers@.len() as int) =~= modifiers@);
    results
}

// ---------------------------------------------------------------------------
// Rules of a configuration
// ---------------------------------------------------------------------------

/// The rules one mapping entry of group `g` compiles to on platform `p`:
/// one per variant mask, all with the same base code and outputs.
pub open spec fn entry_rules(t: EventView, outs: Seq<EventView>, p: Platform, g: usize) -> Seq<RuleView> {
    spec_expand(t.0).map_values(|b: u8| (native_code(t.1, p), b, natives_of(outs, p), g))
}

/// The rules of the mapping table of group `g` on platform `p`, in
/// definition order.
pub open spec fn table_rules(es: TableView, p: Platform, g: usize) -> Seq<RuleView>
    decreases es.len(),
{
    if es.len() == 0 {
        Seq::empty()
    } else {
        table_rules(es.drop_last(), p, g) + entry_rules(es.last().0, es.last().1, p, g)
    }
}

/// The global rules of a configuration on platform `p`: the rules of every
/// group without applications, in group order (groups without mappings
/// contribute none).
pub open spec fn spec_global_rules(gs: Seq<GroupView>, p: Platform) -> Seq<RuleView>
    decreases gs.len(),
{
    if gs.len() == 0 {
        Seq::empty()
    } else {
        let g = gs.last();
        spec_global_rules(gs.drop_last(), p) + if g.2.len() > 0 && g.1.len() == 0 {
            table_rules(g.2, p, (gs.len() - 1) as usize)
        } else {
            Seq::empty()
        }
    }
}

/// Lower-cased application names.
pub open spec fn lowered(apps: Seq<Seq<char>>) -> Seq<Seq<char>> {
    apps.map_values(|a: Seq<char>| to_lower(a))
}

/// The (application, rule) additions of one scoped group, in the order the
/// compiler makes them: for each rule, once per listed application.
pub open spec fn app_pushes(rules: Seq<RuleView>, apps: Seq<Seq<char>>) -> Seq<(Seq<char>, RuleView)>
    decreases rules.len(),
{
    if rules.len() == 0 {
        Seq::empty()
    } else {
        app_pushes(rules.drop_last(), apps) + apps.map_values(|a: Seq<char>| (a, rules.last()))
    }
}

/// The (application, rule) additions of a whole configuration on platform
/// `p`.
pub open spec fn config_pushes(gs: Seq<GroupView>, p: Platform) -> Seq<(Seq<char>, RuleView)>
    decreases gs.len(),
{
    if gs.len() == 0 {
        Seq::empty()
    } else {
        let g = gs.last();
        config_pushes(gs.drop_last(), p) + if g.2.len() > 0 && g.1.len() > 0 {
            app_pushes(table_rules(g.2, p, (gs.len() - 1) as usize), lowered(g.1))
        } else {
            Seq::empty()
        }
    }
}

/// The rules of application `a` in `m`, empty when it has none.
pub open spec fn rules_of(m: Map<Seq<char>, Seq<RuleView>>, a: Seq<char>) -> Seq<RuleView> {
    if m.contains_key(a) {
        m[a]
    } else {
        Seq::empty()
    }
}

/// `m` after appending each rule of `ps` to its application's list.
pub open spec fn apply_pushes(m: Map<Seq<char>, Seq<RuleView>>, ps: Seq<(Seq<char>, RuleView)>) -> Map<
    Seq<char>,
    Seq<RuleView>,
>
    decreases ps.len(),
{
    if ps.len() == 0 {
        m
    } else {
        let prev = apply_pushes(m, ps.drop_last());
        let (a, r) = ps.last();
        prev.insert(a, rules_of(prev, a).push(r))
    }
}

/// The per-application rules of a configuration on platform `p`.
pub open spec fn spec_process_rules(gs: Seq<GroupView>, p: Platform) -> Map<Seq<char>, Seq<RuleView>> {
    apply_pushes(Map::empty(), config_pushes(gs, p))
}

/// Applying two lists of additions one after the other.
pub proof fn lemma_apply_pushes_concat(
    m: Map<Seq<char>, Seq<RuleView>>,
    p: Seq<(Seq<char>, RuleView)>,
    q: Seq<(Seq<char>, RuleView)>,
)
    ensures
        apply_pushes(m, p + q) == apply_pushes(apply_pushes(m, p), q),
    decreases q.len(),
{
    if q.len() == 0 {
        assert(p + q =~= p);
    } else {
        assert((p + q).drop_last() =~= p + q.drop_last());
        lemma_apply_pushes_concat(m, p, q.drop_last());
    }
}

// ---------------------------------------------------------------------------
// The compiled cache
// ---------------------------------------------------------------------------

/// The per-application rule lists an `IndexMap` holds.
pub uninterp spec fn index_map_rules(m: IndexMap<String, Vec<CompiledRule>>) -> Map<
    Seq<char>,
    Seq<RuleView>,
>;

/// `IndexMap::new`: an empty map.
#[verifier::external_body]
fn rule_map_new() -> (res: IndexMap<String, Vec<CompiledRule>>)
    ensures
        index_map_rules(res) == AppRulesView::empty(),
{
    IndexMap::new()
}

/// `IndexMap::entry` with `Entry::or_default`, then `Vec::push`: appends
/// `rule` to the list of the key equal to `app` (string equality), which
/// starts empty when the map has no such key.
#[verifier::external_body]
fn rule_map_push(m: &mut IndexMap<String, Vec<CompiledRule>>, app: String, rule: CompiledRule)
    ensures
        index_map_rules(*final(m)) == index_map_rules(*old(m)).insert(
            app@,
            rules_of(index_map_rules(*old(m)), app@).push(rule@),
        ),
{
    m.entry(app).or_default().push(rule);
}

/// `IndexMap::get`: the value of the key equal to `k`, if there is one.
#[verifier::external_body]
fn rule_map_get<'a>(m: &'a IndexMap<String, Vec<CompiledRule>>, k: &str) -> (r: Option<&'a Vec<CompiledRule>>)
    ensures
        r is Some == index_map_rules(*m).contains_key(k@),
        r is Some ==> rules_view(r.unwrap()@) == index_map_rules(*m)[k@],
{
    m.get(k)
}

/// Compiled key-mapping cache optimised for fast runtime lookups.
///
/// Per-application rules are kept in an `IndexMap` keyed by the lower-cased
/// application name.  Modifier discrimination happens at lookup time by
/// scanning entries with matching modifier bits.  The first match wins,
/// preserving definition order within each scope; each rule carries the
/// index of its group, so that lookups can order the two scopes' matches by
/// definition too.
#[derive(Debug)]
pub struct RuntimeLookupCache {
    /// Per-app rules: app name -> list of compiled rules.
    process_rules: IndexMap<String, Vec<CompiledRule>>,
    /// Global rules: list of compiled rules.
    global_rules: Vec<CompiledRule>,
}

impl View for RuntimeLookupCache {
    type V = (Map<Seq<char>, Seq<RuleView>>, Seq<RuleView>);

    closed spec fn view(&self) -> (Map<Seq<char>, Seq<RuleView>>, Seq<RuleView>) {
        (index_map_rules(self.process_rules), rules_view(self.global_rules@))
    }
}

impl RuntimeLookupCache {
    /// The rules scoped to application `app`, if it has any.
    pub fn process_rules(&self, app: &str) -> (r: Option<&Vec<CompiledRule>>)
        ensures
            r is Some == self@.0.contains_key(app@),
            r is Some ==> rules_view(r.unwrap()@) == self@.0[app@],
    {
        rule_map_get(&self.process_rules, app)
    }

    /// The global rules.
    pub fn global_rules(&self) -> (r: &Vec<CompiledRule>)
        ensures
            rules_view(r@) == self@.1,
    {
        &self.global_rules
    }
}

/// Copy a list of native key events.
fn copy_natives(v: &Vec<NativeKey>) -> (r: Vec<NativeKey>)
    ensures
        r@ == v@,
{
    let mut out: Vec<NativeKey> = Vec::new();
    let mut i: usize = 0;
    while i < v.len()
        invariant
            i <= v@.len(),
            out@ == v@.take(i as int),
        decreases v@.len() - i,
    {
        out.push(v[i]);
        assert(v@.take(i as int + 1) =~= v@.take(i as int).push(v@[i as int]));
        i = i + 1;
    }
    assert(v@.take(v@.len() as int) =~= v@);
    out
}

/// Copy a compiled rule.
fn copy_rule(r: &CompiledRule) -> (c: CompiledRule)
    ensures
        c@ == r@,
{
    CompiledRule { base: r.base, modifiers: r.modifiers, outputs: copy_natives(&r.outputs), group: r.group }
}

/// The rules of one mapping entry.
fn compile_entry(trigger: &KeyEvent, outputs: &Vec<KeyEvent>, platform: Platform, group: usize) -> (r: Vec<
    CompiledRule,
>)
    ensures
        rules_view(r@) == entry_rules(trigger@, events_view(outputs@), platform, group),
{
    let native_outputs = compile_outputs(outputs.as_slice(), platform);
    let variants = expand_modifier_bits(trigger.modifiers.as_slice());
    let trigger_base = key_code(trigger.base, platform);
    let mut rules: Vec<CompiledRule> = Vec::new();
    let mut i: usize = 0;
    let ghost outs = natives_of(events_view(outputs@), platform);
    while i < variants.len()
        invariant
            i <= variants@.len(),
            variants@ == spec_expand(trigger.modifiers@),
            native_outputs@ == outs,
            trigger_base == native_code(trigger.base, platform),
            rules_view(rules@) == variants@.take(i as int).map_values(
                |b: u8| (trigger_base, b, outs, group),
            ),
        decreases variants@.len() - i,
    {
        let ghost before = rules@;
        let rule = CompiledRule {
            base: trigger_base,
            modifiers: variants[i],
            outputs: copy_natives(&native_outputs),
            group,
        };
        assert(rule@ == (trigger_base, variants@[i as int], outs, group));
        rules.push(rule);
        proof {
            lemma_map_values_push(before, rule, |r: CompiledRule| r@);
            assert(variants@.take(i as int + 1) =~= variants@.take(i as int).push(variants@[i as int]));
            lemma_map_values_push(variants@.take(i as int), variants@[i as int], |b: u8| (trigger_base, b, outs, group));
        }
        assert(rules_view(rules@) =~= variants@.take(i as int + 1).map_values(
            |b: u8| (trigger_base, b, outs, group),
        ));
        i = i + 1;
    }
    assert(variants@.take(variants@.len() as int) =~= variants@);
    rules
}

/// The rules of the mapping table of group `group`.
fn compile_table(table: &MappingTable, platform: Platform, group: usize) -> (r: Vec<CompiledRule>)
    ensures
        rules_view(r@) == table_rules(table@, platform, group),
{
    let n = table.len();
    let mut rules: Vec<CompiledRule> = Vec::new();
    let mut i: usize = 0;
    assert(rules_view(rules@) =~= table_rules(table@.take(0), platform, group));
    while i < n
        invariant
            i <= n == table@.len(),
            rules_view(rules@) == table_rules(table@.take(i as int), platform, group),
        decreases n - i,
    {
        let entry = table.entry_at(i);
        match entry {
            Some(p) => {
                let mut more = compile_entry(p.0, p.1, platform, group);
                let ghost before = rules@;
                let ghost added = more@;
                rules.append(&mut more);
                assert(rules_view(rules@) =~= rules_view(before) + rules_view(added));
                assert(table@.take(i as int + 1).drop_last() =~= table@.take(i as int));
            },
            None => {
                assert(false);
            },
        }
        i = i + 1;
    }
    assert(table@.take(n as int) =~= table@);
    rules
}

/// Lower-case a list of application names.
fn lower_apps(apps: &Vec<String>) -> (r: Vec<String>)
    ensures
        crate::config::strings_view(r@) == lowered(crate::config::strings_view(apps@)),
{
    let mut out: Vec<String> = Vec::new();
    let mut i: usize = 0;
    while i < apps.len()
        invariant
            i <= apps@.len(),
            crate::config::strings_view(out@) == lowered(
                crate::config::strings_view(apps@),
            ).take(i as int),
        decreases apps@.len() - i,
    {
        let ghost before = out@;
        let lower = str_to_lowercase(apps[i].as_str());
        out.push(lower);
        proof {
            lemma_map_values_push(before, lower, |s: String| s@);
            let all = lowered(crate::config::strings_view(apps@));
            assert(all[i as int] == to_lower(apps@[i as int]@));
            assert(all.take(i as int + 1) =~= all.take(i as int).push(all[i as int]));
        }
        assert(crate::config::strings_view(out@) =~= lowered(
            crate::config::strings_view(apps@),
        ).take(i as int + 1));
        i = i + 1;
    }
    assert(lowered(crate::config::strings_view(apps@)).take(apps@.len() as int) =~= lowered(
        crate::config::strings_view(apps@),
    ));
    out
}

/// Append every rule of `rules` to the list of each application of `apps`,
/// rule by rule.
fn push_all(m: &mut IndexMap<String, Vec<CompiledRule>>, rules: &Vec<CompiledRule>, apps: &Vec<String>)
    ensures
        index_map_rules(*final(m)) == apply_pushes(
            index_map_rules(*old(m)),
            app_pushes(rules_view(rules@), crate::config::strings_view(apps@)),
        ),
{
    let ghost m0 = index_map_rules(*m);
    let ghost rs = rules_view(rules@);
    let ghost aps = crate::config::strings_view(apps@);
    let mut i: usize = 0;
    assert(rs.take(0) =~= Seq::<RuleView>::empty());
    while i < rules.len()
        invariant
            i <= rules@.len(),
            rs == rules_view(rules@),
            aps == crate::config::strings_view(apps@),
            index_map_rules(*m) == apply_pushes(m0, app_pushes(rs.take(i as int), aps)),
        decreases rules@.len() - i,
    {
        let ghost m1 = index_map_rules(*m);
        let mut j: usize = 0;
        assert(aps.take(0).map_values(|a: Seq<char>| (a, rs[i as int])) =~= Seq::<
            (Seq<char>, RuleView),
        >::empty());
        while j < apps.len()
            invariant
                j <= apps@.len(),
                i < rules@.len(),
                rs == rules_view(rules@),
                aps == crate::config::strings_view(apps@),
                index_map_rules(*m) == apply_pushes(
                    m1,
                    aps.take(j as int).map_values(|a: Seq<char>| (a, rs[i as int])),
                ),
            decreases apps@.len() - j,
        {
            let rule = copy_rule(&rules[i]);
            rule_map_push(m, apps[j].clone(), rule);
            proof {
                let ps = aps.take(j as int).map_values(|a: Seq<char>| (a, rs[i as int]));
                let ps2 = aps.take(j as int + 1).map_values(|a: Seq<char>| (a, rs[i as int]));
                assert(ps2.drop_last() =~= ps);
                assert(ps2.last() == (apps@[j as int]@, rs[i as int]));
            }
            j = j + 1;
        }
        proof {
            assert(aps.take(apps@.len() as int) =~= aps);
            let step = aps.map_values(|a: Seq<char>| (a, rs[i as int]));
            assert(rs.take(i as int + 1).drop_last() =~= rs.take(i as int));
            assert(app_pushes(rs.take(i as int + 1), aps) == app_pushes(rs.take(i as int), aps) + step);
            lemma_apply_pushes_concat(m0, app_pushes(rs.take(i as int), aps), step);
        }
        i = i + 1;
    }
    assert(rs.take(rules@.len() as int) =~= rs);
}

impl RuntimeLookupCache {
    /// Compile a configuration to the native codes of `platform`.  Groups
    /// are taken in definition order and within each group the mappings in
    /// definition order, so that the first rule that matches at lookup time
    /// is the first one defined.  Groups without mappings are skipped; a
    /// group without applications adds its rules to the global list,
    /// otherwise to the list of each of its (lower-cased) applications.
    /// Every rule is tagged with the index of its group.
    pub fn compile_from_config(app_config: &AppConfig, platform: Platform) -> (r: RuntimeLookupCache)
        ensures
            r@.0 == spec_process_rules(app_config@, platform),
            r@.1 == spec_global_rules(app_config@, platform),
    {
        let mut process_rules = rule_map_new();
        let mut global_rules: Vec<CompiledRule> = Vec::new();
        let ghost gs = app_config@;
        let mut gi: usize = 0;
        assert(gs.take(0) =~= Seq::<GroupView>::empty());
        while gi < app_config.groups.len()
            invariant
                gi <= app_config.groups@.len(),
                gs == app_config@,
                rules_view(global_rules@) == spec_global_rules(gs.take(gi as int), platform),
                index_map_rules(process_rules) == apply_pushes(
                    Map::empty(),
                    config_pushes(gs.take(gi as int), platform),
                ),
            decreases app_config.groups@.len() - gi,
        {
            let group = &app_config.groups[gi];
            assert(gs[gi as int] == group@);
            assert(gs.take(gi as int + 1).drop_last() =~= gs.take(gi as int));
            if group.mappings.is_empty() {
                assert(spec_global_rules(gs.take(gi as int + 1), platform) =~= spec_global_rules(
                    gs.take(gi as int),
                    platform,
                ));
                assert(config_pushes(gs.take(gi as int + 1), platform) =~= config_pushes(
                    gs.take(gi as int),
                    platform,
                ));
            } else {
                let mut rules = compile_table(&group.mappings, platform, gi);
                if group.apps.len() == 0 {
                    let ghost before = global_rules@;
                    let ghost added = rules@;
                    global_rules.append(&mut rules);
                    assert(rules_view(global_rules@) =~= rules_view(before) + rules_view(added));
                    assert(config_pushes(gs.take(gi as int + 1), platform) =~= config_pushes(
                        gs.take(gi as int),
                        platform,
                    ));
                } else {
                    let apps = lower_apps(&group.apps);
                    push_all(&mut process_rules, &rules, &apps);
                    proof {
                        lemma_apply_pushes_concat(
                            Map::empty(),
                            config_pushes(gs.take(gi as int), platform),
                            app_pushes(
                                table_rules(group.mappings@, platform, gi),
                                lowered(crate::config::strings_view(group.apps@)),
                            ),
                        );
                    }
                    assert(spec_global_rules(gs.take(gi as int + 1), platform) =~= spec_global_rules(
                        gs.take(gi as int),
                        platform,
                    ));
                }
            }
            gi = gi + 1;
        }
        assert(gs.take(gs.len() as int) =~= gs);
        RuntimeLookupCache { process_rules, global_rules }
    }
}

} // verus!
