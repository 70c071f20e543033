//! Live runtime state: the compiled cache plus the foreground application,
//! and first-match lookup of remapping rules.
use vstd::prelude::*;

use crate::text::str_eq;
use crate::mapping_cache::{rules_view, CompiledRule, NativeKey, RuleView, RuntimeLookupCache};

verus! {

/// Rule `r` fires for `key` pressed with exactly the modifier mask `mods`.
pub open spec fn rule_matches(r: RuleView, key: u16, mods: u8) -> bool {
    r.0 == key && r.1 == mods
}

/// The outputs of the first rule of `rules` that fires, if any.
pub open spec fn spec_find_match(rules: Seq<RuleView>, key: u16, mods: u8) -> Option<Seq<NativeKey>>
    decreases rules.len(),
{
    if rules.len() == 0 {
        None
    } else if rule_matches(rules[0], key, mods) {
        Some(rules[0].2)
    } else {
        spec_find_match(rules.drop_first(), key, mods)
    }
}

/// The first rule of `rules` that fires, if any.
pub open spec fn spec_first_rule(rules: Seq<RuleView>, key: u16, mods: u8) -> Option<RuleView>
    decreases rules.len(),
{
    if rules.len() == 0 {
        None
    } else if rule_matches(rules[0], key, mods) {
        Some(rules[0])
    } else {
        spec_first_rule(rules.drop_first(), key, mods)
    }
}

/// The outputs of the first rule that fires are those of the first firing
/// rule.
pub proof fn lemma_find_match_first_rule(rules: Seq<RuleView>, key: u16, mods: u8)
    ensures
        spec_find_match(rules, key, mods) == match spec_first_rule(rules, key, mods) {
            Some(r) => Some(r.2),
            None => None::<Seq<NativeKey>>,
        },
    decreases rules.len(),
{
    if rules.len() > 0 && !rule_matches(rules[0], key, mods) {
        lemma_find_match_first_rule(rules.drop_first(), key, mods);
    }
}

/// Scan a list of compiled rules and return the first exact match.
pub fn find_rule(rules: &[CompiledRule], key: u16, modifiers: u8) -> (r: Option<&CompiledRule>)
    ensures
        r is Some == spec_first_rule(rules_view(rules@), key, modifiers) is Some,
        r is Some ==> r.unwrap()@ == spec_first_rule(rules_view(rules@), key, modifiers)->0,
{
    let ghost rs = rules_view(rules@);
    let mut i: usize = 0;
    assert(rs.subrange(0, rs.len() as int) =~= rs);
    while i < rules.len()
        invariant
            i <= rules@.len(),
            rs == rules_view(rules@),
            spec_first_rule(rs, key, modifiers) == spec_first_rule(
                rs.subrange(i as int, rs.len() as int),
                key,
                modifiers,
            ),
        decreases rules@.len() - i,
    {
        let rule = &rules[i];
        assert(rs.subrange(i as int, rs.len() as int)[0] == rule@);
        if rule.base == key && rule.modifiers == modifiers {
            return Some(rule);
        }
        assert(rs.subrange(i as int, rs.len() as int).drop_first() =~= rs.subrange(
            i as int + 1,
            rs.len() as int,
        ));
        i = i + 1;
    }
    None
}

/// Scan a list of compiled rules and return the outputs of the first exact
/// match.
pub fn find_match(rules: &[CompiledRule], key: u16, modifiers: u8) -> (r: Option<&[NativeKey]>)
    ensures
        r is Some == spec_find_match(rules_view(rules@), key, modifiers) is Some,
        r is Some ==> r.unwrap()@ == spec_find_match(rules_view(rules@), key, modifiers)->0,
{
    proof {
        lemma_find_match_first_rule(rules_view(rules@), key, modifiers);
    }
    match find_rule(rules, key, modifiers) {
        Some(rule) => Some(rule.outputs.as_slice()),
        None => None,
    }
}

/// The rules of `app` in a cache view, empty when it has none.
pub open spec fn app_rules(cache: (Map<Seq<char>, Seq<RuleView>>, Seq<RuleView>), app: Seq<char>) -> Seq<RuleView> {
    if cache.0.contains_key(app) {
        cache.0[app]
    } else {
        Seq::empty()
    }
}

/// Minimal interface for OS event-loop callbacks and state managers.
/// Deliberately small so that platform modules never learn about the
/// internal structure of [`RuntimeState`].
pub trait Lookup: Send + Sync {
    /// Best-effort lookup scoped to the given application name.
    ///
    /// `modifiers` is the exact bitmask of currently pressed modifier keys.
    /// Returns the output events if a matching rule is found.
    fn for_app(&self, app: &str, key: u16, modifiers: u8) -> Option<&[NativeKey]>;

    /// Global (application-agnostic) lookup.
    fn global(&self, key: u16, modifiers: u8) -> Option<&[NativeKey]>;

    /// Name of the currently foreground application.
    fn active_app(&self) -> &str;

    /// Update the foreground application name (called behind a write lock).
    fn set_active_app(&mut self, app: String);

    /// Replace the compiled lookup cache (called by hot-reloader behind
    /// a write lock).
    fn set_lookup_cache(&mut self, cache: RuntimeLookupCache);
}

/// Live runtime state shared between the config hot-reloader, the foreground-
/// app tracker, and the platform-specific event tap.
#[derive(Debug)]
pub struct RuntimeState {
    lookup_cache: RuntimeLookupCache,
    active_app: String,
}

impl View for RuntimeState {
    type V = ((Map<Seq<char>, Seq<RuleView>>, Seq<RuleView>), Seq<char>);

    closed spec fn view(&self) -> ((Map<Seq<char>, Seq<RuleView>>, Seq<RuleView>), Seq<char>) {
        (self.lookup_cache@, self.active_app@)
    }
}

impl RuntimeState {
    /// State holding `cache` with `app` in the foreground.
    pub fn new(cache: RuntimeLookupCache, app: String) -> (r: Self)
        ensures
            r@.0 == cache@,
            r@.1 == app@,
    {
        Self { lookup_cache: cache, active_app: app }
    }

    /// Take the outcome of recompiling the configuration: a new cache
    /// replaces the current one, a failure keeps the current rules.
    /// Returns whether the cache was replaced.
    pub fn reload_cache<E>(&mut self, compiled: Result<RuntimeLookupCache, E>) -> (r: bool)
        ensures
            r == compiled is Ok,
            compiled is Ok ==> final(self)@ == (compiled->Ok_0@, old(self)@.1),
            compiled is Err ==> final(self)@ == old(self)@,
    {
        match compiled {
            Ok(cache) => {
                self.lookup_cache = cache;
                true
            },
            Err(_) => false,
        }
    }

    /// Record the foreground application reported by the window tracker;
    /// the state is written only when the name differs.  Returns whether it
    /// changed.
    pub fn track_active_app(&mut self, app: String) -> (r: bool)
        ensures
            r == (app@ != old(self)@.1),
            final(self)@ == (old(self)@.0, app@),
    {
        if str_eq(self.active_app.as_str(), app.as_str()) {
            false
        } else {
            self.active_app = app;
            true
        }
    }
}

impl Lookup for RuntimeState {
    fn for_app(&self, app: &str, key: u16, modifiers: u8) -> (r: Option<&[NativeKey]>)
        ensures
            r is Some == spec_find_match(app_rules(self@.0, app@), key, modifiers) is Some,
            r is Some ==> r.unwrap()@ == spec_find_match(app_rules(self@.0, app@), key, modifiers)->0,
    {
        match self.lookup_cache.process_rules(app) {
            Some(rules) => find_match(rules.as_slice(), key, modifiers),
            None => {
                assert(app_rules(self@.0, app@) =~= Seq::<RuleView>::empty());
                None
            },
        }
    }

    fn global(&self, key: u16, modifiers: u8) -> (r: Option<&[NativeKey]>)
        ensures
            r is Some == spec_find_match(self@.0.1, key, modifiers) is Some,
            r is Some ==> r.unwrap()@ == spec_find_match(self@.0.1, key, modifiers)->0,
    {
        find_match(self.lookup_cache.global_rules().as_slice(), key, modifiers)
    }

    fn active_app(&self) -> (r: &str)
        ensures
            r@ == self@.1,
    {
        self.active_app.as_str()
    }

    fn set_active_app(&mut self, app: String)
        ensures
            final(self)@ == (old(self)@.0, app@),
    {
        self.active_app = app;
    }

    fn set_lookup_cache(&mut self, cache: RuntimeLookupCache)
        ensures
            final(self)@ == (cache@, old(self)@.1),
    {
        self.lookup_cache = cache;
    }
}

/// The outputs for `key` with modifier mask `mods` in the foreground
/// application `app`: rule groups count in definition order, so of the
/// first firing rule among the application's rules and the first among the
/// global rules, the one of the earlier group wins.
pub open spec fn spec_resolve(
    cache: (Map<Seq<char>, Seq<RuleView>>, Seq<RuleView>),
    app: Seq<char>,
    key: u16,
    mods: u8,
) -> Option<Seq<NativeKey>> {
    match (spec_first_rule(app_rules(cache, app), key, mods), spec_first_rule(cache.1, key, mods)) {
        (Some(a), Some(g)) => if a.3 < g.3 {
            Some(a.2)
        } else {
            Some(g.2)
        },
        (Some(a), None) => Some(a.2),
        (None, Some(g)) => Some(g.2),
        (None, None) => None,
    }
}

/// Copy a list of native events.
fn to_vec(s: &[NativeKey]) -> (r: Vec<NativeKey>)
    ensures
        r@ == s@,
{
    let mut out: Vec<NativeKey> = Vec::new();
    let mut i: usize = 0;
    while i < s.len()
        invariant
            i <= s@.len(),
            out@ == s@.take(i as int),
        decreases s@.len() - i,
    {
        out.push(s[i]);
        assert(s@.take(i as int + 1) =~= s@.take(i as int).push(s@[i as int]));
        i = i + 1;
    }
    assert(s@.take(s@.len() as int) =~= s@);
    out
}

/// Resolve the remapping of `key` for application `app`: the first rule
/// that fires among the application's rules and among the global rules,
/// the one of the earlier group when both do; the outputs are copied out so
/// that a lock on the state can be released before they are emitted.
pub fn resolve_outputs(state: &RuntimeState, app: &str, key: u16, modifiers: u8) -> (r: Option<Vec<NativeKey>>)
    ensures
        r is Some == spec_resolve(state@.0, app@, key, modifiers) is Some,
        r is Some ==> r.unwrap()@ == spec_resolve(state@.0, app@, key, modifiers)->0,
{
    let app_hit = match state.lookup_cache.process_rules(app) {
        Some(rules) => find_rule(rules.as_slice(), key, modifiers),
        None => {
            assert(app_rules(state@.0, app@) =~= Seq::<RuleView>::empty());
            None
        },
    };
    let global_hit = find_rule(state.lookup_cache.global_rules().as_slice(), key, modifiers);
    match app_hit {
        Some(a) => match global_hit {
            Some(g) => if a.group < g.group {
                Some(to_vec(a.outputs.as_slice()))
            } else {
                Some(to_vec(g.outputs.as_slice()))
            },
            None => Some(to_vec(a.outputs.as_slice())),
        },
        None => match global_hit {
            Some(g) => Some(to_vec(g.outputs.as_slice())),
            None => None,
        },
    }
}

} // verus!
