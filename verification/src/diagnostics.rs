//! Diagnostics of a configuration: the findings that `keymapper config
//! check` reports.
//!
//! Groups without mappings, mappings that remap a trigger to itself,
//! triggers defined in more than one group, and pairs of mappings within a
//! group that swap two events.  Events are written as the configuration
//! writes them, keys by their title-case names
//! (`CapsLock`, `LeftControl+H`).
use vstd::prelude::*;

use vstd::string::StringExecFns;

use crate::config::{
    event_string, events_view, strings_view, trigger_to_string, AppConfig, EventView, GroupView, KeyEvent,
    RuleGroup, TableView,
};
use crate::text::{decimal, push_decimal};

verus! {

// ---------------------------------------------------------------------------
// Messages
// ---------------------------------------------------------------------------

/// The finding for a configuration without groups.
pub open spec fn no_groups_message() -> Seq<char> {
    "no rule groups defined"@
}

/// How group `i` is named: its quoted name, or its position counted from 1.
pub open spec fn group_label(g: GroupView, i: int) -> Seq<char> {
    match g.0 {
        Some(n) => "'"@ + n + "'"@,
        None => "#"@ + decimal((i + 1) as nat),
    }
}

/// The finding for a group without mappings.
pub open spec fn empty_group_message(g: GroupView, i: int) -> Seq<char> {
    "group "@ + group_label(g, i) + " has no mappings"@
}

/// The finding for a mapping of `t` to itself.
pub open spec fn noop_message(t: EventView) -> Seq<char> {
    event_string(t) + " remaps to itself (no-op)"@
}

/// The finding for a trigger defined in several groups.
pub open spec fn duplicate_message(t: EventView) -> Seq<char> {
    event_string(t) + " appears in multiple groups"@
}

/// The finding for two mappings that swap `a` and `b`.
pub open spec fn swap_message(a: EventView, b: EventView) -> Seq<char> {
    event_string(a) + " and "@ + event_string(b) + " form a circular pair (swap)"@
}

// ---------------------------------------------------------------------------
// Findings
// ---------------------------------------------------------------------------

/// Findings for the groups without mappings among the first `n` groups.
pub open spec fn empty_group_findings(gs: Seq<GroupView>, n: int) -> Seq<Seq<char>>
    decreases n,
{
    if n <= 0 {
        Seq::empty()
    } else {
        empty_group_findings(gs, n - 1) + if gs[n - 1].2.len() == 0 {
            seq![empty_group_message(gs[n - 1], n - 1)]
        } else {
            Seq::empty()
        }
    }
}

/// Findings for the mappings of a table that remap a trigger to itself.
pub open spec fn noop_findings(es: TableView) -> Seq<Seq<char>>
    decreases es.len(),
{
    if es.len() == 0 {
        Seq::empty()
    } else {
        noop_findings(es.drop_last()) + if es.last().1 == seq![es.last().0] {
            seq![noop_message(es.last().0)]
        } else {
            Seq::empty()
        }
    }
}

/// Trigger `t` is mapped by the table.
pub open spec fn in_table(es: TableView, t: EventView) -> bool {
    exists|i: int| 0 <= i < es.len() && (#[trigger] es[i]).0 == t
}

/// Trigger `t` is mapped by one of the groups `lo..hi`.
pub open spec fn in_groups(gs: Seq<GroupView>, lo: int, hi: int, t: EventView) -> bool {
    exists|j: int| lo <= j < hi && in_table((#[trigger] gs[j]).2, t)
}

/// Findings for the triggers of `es` (mappings of group `gi`) that group
/// `gi` is the first to define and a later group defines again.
pub open spec fn duplicate_findings(gs: Seq<GroupView>, gi: int, es: TableView) -> Seq<Seq<char>>
    decreases es.len(),
{
    if es.len() == 0 {
        Seq::empty()
    } else {
        let t = es.last().0;
        duplicate_findings(gs, gi, es.drop_last()) + if !in_groups(gs, 0, gi, t) && in_groups(
            gs,
            gi + 1,
            gs.len() as int,
            t,
        ) {
            seq![duplicate_message(t)]
        } else {
            Seq::empty()
        }
    }
}

/// Entry `j` of `es` maps `b` to exactly `a`.
pub open spec fn maps_to(es: TableView, j: int, b: EventView, a: EventView) -> bool {
    0 <= j < es.len() && es[j].0 == b && es[j].1 == seq![a]
}

/// Findings for the mappings of a table that undo an earlier mapping: `a`
/// maps to `b` after `b` mapped to `a`.
pub open spec fn swap_findings(es: TableView) -> Seq<Seq<char>>
    decreases es.len(),
{
    if es.len() == 0 {
        Seq::empty()
    } else {
        let a = es.last().0;
        let outs = es.last().1;
        swap_findings(es.drop_last()) + if outs.len() == 1 && outs[0] != a && exists|j: int|
            #[trigger] maps_to(es, j, outs[0], a) && j < es.len() - 1 {
            seq![swap_message(outs[0], a)]
        } else {
            Seq::empty()
        }
    }
}

/// A kind of finding, collected over the first `n` groups.
pub open spec fn per_group(gs: Seq<GroupView>, n: int, kind: int) -> Seq<Seq<char>>
    decreases n,
{
    if n <= 0 {
        Seq::empty()
    } else {
        per_group(gs, n - 1, kind) + if kind == 0 {
            noop_findings(gs[n - 1].2)
        } else if kind == 1 {
            duplicate_findings(gs, n - 1, gs[n - 1].2)
        } else {
            swap_findings(gs[n - 1].2)
        }
    }
}

/// All findings for a configuration: groups without mappings, then
/// mappings to themselves, then triggers in several groups, then swapped
/// pairs, each in definition order.  A configuration without groups has
/// the single finding that there are none.
pub open spec fn spec_diagnostics(gs: Seq<GroupView>) -> Seq<Seq<char>> {
    if gs.len() == 0 {
        seq![no_groups_message()]
    } else {
        empty_group_findings(gs, gs.len() as int) + per_group(gs, gs.len() as int, 0) + per_group(
            gs,
            gs.len() as int,
            1,
        ) + per_group(gs, gs.len() as int, 2)
    }
}

// ---------------------------------------------------------------------------
// Computing the findings
// ---------------------------------------------------------------------------

/// Equality of two key events.
fn events_equal(a: &KeyEvent, b: &KeyEvent) -> (r: bool)
    ensures
        r == (a@ == b@),
{
    if a.base != b.base || a.modifiers.len() != b.modifiers.len() {
        return false;
    }
    let mut i: usize = 0;
    while i < a.modifiers.len()
        invariant
            i <= a.modifiers@.len() == b.modifiers@.len(),
            forall|k: int| 0 <= k < i ==> a.modifiers@[k] == b.modifiers@[k],
        decreases a.modifiers@.len() - i,
    {
        if a.modifiers[i] != b.modifiers[i] {
            return false;
        }
        i = i + 1;
    }
    assert(a.modifiers@ =~= b.modifiers@);
    true
}

/// The outputs are exactly the event `e`.
fn outputs_are(outs: &Vec<KeyEvent>, e: &KeyEvent) -> (r: bool)
    ensures
        r == (events_view(outs@) == seq![e@]),
{
    if outs.len() != 1 {
        assert(events_view(outs@).len() != seq![e@].len());
        return false;
    }
    let same = events_equal(&outs[0], e);
    assert(events_view(outs@)[0] == outs@[0]@);
    if same {
        assert(events_view(outs@) =~= seq![e@]);
    } else {
        assert(events_view(outs@)[0] != seq![e@][0]);
    }
    same
}

/// Whether group `g` maps trigger `e`.
fn group_has(g: &RuleGroup, e: &KeyEvent) -> (r: bool)
    ensures
        r == in_table(g@.2, e@),
{
    let n = g.mappings.len();
    let mut i: usize = 0;
    while i < n
        invariant
            i <= n == g@.2.len(),
            forall|k: int| 0 <= k < i ==> (#[trigger] g@.2[k]).0 != e@,
        decreases n - i,
    {
        match g.mappings.entry_at(i) {
            Some(entry) => {
                if events_equal(entry.0, e) {
                    assert(g@.2[i as int].0 == e@);
                    return true;
                }
            },
            None => {},
        }
        i = i + 1;
    }
    false
}

/// Whether one of the groups `lo..hi` maps trigger `e`.
fn groups_have(groups: &Vec<RuleGroup>, lo: usize, hi: usize, e: &KeyEvent) -> (r: bool)
    requires
        lo <= hi <= groups@.len(),
    ensures
        r == in_groups(crate::config::groups_view(groups@), lo as int, hi as int, e@),
{
    let ghost gs = crate::config::groups_view(groups@);
    let mut j: usize = lo;
    while j < hi
        invariant
            lo <= j <= hi <= groups@.len(),
            gs == crate::config::groups_view(groups@),
            forall|k: int| lo <= k < j ==> !in_table((#[trigger] gs[k]).2, e@),
        decreases hi - j,
    {
        assert(gs[j as int] == groups@[j as int]@);
        if group_has(&groups[j], e) {
            assert(in_table(gs[j as int].2, e@));
            return true;
        }
        j = j + 1;
    }
    false
}

/// The finding for a group without mappings.
fn empty_group_text(g: &RuleGroup, i: usize) -> (r: String)
    requires
        i < usize::MAX,
    ensures
        r@ == empty_group_message(g@, i as int),
{
    let mut s = String::from_str("group ");
    match &g.name {
        Some(n) => {
            s.append("'");
            s.append(n.as_str());
            s.append("'");
        },
        None => {
            s.append("#");
            let pos: usize = i + 1;
            push_decimal(&mut s, pos as u64);
        },
    }
    s.append(" has no mappings");
    s
}

/// The findings of one kind for group `gi`.
fn group_findings(groups: &Vec<RuleGroup>, gi: usize, kind: u8, out: &mut Vec<String>)
    requires
        gi < groups@.len(),
        kind <= 2,
    ensures
        strings_view(final(out)@) == strings_view(old(out)@) + if kind == 0 {
            noop_findings(crate::config::groups_view(groups@)[gi as int].2)
        } else if kind == 1 {
            duplicate_findings(
                crate::config::groups_view(groups@),
                gi as int,
                crate::config::groups_view(groups@)[gi as int].2,
            )
        } else {
            swap_findings(crate::config::groups_view(groups@)[gi as int].2)
        },
{
    let ghost gs = crate::config::groups_view(groups@);
    let g = &groups[gi];
    assert(gs[gi as int] == g@);
    let ghost es = g@.2;
    let ghost base = strings_view(out@);
    let total = groups.len();
    let entries = g.mappings.iter();
    let n = entries.len();
    let mut j: usize = 0;
    assert(es.take(0) =~= Seq::<(EventView, Seq<EventView>)>::empty());
    while j < n
        invariant
            j <= n == entries@.len() == es.len(),
            gi < total == groups@.len(),
            kind <= 2,
            gs == crate::config::groups_view(groups@),
            es == gs[gi as int].2,
            forall|i: int|
                0 <= i < entries@.len() ==> (#[trigger] entries@[i]).0@ == es[i].0 && events_view(
                    entries@[i].1@,
                ) == es[i].1,
            strings_view(out@) == base + if kind == 0 {
                noop_findings(es.take(j as int))
            } else if kind == 1 {
                duplicate_findings(gs, gi as int, es.take(j as int))
            } else {
                swap_findings(es.take(j as int))
            },
        decreases n - j,
    {
        let ghost before = strings_view(out@);
        let (t, outs) = entries[j];
        assert(es.take(j as int + 1).drop_last() =~= es.take(j as int));
        assert(es.take(j as int + 1).last() == es[j as int]);
        if kind == 0 {
            if outputs_are(outs, t) {
                let mut m = trigger_to_string(t);
                m.append(" remaps to itself (no-op)");
                out.push(m);
                assert(strings_view(out@) =~= before.push(noop_message(es[j as int].0)));
            }
        } else if kind == 1 {
            let earlier = groups_have(groups, 0, gi, t);
            let later = groups_have(groups, gi + 1, total, t);
            if !earlier && later {
                let mut m = trigger_to_string(t);
                m.append(" appears in multiple groups");
                out.push(m);
                assert(strings_view(out@) =~= before.push(duplicate_message(es[j as int].0)));
            }
        } else {
            let ghost prefix = es.take(j as int + 1);
            if outs.len() == 1 && !events_equal(&outs[0], t) {
                let b = &outs[0];
                assert(events_view(outs@)[0] == b@);
                // Look for an earlier mapping of `b` to exactly `t`.
                let mut k: usize = 0;
                let mut found = false;
                while k < j && !found
                    invariant
                        k <= j < n == entries@.len() == es.len(),
                        prefix == es.take(j as int + 1),
                        forall|i: int|
                            0 <= i < entries@.len() ==> (#[trigger] entries@[i]).0@ == es[i].0
                                && events_view(entries@[i].1@) == es[i].1,
                        found ==> exists|i: int| #[trigger] maps_to(prefix, i, b@, t@) && i < j,
                        !found ==> forall|i: int| 0 <= i < k ==> !(#[trigger] maps_to(prefix, i, b@, t@)),
                    decreases j - k,
                {
                    let (tk, ok) = entries[k];
                    if events_equal(tk, b) && outputs_are(ok, t) {
                        assert(maps_to(prefix, k as int, b@, t@));
                        found = true;
                    }
                    k = k + 1;
                }
                if found {
                    let mut m = trigger_to_string(b);
                    m.append(" and ");
                    m.append(trigger_to_string(t).as_str());
                    m.append(" form a circular pair (swap)");
                    out.push(m);
                    assert(strings_view(out@) =~= before.push(swap_message(b@, t@)));
                } else {
                    assert(!exists|i: int| #[trigger] maps_to(prefix, i, b@, t@) && i < j) by {
                        assert forall|i: int| #[trigger] maps_to(prefix, i, b@, t@) && i < j implies false by {
                            assert(!maps_to(prefix, i, b@, t@));
                        }
                    }
                }
            } else {
                if outs.len() == 1 {
                    assert(events_view(outs@)[0] == outs@[0]@);
                }
            }
        }
        j = j + 1;
    }
    assert(es.take(n as int) =~= es);
}

impl AppConfig {
    /// Diagnose the configuration: the findings of `spec_diagnostics`, in
    /// that order; no findings means no issues.
    pub fn check(&self) -> (r: Vec<String>)
        ensures
            strings_view(r@) == spec_diagnostics(self@),
    {
        let ghost gs = self@;
        let n = self.groups.len();
        let mut out: Vec<String> = Vec::new();
        if n == 0 {
            out.push(String::from_str("no rule groups defined"));
            assert(strings_view(out@) =~= seq![no_groups_message()]);
            return out;
        }
        let mut i: usize = 0;
        assert(strings_view(out@) =~= empty_group_findings(gs, 0));
        while i < n
            invariant
                i <= n == self.groups@.len(),
                gs == self@,
                strings_view(out@) == empty_group_findings(gs, i as int),
            decreases n - i,
        {
            let g = &self.groups[i];
            assert(gs[i as int] == g@);
            if g.mappings.is_empty() {
                let ghost before = strings_view(out@);
                out.push(empty_group_text(g, i));
                assert(strings_view(out@) =~= before.push(empty_group_message(gs[i as int], i as int)));
            }
            i = i + 1;
        }
        let ghost empties = strings_view(out@);
        let mut kind: u8 = 0;
        while kind < 3
            invariant
                kind <= 3,
                n == self.groups@.len(),
                n > 0,
                gs == self@,
                empties == empty_group_findings(gs, n as int),
                strings_view(out@) == empties + (if kind == 0 {
                    Seq::empty()
                } else if kind == 1 {
                    per_group(gs, n as int, 0)
                } else if kind == 2 {
                    per_group(gs, n as int, 0) + per_group(gs, n as int, 1)
                } else {
                    per_group(gs, n as int, 0) + per_group(gs, n as int, 1) + per_group(gs, n as int, 2)
                }),
            decreases 3 - kind,
        {
            let ghost start = strings_view(out@);
            let mut gi: usize = 0;
            assert(per_group(gs, 0, kind as int) =~= Seq::<Seq<char>>::empty());
            assert(start =~= start + per_group(gs, 0, kind as int));
            while gi < n
                invariant
                    gi <= n == self.groups@.len(),
                    kind < 3,
                    gs == self@,
                    strings_view(out@) == start + per_group(gs, gi as int, kind as int),
                decreases n - gi,
            {
                group_findings(&self.groups, gi, kind, &mut out);
                assert(strings_view(out@) =~= start + per_group(gs, gi as int + 1, kind as int));
                gi = gi + 1;
            }
            kind = kind + 1;
            assert(strings_view(out@) =~= empties + (if kind == 1 {
                per_group(gs, n as int, 0)
            } else if kind == 2 {
                per_group(gs, n as int, 0) + per_group(gs, n as int, 1)
            } else {
                per_group(gs, n as int, 0) + per_group(gs, n as int, 1) + per_group(gs, n as int, 2)
            }));
        }
        assert(strings_view(out@) =~= spec_diagnostics(gs));
        out
    }
}

} // verus!
