//! Sorted, duplicate-free lists of names, ordered as `str` orders them
//! (lexicographically by code point, which is the order of the UTF-8 bytes).
use vstd::prelude::*;

use crate::text::str_chars;

verus! {

/// `a` comes before `b` lexicographically, characters compared by code
/// point.
pub open spec fn seq_lt(a: Seq<char>, b: Seq<char>) -> bool
    decreases a.len(),
{
    if a.len() == 0 {
        b.len() > 0
    } else if b.len() == 0 {
        false
    } else if a[0] != b[0] {
        (a[0] as u32) < (b[0] as u32)
    } else {
        seq_lt(a.drop_first(), b.drop_first())
    }
}

/// Exactly one of `a < b`, `a == b`, `b < a` holds.
pub proof fn lemma_seq_lt_trichotomy(a: Seq<char>, b: Seq<char>)
    ensures
        seq_lt(a, b) || a == b || seq_lt(b, a),
        !(seq_lt(a, b) && seq_lt(b, a)),
        !(seq_lt(a, b) && a == b),
    decreases a.len(),
{
    if a.len() > 0 && b.len() > 0 {
        if a[0] == b[0] {
            lemma_seq_lt_trichotomy(a.drop_first(), b.drop_first());
            if a.drop_first() == b.drop_first() {
                assert(a =~= seq![a[0]] + a.drop_first());
                assert(b =~= seq![b[0]] + b.drop_first());
            }
        } else {
            vstd::utf8::char_u32_cast(a[0], a[0] as u32);
            vstd::utf8::char_u32_cast(b[0], b[0] as u32);
        }
    } else if a.len() == 0 && b.len() == 0 {
        assert(a =~= b);
    }
}

/// The order is transitive.
pub proof fn lemma_seq_lt_transitive(a: Seq<char>, b: Seq<char>, c: Seq<char>)
    requires
        seq_lt(a, b),
        seq_lt(b, c),
    ensures
        seq_lt(a, c),
    decreases a.len(),
{
    if a.len() > 0 && b.len() > 0 && c.len() > 0 && a[0] == b[0] && b[0] == c[0] {
        lemma_seq_lt_transitive(a.drop_first(), b.drop_first(), c.drop_first());
    }
}

/// An entry ordered by name, then by number.
pub open spec fn entry_lt(a: (Seq<char>, u64), b: (Seq<char>, u64)) -> bool {
    seq_lt(a.0, b.0) || (a.0 == b.0 && a.1 < b.1)
}

/// Exactly one of `a < b`, `a == b`, `b < a` holds for entries.
pub proof fn lemma_entry_lt_trichotomy(a: (Seq<char>, u64), b: (Seq<char>, u64))
    ensures
        entry_lt(a, b) || a == b || entry_lt(b, a),
        !(entry_lt(a, b) && entry_lt(b, a)),
        !(entry_lt(a, b) && a == b),
{
    lemma_seq_lt_trichotomy(a.0, b.0);
}

/// The entry order is transitive.
pub proof fn lemma_entry_lt_transitive(a: (Seq<char>, u64), b: (Seq<char>, u64), c: (Seq<char>, u64))
    requires
        entry_lt(a, b),
        entry_lt(b, c),
    ensures
        entry_lt(a, c),
{
    if seq_lt(a.0, b.0) && seq_lt(b.0, c.0) {
        lemma_seq_lt_transitive(a.0, b.0, c.0);
    }
}

/// Whether `a` comes before `b`.
pub fn chars_lt(a: &Vec<char>, b: &Vec<char>) -> (r: bool)
    ensures
        r == seq_lt(a@, b@),
{
    let mut i: usize = 0;
    assert(a@.subrange(0, a@.len() as int) =~= a@);
    assert(b@.subrange(0, b@.len() as int) =~= b@);
    while i < a.len() && i < b.len() && a[i] == b[i]
        invariant
            i <= a@.len(),
            i <= b@.len(),
            seq_lt(a@, b@) == seq_lt(a@.subrange(i as int, a@.len() as int), b@.subrange(i as int, b@.len() as int)),
        decreases a@.len() - i,
    {
        assert(a@.subrange(i as int, a@.len() as int).drop_first() =~= a@.subrange(i as int + 1, a@.len() as int));
        assert(b@.subrange(i as int, b@.len() as int).drop_first() =~= b@.subrange(i as int + 1, b@.len() as int));
        i = i + 1;
    }
    if i == a.len() {
        i < b.len()
    } else if i == b.len() {
        false
    } else {
        assert(a@.subrange(i as int, a@.len() as int)[0] == a@[i as int]);
        assert(b@.subrange(i as int, b@.len() as int)[0] == b@[i as int]);
        (a[i] as u32) < (b[i] as u32)
    }
}

/// The value of a list of (name, number) entries.
pub open spec fn entries_view(es: Seq<(String, u64)>) -> Seq<(Seq<char>, u64)> {
    es.map_values(|e: (String, u64)| (e.0@, e.1))
}

/// Strictly increasing.
pub open spec fn strictly_sorted(s: Seq<(Seq<char>, u64)>) -> bool {
    forall|i: int, j: int| 0 <= i < j < s.len() ==> entry_lt(#[trigger] s[i], #[trigger] s[j])
}

/// Sort entries by name, then number, dropping repeated entries (the
/// result of `sort` followed by `dedup`).
pub fn sorted_unique_entries(entries: &Vec<(String, u64)>) -> (r: Vec<(String, u64)>)
    ensures
        strictly_sorted(entries_view(r@)),
        forall|x: (Seq<char>, u64)| entries_view(r@).contains(x) <==> entries_view(entries@).contains(x),
{
    let mut out: Vec<(String, u64)> = Vec::new();
    let mut keys: Vec<Vec<char>> = Vec::new();
    let ghost input = entries_view(entries@);
    let mut done: usize = 0;
    while done < entries.len()
        invariant
            input == entries_view(entries@),
            done <= entries@.len(),
            keys@.len() == out@.len(),
            forall|k: int| 0 <= k < out@.len() ==> (#[trigger] keys@[k])@ == out@[k].0@,
            strictly_sorted(entries_view(out@)),
            forall|x: (Seq<char>, u64)|
                entries_view(out@).contains(x) <==> input.subrange(0, done as int).contains(x),
        decreases entries@.len() - done,
    {
        let ghost before = entries_view(out@);
        let e = (entries[done].0.clone(), entries[done].1);
        let ghost ev = (e.0@, e.1);
        assert(ev == input[done as int]);
        let ek = str_chars(e.0.as_str());
        // Find the first position whose entry is not below `e`.
        let mut p: usize = 0;
        let mut found_equal = false;
        let mut searching = true;
        while searching && p < out.len()
            invariant
                p <= out@.len(),
                keys@.len() == out@.len(),
                forall|k: int| 0 <= k < out@.len() ==> (#[trigger] keys@[k])@ == out@[k].0@,
                before == entries_view(out@),
                ek@ == ev.0,
                ev == (e.0@, e.1),
                forall|k: int| 0 <= k < p ==> entry_lt(#[trigger] before[k], ev),
                !searching ==> p < out@.len() && !entry_lt(before[p as int], ev),
                found_equal ==> !searching && before[p as int] == ev,
                !searching && !found_equal ==> before[p as int] != ev,
            decreases out@.len() - p + (if searching { 1int } else { 0int }),
        {
            let name_lt = chars_lt(&keys[p], &ek);
            let name_gt = chars_lt(&ek, &keys[p]);
            assert(before[p as int] == (keys@[p as int]@, out@[p as int].1));
            proof {
                lemma_seq_lt_trichotomy(keys@[p as int]@, ek@);
            }
            if name_lt || (!name_gt && out[p].1 < e.1) {
                p = p + 1;
            } else {
                searching = false;
                if !name_gt && out[p].1 == e.1 {
                    found_equal = true;
                }
            }
        }
        proof {
            let s0 = input.subrange(0, done as int);
            let s1 = input.subrange(0, done as int + 1);
            assert(s1 =~= s0.push(ev));
            assert forall|x: (Seq<char>, u64)| s1.contains(x) <==> s0.contains(x) || x == ev by {
                if s1.contains(x) {
                    let k = choose|k: int| 0 <= k < s1.len() && s1[k] == x;
                    if k < s0.len() {
                        assert(s0[k] == x);
                    }
                }
                if s0.contains(x) {
                    let k = choose|k: int| 0 <= k < s0.len() && s0[k] == x;
                    assert(s1[k] == x);
                }
                if x == ev {
                    assert(s1[s0.len() as int] == ev);
                }
            }
        }
        if !found_equal {
            proof {
                if p < out@.len() {
                    lemma_entry_lt_trichotomy(before[p as int], ev);
                }
            }
            out.insert(p, e);
            keys.insert(p, ek);
            proof {
                let now = entries_view(out@);
                assert(now =~= before.insert(p as int, ev));
                assert forall|i: int, j: int| 0 <= i < j < now.len() implies entry_lt(
                    #[trigger] now[i],
                    #[trigger] now[j],
                ) by {
                    if j < p {
                    } else if j == p {
                        assert(now[i] == before[i]);
                    } else if i < p {
                        assert(now[j] == before[j - 1]);
                        assert(entry_lt(before[i], ev));
                        assert(entry_lt(ev, before[p as int]));
                        if j - 1 > p {
                            lemma_entry_lt_transitive(ev, before[p as int], before[j - 1]);
                        }
                        lemma_entry_lt_transitive(before[i], ev, before[j - 1]);
                    } else if i == p {
                        assert(now[j] == before[j - 1]);
                        if j - 1 > p {
                            lemma_entry_lt_transitive(ev, before[p as int], before[j - 1]);
                        }
                    } else {
                        assert(now[i] == before[i - 1]);
                        assert(now[j] == before[j - 1]);
                    }
                }
                assert forall|x: (Seq<char>, u64)| now.contains(x) <==> before.contains(x) || x == ev by {
                    if now.contains(x) {
                        let k = choose|k: int| 0 <= k < now.len() && now[k] == x;
                        if k < p {
                            assert(before[k] == x);
                        } else if k > p {
                            assert(before[k - 1] == x);
                        }
                    }
                    if before.contains(x) {
                        let k = choose|k: int| 0 <= k < before.len() && before[k] == x;
                        if k < p {
                            assert(now[k] == x);
                        } else {
                            assert(now[k + 1] == x);
                        }
                    }
                    if x == ev {
                        assert(now[p as int] == x);
                    }
                }
            }
        } else {
            proof {
                assert(before.contains(ev)) by {
                    assert(before[p as int] == ev);
                }
            }
        }
        done = done + 1;
    }
    assert(input.subrange(0, done as int) =~= input);
    out
}

/// The value of a list of strings.
pub open spec fn names_view(ns: Seq<String>) -> Seq<Seq<char>> {
    ns.map_values(|s: String| s@)
}

/// Strictly increasing names.
pub open spec fn names_sorted(s: Seq<Seq<char>>) -> bool {
    forall|i: int, j: int| 0 <= i < j < s.len() ==> seq_lt(#[trigger] s[i], #[trigger] s[j])
}

/// Sort names and drop repeated names (`sort` followed by `dedup`).
pub fn sorted_unique(names: &Vec<String>) -> (r: Vec<String>)
    ensures
        names_sorted(names_view(r@)),
        forall|x: Seq<char>| names_view(r@).contains(x) <==> names_view(names@).contains(x),
{
    let ghost all = names_view(names@);
    let ghost tagged = all.map_values(|n: Seq<char>| (n, 0u64));
    let mut entries: Vec<(String, u64)> = Vec::new();
    let mut i: usize = 0;
    while i < names.len()
        invariant
            all == names_view(names@),
            tagged == all.map_values(|n: Seq<char>| (n, 0u64)),
            i <= names@.len(),
            entries@.len() == i,
            entries_view(entries@) == tagged.subrange(0, i as int),
        decreases names@.len() - i,
    {
        let ghost prev = entries@;
        let n = names[i].clone();
        assert(n@ == all[i as int]);
        entries.push((n, 0));
        assert(entries@ == prev.push(entries@[i as int]));
        assert(entries_view(entries@) =~= tagged.subrange(0, i as int + 1));
        i = i + 1;
    }
    assert(tagged.subrange(0, i as int) =~= tagged);
    let sorted = sorted_unique_entries(&entries);
    let ghost sv = entries_view(sorted@);
    assert forall|j: int| 0 <= j < sv.len() implies (#[trigger] sv[j]).1 == 0 by {
        assert(sv.contains(sv[j]));
        assert(tagged.contains(sv[j]));
    }
    let mut out: Vec<String> = Vec::new();
    let mut k: usize = 0;
    while k < sorted.len()
        invariant
            sv == entries_view(sorted@),
            k <= sorted@.len(),
            out@.len() == k,
            names_view(out@) == sv.subrange(0, k as int).map_values(|e: (Seq<char>, u64)| e.0),
        decreases sorted@.len() - k,
    {
        let ghost prev = out@;
        let n = sorted[k].0.clone();
        assert(n@ == sv[k as int].0);
        out.push(n);
        assert(out@ == prev.push(n));
        assert forall|j: int| 0 <= j < k + 1 implies #[trigger] names_view(out@)[j] == sv[j].0 by {
            if j < k {
                assert(names_view(prev)[j] == sv.subrange(0, k as int).map_values(|e: (Seq<char>, u64)| e.0)[j]);
            }
        }
        assert(names_view(out@) =~= sv.subrange(0, k as int + 1).map_values(|e: (Seq<char>, u64)| e.0));
        k = k + 1;
    }
    assert(sv.subrange(0, k as int) =~= sv);
    let ghost rv = names_view(out@);
    assert(rv =~= sv.map_values(|e: (Seq<char>, u64)| e.0));
    assert forall|i: int, j: int| 0 <= i < j < rv.len() implies seq_lt(#[trigger] rv[i], #[trigger] rv[j]) by {
        assert(entry_lt(sv[i], sv[j]));
        assert(sv[i].1 == 0 && sv[j].1 == 0);
    }
    assert forall|x: Seq<char>| rv.contains(x) <==> all.contains(x) by {
        if rv.contains(x) {
            let j = choose|j: int| 0 <= j < rv.len() && rv[j] == x;
            assert(sv[j].1 == 0);
            assert(sv[j] == (x, 0u64));
            assert(sv.contains(sv[j]));
            assert(tagged.contains((x, 0u64)));
            let m = choose|m: int| 0 <= m < tagged.len() && tagged[m] == (x, 0u64);
            assert(all[m] == x);
        }
        if all.contains(x) {
            let m = choose|m: int| 0 <= m < all.len() && all[m] == x;
            assert(tagged[m] == (x, 0u64));
            assert(tagged.contains((x, 0u64)));
            assert(sv.contains((x, 0u64)));
            let j = choose|j: int| 0 <= j < sv.len() && sv[j] == (x, 0u64);
            assert(rv[j] == x);
        }
    }
    out
}

} // verus!
