//! Chord rules: a trigger key plus the modifier groups that must be held,
//! and the action taken when it fires.
use vstd::prelude::*;

use crate::mapping_cache::NativeKey;

verus! {

/// A chord trigger: a base key code and the modifier bits that must all be
/// pressed.
#[derive(Debug, Clone, Copy, PartialEq, Eq, Hash, Structural)]
pub struct NativeChord {
    /// Native key code of the trigger key.
    pub base: u16,
    /// Modifier bits that must all be present.
    pub modifiers: u8,
}

/// What a chord does when it fires.
#[derive(Debug, Clone)]
pub enum NativeAction {
    /// Replace the key by another key (press, release and repeat follow the
    /// physical key).
    RemapTo(u16),
    /// Press the keys in order on key-down and release them in reverse
    /// order on key-up.
    Shortcut(Vec<u16>),
}

/// Chord `c` fires for `key` when every modifier bit it requires is among
/// the pressed bits `mods`.
pub open spec fn chord_fires(c: NativeChord, key: u16, mods: u8) -> bool {
    c.base == key && (mods & c.modifiers) == c.modifiers
}

/// Position `i` holds the first chord of `cs` that fires.
pub open spec fn is_first_firing(cs: Seq<(NativeChord, NativeAction)>, key: u16, mods: u8, i: int) -> bool {
    0 <= i < cs.len() && chord_fires(cs[i].0, key, mods) && forall|j: int|
        0 <= j < i ==> !chord_fires(#[trigger] cs[j].0, key, mods)
}

/// Scan a list of chord rules and return the first match.
///
/// A rule matches when all its required modifier bits are present in the
/// pressed modifiers: `(pressed & required) == required`.
pub fn find_chord(chords: &[(NativeChord, NativeAction)], key: u16, modifiers: u8) -> (r: Option<&NativeAction>)
    ensures
        r is None <==> forall|j: int| 0 <= j < chords@.len() ==> !chord_fires(#[trigger] chords@[j].0, key, modifiers),
        r is Some ==> exists|i: int| is_first_firing(chords@, key, modifiers, i) && *r.unwrap() == chords@[i].1,
{
    let mut i: usize = 0;
    while i < chords.len()
        invariant
            i <= chords@.len(),
            forall|j: int| 0 <= j < i ==> !chord_fires(#[trigger] chords@[j].0, key, modifiers),
        decreases chords@.len() - i,
    {
        let chord = &chords[i].0;
        if chord.base == key && (modifiers & chord.modifiers) == chord.modifiers {
            assert(is_first_firing(chords@, key, modifiers, i as int));
            return Some(&chords[i].1);
        }
        i = i + 1;
    }
    None
}

/// The codes of the modifiers set in `m` among the lowest `n` bit
/// positions, in ascending bit order, `codes[b]` standing for bit `b`.
pub open spec fn held_modifier_codes(m: u8, codes: Seq<u16>, n: nat) -> Seq<u16>
    decreases n,
{
    if n == 0 {
        Seq::empty()
    } else {
        let prev = held_modifier_codes(m, codes, (n - 1) as nat);
        let b = (n - 1) as u8;
        if (m >> b) & 1u8 == 1u8 {
            prev.push(codes[b as int])
        } else {
            prev
        }
    }
}

/// The keys that type one output event: its held modifiers, then its base.
pub open spec fn output_codes(o: NativeKey, codes: Seq<u16>) -> Seq<u16> {
    held_modifier_codes(o.modifiers, codes, 8).push(o.base)
}

/// The keys that type a list of output events, one after the other.
pub open spec fn outputs_codes(os: Seq<NativeKey>, codes: Seq<u16>) -> Seq<u16>
    decreases os.len(),
{
    if os.len() == 0 {
        Seq::empty()
    } else {
        outputs_codes(os.drop_last(), codes) + output_codes(os.last(), codes)
    }
}

/// The action for the output events of a rule: a single event without
/// modifiers remaps the key; anything else is typed as a shortcut of all
/// the keys involved.  `modifier_codes[b]` is the platform's code of the
/// modifier key with bit `b`.
pub fn action_for_outputs(outputs: &[NativeKey], modifier_codes: &[u16; 8]) -> (r: NativeAction)
    ensures
        outputs@.len() == 1 && outputs@[0].modifiers == 0 ==> r == NativeAction::RemapTo(outputs@[0].base),
        !(outputs@.len() == 1 && outputs@[0].modifiers == 0) ==> (r matches NativeAction::Shortcut(ks) && ks@
            == outputs_codes(outputs@, modifier_codes@)),
{
    if outputs.len() == 1 && outputs[0].modifiers == 0 {
        return NativeAction::RemapTo(outputs[0].base);
    }
    let mut keys: Vec<u16> = Vec::new();
    let mut i: usize = 0;
    while i < outputs.len()
        invariant
            i <= outputs@.len(),
            modifier_codes@.len() == 8,
            keys@ == outputs_codes(outputs@.take(i as int), modifier_codes@),
        decreases outputs@.len() - i,
    {
        let o = outputs[i];
        let ghost before = keys@;
        let mut b: u8 = 0;
        while b < 8
            invariant
                b <= 8,
                modifier_codes@.len() == 8,
                keys@ == before + held_modifier_codes(o.modifiers, modifier_codes@, b as nat),
            decreases 8 - b,
        {
            if (o.modifiers >> b) & 1 == 1 {
                keys.push(modifier_codes[b as usize]);
            }
            b = b + 1;
        }
        keys.push(o.base);
        assert(outputs@.take(i as int + 1).drop_last() =~= outputs@.take(i as int));
        assert(keys@ =~= outputs_codes(outputs@.take(i as int + 1), modifier_codes@));
        i = i + 1;
    }
    assert(outputs@.take(outputs@.len() as int) =~= outputs@);
    NativeAction::Shortcut(keys)
}

} // verus!
