//! Facts about reading mappings that hold for every settings object.

use crate::camera::{default_view, loaded_slot, slot_outcome};
use crate::diagnostic::Diagnostic;
use crate::mapping::{mapping_outcome, property_diagnostics, scan_modifiers, slots_of, MappingView};
use crate::tree::{has_key, lemma_key_index, lookup, without, JsonObject, JsonValue};
use crate::vocabulary::{button_of_name, modifier_of_name, slot_key, KeyboardModifier, MouseButton, Slot};
use vstd::prelude::*;

verus! {

/// A slot whose setting is absent keeps its default, and nothing is
/// reported for it.
pub proof fn lemma_absent_slot_keeps_default(settings: JsonObject, s: Slot)
    requires
        !has_key(settings.entries@, slot_key(s)),
    ensures
        loaded_slot(settings.entries@, s) == default_view(s),
        slot_outcome(settings.entries@, s).1 == Seq::<Diagnostic>::empty(),
{
    reveal(slot_outcome);
}

/// Parsing the same mapping object again gives the same mapping and the
/// same reports.
pub proof fn lemma_reparse_is_idempotent(first: JsonObject, again: JsonObject, slot: Slot)
    requires
        first.entries@ == again.entries@,
    ensures
        mapping_outcome(again.entries@, slot) == mapping_outcome(first.entries@, slot),
{
}

/// Where the mapping is full and the modifiers array goes on, the walk
/// reports the capacity once and stops: the mapping keeps the first three
/// distinct valid modifiers, and no later element is reported.
pub proof fn lemma_full_mapping_stops_walk(a: Seq<JsonValue>, slot: Slot, k: int)
    requires
        0 <= k < a.len(),
        scan_modifiers(a.subrange(0, k), slot).0.len() == 3,
        !scan_modifiers(a.subrange(0, k), slot).2,
    ensures
        scan_modifiers(a, slot).0 == scan_modifiers(a.subrange(0, k), slot).0,
        scan_modifiers(a, slot).1 == scan_modifiers(a.subrange(0, k), slot).1.push(
            Diagnostic::TooManyModifiers,
        ),
        scan_modifiers(a, slot).2,
{
    assert(a.subrange(0, k + 1).drop_last() =~= a.subrange(0, k));
    crate::mapping::lemma_scan_stays_stopped(a, slot, k + 1, a.len() as int);
    assert(a.subrange(0, a.len() as int) =~= a);
}

/// A modifier named a second time is reported once and takes no slot.
pub proof fn lemma_duplicate_modifier_takes_no_slot(
    a: Seq<JsonValue>,
    slot: Slot,
    name: String,
    m: KeyboardModifier,
)
    requires
        !scan_modifiers(a, slot).2,
        scan_modifiers(a, slot).0.len() < 3,
        scan_modifiers(a, slot).0.contains(m),
        modifier_of_name(name@) == Some(m),
    ensures
        scan_modifiers(a.push(JsonValue::Str(name)), slot) == (
            scan_modifiers(a, slot).0,
            scan_modifiers(a, slot).1.push(Diagnostic::DuplicateModifier(slot, m)),
            false,
        ),
{
    assert(a.push(JsonValue::Str(name)).drop_last() =~= a);
}

/// A mapping object without a `mouseButton` entry leaves its slot at its
/// default with one report, and its `modifiers` are never read.
pub proof fn lemma_missing_button_rejects_slot(settings: JsonObject, slot: Slot, mapping: JsonObject)
    requires
        lookup(settings.entries@, slot_key(slot)) == Some(JsonValue::Object(mapping)),
        !has_key(mapping.entries@, "mouseButton"@),
    ensures
        slot_outcome(settings.entries@, slot) == (
            None::<MappingView>,
            seq![Diagnostic::MissingMouseButton],
        ),
        loaded_slot(settings.entries@, slot) == default_view(slot),
{
    reveal(slot_outcome);
}

/// Each element of `a` is a string naming the modifier at the same place of
/// `mods`.
pub open spec fn names_modifiers(a: Seq<JsonValue>, mods: Seq<KeyboardModifier>) -> bool {
    &&& a.len() == mods.len()
    &&& forall|i: int|
        0 <= i < a.len() ==> match #[trigger] a[i] {
            JsonValue::Str(s) => modifier_of_name(s@) == Some(mods[i]),
            _ => false,
        }
}

/// Up to three distinct valid modifier names are all taken, in order, with
/// nothing reported.
pub proof fn lemma_valid_modifiers_are_taken(a: Seq<JsonValue>, mods: Seq<KeyboardModifier>, slot: Slot)
    requires
        names_modifiers(a, mods),
        mods.len() <= 3,
        mods.no_duplicates(),
    ensures
        scan_modifiers(a, slot) == (mods, Seq::<Diagnostic>::empty(), false),
    decreases a.len(),
{
    if a.len() > 0 {
        let k = a.len() - 1;
        assert(names_modifiers(a.drop_last(), mods.drop_last()));
        lemma_valid_modifiers_are_taken(a.drop_last(), mods.drop_last(), slot);
        assert(a[k] == a.last());
        assert(!mods.drop_last().contains(mods[k])) by {
            if mods.drop_last().contains(mods[k]) {
                let j = choose|j: int| 0 <= j < k && mods.drop_last()[j] == mods[k];
                assert(mods[j] == mods[k]);
            }
        }
        assert(mods.drop_last().push(mods[k]) =~= mods);
    }
}

/// A mapping object that holds a valid button name and a list of up to
/// three distinct valid modifier names, and nothing else, parses to exactly
/// that mapping with nothing reported.
pub proof fn lemma_valid_mapping_parses_cleanly(
    mapping: JsonObject,
    slot: Slot,
    button_name: String,
    button: MouseButton,
    modifiers: Vec<JsonValue>,
    mods: Seq<KeyboardModifier>,
)
    requires
        mapping.entries@.len() == 2,
        mapping.entries@[0].0@ == "mouseButton"@,
        mapping.entries@[0].1 == JsonValue::Str(button_name),
        button_of_name(button_name@) == Some(button),
        mapping.entries@[1].0@ == "modifiers"@,
        mapping.entries@[1].1 == JsonValue::Array(modifiers),
        names_modifiers(modifiers@, mods),
        mods.len() <= 3,
        mods.no_duplicates(),
    ensures
        mapping_outcome(mapping.entries@, slot) == (
            Some((button, slots_of(mods))),
            Seq::<Diagnostic>::empty(),
        ),
{
    let obj = mapping.entries@;
    reveal_strlit("mouseButton");
    reveal_strlit("modifiers");
    assert("mouseButton"@ != "modifiers"@) by {
        assert("mouseButton"@.len() != "modifiers"@.len());
    }
    lemma_key_index(obj, "mouseButton"@, 0);
    let rest = without(obj, "mouseButton"@);
    assert(rest =~= seq![obj[1]]);
    lemma_key_index(rest, "modifiers"@, 0);
    assert(without(rest, "modifiers"@) =~= Seq::<(String, JsonValue)>::empty());
    lemma_valid_modifiers_are_taken(modifiers@, mods, slot);
    assert(property_diagnostics(Seq::<(String, JsonValue)>::empty()) =~= Seq::<Diagnostic>::empty());
    assert(Seq::<Diagnostic>::empty() + Seq::<Diagnostic>::empty() =~= Seq::<Diagnostic>::empty());
}

} // verus!
