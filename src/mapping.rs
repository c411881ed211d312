//! One mouse mapping: a button and up to three distinct modifiers, and the
//! parser that reads it from a mapping object of the settings.

use crate::diagnostic::Diagnostic;
use crate::tree::{lookup, without, JsonObject, JsonValue};
use crate::vocabulary::{button_of_name, modifier_of_name, KeyboardModifier, MouseButton, Slot};
use vstd::prelude::*;

verus! {

/// How many modifiers one mapping can hold.
pub const MAX_MODIFIERS: usize = 3;

/// A mouse button together with the keyboard modifiers held with it.
/// The modifiers fill the slots from the front, in the order they were given.
#[derive(PartialEq, Eq, Clone, Copy, Debug)]
pub struct MouseMapping {
    pub mouse_button: MouseButton,
    pub modifiers: [Option<KeyboardModifier>; MAX_MODIFIERS],
}

/// A mapping seen as its button and its modifier slots.
pub type MappingView = (MouseButton, Seq<Option<KeyboardModifier>>);

impl View for MouseMapping {
    type V = MappingView;

    open spec fn view(&self) -> MappingView {
        (self.mouse_button, self.modifiers@)
    }
}

/// The modifier slots that hold `mods` from the front, the rest empty.
pub open spec fn slots_of(mods: Seq<KeyboardModifier>) -> Seq<Option<KeyboardModifier>> {
    Seq::new(3, |i: int| if i < mods.len() { Some(mods[i]) } else { None })
}

/// The view of an optional mapping.
pub open spec fn opt_view(m: Option<MouseMapping>) -> Option<MappingView> {
    match m {
        Some(m) => Some(m@),
        None => None,
    }
}

/// Where the walk over a modifiers array stands: the modifiers taken, what
/// was reported, and whether the walk has stopped at a full mapping.
pub type ModifierScan = (Seq<KeyboardModifier>, Seq<Diagnostic>, bool);

/// One element of a modifiers array, taken in the state `st`.
pub open spec fn scan_step(st: ModifierScan, e: JsonValue, slot: Slot) -> ModifierScan {
    let (mods, diags, stopped) = st;
    if stopped {
        st
    } else if mods.len() >= 3 {
        (mods, diags.push(Diagnostic::TooManyModifiers), true)
    } else {
        match e {
            JsonValue::Str(s) => match modifier_of_name(s@) {
                Some(m) => if mods.contains(m) {
                    (mods, diags.push(Diagnostic::DuplicateModifier(slot, m)), false)
                } else {
                    (mods.push(m), diags, false)
                },
                None => (mods, diags.push(Diagnostic::InvalidModifierName(s)), false),
            },
            _ => (mods, diags.push(Diagnostic::InvalidModifierEntry(e)), false),
        }
    }
}

/// The walk over a whole modifiers array, from its first element on.
pub open spec fn scan_modifiers(a: Seq<JsonValue>, slot: Slot) -> ModifierScan
    decreases a.len(),
{
    if a.len() == 0 {
        (Seq::empty(), Seq::empty(), false)
    } else {
        scan_step(scan_modifiers(a.drop_last(), slot), a.last(), slot)
    }
}

/// Once the walk has stopped, later elements change nothing.
pub proof fn lemma_scan_stays_stopped(a: Seq<JsonValue>, slot: Slot, j: int, k: int)
    requires
        0 <= j <= k <= a.len(),
        scan_modifiers(a.subrange(0, j), slot).2,
    ensures
        scan_modifiers(a.subrange(0, k), slot) == scan_modifiers(a.subrange(0, j), slot),
    decreases k - j,
{
    if k > j {
        lemma_scan_stays_stopped(a, slot, j, k - 1);
        assert(a.subrange(0, k).drop_last() =~= a.subrange(0, k - 1));
    }
}

/// A walk never takes more than three modifiers, and never one twice.
pub proof fn lemma_scan_modifiers_distinct(a: Seq<JsonValue>, slot: Slot)
    ensures
        scan_modifiers(a, slot).0.len() <= 3,
        scan_modifiers(a, slot).0.no_duplicates(),
    decreases a.len(),
{
    if a.len() > 0 {
        lemma_scan_modifiers_distinct(a.drop_last(), slot);
    }
}

impl MouseMapping {
    /// A mapping of `mouse_button` with no modifiers.
    pub fn new(mouse_button: MouseButton) -> (r: Self)
        ensures
            r@ == (mouse_button, slots_of(Seq::empty())),
    {
        let r = MouseMapping { mouse_button, modifiers: [None, None, None] };
        assert(r.modifiers@ =~= slots_of(Seq::empty()));
        r
    }
}

/// Fills the modifiers of a fresh mapping from a modifiers array, reporting
/// each element that is not taken.
pub fn set_mouse_mapping_modifiers_from_mapping_settings(
    modifiers_array: Vec<JsonValue>,
    mouse_mapping: &mut MouseMapping,
    slot: Slot,
    diagnostics: &mut Vec<Diagnostic>,
)
    requires
        old(mouse_mapping).modifiers@ == slots_of(Seq::empty()),
    ensures
        final(mouse_mapping).mouse_button == old(mouse_mapping).mouse_button,
        final(mouse_mapping).modifiers@ == slots_of(scan_modifiers(modifiers_array@, slot).0),
        final(diagnostics)@ == old(diagnostics)@ + scan_modifiers(modifiers_array@, slot).1,
{
    let ghost all = modifiers_array@;
    let ghost start = old(diagnostics)@;
    let mut rest = modifiers_array;
    let mut count: usize = 0;
    let mut stopped = false;
    let n = rest.len();
    let mut k: usize = 0;
    while k < n && !stopped
        invariant
            n == all.len(),
            k <= n,
            rest@ == all.subrange(k as int, n as int),
            count == scan_modifiers(all.subrange(0, k as int), slot).0.len(),
            stopped == scan_modifiers(all.subrange(0, k as int), slot).2,
            mouse_mapping.mouse_button == old(mouse_mapping).mouse_button,
            mouse_mapping.modifiers@ == slots_of(scan_modifiers(all.subrange(0, k as int), slot).0),
            diagnostics@ == start + scan_modifiers(all.subrange(0, k as int), slot).1,
        decreases n - k,
    {
        let ghost prev = scan_modifiers(all.subrange(0, k as int), slot);
        proof {
            lemma_scan_modifiers_distinct(all.subrange(0, k as int), slot);
            assert(all.subrange(0, k + 1).drop_last() =~= all.subrange(0, k as int));
            assert(rest@[0] == all[k as int]);
        }
        let e = rest.remove(0);
        if count >= MAX_MODIFIERS {
            diagnostics.push(Diagnostic::TooManyModifiers);
            stopped = true;
        } else {
            match e {
                JsonValue::Str(s) => {
                    match KeyboardModifier::from_setting_name(s.as_str()) {
                        Some(m) => {
                            let mut j: usize = 0;
                            let mut seen = false;
                            while j < count
                                invariant
                                    j <= count,
                                    count == prev.0.len(),
                                    count < 3,
                                    mouse_mapping.modifiers@ == slots_of(prev.0),
                                    seen == (exists|t: int| 0 <= t < j && prev.0[t] == m),
                                decreases count - j,
                            {
                                assert(mouse_mapping.modifiers@[j as int] == Some(prev.0[j as int]));
                                if let Some(x) = mouse_mapping.modifiers[j] {
                                    if x == m {
                                        seen = true;
                                    }
                                }
                                j = j + 1;
                            }
                            assert(seen == prev.0.contains(m));
                            if seen {
                                diagnostics.push(Diagnostic::DuplicateModifier(slot, m));
                            } else {
                                mouse_mapping.modifiers[count] = Some(m);
                                count = count + 1;
                                assert(mouse_mapping.modifiers@ =~= slots_of(prev.0.push(m)));
                            }
                        },
                        None => {
                            diagnostics.push(Diagnostic::InvalidModifierName(s));
                        },
                    }
                },
                other => {
                    diagnostics.push(Diagnostic::InvalidModifierEntry(other));
                },
            }
        }
        proof {
            assert(rest@ =~= all.subrange(k + 1, n as int));
            assert(diagnostics@ =~= start + scan_modifiers(all.subrange(0, k + 1), slot).1);
        }
        k = k + 1;
    }
    proof {
        if stopped {
            lemma_scan_stays_stopped(all, slot, k as int, n as int);
        }
        assert(all.subrange(0, n as int) =~= all);
    }
}

/// What reading the `mouseButton` entry of a mapping object gives: the
/// button, or what is reported in its place.
pub open spec fn button_outcome(obj: Seq<(String, JsonValue)>) -> (Option<MouseButton>, Seq<Diagnostic>) {
    match lookup(obj, "mouseButton"@) {
        None => (None, seq![Diagnostic::MissingMouseButton]),
        Some(JsonValue::Str(s)) => match button_of_name(s@) {
            Some(b) => (Some(b), Seq::empty()),
            None => (None, seq![Diagnostic::InvalidMouseButtonName(s)]),
        },
        Some(_) => (None, seq![Diagnostic::InvalidMouseButtonFormat]),
    }
}

/// What reading the `modifiers` entry of a mapping object gives: the
/// modifiers taken, and what is reported.
pub open spec fn modifiers_outcome(obj: Seq<(String, JsonValue)>, slot: Slot) -> (Seq<KeyboardModifier>, Seq<Diagnostic>) {
    match lookup(obj, "modifiers"@) {
        None => (Seq::empty(), Seq::empty()),
        Some(JsonValue::Array(a)) => (scan_modifiers(a@, slot).0, scan_modifiers(a@, slot).1),
        Some(_) => (Seq::empty(), seq![Diagnostic::InvalidModifiersFormat]),
    }
}

/// One report for each entry of a mapping object that nothing claimed.
pub open spec fn property_diagnostics(rest: Seq<(String, JsonValue)>) -> Seq<Diagnostic> {
    Seq::new(rest.len(), |i: int| Diagnostic::InvalidProperty(rest[i].0))
}

/// What parsing a mapping object gives: the mapping, if its button is
/// valid, and everything reported on the way.
pub open spec fn mapping_outcome(obj: Seq<(String, JsonValue)>, slot: Slot) -> (Option<MappingView>, Seq<Diagnostic>) {
    match button_outcome(obj).0 {
        None => (None, button_outcome(obj).1),
        Some(b) => {
            let rest = without(obj, "mouseButton"@);
            let mods = modifiers_outcome(rest, slot);
            (
                Some((b, slots_of(mods.0))),
                mods.1 + property_diagnostics(without(rest, "modifiers"@)),
            )
        },
    }
}

/// Takes the `mouseButton` entry out of a mapping object and reads it.
pub fn get_mouse_button_from_mapping_settings(
    mapping_settings: &mut JsonObject,
    diagnostics: &mut Vec<Diagnostic>,
) -> (r: Option<MouseButton>)
    ensures
        r == button_outcome(old(mapping_settings).entries@).0,
        final(diagnostics)@ == old(diagnostics)@ + button_outcome(old(mapping_settings).entries@).1,
        final(mapping_settings).entries@ == without(old(mapping_settings).entries@, "mouseButton"@),
{
    match mapping_settings.remove("mouseButton") {
        None => {
            diagnostics.push(Diagnostic::MissingMouseButton);
            None
        },
        Some(JsonValue::Str(name)) => {
            match MouseButton::from_setting_name(name.as_str()) {
                Some(b) => {
                    proof {
                        assert(diagnostics@ =~= diagnostics@ + Seq::<Diagnostic>::empty());
                    }
                    Some(b)
                },
                None => {
                    diagnostics.push(Diagnostic::InvalidMouseButtonName(name));
                    None
                },
            }
        },
        Some(_) => {
            diagnostics.push(Diagnostic::InvalidMouseButtonFormat);
            None
        },
    }
}

/// Reports each entry of a mapping object that nothing claimed.
fn report_remaining_properties(mapping_settings: &JsonObject, diagnostics: &mut Vec<Diagnostic>)
    ensures
        final(diagnostics)@ == old(diagnostics)@ + property_diagnostics(mapping_settings.entries@),
{
    let ghost start = old(diagnostics)@;
    let ghost rest = mapping_settings.entries@;
    let n = mapping_settings.entries.len();
    let mut i: usize = 0;
    while i < n
        invariant
            rest == mapping_settings.entries@,
            n == rest.len(),
            i <= n,
            diagnostics@ =~= start + property_diagnostics(rest.subrange(0, i as int)),
        decreases n - i,
    {
        diagnostics.push(Diagnostic::InvalidProperty(mapping_settings.entries[i].0.clone()));
        proof {
            assert(diagnostics@ =~= start + property_diagnostics(rest.subrange(0, i + 1)));
        }
        i = i + 1;
    }
    proof {
        assert(rest.subrange(0, n as int) =~= rest);
    }
}

/// Parses one mapping object: its button, then its modifiers, then a report
/// for each entry left over. Without a valid button there is no mapping and
/// nothing else of the object is read.
pub fn get_mouse_mapping_from_mapping_settings(
    mapping_settings: JsonObject,
    slot: Slot,
    diagnostics: &mut Vec<Diagnostic>,
) -> (r: Option<MouseMapping>)
    ensures
        opt_view(r) == mapping_outcome(mapping_settings.entries@, slot).0,
        final(diagnostics)@ == old(diagnostics)@ + mapping_outcome(mapping_settings.entries@, slot).1,
{
    let ghost obj = mapping_settings.entries@;
    let ghost start = old(diagnostics)@;
    let mut settings = mapping_settings;
    let mouse_button = match get_mouse_button_from_mapping_settings(&mut settings, diagnostics) {
        Some(b) => b,
        None => {
            return None;
        },
    };
    proof {
        assert(diagnostics@ =~= start);
    }
    let mut mouse_mapping = MouseMapping::new(mouse_button);
    match settings.remove("modifiers") {
        None => {},
        Some(JsonValue::Array(modifiers_array)) => {
            set_mouse_mapping_modifiers_from_mapping_settings(
                modifiers_array,
                &mut mouse_mapping,
                slot,
                diagnostics,
            );
        },
        Some(_) => {
            diagnostics.push(Diagnostic::InvalidModifiersFormat);
        },
    }
    let ghost mods = modifiers_outcome(without(obj, "mouseButton"@), slot);
    proof {
        assert(diagnostics@ =~= start + mods.1);
        assert(mouse_mapping.modifiers@ =~= slots_of(mods.0));
    }
    report_remaining_properties(&settings, diagnostics);
    proof {
        assert(diagnostics@ =~= start + (mods.1 + property_diagnostics(settings.entries@)));
    }
    Some(mouse_mapping)
}

} // verus!
