//! The six camera-control mapping slots, filled from the top-level settings,
//! and the report of every top-level setting that nothing claimed.

use crate::diagnostic::Diagnostic;
use crate::mapping::{get_mouse_mapping_from_mapping_settings, mapping_outcome, opt_view, slots_of, MappingView, MouseMapping};
use crate::tree::{lemma_lookup_without, lookup, without, JsonObject, JsonValue};
use crate::vocabulary::{lemma_slot_keys_distinct, slot_key, MouseButton, Slot};
use vstd::prelude::*;

verus! {

/// The mappings of the camera controls: look, pan and zoom always have one,
/// and each may have a second one.
#[derive(PartialEq, Eq, Clone, Copy, Debug)]
pub struct CameraControlMappings {
    pub look: MouseMapping,
    pub look_2: Option<MouseMapping>,
    pub pan: MouseMapping,
    pub pan_2: Option<MouseMapping>,
    pub zoom: MouseMapping,
    pub zoom_2: Option<MouseMapping>,
}

/// The mapping that a slot holds, if any.
pub open spec fn slot_view(c: CameraControlMappings, s: Slot) -> Option<MappingView> {
    match s {
        Slot::Look => Some(c.look@),
        Slot::Look2 => opt_view(c.look_2),
        Slot::Pan => Some(c.pan@),
        Slot::Pan2 => opt_view(c.pan_2),
        Slot::Zoom => Some(c.zoom@),
        Slot::Zoom2 => opt_view(c.zoom_2),
    }
}

/// What a slot holds before any setting is read: look on the left button,
/// pan on the right, zoom on the middle, none with modifiers, and no second
/// mappings.
pub open spec fn default_view(s: Slot) -> Option<MappingView> {
    match s {
        Slot::Look => Some((MouseButton::Left, slots_of(Seq::empty()))),
        Slot::Pan => Some((MouseButton::Right, slots_of(Seq::empty()))),
        Slot::Zoom => Some((MouseButton::Middle, slots_of(Seq::empty()))),
        _ => None,
    }
}

impl Default for CameraControlMappings {
    fn default() -> (r: Self)
        ensures
            forall|s: Slot| slot_view(r, s) == default_view(s),
    {
        CameraControlMappings {
            look: MouseMapping::new(MouseButton::Left),
            look_2: None,
            pan: MouseMapping::new(MouseButton::Right),
            pan_2: None,
            zoom: MouseMapping::new(MouseButton::Middle),
            zoom_2: None,
        }
    }
}

/// What reading a slot's setting from the top-level settings gives.
#[verifier::opaque]
pub open spec fn slot_outcome(settings: Seq<(String, JsonValue)>, s: Slot) -> (Option<MappingView>, Seq<Diagnostic>) {
    match lookup(settings, slot_key(s)) {
        None => (None, Seq::empty()),
        Some(JsonValue::Object(o)) => mapping_outcome(o.entries@, s),
        Some(_) => (None, seq![Diagnostic::InvalidSlotFormat(s)]),
    }
}

/// What a slot holds after the settings are read into `c`: the parsed
/// mapping where there is one, else what it held before.
pub open spec fn updated_slot(c: CameraControlMappings, settings: Seq<(String, JsonValue)>, s: Slot) -> Option<MappingView> {
    match slot_outcome(settings, s).0 {
        Some(m) => Some(m),
        None => slot_view(c, s),
    }
}

/// What is reported while the six slots are read, in slot order.
pub open spec fn slot_diagnostics(settings: Seq<(String, JsonValue)>) -> Seq<Diagnostic> {
    slot_outcome(settings, Slot::Look).1 + slot_outcome(settings, Slot::Look2).1
        + slot_outcome(settings, Slot::Pan).1 + slot_outcome(settings, Slot::Pan2).1
        + slot_outcome(settings, Slot::Zoom).1 + slot_outcome(settings, Slot::Zoom2).1
}

/// The top-level settings left once the six slots' settings are taken out.
pub open spec fn without_slots(settings: Seq<(String, JsonValue)>) -> Seq<(String, JsonValue)> {
    without(
        without(
            without(
                without(
                    without(without(settings, slot_key(Slot::Look)), slot_key(Slot::Look2)),
                    slot_key(Slot::Pan),
                ),
                slot_key(Slot::Pan2),
            ),
            slot_key(Slot::Zoom),
        ),
        slot_key(Slot::Zoom2),
    )
}

/// One report for each top-level setting that nothing claimed.
pub open spec fn setting_diagnostics(rest: Seq<(String, JsonValue)>) -> Seq<Diagnostic> {
    Seq::new(rest.len(), |i: int| Diagnostic::InvalidSetting(rest[i].0))
}

/// Taking out one slot's setting leaves what another slot reads unchanged.
pub proof fn lemma_slot_outcome_without(settings: Seq<(String, JsonValue)>, taken: Slot, s: Slot)
    requires
        taken != s,
    ensures
        slot_outcome(without(settings, slot_key(taken)), s) == slot_outcome(settings, s),
{
    reveal(slot_outcome);
    lemma_slot_keys_distinct(taken, s);
    lemma_lookup_without(settings, slot_key(taken), slot_key(s));
}

/// Takes a slot's setting out of the top-level settings and parses it.
pub fn parse_mouse_mapping_setting(
    json_settings: &mut JsonObject,
    slot: Slot,
    diagnostics: &mut Vec<Diagnostic>,
) -> (r: Option<MouseMapping>)
    ensures
        opt_view(r) == slot_outcome(old(json_settings).entries@, slot).0,
        final(diagnostics)@ == old(diagnostics)@ + slot_outcome(old(json_settings).entries@, slot).1,
        final(json_settings).entries@ == without(old(json_settings).entries@, slot_key(slot)),
{
    reveal(slot_outcome);
    match json_settings.remove(slot.setting_name()) {
        None => {
            proof {
                assert(diagnostics@ =~= diagnostics@ + Seq::<Diagnostic>::empty());
            }
            None
        },
        Some(JsonValue::Object(mapping_settings)) => {
            get_mouse_mapping_from_mapping_settings(mapping_settings, slot, diagnostics)
        },
        Some(_) => {
            diagnostics.push(Diagnostic::InvalidSlotFormat(slot));
            None
        },
    }
}

/// Reads one slot's setting and stores the mapping, if any, in its slot.
fn update_slot(
    camera_control_mappings: &mut CameraControlMappings,
    json_settings: &mut JsonObject,
    slot: Slot,
    diagnostics: &mut Vec<Diagnostic>,
)
    ensures
        slot_view(*final(camera_control_mappings), slot) == updated_slot(
            *old(camera_control_mappings),
            old(json_settings).entries@,
            slot,
        ),
        forall|s: Slot|
            s != slot ==> slot_view(*final(camera_control_mappings), s) == slot_view(
                *old(camera_control_mappings),
                s,
            ),
        final(diagnostics)@ == old(diagnostics)@ + slot_outcome(old(json_settings).entries@, slot).1,
        final(json_settings).entries@ == without(old(json_settings).entries@, slot_key(slot)),
{
    if let Some(m) = parse_mouse_mapping_setting(json_settings, slot, diagnostics) {
        match slot {
            Slot::Look => camera_control_mappings.look = m,
            Slot::Look2 => camera_control_mappings.look_2 = Some(m),
            Slot::Pan => camera_control_mappings.pan = m,
            Slot::Pan2 => camera_control_mappings.pan_2 = Some(m),
            Slot::Zoom => camera_control_mappings.zoom = m,
            Slot::Zoom2 => camera_control_mappings.zoom_2 = Some(m),
        }
    }
}

/// Reads the six slots' settings in the order look, look2, pan, pan2, zoom,
/// zoom2, taking each out of the settings, and stores every mapping parsed.
pub fn update_camera_control_mappings_from_json_settings(
    camera_control_mappings: &mut CameraControlMappings,
    json_settings: &mut JsonObject,
    diagnostics: &mut Vec<Diagnostic>,
)
    ensures
        forall|s: Slot|
            slot_view(*final(camera_control_mappings), s) == updated_slot(
                *old(camera_control_mappings),
                old(json_settings).entries@,
                s,
            ),
        final(diagnostics)@ == old(diagnostics)@ + slot_diagnostics(old(json_settings).entries@),
        final(json_settings).entries@ == without_slots(old(json_settings).entries@),
{
    let ghost o0 = json_settings.entries@;
    let ghost c0 = *camera_control_mappings;
    let ghost o1 = without(o0, slot_key(Slot::Look));
    let ghost o2 = without(o1, slot_key(Slot::Look2));
    let ghost o3 = without(o2, slot_key(Slot::Pan));
    let ghost o4 = without(o3, slot_key(Slot::Pan2));
    let ghost o5 = without(o4, slot_key(Slot::Zoom));
    proof {
        lemma_slot_outcome_without(o0, Slot::Look, Slot::Look2);
        lemma_slot_outcome_without(o0, Slot::Look, Slot::Pan);
        lemma_slot_outcome_without(o0, Slot::Look, Slot::Pan2);
        lemma_slot_outcome_without(o0, Slot::Look, Slot::Zoom);
        lemma_slot_outcome_without(o0, Slot::Look, Slot::Zoom2);
        lemma_slot_outcome_without(o1, Slot::Look2, Slot::Pan);
        lemma_slot_outcome_without(o1, Slot::Look2, Slot::Pan2);
        lemma_slot_outcome_without(o1, Slot::Look2, Slot::Zoom);
        lemma_slot_outcome_without(o1, Slot::Look2, Slot::Zoom2);
        lemma_slot_outcome_without(o2, Slot::Pan, Slot::Pan2);
        lemma_slot_outcome_without(o2, Slot::Pan, Slot::Zoom);
        lemma_slot_outcome_without(o2, Slot::Pan, Slot::Zoom2);
        lemma_slot_outcome_without(o3, Slot::Pan2, Slot::Zoom);
        lemma_slot_outcome_without(o3, Slot::Pan2, Slot::Zoom2);
        lemma_slot_outcome_without(o4, Slot::Zoom, Slot::Zoom2);
    }
    update_slot(camera_control_mappings, json_settings, Slot::Look, diagnostics);
    update_slot(camera_control_mappings, json_settings, Slot::Look2, diagnostics);
    update_slot(camera_control_mappings, json_settings, Slot::Pan, diagnostics);
    update_slot(camera_control_mappings, json_settings, Slot::Pan2, diagnostics);
    update_slot(camera_control_mappings, json_settings, Slot::Zoom, diagnostics);
    update_slot(camera_control_mappings, json_settings, Slot::Zoom2, diagnostics);
    proof {
        assert(diagnostics@ =~= old(diagnostics)@ + slot_diagnostics(o0));
        assert forall|s: Slot|
            slot_view(*camera_control_mappings, s) == updated_slot(c0, o0, s) by {
            match s {
                Slot::Look => {},
                Slot::Look2 => {},
                Slot::Pan => {},
                Slot::Pan2 => {},
                Slot::Zoom => {},
                Slot::Zoom2 => {},
            }
        }
    }
}

/// Reports each top-level setting that nothing claimed, in the order the
/// settings hold them.
pub fn warn_invalid_remaining_settings(
    remaining_json_settings: JsonObject,
    diagnostics: &mut Vec<Diagnostic>,
)
    ensures
        final(diagnostics)@ == old(diagnostics)@ + setting_diagnostics(remaining_json_settings.entries@),
{
    let ghost start = old(diagnostics)@;
    let ghost rest = remaining_json_settings.entries@;
    let n = remaining_json_settings.entries.len();
    let mut i: usize = 0;
    while i < n
        invariant
            rest == remaining_json_settings.entries@,
            n == rest.len(),
            i <= n,
            diagnostics@ =~= start + setting_diagnostics(rest.subrange(0, i as int)),
        decreases n - i,
    {
        diagnostics.push(Diagnostic::InvalidSetting(remaining_json_settings.entries[i].0.clone()));
        proof {
            assert(diagnostics@ =~= start + setting_diagnostics(rest.subrange(0, i + 1)));
        }
        i = i + 1;
    }
    proof {
        assert(rest.subrange(0, n as int) =~= rest);
    }
}

/// What a slot holds once a whole settings object is read: the parsed
/// mapping where there is one, else the slot's default.
pub open spec fn loaded_slot(settings: Seq<(String, JsonValue)>, s: Slot) -> Option<MappingView> {
    match slot_outcome(settings, s).0 {
        Some(m) => Some(m),
        None => default_view(s),
    }
}

/// Everything reported while a whole settings object is read: the slots'
/// reports in slot order, then one for each setting left over.
pub open spec fn load_diagnostics(settings: Seq<(String, JsonValue)>) -> Seq<Diagnostic> {
    slot_diagnostics(settings) + setting_diagnostics(without_slots(settings))
}

/// Reads a whole settings object: starts from the defaults, fills the slots,
/// and reports what is left over.
pub fn load_camera_control_mappings(settings: JsonObject) -> (r: (CameraControlMappings, Vec<Diagnostic>))
    ensures
        forall|s: Slot| slot_view(r.0, s) == loaded_slot(settings.entries@, s),
        r.1@ == load_diagnostics(settings.entries@),
{
    let mut all_settings = settings;
    let mut camera_control_mappings = CameraControlMappings::default();
    let mut diagnostics: Vec<Diagnostic> = Vec::new();
    update_camera_control_mappings_from_json_settings(
        &mut camera_control_mappings,
        &mut all_settings,
        &mut diagnostics,
    );
    warn_invalid_remaining_settings(all_settings, &mut diagnostics);
    proof {
        assert(diagnostics@ =~= load_diagnostics(settings.entries@));
    }
    (camera_control_mappings, diagnostics)
}

} // verus!
