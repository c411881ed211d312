//! The closed vocabularies of mouse buttons and keyboard modifiers, and the
//! setting names that stand for them.

use vstd::prelude::*;

verus! {

/// Exact, case-sensitive comparison of two string slices.
pub fn str_eq(a: &str, b: &str) -> (r: bool)
    ensures
        r == (a@ == b@),
{
    let n = a.unicode_len();
    if n != b.unicode_len() {
        return false;
    }
    let mut i: usize = 0;
    while i < n
        invariant
            n == a@.len(),
            n == b@.len(),
            i <= n,
            a@.subrange(0, i as int) == b@.subrange(0, i as int),
        decreases n - i,
    {
        if a.get_char(i) != b.get_char(i) {
            return false;
        }
        assert(a@.subrange(0, i + 1) =~= a@.subrange(0, i as int).push(a@[i as int]));
        assert(b@.subrange(0, i + 1) =~= b@.subrange(0, i as int).push(b@[i as int]));
        i = i + 1;
    }
    assert(a@ =~= a@.subrange(0, n as int));
    assert(b@ =~= b@.subrange(0, n as int));
    true
}

/// A keyboard modifier that may accompany a mouse button.
#[derive(PartialEq, Eq, Structural, Clone, Copy, Debug)]
pub enum KeyboardModifier {
    Shift,
    Control,
    Alt,
}

/// The modifier that a setting name stands for, if any.
pub open spec fn modifier_of_name(s: Seq<char>) -> Option<KeyboardModifier> {
    if s == "shift"@ {
        Some(KeyboardModifier::Shift)
    } else if s == "control"@ {
        Some(KeyboardModifier::Control)
    } else if s == "alt"@ {
        Some(KeyboardModifier::Alt)
    } else {
        None
    }
}

/// The setting name of a modifier.
pub open spec fn name_of_modifier(m: KeyboardModifier) -> Seq<char> {
    match m {
        KeyboardModifier::Shift => "shift"@,
        KeyboardModifier::Control => "control"@,
        KeyboardModifier::Alt => "alt"@,
    }
}

impl KeyboardModifier {
    /// Looks a modifier up by its exact setting name.
    pub fn from_setting_name(setting_name: &str) -> (r: Option<Self>)
        ensures
            r == modifier_of_name(setting_name@),
    {
        if str_eq(setting_name, "shift") {
            Some(Self::Shift)
        } else if str_eq(setting_name, "control") {
            Some(Self::Control)
        } else if str_eq(setting_name, "alt") {
            Some(Self::Alt)
        } else {
            None
        }
    }

    /// The setting name of this modifier.
    pub fn setting_name(&self) -> (r: &'static str)
        ensures
            r@ == name_of_modifier(*self),
            modifier_of_name(r@) == Some(*self),
    {
        proof {
            reveal_strlit("shift");
            reveal_strlit("control");
            reveal_strlit("alt");
            assert("control"@ != "shift"@) by { assert("control"@.len() != "shift"@.len()); }
            assert("alt"@ != "shift"@) by { assert("alt"@.len() != "shift"@.len()); }
            assert("alt"@ != "control"@) by { assert("alt"@.len() != "control"@.len()); }
        }
        match *self {
            Self::Shift => "shift",
            Self::Control => "control",
            Self::Alt => "alt",
        }
    }
}

/// A mouse button that drives a camera control.
#[derive(PartialEq, Eq, Structural, Clone, Copy, Debug)]
pub enum MouseButton {
    Left,
    Right,
    Middle,
    Back,
    Forward,
}

/// The mouse button that a setting name stands for, if any.
pub open spec fn button_of_name(s: Seq<char>) -> Option<MouseButton> {
    if s == "left"@ {
        Some(MouseButton::Left)
    } else if s == "right"@ {
        Some(MouseButton::Right)
    } else if s == "middle"@ {
        Some(MouseButton::Middle)
    } else if s == "back"@ {
        Some(MouseButton::Back)
    } else if s == "forward"@ {
        Some(MouseButton::Forward)
    } else {
        None
    }
}

impl Default for MouseButton {
    fn default() -> (r: Self)
        ensures
            r == MouseButton::Left,
    {
        MouseButton::Left
    }
}

impl MouseButton {
    /// Looks a mouse button up by its exact setting name.
    pub fn from_setting_name(setting_name: &str) -> (r: Option<Self>)
        ensures
            r == button_of_name(setting_name@),
    {
        if str_eq(setting_name, "left") {
            Some(Self::Left)
        } else if str_eq(setting_name, "right") {
            Some(Self::Right)
        } else if str_eq(setting_name, "middle") {
            Some(Self::Middle)
        } else if str_eq(setting_name, "back") {
            Some(Self::Back)
        } else if str_eq(setting_name, "forward") {
            Some(Self::Forward)
        } else {
            None
        }
    }
}

/// One of the six camera-control mapping slots of the settings.
#[derive(PartialEq, Eq, Structural, Clone, Copy, Debug)]
pub enum Slot {
    Look,
    Look2,
    Pan,
    Pan2,
    Zoom,
    Zoom2,
}

/// The top-level setting name of a slot.
pub open spec fn slot_key(s: Slot) -> Seq<char> {
    match s {
        Slot::Look => "cameraLookMapping"@,
        Slot::Look2 => "cameraLookMapping2"@,
        Slot::Pan => "cameraPanMapping"@,
        Slot::Pan2 => "cameraPanMapping2"@,
        Slot::Zoom => "cameraZoomMapping"@,
        Slot::Zoom2 => "cameraZoomMapping2"@,
    }
}

/// Distinct slots have distinct setting names.
pub proof fn lemma_slot_keys_distinct(a: Slot, b: Slot)
    requires
        a != b,
    ensures
        slot_key(a) != slot_key(b),
{
    reveal_strlit("cameraLookMapping");
    reveal_strlit("cameraLookMapping2");
    reveal_strlit("cameraPanMapping");
    reveal_strlit("cameraPanMapping2");
    reveal_strlit("cameraZoomMapping");
    reveal_strlit("cameraZoomMapping2");
    let ka = slot_key(a);
    let kb = slot_key(b);
    if ka.len() == kb.len() {
        assert(ka[6] != kb[6] || ka[ka.len() - 1] != kb[kb.len() - 1]);
    }
}

impl Slot {
    /// The top-level setting name of this slot.
    pub fn setting_name(&self) -> (r: &'static str)
        ensures
            r@ == slot_key(*self),
    {
        match *self {
            Slot::Look => "cameraLookMapping",
            Slot::Look2 => "cameraLookMapping2",
            Slot::Pan => "cameraPanMapping",
            Slot::Pan2 => "cameraPanMapping2",
            Slot::Zoom => "cameraZoomMapping",
            Slot::Zoom2 => "cameraZoomMapping2",
        }
    }
}

} // verus!
