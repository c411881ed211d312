//! What is reported about rejected or ignored fragments of the settings.

use crate::tree::JsonValue;
use crate::vocabulary::{KeyboardModifier, Slot};
use vstd::prelude::*;

verus! {

/// One reported problem; processing goes on after each of them.
#[derive(Debug, PartialEq)]
pub enum Diagnostic {
    /// The value of a slot's setting is not an object.
    InvalidSlotFormat(Slot),
    /// A mapping object has no `mouseButton` entry.
    MissingMouseButton,
    /// The `mouseButton` entry is not a string.
    InvalidMouseButtonFormat,
    /// The `mouseButton` entry names no known button.
    InvalidMouseButtonName(String),
    /// The `modifiers` entry is not an array.
    InvalidModifiersFormat,
    /// The `modifiers` array goes on after the mapping is full.
    TooManyModifiers,
    /// An element of the `modifiers` array is not a string.
    InvalidModifierEntry(JsonValue),
    /// An element of the `modifiers` array names no known modifier.
    InvalidModifierName(String),
    /// A modifier is named a second time in one mapping.
    DuplicateModifier(Slot, KeyboardModifier),
    /// An entry of a mapping object that is not recognized.
    InvalidProperty(String),
    /// A top-level setting that is not recognized.
    InvalidSetting(String),
}

} // verus!
