//! The hotkey surface: one global chord that toggles the window.

use crate::controller::Intent;
use vstd::prelude::*;

verus! {

/// The keys that a chord of this library can end in.
#[derive(Clone, Copy, Debug, PartialEq, Eq, Structural)]
pub enum KeyCode {
    Backslash,
}

/// A key together with the modifiers held while it is pressed.
#[derive(Clone, Copy, Debug, PartialEq, Eq, Structural)]
pub struct Hotkey {
    pub control: bool,
    pub shift: bool,
    pub alt: bool,
    pub meta: bool,
    pub key: KeyCode,
}

/// The chord that summons and dismisses the window: Control and Backslash.
pub open spec fn toggle_chord() -> Hotkey {
    Hotkey { control: true, shift: false, alt: false, meta: false, key: KeyCode::Backslash }
}

/// The one chord to register, once, for the lifetime of the process.
pub fn toggle_hotkey() -> (chord: Hotkey)
    ensures
        chord == toggle_chord(),
{
    Hotkey { control: true, shift: false, alt: false, meta: false, key: KeyCode::Backslash }
}

/// The intent behind a fire of the registered chord. Every fire toggles:
/// nothing is debounced, and how a held key repeats is left to the system.
pub fn hotkey_intent() -> (intent: Intent)
    ensures
        intent == Intent::ToggleRequested,
{
    Intent::ToggleRequested
}

} // verus!
