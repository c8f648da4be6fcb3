//! Escape valve: the single authorized bypass.
//!
//! One fixed chord — Ctrl+Alt+Shift+Q — terminates the process, and only
//! when the merged policy enabled the valve at startup; the host registers
//! the chord exactly in that case. Termination fires on the chord's
//! key-down transition, never on key-up.

use vstd::prelude::*;
use crate::input_guard::{spec_denylisted, KeyEvent};

verus! {

/// Virtual-key code of the letter Q, the chord's key.
pub const VK_Q: u32 = 0x51;

/// The chord the host registers for the valve.
#[derive(Clone, Copy, Debug)]
pub struct ValveChord {
    /// Ctrl is part of the chord.
    pub ctrl: bool,
    /// Alt is part of the chord.
    pub alt: bool,
    /// Shift is part of the chord.
    pub shift: bool,
    /// The meta (super) key is part of the chord.
    pub meta: bool,
    /// Virtual-key code of the chord's key.
    pub vk_code: u32,
}

/// The fixed chord: Ctrl+Alt+Shift+Q, no meta key.
pub fn valve_chord() -> (c: ValveChord)
    ensures
        c.ctrl,
        c.alt,
        c.shift,
        !c.meta,
        c.vk_code == VK_Q,
{
    ValveChord { ctrl: true, alt: true, shift: true, meta: false, vk_code: VK_Q }
}

/// A delivery of the registered chord: its key-down or key-up transition.
#[derive(Clone, Copy, Debug)]
pub enum ChordState {
    /// The chord's key went down.
    Pressed,
    /// The chord's key came back up.
    Released,
}

/// The valve terminates the process for one chord delivery exactly when it
/// was registered and the delivery is the key-down transition.
pub open spec fn spec_valve_fires(registered: bool, state: ChordState) -> bool {
    registered && state is Pressed
}

/// Decide one chord delivery.
pub fn valve_fires(registered: bool, state: &ChordState) -> (fire: bool)
    ensures
        fire == spec_valve_fires(registered, *state),
{
    registered && matches!(state, ChordState::Pressed)
}

/// With the valve disabled the chord terminates nothing, and the global
/// input guard treats its key-down as any other event: Ctrl+Alt+Shift+Q is
/// not on the denylist, so the guard forwards it.
pub proof fn lemma_disabled_chord_is_ordinary(e: KeyEvent, state: ChordState)
    requires
        e.vk_code == VK_Q,
    ensures
        !spec_valve_fires(false, state),
        !spec_denylisted(e),
{
}

} // verus!
