//! Global input guard: the suppression policy for system-wide key events.
//!
//! The host installs a low-level keyboard interception callback on a
//! dedicated thread; for every physical key event the callback asks this
//! module for a verdict. A denylisted key-down is suppressed before any
//! application observes it; everything else — key-ups included — is
//! forwarded unchanged, so normal typing is never broken. The decision is
//! pure: ambiguity at the platform layer degrades to "forward" there, never
//! here.

use vstd::prelude::*;

verus! {

/// Virtual-key code of Tab.
pub const VK_TAB: u32 = 0x09;

/// Virtual-key code of Escape.
pub const VK_ESCAPE: u32 = 0x1B;

/// Virtual-key code of the screen-capture (print-screen) key.
pub const VK_SNAPSHOT: u32 = 0x2C;

/// Virtual-key code of the letter C.
pub const VK_C: u32 = 0x43;

/// Virtual-key code of the letter P.
pub const VK_P: u32 = 0x50;

/// Virtual-key code of the letter V.
pub const VK_V: u32 = 0x56;

/// Virtual-key code of the left meta (super) key.
pub const VK_LWIN: u32 = 0x5B;

/// Virtual-key code of the right meta (super) key.
pub const VK_RWIN: u32 = 0x5C;

/// Virtual-key code of F4.
pub const VK_F4: u32 = 0x73;

/// Virtual-key code of F12.
pub const VK_F12: u32 = 0x7B;

/// One physical key event, as the low-level interception reports it.
#[derive(Clone, Copy, Debug)]
pub struct KeyEvent {
    /// Virtual-key code of the key itself.
    pub vk_code: u32,
    /// The Alt modifier is held (the interception's own modifier flag).
    pub alt_down: bool,
    /// The Ctrl modifier is held (sampled asynchronous key state).
    pub ctrl_down: bool,
    /// The event is a key-down transition, on the plain or the system
    /// channel; `false` is a key-up.
    pub key_down: bool,
}

/// The guard's answer for one event.
#[derive(Clone, Copy, Debug, PartialEq, Eq, Structural)]
pub enum Verdict {
    /// Swallow the event before any application sees it.
    Suppress,
    /// Hand the event to the next handler in the chain, unchanged.
    Forward,
}

/// The fixed denylist: Alt held with Tab, Escape or F4; either meta key;
/// the screen-capture key; F12; Ctrl held with C, V or P.
pub open spec fn spec_denylisted(e: KeyEvent) -> bool {
    ||| (e.alt_down && (e.vk_code == VK_TAB || e.vk_code == VK_ESCAPE || e.vk_code == VK_F4))
    ||| e.vk_code == VK_LWIN
    ||| e.vk_code == VK_RWIN
    ||| e.vk_code == VK_SNAPSHOT
    ||| e.vk_code == VK_F12
    ||| (e.ctrl_down && (e.vk_code == VK_C || e.vk_code == VK_V || e.vk_code == VK_P))
}

/// An event is suppressed exactly when the interception is asked to act
/// (`hook_code >= 0`, the platform's "process this event" signal), the
/// event is a key-down, and the combination is on the denylist.
pub open spec fn spec_suppresses(hook_code: i32, e: KeyEvent) -> bool {
    hook_code >= 0 && e.key_down && spec_denylisted(e)
}

/// The verdict for one interception callback invocation.
///
/// Suppresses exactly the denylisted key-downs the platform asks the hook
/// to act on; key-ups of denylisted combinations, non-matching key-downs
/// and events with a negative hook code are all forwarded.
pub fn decide_key_event(hook_code: i32, e: &KeyEvent) -> (v: Verdict)
    ensures
        v == Verdict::Suppress <==> spec_suppresses(hook_code, *e),
{
    if hook_code >= 0 && e.key_down {
        if e.alt_down && (e.vk_code == VK_TAB || e.vk_code == VK_ESCAPE || e.vk_code == VK_F4) {
            Verdict::Suppress
        } else if e.vk_code == VK_LWIN || e.vk_code == VK_RWIN {
            Verdict::Suppress
        } else if e.vk_code == VK_SNAPSHOT {
            Verdict::Suppress
        } else if e.vk_code == VK_F12 {
            Verdict::Suppress
        } else if e.ctrl_down && (e.vk_code == VK_C || e.vk_code == VK_V || e.vk_code == VK_P) {
            Verdict::Suppress
        } else {
            Verdict::Forward
        }
    } else {
        Verdict::Forward
    }
}

} // verus!
