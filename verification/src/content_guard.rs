//! Content-script guard: the rendered page's own input-suppression policy.
//!
//! A script attached to the webview before any content runs mirrors part of
//! the native guard at the DOM-event level, as defense in depth for
//! platforms where the native interception is absent. This module is that
//! script's decision rule: context menus and drags are always suppressed,
//! text selection is suppressed outside text-entry fields, and a fixed set
//! of key combinations is suppressed on key-down.

use vstd::prelude::*;

verus! {

/// A key identity as the rendered page reports it.
#[derive(Clone, Copy, Debug)]
pub enum DomKey {
    /// The F12 function key.
    F12,
    /// A character key, carrying the character the page reports (case
    /// follows the Shift state).
    Character(char),
    /// Any other key.
    Other,
}

/// A DOM-level event the injected script observes.
#[derive(Clone, Copy, Debug)]
pub enum DomEvent {
    /// Context-menu invocation (right click and equivalents).
    ContextMenu,
    /// A key-down, with the modifier states the page reports.
    KeyDown { key: DomKey, ctrl: bool, shift: bool },
    /// Text selection is starting; the flag says whether the event target
    /// is a text-entry field.
    SelectStart { text_entry_target: bool },
    /// A drag gesture is starting.
    DragStart,
}

/// The content-layer policy: suppress context menus and drags always,
/// selection starts outside text-entry fields, and the key-downs F12,
/// Ctrl+Shift+I, Ctrl+Shift+J, Ctrl+U, Ctrl+S and Ctrl+P (the letter keys
/// as the page reports them: lower case without Shift).
pub open spec fn spec_dom_suppresses(e: DomEvent) -> bool {
    match e {
        DomEvent::ContextMenu => true,
        DomEvent::DragStart => true,
        DomEvent::SelectStart { text_entry_target } => !text_entry_target,
        DomEvent::KeyDown { key, ctrl, shift } => {
            ||| key is F12
            ||| (ctrl && shift && key == DomKey::Character('I'))
            ||| (ctrl && shift && key == DomKey::Character('J'))
            ||| (ctrl && key == DomKey::Character('u'))
            ||| (ctrl && key == DomKey::Character('s'))
            ||| (ctrl && key == DomKey::Character('p'))
        },
    }
}

/// Decide one DOM-level event: `true` asks the page to cancel it.
pub fn dom_guard(e: &DomEvent) -> (suppress: bool)
    ensures
        suppress == spec_dom_suppresses(*e),
{
    match e {
        DomEvent::ContextMenu => true,
        DomEvent::DragStart => true,
        DomEvent::SelectStart { text_entry_target } => !*text_entry_target,
        DomEvent::KeyDown { key, ctrl, shift } => match key {
            DomKey::F12 => true,
            DomKey::Character(c) => (*ctrl && *shift && (*c == 'I' || *c == 'J')) || (*ctrl && (*c
                == 'u' || *c == 's' || *c == 'p')),
            DomKey::Other => false,
        },
    }
}

} // verus!
