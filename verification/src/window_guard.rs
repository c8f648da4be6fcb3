//! Window lifecycle guard: keep the host window alive and foregrounded.
//!
//! Two independent level-triggered rules, no shared state: every
//! close request is vetoed, and every loss of focus is answered with
//! exactly one refocus request — no retry budget, no debouncing.

use vstd::prelude::*;

verus! {

/// A window lifecycle notification, as the host delivers it.
#[derive(Clone, Copy, Debug)]
pub enum WindowEvent {
    /// The user or the system asked to close the window.
    CloseRequested,
    /// Focus changed; the payload says whether the window now has focus.
    FocusChanged(bool),
    /// Any other lifecycle notification; the guard ignores it.
    Other,
}

/// The reactions the guard registers for one event.
#[derive(Clone, Copy, Debug)]
pub struct Reaction {
    /// Veto the close: the window stays open.
    pub veto_close: bool,
    /// Ask the host to hand focus back to the window.
    pub request_refocus: bool,
}

/// The guard's reaction: veto exactly the close requests, request refocus
/// exactly on focus loss.
pub open spec fn spec_react(e: WindowEvent) -> Reaction {
    Reaction {
        veto_close: e is CloseRequested,
        request_refocus: e == WindowEvent::FocusChanged(false),
    }
}

/// React to one window event.
pub fn react(e: &WindowEvent) -> (r: Reaction)
    ensures
        r == spec_react(*e),
{
    match e {
        WindowEvent::CloseRequested => Reaction { veto_close: true, request_refocus: false },
        WindowEvent::FocusChanged(focused) => Reaction {
            veto_close: false,
            request_refocus: !*focused,
        },
        WindowEvent::Other => Reaction { veto_close: false, request_refocus: false },
    }
}

/// What one delivered event does to the "window is open" fact once the
/// guard's veto is applied: an unvetoed close request closes the window,
/// everything else leaves it as it was.
pub open spec fn spec_open_after(open: bool, e: WindowEvent, veto: bool) -> bool {
    if e is CloseRequested && !veto {
        false
    } else {
        open
    }
}

/// The "window is open" fact after a stream of events, each answered by the
/// guard's own reaction.
pub open spec fn spec_open_after_guarded(open: bool, events: Seq<WindowEvent>) -> bool
    decreases events.len(),
{
    if events.len() == 0 {
        open
    } else {
        spec_open_after_guarded(
            spec_open_after(open, events.first(), spec_react(events.first()).veto_close),
            events.drop_first(),
        )
    }
}

/// An open window stays open under the guard, however many close requests
/// arrive and whatever else the stream carries.
pub proof fn lemma_window_stays_open(events: Seq<WindowEvent>)
    ensures
        spec_open_after_guarded(true, events),
    decreases events.len(),
{
    if events.len() > 0 {
        lemma_window_stays_open(events.drop_first());
    }
}

/// How many events of the stream are losses of focus.
pub open spec fn spec_focus_lost_count(events: Seq<WindowEvent>) -> nat
    decreases events.len(),
{
    if events.len() == 0 {
        0nat
    } else {
        (if events.first() == WindowEvent::FocusChanged(false) {
            1nat
        } else {
            0nat
        }) + spec_focus_lost_count(events.drop_first())
    }
}

/// How many refocus requests the guard registers over the stream.
pub open spec fn spec_refocus_requests(events: Seq<WindowEvent>) -> nat
    decreases events.len(),
{
    if events.len() == 0 {
        0nat
    } else {
        (if spec_react(events.first()).request_refocus {
            1nat
        } else {
            0nat
        }) + spec_refocus_requests(events.drop_first())
    }
}

/// Every focus loss triggers exactly one refocus request, and repeated
/// losses each trigger their own: over any stream the requests equal the
/// losses, one for one.
pub proof fn lemma_one_refocus_per_focus_loss(events: Seq<WindowEvent>)
    ensures
        spec_refocus_requests(events) == spec_focus_lost_count(events),
    decreases events.len(),
{
    if events.len() > 0 {
        lemma_one_refocus_per_focus_loss(events.drop_first());
    }
}

} // verus!
