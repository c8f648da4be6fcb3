//! Hook-handle lifecycle: the interception handle as an owned resource.
//!
//! At most one low-level interception handle exists per process lifetime.
//! The owning thread installs it at most once, a failed install is
//! permanent (no retries), and the handle is released exactly once, by
//! that same thread, when its message loop exits. This module is the
//! transition rule the owning thread follows, with those facts proved of
//! every event stream.

use vstd::prelude::*;

verus! {

/// Where the interception stands.
#[derive(Clone, Copy, Debug, PartialEq, Eq, Structural)]
pub enum HookPhase {
    /// No interception exists and none has been attempted.
    Idle,
    /// Installation failed; permanent for the process lifetime.
    Degraded,
    /// The handle exists and the message loop keeps it alive.
    Active,
    /// The handle has been released and the owning thread is done.
    Released,
}

/// What the owning thread observes.
#[derive(Clone, Copy, Debug)]
pub enum HookEvent {
    /// The platform accepted the interception; the handle now exists.
    InstallSucceeded,
    /// The platform refused the interception.
    InstallFailed,
    /// The message loop was told to stop and has exited.
    LoopExited,
}

/// One transition: the next phase, and whether the handle must be
/// released now.
#[derive(Clone, Copy, Debug)]
pub struct HookStep {
    /// The phase after the event.
    pub next: HookPhase,
    /// Release (uninstall) the handle as part of this transition.
    pub release: bool,
}

/// The transition rule: an install outcome is only taken up from `Idle`,
/// and the one release happens exactly when the loop exits while the
/// handle is active. Every other event leaves the phase alone.
pub open spec fn spec_hook_step(phase: HookPhase, event: HookEvent) -> HookStep {
    match (phase, event) {
        (HookPhase::Idle, HookEvent::InstallSucceeded) => HookStep {
            next: HookPhase::Active,
            release: false,
        },
        (HookPhase::Idle, HookEvent::InstallFailed) => HookStep {
            next: HookPhase::Degraded,
            release: false,
        },
        (HookPhase::Active, HookEvent::LoopExited) => HookStep {
            next: HookPhase::Released,
            release: true,
        },
        _ => HookStep { next: phase, release: false },
    }
}

/// Take one lifecycle step.
pub fn hook_step(phase: HookPhase, event: &HookEvent) -> (step: HookStep)
    ensures
        step == spec_hook_step(phase, *event),
{
    match (phase, event) {
        (HookPhase::Idle, HookEvent::InstallSucceeded) => HookStep {
            next: HookPhase::Active,
            release: false,
        },
        (HookPhase::Idle, HookEvent::InstallFailed) => HookStep {
            next: HookPhase::Degraded,
            release: false,
        },
        (HookPhase::Active, HookEvent::LoopExited) => HookStep {
            next: HookPhase::Released,
            release: true,
        },
        _ => HookStep { next: phase, release: false },
    }
}

/// The phase after a stream of events.
pub open spec fn spec_hook_run(phase: HookPhase, events: Seq<HookEvent>) -> HookPhase
    decreases events.len(),
{
    if events.len() == 0 {
        phase
    } else {
        spec_hook_run(spec_hook_step(phase, events.first()).next, events.drop_first())
    }
}

/// How many releases a stream of events performs.
pub open spec fn spec_release_count(phase: HookPhase, events: Seq<HookEvent>) -> nat
    decreases events.len(),
{
    if events.len() == 0 {
        0nat
    } else {
        (if spec_hook_step(phase, events.first()).release {
            1nat
        } else {
            0nat
        }) + spec_release_count(spec_hook_step(phase, events.first()).next, events.drop_first())
    }
}

/// The handle is released exactly once: over any event stream a thread
/// starting without a handle releases at most once, a degraded or finished
/// thread never releases again, and whenever the lifecycle ends in
/// `Released` the release happened exactly once on the way.
pub proof fn lemma_release_exactly_once(phase: HookPhase, events: Seq<HookEvent>)
    ensures
        (phase is Idle || phase is Active) ==> spec_release_count(phase, events) <= 1,
        (phase is Degraded || phase is Released) ==> spec_release_count(phase, events) == 0,
        ((phase is Idle || phase is Active) && spec_hook_run(phase, events) is Released)
            ==> spec_release_count(phase, events) == 1,
    decreases events.len(),
{
    if events.len() > 0 {
        lemma_release_exactly_once(spec_hook_step(phase, events.first()).next, events.drop_first());
        lemma_degraded_is_permanent(events.drop_first());
    }
}

/// A failed install is permanent: once degraded, the lifecycle never
/// activates again, so the process runs without system-level suppression
/// until it exits.
pub proof fn lemma_degraded_is_permanent(events: Seq<HookEvent>)
    ensures
        spec_hook_run(HookPhase::Degraded, events) is Degraded,
    decreases events.len(),
{
    if events.len() > 0 {
        lemma_degraded_is_permanent(events.drop_first());
    }
}

} // verus!
