use lockdown_core::escape_valve::{valve_chord, valve_fires, ChordState, VK_Q};
use lockdown_core::hook_lifecycle::{hook_step, HookEvent, HookPhase};
use lockdown_core::input_guard::{
    decide_key_event, KeyEvent, Verdict, VK_C, VK_ESCAPE, VK_F12, VK_F4, VK_LWIN, VK_P, VK_RWIN,
    VK_SNAPSHOT, VK_TAB, VK_V,
};
use lockdown_core::window_guard::{react, WindowEvent};

fn key(vk_code: u32, alt_down: bool, ctrl_down: bool, key_down: bool) -> KeyEvent {
    KeyEvent { vk_code, alt_down, ctrl_down, key_down }
}

#[test]
fn denylisted_key_downs_are_suppressed() {
    let cases = [
        key(VK_TAB, true, false, true),
        key(VK_ESCAPE, true, false, true),
        key(VK_F4, true, false, true),
        key(VK_LWIN, false, false, true),
        key(VK_RWIN, false, false, true),
        key(VK_SNAPSHOT, false, false, true),
        key(VK_F12, false, false, true),
        key(VK_C, false, true, true),
        key(VK_V, false, true, true),
        key(VK_P, false, true, true),
    ];
    for e in cases {
        assert_eq!(decide_key_event(0, &e), Verdict::Suppress);
    }
}

#[test]
fn key_ups_of_denylisted_combinations_are_forwarded() {
    let cases = [
        key(VK_TAB, true, false, false),
        key(VK_LWIN, false, false, false),
        key(VK_SNAPSHOT, false, false, false),
        key(VK_C, false, true, false),
    ];
    for e in cases {
        assert_eq!(decide_key_event(0, &e), Verdict::Forward);
    }
}

#[test]
fn non_matching_key_downs_are_forwarded() {
    // Tab, Escape and F4 without Alt; C, V and P without Ctrl.
    assert_eq!(decide_key_event(0, &key(VK_TAB, false, false, true)), Verdict::Forward);
    assert_eq!(decide_key_event(0, &key(VK_ESCAPE, false, false, true)), Verdict::Forward);
    assert_eq!(decide_key_event(0, &key(VK_F4, false, false, true)), Verdict::Forward);
    assert_eq!(decide_key_event(0, &key(VK_C, false, false, true)), Verdict::Forward);
    assert_eq!(decide_key_event(0, &key(VK_V, false, false, true)), Verdict::Forward);
    assert_eq!(decide_key_event(0, &key(VK_P, false, false, true)), Verdict::Forward);
    // Alt with an ordinary letter.
    assert_eq!(decide_key_event(0, &key(VK_C, true, false, true)), Verdict::Forward);
}

#[test]
fn negative_hook_code_is_always_forwarded() {
    assert_eq!(decide_key_event(-1, &key(VK_TAB, true, false, true)), Verdict::Forward);
    assert_eq!(decide_key_event(-1, &key(VK_LWIN, false, false, true)), Verdict::Forward);
}

#[test]
fn close_requests_are_vetoed() {
    let r = react(&WindowEvent::CloseRequested);
    assert!(r.veto_close);
    assert!(!r.request_refocus);
}

#[test]
fn window_survives_repeated_close_requests() {
    // The window stays open after N consecutive close requests.
    let mut open = true;
    for _ in 0..100 {
        let r = react(&WindowEvent::CloseRequested);
        if !r.veto_close {
            open = false;
        }
    }
    assert!(open);
}

#[test]
fn focus_loss_requests_refocus() {
    let r = react(&WindowEvent::FocusChanged(false));
    assert!(r.request_refocus);
    assert!(!r.veto_close);
}

#[test]
fn focus_gain_and_other_events_do_nothing() {
    let r = react(&WindowEvent::FocusChanged(true));
    assert!(!r.request_refocus);
    assert!(!r.veto_close);
    let r = react(&WindowEvent::Other);
    assert!(!r.request_refocus);
    assert!(!r.veto_close);
}

#[test]
fn every_focus_loss_gets_its_own_refocus() {
    let events = [
        WindowEvent::FocusChanged(false),
        WindowEvent::FocusChanged(true),
        WindowEvent::FocusChanged(false),
        WindowEvent::CloseRequested,
        WindowEvent::FocusChanged(false),
    ];
    let mut refocus_requests = 0;
    for e in &events {
        if react(e).request_refocus {
            refocus_requests += 1;
        }
    }
    assert_eq!(refocus_requests, 3);
}

#[test]
fn valve_fires_only_when_registered_and_pressed() {
    assert!(valve_fires(true, &ChordState::Pressed));
    assert!(!valve_fires(true, &ChordState::Released));
    assert!(!valve_fires(false, &ChordState::Pressed));
    assert!(!valve_fires(false, &ChordState::Released));
}

#[test]
fn valve_chord_is_ctrl_alt_shift_q() {
    let c = valve_chord();
    assert!(c.ctrl);
    assert!(c.alt);
    assert!(c.shift);
    assert!(!c.meta);
    assert_eq!(c.vk_code, VK_Q);
}

#[test]
fn disabled_chord_passes_the_input_guard() {
    // With the valve unregistered, its chord is an ordinary key event and
    // the global input guard forwards it.
    let e = key(VK_Q, true, true, true);
    assert_eq!(decide_key_event(0, &e), Verdict::Forward);
}

#[test]
fn hook_lifecycle_releases_exactly_once() {
    let s1 = hook_step(HookPhase::Idle, &HookEvent::InstallSucceeded);
    assert_eq!(s1.next, HookPhase::Active);
    assert!(!s1.release);
    let s2 = hook_step(s1.next, &HookEvent::LoopExited);
    assert_eq!(s2.next, HookPhase::Released);
    assert!(s2.release);
    let s3 = hook_step(s2.next, &HookEvent::LoopExited);
    assert_eq!(s3.next, HookPhase::Released);
    assert!(!s3.release);
}

#[test]
fn failed_install_is_permanent() {
    let s1 = hook_step(HookPhase::Idle, &HookEvent::InstallFailed);
    assert_eq!(s1.next, HookPhase::Degraded);
    assert!(!s1.release);
    let s2 = hook_step(s1.next, &HookEvent::InstallSucceeded);
    assert_eq!(s2.next, HookPhase::Degraded);
    assert!(!s2.release);
    let s3 = hook_step(s2.next, &HookEvent::LoopExited);
    assert_eq!(s3.next, HookPhase::Degraded);
    assert!(!s3.release);
}

#[test]
fn install_outcomes_are_ignored_while_active() {
    let s = hook_step(HookPhase::Active, &HookEvent::InstallSucceeded);
    assert_eq!(s.next, HookPhase::Active);
    assert!(!s.release);
    let s = hook_step(HookPhase::Active, &HookEvent::InstallFailed);
    assert_eq!(s.next, HookPhase::Active);
    assert!(!s.release);
}
