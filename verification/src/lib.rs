//! Lockdown enforcement core: the decision logic of a kiosk-mode shell.
//!
//! A native host window shows a web application while suppressing the
//! operating-system and browser affordances that would let a user escape,
//! inspect or exfiltrate it. Each module here models one enforcement
//! surface as plain data and verified decision functions; the host process
//! wires the decisions to the operating system and the webview.

pub mod content_guard;
pub mod deep_link;
pub mod escape_valve;
pub mod hook_lifecycle;
pub mod input_guard;
pub mod monitor;
pub mod policy;
pub mod window_guard;
