//! The lockdown policy: the static ruleset loaded once at startup.
//!
//! The host parses a configuration resource into this type before any
//! guard installs, and never mutates it afterwards. The policy answers the
//! two merged decisions taken at startup — which origin the window shows
//! and whether the escape valve is registered — and dictates the window
//! chrome.

use vstd::prelude::*;

verus! {

/// Window chrome requested by configuration.
pub struct WindowSettings {
    /// The window title.
    pub title: String,
    /// Open the window fullscreen.
    pub fullscreen: bool,
    /// Keep the window above all others.
    pub always_on_top: bool,
    /// Hide the window from the taskbar.
    pub skip_taskbar: bool,
}

/// Operator-controlled debug switches.
pub struct DebugSettings {
    /// Explicitly enable the escape valve.
    pub enable_emergency_exit: bool,
}

/// The static ruleset: read-only from the moment the guards install.
pub struct LockdownPolicy {
    /// The origin shown by non-production builds.
    pub base_url: String,
    /// The origin shown by production builds.
    pub production_url: String,
    /// Window chrome configuration.
    pub window: WindowSettings,
    /// Debug switches.
    pub debug_settings: DebugSettings,
}

/// How the lockdown window must be built: the configured chrome flags pass
/// through, and every native affordance that could end or shrink the
/// session — decorations, resizing, maximizing, minimizing, closing — is
/// off.
pub struct ChromeSettings {
    /// The window title.
    pub title: String,
    /// Open fullscreen (configured).
    pub fullscreen: bool,
    /// Keep above all others (configured).
    pub always_on_top: bool,
    /// Hide from the taskbar (configured).
    pub skip_taskbar: bool,
    /// Native decorations; always off.
    pub decorations: bool,
    /// User resizing; always off.
    pub resizable: bool,
    /// Maximize affordance; always off.
    pub maximizable: bool,
    /// Minimize affordance; always off.
    pub minimizable: bool,
    /// Native close affordance; always off.
    pub closable: bool,
}

impl LockdownPolicy {
    /// The origin the window navigates to: the configured base origin in a
    /// non-production build, the production origin otherwise.
    pub fn effective_base_url(&self, non_production_build: bool) -> (r: &String)
        ensures
            r@ == if non_production_build {
                self.base_url@
            } else {
                self.production_url@
            },
    {
        if non_production_build {
            &self.base_url
        } else {
            &self.production_url
        }
    }

    /// The escape valve is registered when the configuration enables it or
    /// the build is non-production.
    pub fn emergency_exit_enabled(&self, non_production_build: bool) -> (r: bool)
        ensures
            r == (self.debug_settings.enable_emergency_exit || non_production_build),
    {
        self.debug_settings.enable_emergency_exit || non_production_build
    }

    /// The chrome the host must build the window with.
    pub fn chrome(&self) -> (c: ChromeSettings)
        ensures
            c.title@ == self.window.title@,
            c.fullscreen == self.window.fullscreen,
            c.always_on_top == self.window.always_on_top,
            c.skip_taskbar == self.window.skip_taskbar,
            !c.decorations,
            !c.resizable,
            !c.maximizable,
            !c.minimizable,
            !c.closable,
    {
        ChromeSettings {
            title: self.window.title.clone(),
            fullscreen: self.window.fullscreen,
            always_on_top: self.window.always_on_top,
            skip_taskbar: self.window.skip_taskbar,
            decorations: false,
            resizable: false,
            maximizable: false,
            minimizable: false,
            closable: false,
        }
    }
}

} // verus!
