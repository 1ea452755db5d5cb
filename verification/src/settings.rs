//! The desktop app's persisted preferences (kept in `settings.json`).
//!
//! Loading and saving the file is left to the application.

use vstd::prelude::*;

verus! {

/// Where the window goes when the user minimises it.
#[derive(Debug, Clone, Copy, PartialEq, Eq, Structural)]
pub enum MinimizeTarget {
    Taskbar,
    Tray,
}

/// Persisted preferences.
#[derive(Debug, Clone)]
pub struct Settings {
    /// The profile loaded last, if any.
    pub last_profile: Option<String>,
    /// Whether the minimise choice is remembered instead of asked each time.
    pub remember_minimize_choice: bool,
    /// The remembered minimise choice.
    pub minimize_to: MinimizeTarget,
}

impl Default for Settings {
    fn default() -> (r: Self)
        ensures
            r.last_profile is None,
            !r.remember_minimize_choice,
            r.minimize_to == MinimizeTarget::Taskbar,
    {
        Settings {
            last_profile: None,
            remember_minimize_choice: false,
            minimize_to: MinimizeTarget::Taskbar,
        }
    }
}

} // verus!
