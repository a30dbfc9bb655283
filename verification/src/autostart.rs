//! Launch at login: what to do with the platform's launch-at-login entry
//! (registry Run key, LaunchAgent, or autostart desktop entry). Reading and
//! writing that entry is the caller's.

use vstd::prelude::*;

verus! {

/// The name under which the app is registered.
pub const APP_NAME: &'static str = "Whisper FreeFlow";

/// What to do with the launch-at-login entry.
#[derive(Debug, Clone, Copy, PartialEq, Eq, Structural)]
pub enum AutostartAction {
    /// Write the entry, pointing at the current executable.
    Enable,
    /// Remove the entry.
    Disable,
    /// Leave it as it is.
    Keep,
}

/// Brings the launch-at-login entry in line with `enabled`, given what a
/// look at the entry found: `Some(registered)`, or `None` when it could not
/// be read, which counts as not registered. Enabling always rewrites the
/// entry, so that it follows the executable when it moves; disabling
/// removes an entry only when one is registered.
pub fn sync(enabled: bool, registered: Option<bool>) -> (a: AutostartAction)
    ensures
        enabled ==> a == AutostartAction::Enable,
        !enabled && registered == Some(true) ==> a == AutostartAction::Disable,
        !enabled && registered != Some(true) ==> a == AutostartAction::Keep,
{
    let currently = match registered {
        Some(b) => b,
        None => false,
    };
    if enabled {
        AutostartAction::Enable
    } else if currently {
        AutostartAction::Disable
    } else {
        AutostartAction::Keep
    }
}

} // verus!
