//! Whether lock files are emptied when they are unlocked.

use vstd::prelude::*;

verus! {

/// The setting that handles take over when they are opened: whether an
/// unlock, and so a close, cuts the file to length zero. It is on unless it
/// was turned off.
#[derive(Debug, Clone, Copy, PartialEq, Eq)]
pub struct LockfileTruncate {
    on: bool,
}

impl LockfileTruncate {
    /// Whether files are emptied.
    pub closed spec fn state(&self) -> bool {
        self.on
    }
}

impl Default for LockfileTruncate {
    fn default() -> (setting: Self)
        ensures
            setting.state(),
    {
        LockfileTruncate { on: true }
    }
}

/// The state of default file truncation.
pub fn default_lockfile_truncate_state(setting: &LockfileTruncate) -> (on: bool)
    ensures
        on == setting.state(),
{
    setting.on
}

/// Change the state of default file truncation (default true).
pub fn lockfile_truncate(setting: &mut LockfileTruncate, dlft: bool)
    ensures
        final(setting).state() == dlft,
{
    setting.on = dlft;
}

} // verus!
