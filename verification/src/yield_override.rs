//! The scoped replacement of the host's coroutine-suspension primitive.
//!
//! While the bridge is active, suspending a coroutine must perform a
//! notification round trip keyed to the task it waits on instead of a
//! generic suspend. The replacement is a single process-wide slot: only one
//! installation may be active at a time (the bridge is not reentrant across
//! overlapping scopes), and when the scope ends the original primitive is
//! put back exactly once — even if putting it back fails, the failure is
//! only logged, never propagated, since it happens during unwind.

use vstd::prelude::*;

verus! {

/// The state after an installation attempt: the new state paired with
/// whether the attempt was accepted.
pub open spec fn spec_install(installed: bool) -> (bool, bool) {
    (true, !installed)
}

/// The state after a restoration: the new state paired with whether there
/// was an installation to undo.
pub open spec fn spec_restore(installed: bool) -> (bool, bool) {
    (false, installed)
}

/// The process-wide slot holding the override of the host's suspension
/// primitive.
pub struct YieldOverride {
    installed: bool,
}

impl YieldOverride {
    /// Whether the override is currently installed.
    pub closed spec fn is_installed(self) -> bool {
        self.installed
    }

    /// The slot starts with the host's original primitive in place.
    pub fn new() -> (s: YieldOverride)
        ensures
            !s.is_installed(),
    {
        YieldOverride { installed: false }
    }

    /// Installs the override for the lifetime of a bridge scope. Accepted
    /// only when no other installation is active: the bridge is not
    /// reentrant, and a second scope must not capture the first scope's
    /// replacement as the "original" to restore.
    pub fn install(&mut self) -> (accepted: bool)
        ensures
            (final(self).is_installed(), accepted) == spec_install(old(self).is_installed()),
    {
        let accepted = !self.installed;
        self.installed = true;
        accepted
    }

    /// Puts the original primitive back when the scope ends. Returns
    /// whether there was an installation to undo; after the call the slot
    /// always holds the original primitive.
    pub fn restore(&mut self) -> (was_installed: bool)
        ensures
            (final(self).is_installed(), was_installed) == spec_restore(old(self).is_installed()),
    {
        let was_installed = self.installed;
        self.installed = false;
        was_installed
    }
}

/// The original suspension primitive is restored exactly once per scope:
/// the first restoration after an installation undoes it, and any repeated
/// restoration finds nothing installed and changes nothing.
pub proof fn lemma_restore_exactly_once(installed: bool)
    ensures
        spec_restore(spec_install(installed).0).1 == true,
        spec_restore(spec_restore(installed).0).1 == false,
{
}

} // verus!
