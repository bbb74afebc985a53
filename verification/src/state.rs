//! The state that one process shares: the session store and the renewal policy.

use crate::session::SessionStore;
use vstd::prelude::*;

verus! {

/// Whether a session that has run out may be renewed without the caller asking.
pub struct RenewalPolicy {
    allowed: bool,
}

impl View for RenewalPolicy {
    type V = bool;

    closed spec fn view(&self) -> bool {
        self.allowed
    }
}

impl RenewalPolicy {
    /// The policy a process starts with: no renewal.
    pub fn new() -> (policy: RenewalPolicy)
        ensures
            !policy@,
    {
        RenewalPolicy { allowed: false }
    }

    /// Whether renewal is allowed.
    pub fn allowed(&self) -> (allowed: bool)
        ensures
            allowed == self@,
    {
        self.allowed
    }

    /// Allows or forbids renewal, until the next call.
    pub fn set(&mut self, allowed: bool)
        ensures
            final(self)@ == allowed,
    {
        self.allowed = allowed;
    }
}

/// The one session store and the one renewal policy, held together so that they can be
/// handed to whoever needs them.
pub struct SessionManager {
    pub store: SessionStore,
    pub policy: RenewalPolicy,
}

impl SessionManager {
    /// Every stored session is well formed.
    pub open spec fn wf(&self) -> bool {
        self.store.wf()
    }

    /// The state of a process that has not authenticated: no session, no renewal.
    pub fn new() -> (manager: SessionManager)
        ensures
            manager.store@ is None,
            !manager.policy@,
            manager.wf(),
    {
        SessionManager { store: SessionStore::new(), policy: RenewalPolicy::new() }
    }
}

} // verus!
