//! Session bookkeeping for the engine's single global configuration.
//!
//! The native engine holds one mutable global fluid configuration and is
//! not reentrant, so all callers are serialized by one process-wide lock
//! and the engine is reconfigured only when the active configuration
//! changes.  The lock itself lives with the caller that owns the
//! process-wide state; this module holds the decision logic guarded by
//! it: which configuration is active, whether a setup call is needed,
//! and the error that a poisoned lock must surface.

use vstd::prelude::*;
use vstd::string::StringExecFns;
use crate::error::RefpropError;

verus! {

/// The identity of whichever logical fluid configuration was most
/// recently pushed into the native engine.  Mutated only under the
/// process-wide lock.  Configuration ids are handed out from 1 upward;
/// 0 means "none configured".
#[derive(Debug, Clone, Copy, PartialEq, Eq, Structural)]
pub struct SessionState {
    pub active_id: u64,
}

impl SessionState {
    /// The initial state: no configuration active.
    pub fn new() -> (r: Self)
        ensures
            r.active_id == 0,
    {
        SessionState { active_id: 0 }
    }

    /// Whether serving a caller with configuration `id` requires a
    /// setup call first.  Repeated calls against the active
    /// configuration skip reconfiguration entirely, since the engine's
    /// per-call setup cost is non-trivial.
    pub fn needs_setup(&self, id: u64) -> (r: bool)
        ensures
            r == (self.active_id != id),
    {
        self.active_id != id
    }

    /// Records that the engine was successfully reconfigured for `id`.
    /// Called only after the setup call succeeded, so a failed setup
    /// leaves the previously active id in place.
    pub fn mark_active(&mut self, id: u64)
        ensures
            final(self).active_id == id,
    {
        self.active_id = id;
    }
}

/// The error surfaced when the process-wide lock is poisoned because a
/// previous holder panicked: every later acquisition must fail
/// deterministically rather than risk computing against an engine whose
/// state cannot be proven consistent.
pub fn poisoned_lock_error() -> (r: RefpropError)
    ensures
        r matches RefpropError::CalculationFailed(m)
            && m@ == "global engine lock is poisoned (a previous call panicked)"@,
{
    RefpropError::CalculationFailed(
        String::from_str("global engine lock is poisoned (a previous call panicked)"),
    )
}

} // verus!
