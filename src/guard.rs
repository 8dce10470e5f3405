//! The scoped token that holds one reference on a `RundownRef`.
use vstd::prelude::*;

use crate::rundown_ref::RundownRef;

verus! {

/// Run-down protection held on a `RundownRef`, in the manner of a scoped
/// lock: while the guard lives the reference count includes it, and dropping
/// the guard (on any exit path) releases it exactly once.
///
/// Guards are made only by a successful `RundownRef::try_acquire`.
pub struct RundownGuard<'r> {
    /// The run-down reference that this guard releases when it is dropped.
    owned_run_down_ref: &'r RundownRef,
}

impl<'r> RundownGuard<'r> {
    /// The run-down reference that this guard holds a reference on.
    pub closed spec fn owner(self) -> RundownRef {
        *self.owned_run_down_ref
    }

    /// Wraps one reference that was just taken on `owned_run_down_ref`.
    pub(crate) fn new(owned_run_down_ref: &'r RundownRef) -> (r: RundownGuard<'r>)
        ensures
            r.owner() == *owned_run_down_ref,
    {
        RundownGuard { owned_run_down_ref }
    }
}

impl<'r> Drop for RundownGuard<'r> {
    /// Releases the reference that this guard holds.
    fn drop(&mut self)
        opens_invariants none
        no_unwind
    {
        self.owned_run_down_ref.release()
    }
}

} // verus!
