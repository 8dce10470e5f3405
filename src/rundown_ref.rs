//! The run-down reference: the shared state word and the completion signal,
//! and the acquire / release / run-down / re-initialise protocol over them.
use lazy_init::Lazy;
use rsevents::ManualResetEvent;
use std::sync::atomic::{AtomicU64, Ordering};
use vstd::prelude::*;

use crate::flags::{to_flags, word_draining, word_ref_count};
use crate::guard::RundownGuard;
use crate::protocol::{
    acquire_refusal, is_fully_run_down, next_word, release_completes_rundown, step_result,
    WordStep,
};
use crate::signal::{event_get_or_create, event_if_created, set_event, wait_event};

verus! {

/// The errors returned by the methods of a `RundownRef`.
#[derive(Clone, Copy, Debug, PartialEq, Eq, Structural)]
pub enum RundownError {
    /// Run-down is already in progress on this shared object.
    RundownInProgress,
    /// The count of outstanding references is at the largest value the state
    /// word can hold. Only a program that leaks guards gets here; the count is
    /// left as it was.
    RefCountOverflow,
    /// `re_init` was called before run-down completed: either run-down was
    /// never started, or references are still outstanding. The object is left
    /// as it was.
    RundownIncomplete,
}

/// Relies on `AtomicU64::fetch_update`: it reads the word, applies
/// `next_word(step, _)` to it, and when that gives `Some(new)` stores `new`
/// by a compare-exchange, reading and applying the step again whenever another
/// thread changed the word in between. It returns `Ok(previous)` once a new
/// value was stored in place of `previous`, and `Err(previous)` when the step
/// refused `previous`.
#[verifier::external_body]
fn apply_step(word: &AtomicU64, step: WordStep) -> (r: Result<u64, u64>)
    ensures
        match r {
            Ok(prev) => step_result(step, prev) is Some,
            Err(prev) => step_result(step, prev) is None,
        },
    opens_invariants none
    no_unwind
{
    word.fetch_update(Ordering::SeqCst, Ordering::SeqCst, |bits| next_word(step, bits))
}

/// Tracks run-down protection for a shared object; it is embedded in, or
/// shared alongside, the object that needs the protection.
///
/// `try_acquire` may be called from any number of threads at once. The
/// run-down lifecycle (`wait_for_rundown`, then `re_init`) belongs to one
/// owning thread at a time.
pub struct RundownRef {
    /// The state word: the count of outstanding references in the low bits
    /// and the run-down flag in the high bits, so that both change in one
    /// atomic operation.
    ref_count: AtomicU64,
    /// The signal that the last release sets to wake the thread waiting for
    /// run-down. It is created only when run-down starts while references are
    /// outstanding.
    event: Lazy<ManualResetEvent>,
}

impl RundownRef {
    /// A new run-down reference: no reference outstanding, run-down not
    /// started, no signal created.
    pub fn new() -> RundownRef {
        RundownRef { ref_count: AtomicU64::new(0), event: Lazy::new() }
    }

    /// Makes this object usable again after a completed run-down.
    ///
    /// It is only valid once run-down is complete, that is after
    /// `wait_for_rundown` returned and before anything else; otherwise nothing
    /// changes and `RundownError::RundownIncomplete` is returned.
    ///
    /// # Important
    ///
    /// The moment this method returns `Ok`, new acquisitions can succeed: all
    /// re-initialisation of the protected object must happen before the call.
    #[must_use]
    pub fn re_init(&self) -> (r: Result<(), RundownError>)
        ensures
            r matches Err(e) ==> e == RundownError::RundownIncomplete,
    {
        let current = self.ref_count.load(Ordering::SeqCst);
        if !is_fully_run_down(current) {
            return Err(RundownError::RundownIncomplete);
        }
        // A signal left from an earlier run-down is returned to unset, so that
        // it can serve the next one.
        if let Some(event) = event_if_created(&self.event) {
            event.reset();
        }
        self.ref_count.store(0, Ordering::SeqCst);
        Ok(())
    }

    /// Attempts to acquire run-down protection. On success the returned guard
    /// holds one reference until it is dropped; once run-down has begun the
    /// call fails at once with `RundownError::RundownInProgress`. It never
    /// blocks.
    pub fn try_acquire(&self) -> (r: Result<RundownGuard<'_>, RundownError>)
        ensures
            r matches Ok(guard) ==> guard.owner() == *self,
            r matches Err(e) ==> e == RundownError::RundownInProgress || e
                == RundownError::RefCountOverflow,
    {
        match apply_step(&self.ref_count, WordStep::Acquire) {
            Ok(_) => Ok(RundownGuard::new(self)),
            Err(observed) => Err(acquire_refusal(observed)),
        }
    }

    /// Gives back one reference; called only when a guard is dropped. The
    /// release that takes the last reference while run-down is in progress
    /// wakes the waiting thread.
    pub(crate) fn release(&self)
        opens_invariants none
        no_unwind
    {
        if let Ok(prev) = apply_step(&self.ref_count, WordStep::Release) {
            if release_completes_rundown(prev) {
                // The signal was created before the run-down flag was set,
                // since references were outstanding then.
                if let Some(event) = event_if_created(&self.event) {
                    set_event(event);
                }
            }
        }
    }

    /// Starts run-down and blocks until no reference is outstanding. From the
    /// moment the run-down flag is set, every `try_acquire` fails until
    /// `re_init`.
    ///
    /// # Important
    ///
    /// - Only one thread may call this method at a time.
    /// - It is idempotent: on an object already run down it returns at once.
    pub fn wait_for_rundown(&self) {
        let mut signal: Option<&ManualResetEvent> = event_if_created(&self.event);
        loop
            decreases (if signal is Some { 0int } else { 1int }),
        {
            let ready = signal.is_some();
            match apply_step(&self.ref_count, WordStep::Rundown { signal_ready: ready }) {
                Ok(prev) => {
                    if to_flags(prev).is_ref_active() {
                        // The flag went on while references were outstanding,
                        // which the step allows only with the signal ready.
                        assert(signal is Some);
                        if let Some(event) = signal {
                            wait_event(event);
                        }
                    }
                    return;
                },
                Err(_) => {
                    // References were outstanding and no signal existed: make
                    // it before setting the flag.
                    signal = Some(event_get_or_create(&self.event));
                },
            }
        }
    }
}

} // verus!
