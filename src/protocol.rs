//! The transitions of the state word.
//!
//! Every change of the shared word is one of the steps below, applied
//! atomically to whatever value the word holds at that instant. The concurrent
//! code only chooses a step and retries on contention; what a step does to the
//! word, and what the caller learns from it, is decided here.
use vstd::prelude::*;

use crate::flags::{
    encode_word, lemma_decode_encode, lemma_decrement, lemma_increment, lemma_set_flag, to_flags,
    word_draining, word_ref_count, REF_COUNT_MASK, RUNDOWN_IN_PROGRESS,
};
use crate::rundown_ref::RundownError;

verus! {

/// One atomic change of the state word.
#[derive(Clone, Copy, Debug, PartialEq, Eq, Structural)]
pub enum WordStep {
    /// Take one reference, unless run-down has begun.
    Acquire,
    /// Give back one reference.
    Release,
    /// Set the run-down flag. `signal_ready` says whether the completion
    /// signal already exists: without it the flag may only be set while no
    /// reference is outstanding, since the last release must find a signal to
    /// set.
    Rundown { signal_ready: bool },
}

/// What a step makes of the word `bits`: the new word, or `None` where the
/// step refuses to change it.
pub open spec fn step_result(step: WordStep, bits: u64) -> Option<u64> {
    match step {
        WordStep::Acquire => {
            if word_draining(bits) || word_ref_count(bits) == REF_COUNT_MASK {
                None
            } else {
                Some((bits + 1) as u64)
            }
        },
        WordStep::Release => {
            if word_ref_count(bits) == 0 {
                None
            } else {
                Some((bits - 1) as u64)
            }
        },
        WordStep::Rundown { signal_ready } => {
            if word_ref_count(bits) > 0 && !signal_ready {
                None
            } else {
                Some(bits | RUNDOWN_IN_PROGRESS)
            }
        },
    }
}

/// Applies one step to the word `bits`.
pub fn next_word(step: WordStep, bits: u64) -> (r: Option<u64>)
    ensures
        r == step_result(step, bits),
{
    let current = to_flags(bits);
    match step {
        WordStep::Acquire => {
            if current.is_rundown_in_progress() || current.get_ref() == REF_COUNT_MASK {
                None
            } else {
                Some(current.add_ref())
            }
        },
        WordStep::Release => {
            if current.is_ref_zero() {
                None
            } else {
                Some(current.dec_ref())
            }
        },
        WordStep::Rundown { signal_ready } => {
            if current.is_ref_active() && !signal_ready {
                None
            } else {
                Some(current.set_rundown_in_progress())
            }
        },
    }
}

/// Why an acquisition refused the word `observed`: run-down has begun, or
/// else the count is at its largest representable value.
pub fn acquire_refusal(observed: u64) -> (e: RundownError)
    ensures
        e == (if word_draining(observed) {
            RundownError::RundownInProgress
        } else {
            RundownError::RefCountOverflow
        }),
{
    if to_flags(observed).is_rundown_in_progress() {
        RundownError::RundownInProgress
    } else {
        RundownError::RefCountOverflow
    }
}

/// Whether the release that found the word `prev` is the one that completes
/// a run-down: it took the last reference while the flag was set.
pub fn release_completes_rundown(prev: u64) -> (r: bool)
    ensures
        r == (word_draining(prev) && word_ref_count(prev) == 1),
    opens_invariants none
    no_unwind
{
    let current = to_flags(prev);
    current.is_rundown_in_progress() && current.get_ref() == 1
}

/// Whether `re_init` may reset the word `current`: run-down is in progress
/// and no reference is outstanding.
pub fn is_fully_run_down(current: u64) -> (r: bool)
    ensures
        r == (word_draining(current) && word_ref_count(current) == 0),
{
    let flags = to_flags(current);
    flags.is_rundown_in_progress() && flags.is_ref_zero()
}

/// The word after `n` acquisitions in a row starting from `bits`, or `None`
/// if one of them is refused.
pub open spec fn acquire_n(bits: u64, n: nat) -> Option<u64>
    decreases n,
{
    if n == 0 {
        Some(bits)
    } else {
        match acquire_n(bits, (n - 1) as nat) {
            Some(b) => step_result(WordStep::Acquire, b),
            None => None,
        }
    }
}

/// An acquisition is refused exactly when run-down has begun or the count is
/// at its largest; otherwise it raises the count by one and keeps the flag.
pub proof fn lemma_acquire_step(bits: u64)
    ensures
        step_result(WordStep::Acquire, bits) is None <==> (word_draining(bits) || word_ref_count(
            bits,
        ) == REF_COUNT_MASK),
        step_result(WordStep::Acquire, bits) matches Some(next) ==> {
            &&& next == bits + 1
            &&& word_ref_count(next) == word_ref_count(bits) + 1
            &&& next & RUNDOWN_IN_PROGRESS == bits & RUNDOWN_IN_PROGRESS
            &&& !word_draining(next)
        },
{
    if !word_draining(bits) && word_ref_count(bits) != REF_COUNT_MASK {
        assert(word_ref_count(bits) <= REF_COUNT_MASK) by (bit_vector);
        lemma_increment(bits);
    }
}

/// A release is refused exactly when no reference is outstanding; otherwise
/// it lowers the count by one and keeps the flag.
pub proof fn lemma_release_step(bits: u64)
    ensures
        step_result(WordStep::Release, bits) is None <==> word_ref_count(bits) == 0,
        step_result(WordStep::Release, bits) matches Some(next) ==> {
            &&& next == bits - 1
            &&& word_ref_count(next) == word_ref_count(bits) - 1
            &&& next & RUNDOWN_IN_PROGRESS == bits & RUNDOWN_IN_PROGRESS
            &&& word_draining(next) == word_draining(bits)
        },
{
    if word_ref_count(bits) > 0 {
        lemma_decrement(bits);
    }
}

/// A run-down step sets the flag and keeps the count. It is refused exactly
/// when references are outstanding and the signal is not ready: the flag never
/// goes on with references outstanding unless the last release will find a
/// signal to set.
pub proof fn lemma_rundown_step(bits: u64, signal_ready: bool)
    ensures
        step_result(WordStep::Rundown { signal_ready }, bits) is None <==> (word_ref_count(bits)
            > 0 && !signal_ready),
        step_result(WordStep::Rundown { signal_ready }, bits) matches Some(next) ==> {
            &&& word_draining(next)
            &&& word_ref_count(next) == word_ref_count(bits)
            &&& (word_ref_count(bits) > 0 ==> signal_ready)
        },
{
    lemma_set_flag(bits);
}

/// While run-down has not begun, `n` acquisitions in a row all succeed and
/// raise the count by exactly `n`, as long as the count stays representable.
/// Concurrent acquisitions take effect one compare-exchange at a time, so this
/// covers every interleaving of them.
pub proof fn lemma_acquisitions_add_up(bits: u64, n: nat)
    requires
        !word_draining(bits),
        word_ref_count(bits) + n <= REF_COUNT_MASK,
    ensures
        acquire_n(bits, n) matches Some(next) && word_ref_count(next) == word_ref_count(bits) + n
            && !word_draining(next),
    decreases n,
{
    if n > 0 {
        lemma_acquisitions_add_up(bits, (n - 1) as nat);
        let b = acquire_n(bits, (n - 1) as nat)->Some_0;
        lemma_acquire_step(b);
    }
}

/// Run-down is sticky: on a word with the flag set every acquisition is
/// refused, and no step leaves the flag cleared. Only `re_init`, which stores
/// a fresh word, clears it.
pub proof fn lemma_rundown_is_sticky(step: WordStep, bits: u64)
    requires
        word_draining(bits),
    ensures
        step_result(WordStep::Acquire, bits) is None,
        step_result(step, bits) matches Some(next) ==> word_draining(next),
{
    lemma_acquire_step(bits);
    lemma_release_step(bits);
    lemma_set_flag(bits);
}

/// Running down a word that is already run down (flag set, no reference
/// outstanding) leaves it as it is and finds nothing to wait for, whether or
/// not a signal exists.
pub proof fn lemma_rundown_idempotent(bits: u64, signal_ready: bool)
    requires
        word_draining(bits),
        word_ref_count(bits) == 0,
    ensures
        step_result(WordStep::Rundown { signal_ready }, bits) == Some(bits),
{
    lemma_set_flag(bits);
}

/// `re_init` accepts exactly the fully run-down words, on which acquisitions
/// are refused; the word it stores is the word of a new object, on which an
/// acquisition succeeds and a run-down completes at once.
pub proof fn lemma_re_init_starts_new_epoch(bits: u64)
    requires
        word_draining(bits),
        word_ref_count(bits) == 0,
    ensures
        step_result(WordStep::Acquire, bits) is None,
        encode_word(0, false) == 0,
        step_result(WordStep::Acquire, 0) matches Some(next) && word_ref_count(next) == 1
            && !word_draining(next),
        step_result(WordStep::Rundown { signal_ready: false }, 0) matches Some(next)
            && word_draining(next) && word_ref_count(next) == 0,
{
    lemma_acquire_step(bits);
    lemma_decode_encode(0, false);
    lemma_acquire_step(0);
    lemma_rundown_step(0, false);
}

/// A release undoes exactly one acquisition. Whatever else happens to the word
/// in between, each acquisition raises the count by one and each release
/// lowers it by one; directly after an acquisition, its release restores the
/// very same word.
pub proof fn lemma_release_undoes_acquire(bits: u64)
    requires
        step_result(WordStep::Acquire, bits) is Some,
    ensures
        step_result(WordStep::Release, step_result(WordStep::Acquire, bits)->Some_0) == Some(
            bits,
        ),
{
    lemma_acquire_step(bits);
    let next = step_result(WordStep::Acquire, bits)->Some_0;
    lemma_release_step(next);
}

/// The release that takes the count to zero while the flag is set is exactly
/// the one that `release_completes_rundown` picks to set the signal; every
/// other release leaves the waiting thread asleep.
pub proof fn lemma_last_release_wakes(prev: u64)
    requires
        step_result(WordStep::Release, prev) is Some,
    ensures
        step_result(WordStep::Release, prev) matches Some(next) && ((word_draining(next)
            && word_ref_count(next) == 0) <==> (word_draining(prev) && word_ref_count(prev) == 1)),
{
    lemma_release_step(prev);
}

} // verus!
