//! Run-down protection: many threads may use a shared resource at once, while
//! one owning thread can shut out new users and wait until every current user
//! is done, so that the resource can safely be re-initialised or destroyed.

mod flags;
mod guard;
mod protocol;
mod rundown_ref;
mod signal;

pub use crate::flags::{
    encode_word, from_parts, lemma_decode_encode, lemma_decrement, lemma_encode_decode,
    lemma_increment, lemma_set_flag, to_flags, word_draining, word_ref_count, word_well_formed,
    RundownFlags, REF_COUNT_MASK, RUNDOWN_IN_PROGRESS,
};
pub use crate::guard::RundownGuard;
pub use crate::protocol::{
    acquire_n, acquire_refusal, is_fully_run_down, lemma_acquire_step, lemma_acquisitions_add_up,
    lemma_last_release_wakes, lemma_re_init_starts_new_epoch, lemma_release_step,
    lemma_release_undoes_acquire, lemma_rundown_idempotent, lemma_rundown_is_sticky,
    lemma_rundown_step, next_word, release_completes_rundown, step_result, WordStep,
};
pub use crate::rundown_ref::{RundownError, RundownRef};
