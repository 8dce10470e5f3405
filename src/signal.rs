//! The completion signal: a manual-reset event from `rsevents`, created on
//! first need inside a `lazy_init::Lazy` cell.
//!
//! Nothing here is stated about the event's state or the cell's contents:
//! both change under other threads, and the protocol's guarantees come from
//! the order of operations on the state word, not from these calls.
use lazy_init::Lazy;
use rsevents::{Awaitable, ManualResetEvent, State};
use vstd::prelude::*;

verus! {

#[verifier::external_type_specification]
#[verifier::external_body]
#[verifier::reject_recursive_types(T)]
pub struct ExLazy<T: Sync>(Lazy<T>);

#[verifier::external_type_specification]
#[verifier::external_body]
pub struct ExManualResetEvent(ManualResetEvent);

#[verifier::external_type_specification]
pub struct ExState(State);

/// Relies on `lazy_init::Lazy::new`: a cell that holds no value yet.
pub assume_specification<T>[ Lazy::<T>::new ]() -> Lazy<T>
    where
        T: Sync,
;

/// Relies on `rsevents::ManualResetEvent::new`: an event in the given state.
pub assume_specification[ ManualResetEvent::new ](state: State) -> ManualResetEvent;

/// Relies on `rsevents::ManualResetEvent::reset`: returns the event to unset.
pub assume_specification[ ManualResetEvent::reset ](event: &ManualResetEvent);

/// A new completion signal, not yet set.
pub(crate) fn new_unset_event() -> ManualResetEvent {
    ManualResetEvent::new(State::Unset)
}

/// Relies on `lazy_init::Lazy::get_or_create`: the event in the cell, made by
/// `new_unset_event` if the cell held none; racing callers all get the one
/// event that was stored.
#[verifier::external_body]
pub(crate) fn event_get_or_create(cell: &Lazy<ManualResetEvent>) -> &ManualResetEvent {
    cell.get_or_create(new_unset_event)
}

/// Relies on `lazy_init::Lazy::get`: the event, if the cell holds one. It
/// reads the cell's initialised flag, which is stored only after the value,
/// and does not panic.
#[verifier::external_body]
pub(crate) fn event_if_created(cell: &Lazy<ManualResetEvent>) -> Option<&ManualResetEvent>
    opens_invariants none
    no_unwind
{
    cell.get()
}

/// Relies on `rsevents::ManualResetEvent::set`: sets the event and wakes
/// every waiter, without panicking.
#[verifier::external_body]
pub(crate) fn set_event(event: &ManualResetEvent)
    opens_invariants none
    no_unwind
{
    event.set()
}

/// Relies on `rsevents::Awaitable::wait` for `ManualResetEvent`: returns at
/// once if the event is set, else blocks until it is set.
#[verifier::external_body]
pub(crate) fn wait_event(event: &ManualResetEvent) {
    event.wait()
}

} // verus!
