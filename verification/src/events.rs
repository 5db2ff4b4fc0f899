//! The wake primitive, from the `event_listener` crate: any number of threads
//! register on an `Event`, and one `notify` call wakes all of them. Waking is
//! fire-and-forget — nothing is promised about it beyond delivery to waiters
//! registered before the fire — so these wrappers carry no `ensures`; the
//! code around them holds for every way a wait can end.

use event_listener::{Event, EventListener};
use vstd::prelude::*;

verus! {

#[verifier::external_type_specification]
#[verifier::external_body]
#[verifier::reject_recursive_types(T)]
pub struct ExEvent<T>(Event<T>);

#[verifier::external_type_specification]
#[verifier::external_body]
#[verifier::reject_recursive_types(T)]
pub struct ExEventListener<T>(EventListener<T>);

/// Relies on event_listener::Event::new: a fresh event with no waiters.
#[verifier::external_body]
pub(crate) fn event_new() -> Event {
    Event::new()
}

/// Relies on event_listener::Event::listen: registers a waiter on the event;
/// the waiter hears every notification fired after this call.
#[verifier::external_body]
pub(crate) fn event_listen(ev: &Event) -> EventListener {
    ev.listen()
}

/// Relies on event_listener::Event::notify: wakes every currently registered
/// waiter (usize::MAX asks for all of them) and returns without blocking.
#[verifier::external_body]
pub(crate) fn event_notify_all(ev: &Event) {
    ev.notify(usize::MAX);
}

} // verus!
