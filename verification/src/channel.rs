//! The channel itself: one lock-protected `ChannelState` shared through
//! reference-counted handles, with two wake signals — one fired when an item
//! is appended or the channel is closed with notification, one fired when a
//! receiver observes the queue empty. Every transition of the shared state is
//! a call into the verified `state` module; the contracts there say exactly
//! what each step does.
//!
//! The two blocking operations — receive and drain-wait — are park-and-retry
//! loops with no bound: a woken thread may lose the race to another and park
//! again, any number of times. Each round of such a loop is a function here
//! (`recv_round`, `drain_round`) that makes every decision of the protocol
//! and hands back either the result or the listener to park on; the caller
//! parks and runs another round.

use crate::events::{event_listen, event_new, event_notify_all};
use crate::state::{ChannelState, RecvOutcome};
use event_listener::{Event, EventListener};
use std::sync::Arc;
use vstd::prelude::*;
use vstd::rwlock::{RwLock, RwLockPredicate};

verus! {

/// The lock predicate: every state value may rest in the channel's lock.
struct ChanPred;

impl<T> RwLockPredicate<ChannelState<T>> for ChanPred {
    open spec fn inv(self, v: ChannelState<T>) -> bool {
        true
    }
}

/// The shared core of one channel: the lock-protected state and the two
/// wake signals. Handles own it jointly through a reference count.
struct Channel<T> {
    state: RwLock<ChannelState<T>, ChanPred>,
    item_event: Event,
    empty_event: Event,
}

impl<T> Channel<T> {
    fn new() -> Self {
        Channel {
            state: RwLock::new(ChannelState::new(), Ghost(ChanPred)),
            item_event: event_new(),
            empty_event: event_new(),
        }
    }

    /// If channel is closed
    pub fn is_closed(&self) -> bool {
        let read_handle = self.state.acquire_read();
        let closed = read_handle.borrow().is_closed();
        read_handle.release_read();
        closed
    }
}

/// A cloneable producer handle: enqueue, close, drain-wait, close-and-wake.
#[derive(Clone)]
pub struct Sender<T> {
    channel: Arc<Channel<T>>,
}

/// What one round of the drain-wait protocol decided: either the queue was
/// observed empty, or the caller must park and then run another round.
pub enum DrainRound {
    /// The queue was observed empty: the drain-wait is done.
    Drained,
    /// The queue still held items: park on this listener — it was registered
    /// on the queue-empty event before the check, so an emptying that comes
    /// after the check cannot be missed — then run another round.
    Park(EventListener),
}

impl<T> Sender<T> {
    /// Appends `payload` at the back of the shared queue and wakes every
    /// parked receiver. If the channel is already closed, the value is
    /// silently discarded — the exact effect on the state is `send_step`,
    /// in the ensures of `ChannelState::apply_send`. Never blocks.
    pub fn send(&self, payload: T) {
        if self.channel.is_closed() {
            return;
        }
        let (mut st, write_handle) = self.channel.state.acquire_write();
        let enqueued = st.apply_send(payload);
        write_handle.release_write(st);
        if enqueued {
            event_notify_all(&self.channel.item_event);
        }
    }

    /// Sets the closed flag (`close_step`, in the ensures of
    /// `ChannelState::apply_close`): from then on every receive attempt
    /// returns end-of-stream and every send is discarded. Fires no wake
    /// signal — already-parked receivers stay parked until `close_notify`.
    /// Idempotent.
    pub fn close(&self) {
        let (mut st, write_handle) = self.channel.state.acquire_write();
        st.apply_close();
        write_handle.release_write(st);
    }

    /// One round of the drain-wait protocol: registers on the queue-empty
    /// event, then checks the queue under the lock. To block until the queue
    /// is drained, park on the returned listener and repeat until `Drained`.
    /// Purely a waiter — it never fires a signal itself; the queue-empty
    /// event is fired only by receivers that observe the queue empty, so the
    /// drain-wait returns only if at least one receiver keeps looping.
    pub fn drain_round(&self) -> DrainRound {
        let listener = event_listen(&self.channel.empty_event);
        let read_handle = self.channel.state.acquire_read();
        let empty = read_handle.borrow().queue_is_empty();
        read_handle.release_read();
        if empty {
            DrainRound::Drained
        } else {
            DrainRound::Park(listener)
        }
    }

    /// Closes the channel, then wakes every parked receiver so each one
    /// re-checks the flag and returns end-of-stream. Idempotent.
    pub fn close_notify(&self) {
        self.close();
        event_notify_all(&self.channel.item_event);
    }
}

/// A cloneable consumer handle: blocking dequeue with end-of-stream.
#[derive(Clone)]
pub struct Receiver<T> {
    channel: Arc<Channel<T>>,
}

/// What one round of the blocking-receive protocol decided: either the
/// receive is done, or the caller must park and then run another round.
pub enum RecvRound<T> {
    /// The front item was taken: the receive is done.
    Item(T),
    /// The channel was closed: the receive is done, with end-of-stream.
    EndOfStream,
    /// The queue was open but empty: park on this listener — it was
    /// registered on the item event before the queue was inspected, so a
    /// send that lands after the inspection cannot be missed — then run
    /// another round.
    Park(EventListener),
}

impl<T> Receiver<T> {
    /// One round of the blocking receive: end-of-stream if the channel is
    /// closed — checked before any attempt to take an item, so after a
    /// visible close no item is taken even if some remain queued — otherwise
    /// the front item if one is present. Each round is one `try_recv`
    /// transition of the locked state (its ensures pin the step down). On
    /// seeing the queue empty, the round fires the queue-empty event for
    /// producers waiting on a drain, and hands back the listener to park on.
    /// To receive blockingly, park on it and repeat until `Item` or
    /// `EndOfStream`.
    pub fn recv_round(&self) -> RecvRound<T> {
        if self.channel.is_closed() {
            return RecvRound::EndOfStream;
        }
        let listener = event_listen(&self.channel.item_event);
        let (mut st, write_handle) = self.channel.state.acquire_write();
        let outcome = st.try_recv();
        write_handle.release_write(st);
        match outcome {
            RecvOutcome::Item(v) => RecvRound::Item(v),
            RecvOutcome::EndOfStream => RecvRound::EndOfStream,
            RecvOutcome::WouldBlock => {
                event_notify_all(&self.channel.empty_event);
                RecvRound::Park(listener)
            },
        }
    }
}

/// Relies on alloc::sync::Arc::clone: yields another owner of the same
/// shared channel — the same channel value, not a copy of it.
#[verifier::external_body]
fn arc_clone<T>(channel: &Arc<Channel<T>>) -> (r: Arc<Channel<T>>)
    ensures
        r == *channel,
{
    Arc::clone(channel)
}

/// Whether a sender and a receiver are bound to one channel: both handles
/// hold the same shared channel.
pub closed spec fn same_channel<T>(sender: Sender<T>, receiver: Receiver<T>) -> bool {
    sender.channel == receiver.channel
}

/// Makes one channel and returns one sender and one receiver, both bound to
/// it. The channel lives until the last handle is dropped.
pub fn unbounded<T>() -> (handles: (Sender<T>, Receiver<T>))
    ensures
        same_channel(handles.0, handles.1),
{
    let channel = Arc::new(Channel::new());
    let receiver_channel = arc_clone(&channel);
    (Sender { channel }, Receiver { channel: receiver_channel })
}

} // verus!
