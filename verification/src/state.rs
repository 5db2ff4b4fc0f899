//! The channel's state and its transitions, as data: a closed flag and the
//! FIFO queue of pending items. Every operation a handle performs is one of
//! these transitions, carried out under the channel's lock; the contracts
//! here pin each transition down exactly.

use std::collections::VecDeque;
use vstd::prelude::*;

verus! {

/// The mathematical model of a channel: whether it is closed, and the
/// sequence of items waiting to be received, front first.
#[verifier::ext_equal]
pub struct ChanModel<T> {
    pub closed: bool,
    pub queue: Seq<T>,
}

/// The model of a channel as the factory makes it: open and empty.
pub open spec fn empty_model<T>() -> ChanModel<T> {
    ChanModel { closed: false, queue: Seq::empty() }
}

/// What a send does to the model: a closed channel discards the value
/// silently, an open one appends it at the back of the queue.
pub open spec fn send_step<T>(m: ChanModel<T>, v: T) -> ChanModel<T> {
    if m.closed {
        m
    } else {
        ChanModel { closed: false, queue: m.queue.push(v) }
    }
}

/// What a close does to the model: the flag goes to true and the queue is
/// left as it was. The flag never goes back to false.
pub open spec fn close_step<T>(m: ChanModel<T>) -> ChanModel<T> {
    ChanModel { closed: true, queue: m.queue }
}

/// What one receive attempt returns: end-of-stream on a closed channel
/// (even if items remain queued — the closed check comes first, by design),
/// the front item on an open non-empty channel, and otherwise nothing,
/// in which case the receiver parks and retries.
pub enum RecvOutcome<T> {
    /// The front item was taken.
    Item(T),
    /// The channel was closed: end of stream.
    EndOfStream,
    /// The channel is open but empty: the caller parks until woken.
    WouldBlock,
}

/// The outcome of one receive attempt on a channel in model state `m`.
pub open spec fn recv_outcome<T>(m: ChanModel<T>) -> RecvOutcome<T> {
    if m.closed {
        RecvOutcome::EndOfStream
    } else if m.queue.len() > 0 {
        RecvOutcome::Item(m.queue[0])
    } else {
        RecvOutcome::WouldBlock
    }
}

/// The model state after one receive attempt: only a successful take of the
/// front item changes the state.
pub open spec fn recv_next<T>(m: ChanModel<T>) -> ChanModel<T> {
    if !m.closed && m.queue.len() > 0 {
        ChanModel { closed: false, queue: m.queue.drop_first() }
    } else {
        m
    }
}

/// The lock-protected portion of a channel: the closed flag and the FIFO
/// queue. Items enter at the back and leave at the front.
pub struct ChannelState<T> {
    closed: bool,
    queue: VecDeque<T>,
}

impl<T> View for ChannelState<T> {
    type V = ChanModel<T>;

    closed spec fn view(&self) -> ChanModel<T> {
        ChanModel { closed: self.closed, queue: self.queue@ }
    }
}

impl<T> ChannelState<T> {
    /// A fresh channel state: open, with nothing queued.
    pub fn new() -> (s: Self)
        ensures
            s@ == empty_model::<T>(),
    {
        ChannelState { closed: false, queue: VecDeque::new() }
    }

    /// If channel is closed
    pub fn is_closed(&self) -> (b: bool)
        ensures
            b == self@.closed,
    {
        self.closed
    }

    /// Whether the queue holds no pending item (the drained condition).
    pub fn queue_is_empty(&self) -> (b: bool)
        ensures
            b == (self@.queue.len() == 0),
    {
        self.queue.len() == 0
    }

    /// One send: appends the value at the back unless the channel is already
    /// closed, in which case the value is discarded silently. Returns whether
    /// the value was enqueued, so the caller knows whether to wake receivers.
    pub fn apply_send(&mut self, v: T) -> (enqueued: bool)
        ensures
            final(self)@ == send_step(old(self)@, v),
            enqueued == !old(self)@.closed,
    {
        if self.closed {
            false
        } else {
            self.queue.push_back(v);
            true
        }
    }

    /// One close: sets the flag and keeps the queue. Idempotent.
    pub fn apply_close(&mut self)
        ensures
            final(self)@ == close_step(old(self)@),
    {
        self.closed = true;
    }

    /// One receive attempt: end-of-stream if the channel is closed (checked
    /// before any item is taken, by design), otherwise the front item if one
    /// is present, otherwise a report that the caller would block.
    pub fn try_recv(&mut self) -> (r: RecvOutcome<T>)
        ensures
            r == recv_outcome(old(self)@),
            final(self)@ == recv_next(old(self)@),
    {
        if self.closed {
            RecvOutcome::EndOfStream
        } else {
            match self.queue.pop_front() {
                Some(v) => RecvOutcome::Item(v),
                None => RecvOutcome::WouldBlock,
            }
        }
    }
}

} // verus!
