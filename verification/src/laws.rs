//! The laws of the channel, proved over the model in `state`: values sent on
//! an open channel are received exactly once and in FIFO order; after a close
//! every receive attempt is end-of-stream; and close is idempotent.

use crate::state::{close_step, empty_model, recv_next, recv_outcome, send_step, ChanModel,
    RecvOutcome};
use vstd::prelude::*;

verus! {

/// The model after sending each value of `vs` in order, first value first.
pub open spec fn send_all<T>(m: ChanModel<T>, vs: Seq<T>) -> ChanModel<T>
    decreases vs.len(),
{
    if vs.len() == 0 {
        m
    } else {
        send_step(send_all(m, vs.drop_last()), vs.last())
    }
}

/// The values that receive attempts take from the channel, in order, until
/// an attempt finds it closed or empty.
pub open spec fn drain_all<T>(m: ChanModel<T>) -> Seq<T>
    decreases m.queue.len(),
{
    if m.closed || m.queue.len() == 0 {
        Seq::empty()
    } else {
        seq![m.queue[0]] + drain_all(recv_next(m))
    }
}

/// The model after `n` receive attempts.
pub open spec fn recv_n<T>(m: ChanModel<T>, n: nat) -> ChanModel<T>
    decreases n,
{
    if n == 0 {
        m
    } else {
        recv_n(recv_next(m), (n - 1) as nat)
    }
}

/// Sending on an open channel loses nothing and keeps it open: the queue
/// afterwards is the old queue followed by the sent values, in their order.
pub proof fn lemma_send_all_open<T>(m: ChanModel<T>, vs: Seq<T>)
    requires
        !m.closed,
    ensures
        !send_all(m, vs).closed,
        send_all(m, vs).queue =~= m.queue + vs,
    decreases vs.len(),
{
    if vs.len() == 0 {
        assert(send_all(m, vs).queue =~= m.queue + vs);
    } else {
        lemma_send_all_open(m, vs.drop_last());
        assert(send_all(m, vs).queue =~= m.queue + vs);
    }
}

/// Draining an open channel yields exactly the queued values, front first.
pub proof fn lemma_drain_open<T>(m: ChanModel<T>)
    requires
        !m.closed,
    ensures
        drain_all(m) =~= m.queue,
    decreases m.queue.len(),
{
    if m.queue.len() == 0 {
    } else {
        lemma_drain_open(recv_next(m));
        assert(drain_all(m) =~= m.queue);
    }
}

/// No loss, exactly once: on an open channel, sending `vs` and then draining
/// yields the items that were already queued followed by `vs`, each exactly
/// once and in the order sent.
pub proof fn lemma_no_loss<T>(m: ChanModel<T>, vs: Seq<T>)
    requires
        !m.closed,
    ensures
        drain_all(send_all(m, vs)) =~= m.queue + vs,
{
    lemma_send_all_open(m, vs);
    lemma_drain_open(send_all(m, vs));
}

/// FIFO: a single producer sending `vs` into a fresh channel, read by a
/// single consumer, delivers exactly `vs`, in the order sent.
pub proof fn lemma_fifo<T>(vs: Seq<T>)
    ensures
        drain_all(send_all(empty_model::<T>(), vs)) =~= vs,
{
    lemma_no_loss(empty_model::<T>(), vs);
}

/// End of stream after close: once the channel is closed, receive attempts
/// never change the state, and every one of them — however many come before
/// it — returns end-of-stream, never a value.
pub proof fn lemma_end_of_stream<T>(m: ChanModel<T>, n: nat)
    ensures
        recv_n(close_step(m), n) == close_step(m),
        recv_outcome(recv_n(close_step(m), n)) == RecvOutcome::<T>::EndOfStream,
    decreases n,
{
    if n == 0 {
    } else {
        assert(recv_next(close_step(m)) == close_step(m));
        lemma_end_of_stream(m, (n - 1) as nat);
    }
}

/// Idempotent close: closing an already closed channel changes nothing, so
/// any number of close calls has the effect of one.
pub proof fn lemma_close_idempotent<T>(m: ChanModel<T>)
    ensures
        close_step(close_step(m)) == close_step(m),
{
}

/// A send after close is a no-op on the state: the value is discarded.
pub proof fn lemma_send_after_close<T>(m: ChanModel<T>, v: T)
    ensures
        send_step(close_step(m), v) == close_step(m),
{
}

/// The closed flag is monotonic: once set, no transition of the model
/// resets it.
pub proof fn lemma_closed_monotonic<T>(m: ChanModel<T>, v: T)
    requires
        m.closed,
    ensures
        send_step(m, v).closed,
        close_step(m).closed,
        recv_next(m).closed,
{
}

} // verus!
