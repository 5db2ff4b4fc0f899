use drain_channel::unbounded;
use drain_channel::DrainRound;
use drain_channel::Receiver;
use drain_channel::RecvRound;
use drain_channel::Sender;
use event_listener::Listener;

/// Blocking receive: run rounds, parking between them, until an item or
/// end-of-stream comes out.
fn recv_wait<T>(receiver: &Receiver<T>) -> Option<T> {
    loop {
        match receiver.recv_round() {
            RecvRound::Item(v) => return Some(v),
            RecvRound::EndOfStream => return None,
            RecvRound::Park(listener) => listener.wait(),
        }
    }
}

/// Blocking drain-wait: run rounds, parking between them, until the queue is
/// observed empty.
fn queue_drained<T>(sender: &Sender<T>) {
    loop {
        match sender.drain_round() {
            DrainRound::Drained => return,
            DrainRound::Park(listener) => listener.wait(),
        }
    }
}

fn test_queue_drained() {
    let (sender, receiver) = unbounded();

    let max_loop = 10_usize;
    let mut counter = 0_usize;
    let mut counter_recv_done = 0_usize;

    for _ in usize::MIN..max_loop {
        sender.send("PAYLOAD");
    }

    for _ in usize::MIN..max_loop {
        let x = recv_wait(&receiver).expect("ITEM");
        assert_eq!(x, "PAYLOAD");
        counter += 1;
    }

    queue_drained(&sender);
    sender.close_notify();

    for _ in usize::MIN..max_loop {
        while let Some(x) = recv_wait(&receiver) {
            assert_eq!(x, "PAYLOAD");
            counter += 1;
        }
        counter_recv_done += 1;
    }

    assert_eq!(counter, max_loop);
    assert_eq!(counter_recv_done, max_loop);
}

#[test]
fn test_extensive() {
    for _ in usize::MIN..1 {
        test_queue_drained();
    }
}

#[test]
fn fifo_single_producer_single_consumer() {
    let (sender, receiver) = unbounded();
    for v in 1_u64..=5 {
        sender.send(v);
    }
    for v in 1_u64..=5 {
        assert_eq!(recv_wait(&receiver), Some(v));
    }
    sender.close_notify();
    assert_eq!(recv_wait(&receiver), None);
}

#[test]
fn end_of_stream_after_close_notify() {
    let (sender, receiver) = unbounded();
    sender.send("left behind");
    sender.close_notify();
    // The closed check comes before any take: the queued item is never
    // delivered once the close is visible.
    assert_eq!(recv_wait(&receiver), None);
    assert_eq!(recv_wait(&receiver), None);
    assert_eq!(recv_wait(&receiver), None);
}

#[test]
fn close_is_idempotent() {
    let (sender, receiver) = unbounded::<u64>();
    sender.close();
    sender.close();
    sender.close_notify();
    sender.close_notify();
    assert_eq!(recv_wait(&receiver), None);
    assert_eq!(recv_wait(&receiver), None);
}

#[test]
fn send_after_close_is_discarded() {
    let (sender, receiver) = unbounded();
    sender.close();
    sender.send("dropped");
    // The discarded value never reaches the queue, so the drain-wait is
    // already satisfied and the receiver sees end-of-stream.
    assert!(matches!(sender.drain_round(), DrainRound::Drained));
    assert_eq!(recv_wait(&receiver), None);
}

#[test]
fn parked_receiver_wakes_on_one_send() {
    let (sender, receiver) = unbounded();
    // A round on the empty channel hands back the listener it registered
    // before inspecting the queue.
    let round = receiver.recv_round();
    let listener = match round {
        RecvRound::Park(listener) => listener,
        _ => panic!("the empty open channel should ask the receiver to park"),
    };
    // One send wakes that listener: the wait below returns only because the
    // send notified a listener registered before it — no further signal is
    // ever fired.
    sender.send(42_u64);
    listener.wait();
    assert_eq!(recv_wait(&receiver), Some(42));
}

#[test]
fn drain_blocks_while_queue_is_non_empty() {
    let (sender, receiver) = unbounded();
    sender.send(1_u64);
    // While the queue holds an item, the drain-wait cannot complete: the
    // round says to park.
    let round = sender.drain_round();
    let listener = match round {
        DrainRound::Park(listener) => listener,
        _ => panic!("the drain-wait must not complete while the queue is non-empty"),
    };
    // A consumer empties the queue; its next round observes the emptiness
    // and fires the queue-empty event.
    assert_eq!(recv_wait(&receiver), Some(1));
    assert!(matches!(receiver.recv_round(), RecvRound::Park(_)));
    // That signal is what lets the parked drain-wait resume and finish.
    listener.wait();
    assert!(matches!(sender.drain_round(), DrainRound::Drained));
    sender.close_notify();
}

#[test]
fn close_notify_wakes_parked_receiver() {
    let (sender, receiver) = unbounded::<u64>();
    // A receiver on the empty open channel is told to park.
    let listener = match receiver.recv_round() {
        RecvRound::Park(listener) => listener,
        _ => panic!("the empty open channel should ask the receiver to park"),
    };
    // close alone fires no signal; close_notify is what unparks receivers,
    // and the woken receiver sees end-of-stream.
    sender.close_notify();
    listener.wait();
    assert_eq!(recv_wait(&receiver), None);
    // A second close_notify changes nothing observable.
    sender.close_notify();
    assert_eq!(recv_wait(&receiver), None);
}

#[test]
fn cloned_handles_share_the_channel() {
    let (sender, receiver) = unbounded();
    let sender_clone = sender.clone();
    let receiver_clone = receiver.clone();
    sender_clone.send("via clone");
    assert_eq!(recv_wait(&receiver_clone), Some("via clone"));
    sender.close_notify();
    assert_eq!(recv_wait(&receiver), None);
    assert_eq!(recv_wait(&receiver_clone), None);
}
