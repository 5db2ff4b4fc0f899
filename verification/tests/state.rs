use drain_channel::state::ChannelState;
use drain_channel::state::RecvOutcome;

#[test]
fn state_fifo_transitions() {
    let mut st = ChannelState::new();
    assert!(!st.is_closed());
    assert!(st.queue_is_empty());
    assert!(st.apply_send("a"));
    assert!(st.apply_send("b"));
    assert!(!st.queue_is_empty());
    assert!(matches!(st.try_recv(), RecvOutcome::Item("a")));
    assert!(matches!(st.try_recv(), RecvOutcome::Item("b")));
    assert!(st.queue_is_empty());
    assert!(matches!(st.try_recv(), RecvOutcome::WouldBlock));
}

#[test]
fn state_close_semantics() {
    let mut st = ChannelState::new();
    assert!(st.apply_send(1_u64));
    st.apply_close();
    assert!(st.is_closed());
    // The closed check comes before any take: the queued item stays behind.
    assert!(matches!(st.try_recv(), RecvOutcome::EndOfStream));
    assert!(!st.apply_send(2));
    st.apply_close();
    assert!(st.is_closed());
    assert!(matches!(st.try_recv(), RecvOutcome::EndOfStream));
}
