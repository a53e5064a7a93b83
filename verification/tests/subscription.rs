use komotray::subscription::ConnAction;
use komotray::subscription::ConnEvent;
use komotray::subscription::SubscriptionConnection;

fn signals(conn: &mut SubscriptionConnection, events: &[ConnEvent]) -> usize {
    events
        .iter()
        .filter(|e| conn.on_event(**e) == ConnAction::EmitReconnectSignal)
        .count()
}

#[test]
fn initial_connect_retries_silently_and_never_signals() {
    let mut conn = SubscriptionConnection::new();
    assert_eq!(conn.on_event(ConnEvent::SubscribeFailed), ConnAction::WaitRetryInterval);
    assert_eq!(conn.on_event(ConnEvent::SubscribeFailed), ConnAction::WaitRetryInterval);
    assert_eq!(conn.on_event(ConnEvent::SubscribeOk), ConnAction::AwaitNextStream);
    assert_eq!(conn.on_event(ConnEvent::StreamAccepted), ConnAction::DeliverStream);
}

#[test]
fn reconnect_after_exhaustion_signals_exactly_once() {
    let mut conn = SubscriptionConnection::new();
    assert_eq!(signals(&mut conn, &[ConnEvent::SubscribeOk, ConnEvent::StreamAccepted]), 0);
    let count = signals(
        &mut conn,
        &[
            ConnEvent::ListenerExhausted,
            ConnEvent::SubscribeFailed,
            ConnEvent::SubscribeFailed,
            ConnEvent::SubscribeOk,
        ],
    );
    assert_eq!(count, 1);
    assert_eq!(conn.on_event(ConnEvent::StreamAccepted), ConnAction::DeliverStream);
}

#[test]
fn second_exhaustion_without_a_delivered_stream_does_not_duplicate_the_signal() {
    let mut conn = SubscriptionConnection::new();
    assert_eq!(signals(&mut conn, &[ConnEvent::SubscribeOk, ConnEvent::StreamAccepted]), 0);
    // First gap: one signal.
    assert_eq!(
        signals(&mut conn, &[ConnEvent::ListenerExhausted, ConnEvent::SubscribeOk]),
        1
    );
    // The fresh listener is exhausted again before any stream arrives: the
    // second successful re-subscribe stays silent.
    assert_eq!(
        signals(&mut conn, &[ConnEvent::ListenerExhausted, ConnEvent::SubscribeOk]),
        0
    );
    // Normal delivery resumes, so the next gap signals again.
    assert_eq!(conn.on_event(ConnEvent::StreamAccepted), ConnAction::DeliverStream);
    assert_eq!(
        signals(&mut conn, &[ConnEvent::ListenerExhausted, ConnEvent::SubscribeOk]),
        1
    );
}

#[test]
fn failed_resubscribes_wait_out_the_retry_interval() {
    let mut conn = SubscriptionConnection::new();
    signals(&mut conn, &[ConnEvent::SubscribeOk, ConnEvent::StreamAccepted]);
    assert_eq!(conn.on_event(ConnEvent::ListenerExhausted), ConnAction::WaitRetryInterval);
    for _ in 0..5 {
        assert_eq!(conn.on_event(ConnEvent::SubscribeFailed), ConnAction::WaitRetryInterval);
    }
}
