use vstd::prelude::*;

verus! {

/// What the outside world reports to the subscription connection.
#[derive(Clone, Copy, Debug, PartialEq, Eq, Structural)]
pub enum ConnEvent {
    /// A subscribe (or re-subscribe) call returned a fresh listener.
    SubscribeOk,
    /// A subscribe (or re-subscribe) call failed; routine while the window
    /// manager restarts, never fatal.
    SubscribeFailed,
    /// The current listener yielded one accepted byte-stream connection.
    StreamAccepted,
    /// The current listener reported exhaustion: the link is gone.
    ListenerExhausted,
}

/// What the driver must do after feeding one event to the connection.
#[derive(Clone, Copy, Debug, PartialEq, Eq, Structural)]
pub enum ConnAction {
    /// Sleep for the fixed retry interval, then try to subscribe again.
    WaitRetryInterval,
    /// Poll the listener for its next connection; nothing to surface.
    AwaitNextStream,
    /// Hand the accepted stream to the frame reader.
    DeliverStream,
    /// Surface the one `ReconnectSignal` of this reconnection event, so the
    /// caller can apply a paused display state, then poll the listener.
    EmitReconnectSignal,
}

/// The connection-resilience state: whether a listener is currently held,
/// whether a reconnection (an observed exhaustion) is in progress, and
/// whether the current reconnection was already signaled.
///
/// The listener itself lives with the driver; this state machine only decides.
#[derive(Clone, Copy, Debug, PartialEq, Eq, Structural)]
pub struct SubscriptionConnection {
    pub connected: bool,
    pub reconnecting: bool,
    pub signaled: bool,
}

/// The state a connection starts in: no listener yet, and the first
/// successful subscribe is an initial connect, not a reconnection.
pub open spec fn spec_initial() -> SubscriptionConnection {
    SubscriptionConnection { connected: false, reconnecting: false, signaled: false }
}

/// One decision step.
///
/// A successful subscribe after an exhaustion emits the reconnect signal,
/// unless this reconnection was already signaled; the initial connect never
/// signals. A failed subscribe retries silently — no partial signal. A
/// delivered stream resets the signaled flag, so exactly one signal is
/// surfaced per reconnection event, not one per subsequent failure. An
/// exhaustion silently begins a reconnection. Events that cannot follow from
/// the state (a subscribe answer while connected, listener traffic while
/// disconnected) leave the state unchanged.
pub open spec fn spec_step(s: SubscriptionConnection, e: ConnEvent) -> (SubscriptionConnection,
    ConnAction) {
    match e {
        ConnEvent::SubscribeOk => {
            if s.connected {
                (s, ConnAction::AwaitNextStream)
            } else if s.reconnecting && !s.signaled {
                (
                    SubscriptionConnection { connected: true, reconnecting: false, signaled: true },
                    ConnAction::EmitReconnectSignal,
                )
            } else {
                (
                    SubscriptionConnection {
                        connected: true,
                        reconnecting: false,
                        signaled: s.signaled,
                    },
                    ConnAction::AwaitNextStream,
                )
            }
        },
        ConnEvent::SubscribeFailed => {
            if s.connected {
                (s, ConnAction::AwaitNextStream)
            } else {
                (s, ConnAction::WaitRetryInterval)
            }
        },
        ConnEvent::StreamAccepted => {
            if s.connected {
                (
                    SubscriptionConnection {
                        connected: true,
                        reconnecting: s.reconnecting,
                        signaled: false,
                    },
                    ConnAction::DeliverStream,
                )
            } else {
                (s, ConnAction::WaitRetryInterval)
            }
        },
        ConnEvent::ListenerExhausted => {
            if s.connected {
                (
                    SubscriptionConnection {
                        connected: false,
                        reconnecting: true,
                        signaled: s.signaled,
                    },
                    ConnAction::WaitRetryInterval,
                )
            } else {
                (s, ConnAction::WaitRetryInterval)
            }
        },
    }
}

impl SubscriptionConnection {
    /// A connection before its first subscribe call.
    pub fn new() -> (s: Self)
        ensures
            s == spec_initial(),
    {
        SubscriptionConnection { connected: false, reconnecting: false, signaled: false }
    }

    /// Feeds one event to the connection and returns what the driver must do.
    pub fn on_event(&mut self, e: ConnEvent) -> (a: ConnAction)
        ensures
            (*final(self), a) == spec_step(*old(self), e),
    {
        match e {
            ConnEvent::SubscribeOk => {
                if self.connected {
                    ConnAction::AwaitNextStream
                } else if self.reconnecting && !self.signaled {
                    self.connected = true;
                    self.reconnecting = false;
                    self.signaled = true;
                    ConnAction::EmitReconnectSignal
                } else {
                    self.connected = true;
                    self.reconnecting = false;
                    ConnAction::AwaitNextStream
                }
            },
            ConnEvent::SubscribeFailed => {
                if self.connected {
                    ConnAction::AwaitNextStream
                } else {
                    ConnAction::WaitRetryInterval
                }
            },
            ConnEvent::StreamAccepted => {
                if self.connected {
                    self.signaled = false;
                    ConnAction::DeliverStream
                } else {
                    ConnAction::WaitRetryInterval
                }
            },
            ConnEvent::ListenerExhausted => {
                if self.connected {
                    self.connected = false;
                    self.reconnecting = true;
                    ConnAction::WaitRetryInterval
                } else {
                    ConnAction::WaitRetryInterval
                }
            },
        }
    }
}

/// The state after feeding a whole event trace, first event first.
pub open spec fn run_events(s: SubscriptionConnection, es: Seq<ConnEvent>) -> SubscriptionConnection
    decreases es.len(),
{
    if es.len() == 0 {
        s
    } else {
        run_events(spec_step(s, es[0]).0, es.drop_first())
    }
}

/// How many reconnect signals a whole event trace surfaces.
pub open spec fn signal_count(s: SubscriptionConnection, es: Seq<ConnEvent>) -> nat
    decreases es.len(),
{
    if es.len() == 0 {
        0
    } else {
        (if spec_step(s, es[0]).1 == ConnAction::EmitReconnectSignal {
            1nat
        } else {
            0nat
        }) + signal_count(spec_step(s, es[0]).0, es.drop_first())
    }
}

/// A signaled connection surfaces no further signal until a stream is
/// delivered: on any trace free of `StreamAccepted`, a state whose current
/// reconnection was already signaled stays signaled and signals nothing.
pub proof fn lemma_no_signal_while_signaled(s: SubscriptionConnection, es: Seq<ConnEvent>)
    requires
        s.signaled,
        forall|i: int| 0 <= i < es.len() ==> es[i] != ConnEvent::StreamAccepted,
    ensures
        signal_count(s, es) == 0,
        run_events(s, es).signaled,
    decreases es.len(),
{
    if es.len() > 0 {
        lemma_no_signal_while_signaled(spec_step(s, es[0]).0, es.drop_first());
    }
}

/// At most one reconnect signal is surfaced between two delivered streams:
/// whatever the starting state, a trace free of `StreamAccepted` surfaces at
/// most one signal. A second consecutive exhaustion without an intervening
/// delivered stream therefore cannot duplicate the signal.
pub proof fn lemma_signal_at_most_once(s: SubscriptionConnection, es: Seq<ConnEvent>)
    requires
        forall|i: int| 0 <= i < es.len() ==> es[i] != ConnEvent::StreamAccepted,
    ensures
        signal_count(s, es) <= 1,
    decreases es.len(),
{
    if es.len() > 0 {
        let (s2, a) = spec_step(s, es[0]);
        assert(forall|i: int|
            0 <= i < es.drop_first().len() ==> es.drop_first()[i] != ConnEvent::StreamAccepted);
        if a == ConnAction::EmitReconnectSignal {
            lemma_no_signal_while_signaled(s2, es.drop_first());
        } else {
            lemma_signal_at_most_once(s2, es.drop_first());
        }
    }
}

/// An exhaustion followed by any number of failed re-subscribes and one
/// successful re-subscribe surfaces exactly one reconnect signal and ends
/// connected again.
pub proof fn lemma_reconnect_signals_exactly_once(
    s: SubscriptionConnection,
    fails: Seq<ConnEvent>,
)
    requires
        s.connected,
        !s.signaled,
        forall|i: int| 0 <= i < fails.len() ==> fails[i] == ConnEvent::SubscribeFailed,
    ensures
        signal_count(
            s,
            seq![ConnEvent::ListenerExhausted].add(fails).push(ConnEvent::SubscribeOk),
        ) == 1,
        run_events(
            s,
            seq![ConnEvent::ListenerExhausted].add(fails).push(ConnEvent::SubscribeOk),
        ).connected,
{
    let es = seq![ConnEvent::ListenerExhausted].add(fails).push(ConnEvent::SubscribeOk);
    assert(es[0] == ConnEvent::ListenerExhausted);
    let s1 = spec_step(s, es[0]).0;
    assert(es.drop_first() =~= fails.push(ConnEvent::SubscribeOk));
    lemma_resubscribe_signals_once(s1, fails);
}

/// The initial connect never signals: from the start state, any number of
/// failed subscribe calls followed by the first success surfaces no reconnect
/// signal and ends connected.
pub proof fn lemma_initial_connect_is_silent(fails: Seq<ConnEvent>)
    requires
        forall|i: int| 0 <= i < fails.len() ==> fails[i] == ConnEvent::SubscribeFailed,
    ensures
        signal_count(spec_initial(), fails.push(ConnEvent::SubscribeOk)) == 0,
        run_events(spec_initial(), fails.push(ConnEvent::SubscribeOk)).connected,
{
    lemma_silent_connect(spec_initial(), fails);
}

/// Failed subscribe calls are silent, and a success while no unsignaled
/// reconnection is in progress connects without a signal.
proof fn lemma_silent_connect(s: SubscriptionConnection, fails: Seq<ConnEvent>)
    requires
        !s.connected,
        !s.reconnecting,
        forall|i: int| 0 <= i < fails.len() ==> fails[i] == ConnEvent::SubscribeFailed,
    ensures
        signal_count(s, fails.push(ConnEvent::SubscribeOk)) == 0,
        run_events(s, fails.push(ConnEvent::SubscribeOk)).connected,
    decreases fails.len(),
{
    let es = fails.push(ConnEvent::SubscribeOk);
    assert(es.len() == fails.len() + 1);
    if fails.len() == 0 {
        assert(es[0] == ConnEvent::SubscribeOk);
        let s2 = spec_step(s, es[0]).0;
        assert(spec_step(s, es[0]).1 == ConnAction::AwaitNextStream);
        assert(s2.connected);
        assert(es.drop_first() =~= Seq::<ConnEvent>::empty());
        assert(signal_count(s2, es.drop_first()) == 0);
        assert(run_events(s2, es.drop_first()) == s2);
    } else {
        assert(es[0] == fails[0]);
        assert(es[0] == ConnEvent::SubscribeFailed);
        assert(spec_step(s, es[0]).0 == s);
        assert(spec_step(s, es[0]).1 == ConnAction::WaitRetryInterval);
        assert(es.drop_first() =~= fails.drop_first().push(ConnEvent::SubscribeOk));
        lemma_silent_connect(s, fails.drop_first());
        assert(signal_count(s, es.drop_first()) == 0);
        assert(run_events(s, es) == run_events(s, es.drop_first()));
    }
}

/// While a not-yet-signaled reconnection is in progress, failed re-subscribes
/// are silent and the one successful re-subscribe surfaces the one signal.
proof fn lemma_resubscribe_signals_once(s: SubscriptionConnection, fails: Seq<ConnEvent>)
    requires
        !s.connected,
        s.reconnecting,
        !s.signaled,
        forall|i: int| 0 <= i < fails.len() ==> fails[i] == ConnEvent::SubscribeFailed,
    ensures
        signal_count(s, fails.push(ConnEvent::SubscribeOk)) == 1,
        run_events(s, fails.push(ConnEvent::SubscribeOk)).connected,
    decreases fails.len(),
{
    let es = fails.push(ConnEvent::SubscribeOk);
    assert(es.len() == fails.len() + 1);
    if fails.len() == 0 {
        assert(es[0] == ConnEvent::SubscribeOk);
        let s2 = spec_step(s, es[0]).0;
        assert(spec_step(s, es[0]).1 == ConnAction::EmitReconnectSignal);
        assert(s2.connected);
        assert(es.drop_first() =~= Seq::<ConnEvent>::empty());
        assert(signal_count(s2, es.drop_first()) == 0);
        assert(run_events(s2, es.drop_first()) == s2);
        assert(signal_count(s, es) == 1);
        assert(run_events(s, es) == s2);
    } else {
        assert(es[0] == fails[0]);
        assert(es[0] == ConnEvent::SubscribeFailed);
        assert(spec_step(s, es[0]).0 == s);
        assert(spec_step(s, es[0]).1 == ConnAction::WaitRetryInterval);
        assert(es.drop_first() =~= fails.drop_first().push(ConnEvent::SubscribeOk));
        lemma_resubscribe_signals_once(s, fails.drop_first());
        assert(signal_count(s, es.drop_first()) == 1);
        assert(signal_count(s, es) == 1);
        assert(run_events(s, es) == run_events(s, es.drop_first()));
    }
}

} // verus!
