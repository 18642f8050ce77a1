//! A TCP listener that serves every connection and outlives each of them.

use vstd::prelude::*;

verus! {

/// How far a listener has come.
#[derive(Clone, Copy, PartialEq, Eq, Debug, Structural)]
pub enum Listener {
    /// The socket is being bound.
    Binding,
    /// The next connection is awaited.
    Accepting,
    /// The socket could not be bound.
    Failed,
}

/// What happened at a listener. An error is given by its text.
#[derive(Debug)]
pub enum ListenerEvent {
    /// The socket was bound, or not.
    Bound(Result<(), String>),
    /// A connection arrived, or could not be accepted.
    Accepted(Result<(), String>),
}

/// What to do next at a listener.
#[derive(Debug)]
pub enum ListenerAction {
    /// Await the next connection.
    Accept,
    /// Serve the connection that arrived, and await the next one.
    ServeAndAccept,
    /// Give up: the socket could not be bound for this reason.
    Fail(String),
}

impl Listener {
    /// Whether this can happen at the listener now.
    pub open spec fn expects(self, event: ListenerEvent) -> bool {
        match event {
            ListenerEvent::Bound(_) => self == Listener::Binding,
            ListenerEvent::Accepted(_) => self == Listener::Accepting,
        }
    }

    /// What becomes of the listener, and what to do.
    pub open spec fn after(self, event: ListenerEvent) -> (Listener, ListenerAction) {
        match event {
            ListenerEvent::Bound(Ok(())) => (Listener::Accepting, ListenerAction::Accept),
            ListenerEvent::Bound(Err(reason)) => (Listener::Failed, ListenerAction::Fail(reason)),
            ListenerEvent::Accepted(Ok(())) => (Listener::Accepting, ListenerAction::ServeAndAccept),
            ListenerEvent::Accepted(Err(_)) => (Listener::Accepting, ListenerAction::Accept),
        }
    }

    /// Takes in what happened. Only the bind can fail; a connection that cannot be
    /// accepted is passed over.
    pub fn step(self, event: ListenerEvent) -> (res: (Listener, ListenerAction))
        requires
            self.expects(event),
        ensures
            res == self.after(event),
    {
        match event {
            ListenerEvent::Bound(Ok(())) => (Listener::Accepting, ListenerAction::Accept),
            ListenerEvent::Bound(Err(reason)) => (Listener::Failed, ListenerAction::Fail(reason)),
            ListenerEvent::Accepted(Ok(())) => (Listener::Accepting, ListenerAction::ServeAndAccept),
            ListenerEvent::Accepted(Err(_)) => (Listener::Accepting, ListenerAction::Accept),
        }
    }

    /// The listener after a run of events.
    pub open spec fn after_all(self, events: Seq<ListenerEvent>) -> Listener
        decreases events.len(),
    {
        if events.len() == 0 {
            self
        } else {
            self.after_all(events.drop_last()).after(events.last()).0
        }
    }

    /// How many connections are served in a run of events.
    pub open spec fn served(self, events: Seq<ListenerEvent>) -> nat
        decreases events.len(),
    {
        if events.len() == 0 {
            0
        } else {
            self.served(events.drop_last()) + if self.after_all(events.drop_last()).after(
                events.last(),
            ).1 is ServeAndAccept {
                1nat
            } else {
                0nat
            }
        }
    }
}

/// How many connections arrive in a run of events.
pub open spec fn arrivals(events: Seq<ListenerEvent>) -> nat
    decreases events.len(),
{
    if events.len() == 0 {
        0
    } else {
        arrivals(events.drop_last()) + if events.last() matches ListenerEvent::Accepted(Ok(_)) {
            1nat
        } else {
            0nat
        }
    }
}

/// Once bound, a listener goes on for ever: whatever comes of its connections, it
/// keeps accepting, and it serves each connection that arrives, once.
pub proof fn law_listener_outlives_connections(events: Seq<ListenerEvent>)
    requires
        forall|i: int| 0 <= i < events.len() ==> #[trigger] events[i] is Accepted,
    ensures
        Listener::Accepting.after_all(events) == Listener::Accepting,
        Listener::Accepting.served(events) == arrivals(events),
    decreases events.len(),
{
    if events.len() > 0 {
        assert(events.last() is Accepted);
        assert forall|i: int| 0 <= i < events.drop_last().len() implies #[trigger] events.drop_last()[i] is Accepted by {
            assert(events[i] is Accepted);
        }
        law_listener_outlives_connections(events.drop_last());
    }
}

/// A listener fails exactly when it cannot be bound, for the reason that it was given, and
/// else goes on to accept. It serves exactly what arrived.
pub proof fn law_listener_serves_what_arrives(listener: Listener, event: ListenerEvent)
    requires
        listener.expects(event),
    ensures
        event matches ListenerEvent::Bound(Err(reason)) ==> listener.after(event) == (
            Listener::Failed,
            ListenerAction::Fail(reason),
        ),
        !(event matches ListenerEvent::Bound(Err(_))) ==> listener.after(event).0
            == Listener::Accepting && !(listener.after(event).1 is Fail),
        listener.after(event).1 is ServeAndAccept <==> (event matches ListenerEvent::Accepted(
            Ok(_),
        )),
{
}

/// What can happen at a listener: it is bound once, and then connections arrive.
pub proof fn law_listener_stages(listener: Listener, event: ListenerEvent)
    ensures
        listener == Listener::Binding ==> (listener.expects(event) <==> event is Bound),
        listener == Listener::Accepting ==> (listener.expects(event) <==> event is Accepted),
        listener == Listener::Failed ==> !listener.expects(event),
{
}

} // verus!
