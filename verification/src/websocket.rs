//! The WebSocket server, for browsers without WebTransport.

use vstd::prelude::*;
use vstd::string::*;
use crate::addr::SocketAddr;
use crate::client::{Client, ClientAction, ClientEvent, ClientStage};
use crate::handles::Handles;
use crate::listener::{Listener, ListenerAction, ListenerEvent};
use crate::roles::Services;
use crate::tls::TlsAcceptor;

verus! {

/// What a WebSocket server is made from.
#[derive(Clone, Copy)]
pub struct WebSocketConfig<H: Handles> {
    /// The address to listen on.
    pub bind: SocketAddr,
    /// The TLS configuration.
    pub tls: H::Tls,
    /// It has a certificate to serve.
    pub tls_server: bool,
    /// Serve without TLS, behind a proxy that terminates it.
    pub no_tls: bool,
    /// The registry of local tracks.
    pub locals: H::Locals,
    /// The other relays of the cluster, to fetch tracks from.
    pub remotes: Option<H::Remotes>,
    /// The cluster's API, to register announces with.
    pub api: Option<H::Api>,
    /// Another relay, to forward announces to.
    pub forward: Option<H::Forward>,
    /// The address of the QUIC server that runs beside this one.
    pub quic_addr: SocketAddr,
}

impl<H: Handles> WebSocketConfig<H> {
    /// Whether a server can be made from this configuration: TLS takes a
    /// certificate.
    pub open spec fn valid(self) -> bool {
        self.no_tls || self.tls_server
    }

    /// Whether this is the server with this configuration.
    pub open spec fn is_served_by(self, server: WebSocketServer<H>) -> bool {
        &&& server.bind == self.bind
        &&& server.tls is None <==> self.no_tls
        &&& server.tls matches Some(acceptor) ==> acceptor.tls == self.tls && acceptor.protocols()
            == seq!["http/1.1".spec_bytes()]
        &&& server.services == self.services()
    }

    /// The services that the clients of the server get.
    pub open spec fn services(self) -> Services<H> {
        Services {
            locals: self.locals,
            remotes: self.remotes,
            api: self.api,
            forward: self.forward,
        }
    }
}

/// A WebSocket server that does not run yet.
pub struct WebSocketServer<H: Handles> {
    /// The address to listen on.
    pub bind: SocketAddr,
    /// How TLS is accepted, unless it is left to a proxy.
    pub tls: Option<TlsAcceptor<H>>,
    /// What the clients get to use.
    pub services: Services<H>,
}

/// A running WebSocket server.
#[derive(Clone, Copy)]
pub struct WebSocketRun<H: Handles> {
    /// Connections start with a TLS handshake.
    pub secure: bool,
    /// What the clients get to use.
    pub services: Services<H>,
    pub listener: Listener,
}

/// What to do next for a WebSocket server.
pub enum WebSocketAction<H: Handles> {
    /// Await the next TCP connection.
    Accept,
    /// Start on the connection that arrived, as the second part says, in a task of
    /// its own; and await the next one.
    Serve(WebSocketConnection<H>, ConnectionAction<H>),
    /// Give up: the address could not be bound for this reason.
    Fail(String),
}

/// How far a connection to the WebSocket server has come.
#[derive(Clone, Copy)]
pub enum ConnectionStage<H: Handles> {
    /// The TLS handshake is under way.
    Tls,
    /// The WebSocket handshake is under way.
    Upgrade,
    /// There is a transport session, and a client on it.
    Client(Client<H>),
    /// The connection was given up before there was a session.
    Closed,
}

/// A connection to the WebSocket server.
#[derive(Clone, Copy)]
pub struct WebSocketConnection<H: Handles> {
    pub services: Services<H>,
    pub stage: ConnectionStage<H>,
}

/// What happened on a connection. An error is given by its text.
#[derive(Debug)]
pub enum ConnectionEvent {
    /// The TLS handshake ended.
    Secured(Result<(), String>),
    /// The WebSocket handshake ended.
    Upgraded(Result<(), String>),
    /// Something happened to the client.
    Client(ClientEvent),
}

/// What a WebSocket handshake goes over.
#[derive(Clone, Copy, PartialEq, Eq, Debug, Structural)]
pub enum Carrier {
    /// The TCP connection itself.
    Tcp,
    /// TLS on the TCP connection.
    Tls,
}

/// What to do next for a connection.
#[derive(Clone, Copy)]
pub enum ConnectionAction<H: Handles> {
    /// Do the TLS handshake.
    Secure,
    /// Do the WebSocket handshake over this.
    Upgrade(Carrier),
    /// Go on with the client.
    Client(ClientAction<H>),
    /// Drop the connection.
    Close,
}

impl<H: Handles> WebSocketConnection<H> {
    /// A connection that has just arrived, and what to do first.
    pub open spec fn at_start(secure: bool, services: Services<H>) -> (
        WebSocketConnection<H>,
        ConnectionAction<H>,
    ) {
        if secure {
            (WebSocketConnection { services, stage: ConnectionStage::Tls }, ConnectionAction::Secure)
        } else {
            (
                WebSocketConnection { services, stage: ConnectionStage::Upgrade },
                ConnectionAction::Upgrade(Carrier::Tcp),
            )
        }
    }

    /// Whether this can happen on the connection now.
    pub open spec fn expects(self, event: ConnectionEvent) -> bool {
        match event {
            ConnectionEvent::Secured(_) => self.stage is Tls,
            ConnectionEvent::Upgraded(_) => self.stage is Upgrade,
            ConnectionEvent::Client(e) => self.stage matches ConnectionStage::Client(client)
                && client.expects(e),
        }
    }

    /// The connection at another stage.
    pub open spec fn at(self, stage: ConnectionStage<H>) -> WebSocketConnection<H> {
        WebSocketConnection { services: self.services, stage }
    }

    /// What becomes of the connection, and what to do.
    pub open spec fn after(self, event: ConnectionEvent) -> (
        WebSocketConnection<H>,
        ConnectionAction<H>,
    ) {
        match (event, self.stage) {
            (ConnectionEvent::Secured(Ok(())), _) => (
                self.at(ConnectionStage::Upgrade),
                ConnectionAction::Upgrade(Carrier::Tls),
            ),
            (ConnectionEvent::Upgraded(Ok(())), _) => (
                self.at(ConnectionStage::Client(Client::at_start(self.services))),
                ConnectionAction::Client(ClientAction::Negotiate),
            ),
            (ConnectionEvent::Client(e), ConnectionStage::Client(client)) => (
                self.at(ConnectionStage::Client(client.after(e).0)),
                ConnectionAction::Client(client.after(e).1),
            ),
            _ => (self.at(ConnectionStage::Closed), ConnectionAction::Close),
        }
    }

    /// A connection that has just arrived, and what to do first: the TLS handshake
    /// where the server has TLS, the WebSocket handshake where it has not.
    pub fn new(secure: bool, services: Services<H>) -> (res: (
        WebSocketConnection<H>,
        ConnectionAction<H>,
    ))
        ensures
            res == Self::at_start(secure, services),
    {
        if secure {
            (WebSocketConnection { services, stage: ConnectionStage::Tls }, ConnectionAction::Secure)
        } else {
            (
                WebSocketConnection { services, stage: ConnectionStage::Upgrade },
                ConnectionAction::Upgrade(Carrier::Tcp),
            )
        }
    }

    /// Takes in what happened. A handshake that fails closes this connection and
    /// concerns no other.
    pub fn step(self, event: ConnectionEvent) -> (res: (
        WebSocketConnection<H>,
        ConnectionAction<H>,
    ))
        requires
            self.expects(event),
        ensures
            res == self.after(event),
    {
        let services = self.services;
        match (event, self.stage) {
            (ConnectionEvent::Secured(Ok(())), _) => (
                WebSocketConnection { services, stage: ConnectionStage::Upgrade },
                ConnectionAction::Upgrade(Carrier::Tls),
            ),
            (ConnectionEvent::Upgraded(Ok(())), _) => {
                let (client, action) = Client::new(services);
                (
                    WebSocketConnection { services, stage: ConnectionStage::Client(client) },
                    ConnectionAction::Client(action),
                )
            },
            (ConnectionEvent::Client(e), ConnectionStage::Client(client)) => {
                let (client, action) = client.step(e);
                (
                    WebSocketConnection { services, stage: ConnectionStage::Client(client) },
                    ConnectionAction::Client(action),
                )
            },
            _ => (
                WebSocketConnection { services, stage: ConnectionStage::Closed },
                ConnectionAction::Close,
            ),
        }
    }

    /// Whether a run of events can happen on the connection, in this order.
    pub open spec fn expects_all(self, events: Seq<ConnectionEvent>) -> bool
        decreases events.len(),
    {
        events.len() == 0 || (self.expects_all(events.drop_last()) && self.after_all(
            events.drop_last(),
        ).expects(events.last()))
    }

    /// The connection after a run of events.
    pub open spec fn after_all(self, events: Seq<ConnectionEvent>) -> WebSocketConnection<H>
        decreases events.len(),
    {
        if events.len() == 0 {
            self
        } else {
            self.after_all(events.drop_last()).after(events.last()).0
        }
    }
}

impl<H: Handles> WebSocketServer<H> {
    /// A server with this configuration. Without TLS no certificate is needed; with
    /// TLS only HTTP/1.1 is offered.
    pub fn new(config: WebSocketConfig<H>) -> (server: WebSocketServer<H>)
        requires
            config.valid(),
        ensures
            config.is_served_by(server),
            server.bind == config.bind,
            server.tls is None <==> config.no_tls,
            server.tls matches Some(acceptor) ==> acceptor.tls == config.tls && acceptor.protocols()
                == seq!["http/1.1".spec_bytes()],
            server.services == config.services(),
            server.services.locals == config.locals,
            server.services.remotes == config.remotes,
            server.services.api == config.api,
            server.services.forward == config.forward,
    {
        let tls = if config.no_tls {
            None
        } else {
            Some(TlsAcceptor::for_websocket(config.tls))
        };
        WebSocketServer {
            bind: config.bind,
            tls,
            services: Services {
                locals: config.locals,
                remotes: config.remotes,
                api: config.api,
                forward: config.forward,
            },
        }
    }

    /// The server as it starts to run.
    pub open spec fn started(self) -> WebSocketRun<H> {
        WebSocketRun {
            secure: self.tls is Some,
            services: self.services,
            listener: Listener::Binding,
        }
    }

    /// Starts the server. The first thing to do is to bind the address that comes
    /// with it.
    pub fn run(self) -> (res: (WebSocketRun<H>, SocketAddr))
        ensures
            res.0 == self.started(),
            res.0 == (WebSocketRun {
                secure: self.tls is Some,
                services: self.services,
                listener: Listener::Binding,
            }),
            res.1 == self.bind,
    {
        (
            WebSocketRun {
                secure: self.tls.is_some(),
                services: self.services,
                listener: Listener::Binding,
            },
            self.bind,
        )
    }
}

impl<H: Handles> WebSocketRun<H> {
    /// The running server with its listener in another state.
    pub open spec fn listening(self, listener: Listener) -> WebSocketRun<H> {
        WebSocketRun { secure: self.secure, services: self.services, listener }
    }

    /// What becomes of the server, and what to do.
    pub open spec fn after(self, event: ListenerEvent) -> (WebSocketRun<H>, WebSocketAction<H>) {
        let (listener, action) = self.listener.after(event);
        (
            self.listening(listener),
            match action {
                ListenerAction::Accept => WebSocketAction::Accept,
                ListenerAction::ServeAndAccept => {
                    let start = WebSocketConnection::at_start(self.secure, self.services);
                    WebSocketAction::Serve(start.0, start.1)
                },
                ListenerAction::Fail(reason) => WebSocketAction::Fail(reason),
            },
        )
    }

    /// The server after a run of events.
    pub open spec fn after_all(self, events: Seq<ListenerEvent>) -> WebSocketRun<H>
        decreases events.len(),
    {
        if events.len() == 0 {
            self
        } else {
            self.after_all(events.drop_last()).after(events.last()).0
        }
    }

    /// Takes in what happened at the listener.
    pub fn step(self, event: ListenerEvent) -> (res: (WebSocketRun<H>, WebSocketAction<H>))
        requires
            self.listener.expects(event),
        ensures
            res == self.after(event),
    {
        let (listener, action) = self.listener.step(event);
        let run = WebSocketRun { secure: self.secure, services: self.services, listener };
        let action = match action {
            ListenerAction::Accept => WebSocketAction::Accept,
            ListenerAction::ServeAndAccept => {
                let (connection, first) = WebSocketConnection::new(self.secure, self.services);
                WebSocketAction::Serve(connection, first)
            },
            ListenerAction::Fail(reason) => WebSocketAction::Fail(reason),
        };
        (run, action)
    }
}

/// A WebSocket server that is up stays up, whatever becomes of its connections, and
/// starts on each that arrives in the same way, with the same services.
pub proof fn law_websocket_server_stays_up<H: Handles>(
    run: WebSocketRun<H>,
    events: Seq<ListenerEvent>,
    event: ListenerEvent,
)
    requires
        run.listener == Listener::Accepting,
        forall|i: int| 0 <= i < events.len() ==> #[trigger] events[i] is Accepted,
        event is Accepted,
    ensures
        run.after_all(events) == run,
        run.after_all(events).after(event).1 == match event {
            ListenerEvent::Accepted(Ok(_)) => WebSocketAction::Serve(
                WebSocketConnection::at_start(run.secure, run.services).0,
                WebSocketConnection::at_start(run.secure, run.services).1,
            ),
            _ => WebSocketAction::Accept,
        },
    decreases events.len(),
{
    if events.len() > 0 {
        let before = events.drop_last();
        assert forall|i: int| 0 <= i < before.len() implies #[trigger] before[i] is Accepted by {
            assert(events[i] is Accepted);
        }
        assert(events.last() is Accepted);
        law_websocket_server_stays_up(run, before, events.last());
    }
}

/// Where the server has TLS, no connection comes to a WebSocket handshake, let
/// alone to a session, unless a TLS handshake succeeded on it first, and the WebSocket
/// handshake goes over TLS; and it stays at the TLS handshake only until something
/// happens.
pub proof fn law_no_session_before_tls<H: Handles>(
    services: Services<H>,
    events: Seq<ConnectionEvent>,
)
    requires
        WebSocketConnection::at_start(true, services).0.expects_all(events),
    ensures
        ({
            let stage = WebSocketConnection::at_start(true, services).0.after_all(events).stage;
            stage is Upgrade || stage is Client ==> events.len() > 0 && events[0] matches ConnectionEvent::Secured(
                Ok(_),
            )
        }),
        ({
            let stage = WebSocketConnection::at_start(true, services).0.after_all(events).stage;
            stage is Tls ==> events.len() == 0
        }),
        WebSocketConnection::at_start(true, services).1 is Secure,
        events.len() > 0 ==> (WebSocketConnection::at_start(true, services).0.after_all(
            events.drop_last(),
        ).after(events.last()).1 matches ConnectionAction::Upgrade(carrier) ==> carrier
            == Carrier::Tls),
    decreases events.len(),
{
    if events.len() > 0 {
        let before = events.drop_last();
        law_no_session_before_tls(services, before);
        if before.len() == 0 {
            assert(events[0] == events.last());
        }
    }
}

/// Where TLS is left to a proxy, a TLS handshake is never asked for: the
/// connection starts with the WebSocket handshake and never comes to another.
pub proof fn law_no_tls_behind_proxy<H: Handles>(
    services: Services<H>,
    events: Seq<ConnectionEvent>,
)
    requires
        WebSocketConnection::at_start(false, services).0.expects_all(events),
    ensures
        WebSocketConnection::at_start(false, services).1 == ConnectionAction::<H>::Upgrade(
            Carrier::Tcp,
        ),
        !(WebSocketConnection::at_start(false, services).0.after_all(events).stage is Tls),
        events.len() > 0 ==> WebSocketConnection::at_start(false, services).0.after_all(
            events.drop_last(),
        ).after(events.last()).1 !is Secure,
    decreases events.len(),
{
    if events.len() > 0 {
        law_no_tls_behind_proxy(services, events.drop_last());
    }
}

/// Whatever happens on a connection, the client on it has the services of the
/// server that accepted it.
pub proof fn law_client_has_server_services<H: Handles>(
    secure: bool,
    services: Services<H>,
    events: Seq<ConnectionEvent>,
)
    requires
        WebSocketConnection::at_start(secure, services).0.expects_all(events),
    ensures
        WebSocketConnection::at_start(secure, services).0.after_all(events).services == services,
        WebSocketConnection::at_start(secure, services).0.after_all(
            events,
        ).stage matches ConnectionStage::Client(client) ==> client.services == services,
    decreases events.len(),
{
    if events.len() > 0 {
        law_client_has_server_services(secure, services, events.drop_last());
    }
}

/// A server can be made from a configuration exactly when it has a certificate or needs
/// none, and its clients get all that the configuration has for them.
pub proof fn law_websocket_configuration<H: Handles>(config: WebSocketConfig<H>)
    ensures
        !config.valid() <==> !config.no_tls && !config.tls_server,
        config.services().locals == config.locals,
        config.services().remotes == config.remotes,
        config.services().api == config.api,
        config.services().forward == config.forward,
{
}

/// A connection starts with a TLS handshake exactly where the server has TLS, and with the
/// WebSocket handshake, over TCP, where it has not.
pub proof fn law_connection_starts<H: Handles>(secure: bool, services: Services<H>)
    ensures
        WebSocketConnection::at_start(secure, services).0.services == services,
        secure ==> {
            &&& WebSocketConnection::at_start(secure, services).0.stage is Tls
            &&& WebSocketConnection::at_start(secure, services).1 is Secure
        },
        !secure ==> {
            &&& WebSocketConnection::at_start(secure, services).0.stage is Upgrade
            &&& WebSocketConnection::at_start(secure, services).1
                == ConnectionAction::<H>::Upgrade(Carrier::Tcp)
        },
{
}

/// A connection goes on exactly while nothing fails: from the TLS handshake to the
/// WebSocket handshake over TLS, and from there to a client, which is negotiated with and
/// has the services of the connection. A handshake that fails ends it.
pub proof fn law_handshakes_lead_to_a_client<H: Handles>(
    connection: WebSocketConnection<H>,
    event: ConnectionEvent,
)
    requires
        connection.expects(event),
    ensures
        connection.after(event).0.services == connection.services,
        event matches ConnectionEvent::Secured(Ok(_)) ==> {
            &&& connection.after(event).0.stage is Upgrade
            &&& connection.after(event).1 == ConnectionAction::<H>::Upgrade(Carrier::Tls)
        },
        event matches ConnectionEvent::Upgraded(Ok(_)) ==> {
            &&& connection.after(event).0.stage matches ConnectionStage::Client(client)
            &&& client.services == connection.services
            &&& client.stage == ClientStage::Negotiating
            &&& connection.after(event).1 matches ConnectionAction::Client(ClientAction::Negotiate)
        },
        (event matches ConnectionEvent::Secured(Err(_))) || (
        event matches ConnectionEvent::Upgraded(Err(_))) ==> {
            &&& connection.after(event).0.stage is Closed
            &&& connection.after(event).1 is Close
        },
{
}

/// The client on a connection runs as any client does: in the roles of its own offer, with
/// the services that it has, until it ends or fails, and then nothing is left to do.
pub proof fn law_client_on_a_connection<H: Handles>(
    connection: WebSocketConnection<H>,
    client: Client<H>,
    event: ClientEvent,
)
    requires
        connection.stage == ConnectionStage::Client(client),
        connection.expects(ConnectionEvent::Client(event)),
    ensures
        connection.after(ConnectionEvent::Client(event)).0.services == connection.services,
        connection.after(ConnectionEvent::Client(event)).0.stage matches ConnectionStage::Client(
            next,
        ) && next.services == client.services,
        event matches ClientEvent::Negotiated(Ok(offer)) ==> {
            &&& connection.after(ConnectionEvent::Client(event)).0.stage->Client_0.stage
                == ClientStage::Running
            &&& connection.after(ConnectionEvent::Client(event)).1 matches ConnectionAction::Client(
                ClientAction::Run(roles),
            )
            &&& roles.producer is Some <==> offer.publisher
            &&& roles.consumer is Some <==> offer.subscriber
            &&& roles.producer matches Some(producer) ==> producer.locals == client.services.locals
                && producer.remotes == client.services.remotes
            &&& roles.consumer matches Some(consumer) ==> consumer.locals == client.services.locals
                && consumer.api == client.services.api && consumer.forward
                == client.services.forward
        },
        !(event matches ClientEvent::Negotiated(Ok(_))) ==> {
            &&& connection.after(ConnectionEvent::Client(event)).0.stage->Client_0.stage
                == ClientStage::Closed
            &&& connection.after(ConnectionEvent::Client(event)).1 matches ConnectionAction::Client(
                ClientAction::Close,
            )
        },
{
}

/// What can happen on a connection at each stage.
pub proof fn law_connection_stages<H: Handles>(
    connection: WebSocketConnection<H>,
    event: ConnectionEvent,
)
    ensures
        connection.stage is Tls ==> (connection.expects(event) <==> event is Secured),
        connection.stage is Upgrade ==> (connection.expects(event) <==> event is Upgraded),
        connection.stage is Closed ==> !connection.expects(event),
        connection.stage matches ConnectionStage::Client(client) ==> (connection.expects(event)
            <==> event is Client && ((client.stage == ClientStage::Negotiating
            && event->Client_0 is Negotiated) || (client.stage == ClientStage::Running
            && event->Client_0 is Ended))),
{
}

/// The server fails exactly when its address cannot be bound, for the reason given. It
/// starts on every connection that arrives, with its own services, and with a TLS handshake
/// exactly where it has TLS; and it stays as it is.
pub proof fn law_websocket_server_serves_what_arrives<H: Handles>(
    run: WebSocketRun<H>,
    event: ListenerEvent,
)
    requires
        run.listener.expects(event),
    ensures
        run.after(event).0.secure == run.secure,
        run.after(event).0.services == run.services,
        event matches ListenerEvent::Bound(Err(reason)) ==> {
            &&& run.after(event).0.listener == Listener::Failed
            &&& run.after(event).1 == WebSocketAction::<H>::Fail(reason)
        },
        !(event matches ListenerEvent::Bound(Err(_))) ==> run.after(event).0.listener
            == Listener::Accepting && !(run.after(event).1 is Fail),
        run.after(event).1 is Serve <==> (event matches ListenerEvent::Accepted(Ok(_))),
        run.after(event).1 matches WebSocketAction::Serve(connection, first) ==> {
            &&& connection.services == run.services
            &&& run.secure ==> connection.stage is Tls && first is Secure
            &&& !run.secure ==> connection.stage is Upgrade && first
                == ConnectionAction::<H>::Upgrade(Carrier::Tcp)
        },
{
}

/// A server is made and started as it is configured: at its address, with TLS exactly where
/// that is not left to a proxy, with HTTP/1.1 and no other protocol, and with all services.
pub proof fn law_websocket_server_is_as_configured<H: Handles>(
    config: WebSocketConfig<H>,
    server: WebSocketServer<H>,
)
    requires
        config.is_served_by(server),
    ensures
        server.bind == config.bind,
        server.started().secure <==> !config.no_tls,
        server.started().listener == Listener::Binding,
        server.started().services == server.services,
        server.services.locals == config.locals,
        server.services.remotes == config.remotes,
        server.services.api == config.api,
        server.services.forward == config.forward,
        config.no_tls ==> server.tls is None,
        !config.no_tls ==> (server.tls matches Some(acceptor) && {
            &&& acceptor.tls == config.tls
            &&& acceptor.alpn_protocols@.len() == 1
            &&& acceptor.alpn_protocols@[0]@ == "http/1.1".spec_bytes()
        }),
{
    if let Some(acceptor) = server.tls {
        assert(acceptor.protocols().len() == acceptor.alpn_protocols@.len());
        assert(acceptor.protocols()[0] == acceptor.alpn_protocols@[0]@);
    }
}

} // verus!
