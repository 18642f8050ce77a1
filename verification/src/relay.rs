//! The relay itself: a QUIC server, the background tasks that go with it, and one
//! task for each client.

use vstd::prelude::*;
use url::Url;
use crate::addr::SocketAddr;
use crate::client::{Client, ClientStage};
use crate::endpoint::EndpointConfig;
use crate::handles::Handles;
use crate::roles::{Services, SessionRoles};
use crate::websocket::WebSocketConfig;

verus! {

/// What a relay is made from.
pub struct RelayConfig<H: Handles> {
    /// The address to listen on for QUIC.
    pub bind: SocketAddr,
    /// The TLS configuration.
    pub tls: H::Tls,
    /// It has a certificate to serve.
    pub tls_server: bool,
    /// The registry of local tracks.
    pub locals: H::Locals,
    /// Forward all announces to the relay at this URL.
    pub announce: Option<Url>,
    /// The API of the cluster.
    pub api: Option<Url>,
    /// The URL that we are known by in the cluster.
    pub node: Option<Url>,
    /// The address to listen on for WebSockets, if any.
    pub ws_bind: Option<SocketAddr>,
    /// Serve WebSockets without TLS, behind a proxy that terminates it.
    pub ws_no_tls: bool,
}

/// Our place in a cluster of relays.
pub struct Api {
    /// The API of the cluster.
    pub url: Url,
    /// The URL that we are known by in the cluster.
    pub node: Url,
}

impl Clone for Api {
    fn clone(&self) -> (res: Self)
        ensures
            res == *self,
    {
        Api { url: self.url.clone(), node: self.node.clone() }
    }
}

/// What it takes to reach the other relays of the cluster.
pub struct Remotes<H: Handles> {
    /// Where to ask which relays there are.
    pub api: Api,
    /// Where to connect to them from.
    pub quic: H::Quic,
}

/// The handles that come with a place in a cluster. They are made from the relay's
/// [`Remotes`].
#[derive(Clone, Copy)]
pub struct Cluster<H: Handles> {
    /// The API of the cluster, to register announces with.
    pub api: H::Api,
    /// The other relays of the cluster, to fetch tracks from.
    pub remotes: H::Remotes,
}

/// A relay that does not run yet.
pub struct Relay<H: Handles> {
    /// Where the relay makes its connections from.
    pub quic: H::Quic,
    pub announce: Option<Url>,
    /// The registry of local tracks.
    pub locals: H::Locals,
    /// Our place in a cluster, if we have one.
    pub api: Option<Api>,
    /// The other relays of that cluster.
    pub remotes: Option<Remotes<H>>,
    pub ws_bind: Option<SocketAddr>,
    pub tls: H::Tls,
    pub tls_server: bool,
    pub ws_no_tls: bool,
}

/// Why a relay could not be made or had to stop. What lies behind it is given by its
/// text.
#[derive(Debug)]
pub enum RelayError {
    /// The QUIC endpoint could not be made.
    Endpoint(String),
    /// The relay that announces are forwarded to could not be reached.
    ForwardConnection(String),
    /// It was reached, and no MoQ session could be set up.
    ForwardSession(String),
    /// There is no certificate to serve.
    MissingCertificate,
    /// The address of the QUIC server could not be found out.
    LocalAddr(String),
    /// The QUIC endpoint takes no more connections.
    EndpointClosed,
    /// The task that follows the other relays of the cluster failed.
    Remotes(String),
    /// The session that announces are forwarded on failed.
    Forwarding(String),
    /// The WebSocket server failed.
    WebSocket(String),
}

impl RelayError {
    /// The message shown for this error.
    pub open spec fn text(self) -> Seq<char> {
        match self {
            RelayError::Endpoint(cause) => cause@,
            RelayError::ForwardConnection(_) => "failed to establish forward connection"@,
            RelayError::ForwardSession(_) => "failed to establish forward session"@,
            RelayError::MissingCertificate => "missing TLS certificate"@,
            RelayError::LocalAddr(cause) => cause@,
            RelayError::EndpointClosed => "failed to accept QUIC connection"@,
            RelayError::Remotes(cause) => cause@,
            RelayError::Forwarding(_) => "forwarding failed"@,
            RelayError::WebSocket(_) => "WebSocket server failed"@,
        }
    }

    /// The message shown for this error.
    pub fn message(&self) -> (text: String)
        ensures
            text@ == self.text(),
    {
        match self {
            RelayError::Endpoint(cause) => cause.clone(),
            RelayError::ForwardConnection(_) => "failed to establish forward connection".to_owned(),
            RelayError::ForwardSession(_) => "failed to establish forward session".to_owned(),
            RelayError::MissingCertificate => "missing TLS certificate".to_owned(),
            RelayError::LocalAddr(cause) => cause.clone(),
            RelayError::EndpointClosed => "failed to accept QUIC connection".to_owned(),
            RelayError::Remotes(cause) => cause.clone(),
            RelayError::Forwarding(_) => "forwarding failed".to_owned(),
            RelayError::WebSocket(_) => "WebSocket server failed".to_owned(),
        }
    }
}

/// How far a running relay has come.
#[derive(Clone, Copy, PartialEq, Eq, Debug, Structural)]
pub enum Phase {
    /// The relay that announces are forwarded to is being connected to.
    Connecting,
    /// The MoQ session with it is being set up.
    Negotiating,
    /// The address of the QUIC server is being found out.
    Listening,
    /// Clients are served.
    Serving,
    /// The relay has stopped.
    Finished,
}

/// The tasks that a relay has running.
#[derive(Clone, Copy, PartialEq, Eq, Debug, Structural)]
pub struct Tasks {
    /// The one that follows the other relays of the cluster.
    pub remotes: bool,
    /// The session that announces are forwarded on.
    pub forward: bool,
    /// The WebSocket server.
    pub websocket: bool,
    /// How many clients there are.
    pub clients: u64,
}

/// A running relay.
#[derive(Clone, Copy)]
pub struct RelayRun<H: Handles> {
    /// What clients get to use.
    pub services: Services<H>,
    pub ws_bind: Option<SocketAddr>,
    pub tls: H::Tls,
    pub tls_server: bool,
    pub ws_no_tls: bool,
    pub phase: Phase,
    pub tasks: Tasks,
}

/// What happened to a running relay. An error is given by its text.
pub enum RelayEvent<H: Handles> {
    /// The relay that announces are forwarded to was connected to, or not.
    ForwardConnected(Result<(), String>),
    /// The MoQ session with it was set up, and announces can be forwarded on it; or not.
    ForwardNegotiated(Result<H::Forward, String>),
    /// The address of the QUIC server was found out, or not.
    LocalAddr(Result<SocketAddr, String>),
    /// A client connected.
    Accepted,
    /// The QUIC endpoint was closed.
    EndpointClosed,
    /// The task that follows the other relays ended.
    RemotesDone(Result<(), String>),
    /// The session that announces are forwarded on ended.
    ForwardDone(Result<(), String>),
    /// The WebSocket server ended.
    WebSocketDone(Result<(), String>),
    /// A client is gone, for whatever reason.
    ClientDone,
}

/// A task to start.
#[derive(Clone, Copy)]
pub enum Task<H: Handles> {
    /// Follow the other relays of the cluster.
    Remotes,
    /// Run the session that announces are forwarded on, in these roles.
    Forward(SessionRoles<H>),
    /// Run a WebSocket server.
    WebSocket(WebSocketConfig<H>),
    /// Serve a client, beginning with its MoQ session.
    Client(Client<H>),
}

/// What to do next for a running relay.
pub enum Next<H: Handles> {
    /// Connect from this endpoint to this relay, to forward announces.
    ConnectForward(H::Quic, Url),
    /// Set up a MoQ session with it.
    NegotiateForward,
    /// Find out the address of the QUIC server.
    LocalAddr,
    /// Await the next client and, where the flag says so, the end of a task.
    Await { tasks: bool },
    /// Stop.
    Stop(RelayError),
}

/// What to do for a running relay: start a task, if there is one, and go on.
pub struct RelayAction<H: Handles> {
    pub start: Option<Task<H>>,
    pub next: Next<H>,
}

impl Tasks {
    /// How many tasks there are.
    pub open spec fn count(self) -> nat {
        (if self.remotes {
            1nat
        } else {
            0nat
        }) + (if self.forward {
            1nat
        } else {
            0nat
        }) + (if self.websocket {
            1nat
        } else {
            0nat
        }) + self.clients as nat
    }

    /// Whether there is a task at all.
    pub fn any(&self) -> (res: bool)
        ensures
            res <==> self.count() > 0,
    {
        self.remotes || self.forward || self.websocket || self.clients > 0
    }
}

impl<H: Handles> RelayConfig<H> {
    /// The QUIC endpoint of the relay.
    pub open spec fn quic_endpoint(self) -> EndpointConfig<H> {
        EndpointConfig { bind: self.bind, tls: self.tls }
    }

    /// The QUIC endpoint of the relay, for clients and for the connections that it makes
    /// itself. It is made before the relay is.
    pub fn endpoint(&self) -> (endpoint: EndpointConfig<H>)
        ensures
            endpoint == self.quic_endpoint(),
            endpoint.bind == self.bind,
            endpoint.tls == self.tls,
    {
        EndpointConfig { bind: self.bind, tls: self.tls }
    }
}

impl<H: Handles> Relay<H> {
    /// What the sessions of the relay get to use, in this cluster and with this relay to
    /// forward announces to.
    pub open spec fn services(self, cluster: Option<Cluster<H>>, forward: Option<H::Forward>) -> Services<
        H,
    > {
        match cluster {
            Some(cluster) => Services {
                locals: self.locals,
                remotes: Some(cluster.remotes),
                api: Some(cluster.api),
                forward,
            },
            None => Services { locals: self.locals, remotes: None, api: None, forward },
        }
    }

    /// The relay as it starts to run, before anything is connected.
    pub open spec fn initial(self, cluster: Option<Cluster<H>>) -> RelayRun<H> {
        RelayRun {
            services: self.services(cluster, None),
            ws_bind: self.ws_bind,
            tls: self.tls,
            tls_server: self.tls_server,
            ws_no_tls: self.ws_no_tls,
            phase: Phase::Connecting,
            tasks: Tasks { remotes: cluster is Some, forward: false, websocket: false, clients: 0 },
        }
    }

    /// The relay as it runs, and what it does first.
    pub open spec fn started(self, cluster: Option<Cluster<H>>) -> (RelayRun<H>, RelayAction<H>) {
        let start = if cluster is Some {
            Some(Task::Remotes)
        } else {
            None
        };
        match self.announce {
            Some(url) => (
                self.initial(cluster),
                RelayAction { start, next: Next::ConnectForward(self.quic, url) },
            ),
            None => (
                self.initial(cluster).listen().0,
                RelayAction { start, next: self.initial(cluster).listen().1 },
            ),
        }
    }

    /// The place in a cluster that a configuration gives: it takes both the API and our
    /// own URL.
    pub open spec fn place(config: RelayConfig<H>) -> Option<Api> {
        match (config.api, config.node) {
            (Some(url), Some(node)) => Some(Api { url, node }),
            _ => None,
        }
    }

    /// The relay with this configuration, on this QUIC endpoint.
    pub open spec fn made(config: RelayConfig<H>, quic: H::Quic) -> Relay<H> {
        Relay {
            quic,
            announce: config.announce,
            locals: config.locals,
            api: Self::place(config),
            remotes: match Self::place(config) {
                Some(api) => Some(Remotes { api, quic }),
                None => None,
            },
            ws_bind: config.ws_bind,
            tls: config.tls,
            tls_server: config.tls_server,
            ws_no_tls: config.ws_no_tls,
        }
    }

    /// What comes of making a relay, once its endpoint has been made or not.
    pub open spec fn outcome(config: RelayConfig<H>, endpoint: Result<H::Quic, String>) -> Result<
        Relay<H>,
        RelayError,
    > {
        match endpoint {
            Ok(quic) => Ok(Self::made(config, quic)),
            Err(cause) => Err(RelayError::Endpoint(cause)),
        }
    }

    /// Whether these are handles for the relay: there are some exactly when it has other
    /// relays to reach.
    pub open spec fn admits(self, cluster: Option<Cluster<H>>) -> bool {
        cluster is Some <==> self.remotes is Some
    }

    /// A relay with this configuration, once the QUIC endpoint that the configuration
    /// names has been made or not. It has a place in a cluster where both the API and its
    /// own URL are given, and then reaches the other relays by that API and from that
    /// endpoint.
    pub fn new(config: RelayConfig<H>, endpoint: Result<H::Quic, String>) -> (res: Result<
        Relay<H>,
        RelayError,
    >)
        ensures
            res == Self::outcome(config, endpoint),
            res == match endpoint {
                Ok(quic) => Ok::<Relay<H>, RelayError>(Self::made(config, quic)),
                Err(cause) => Err::<Relay<H>, RelayError>(RelayError::Endpoint(cause)),
            },
    {
        let quic = match endpoint {
            Ok(quic) => quic,
            Err(cause) => {
                return Err(RelayError::Endpoint(cause));
            },
        };
        let api = match (config.api, config.node) {
            (Some(url), Some(node)) => Some(Api { url, node }),
            _ => None,
        };
        let remotes = match &api {
            Some(api) => Some(Remotes { api: api.clone(), quic }),
            None => None,
        };
        Ok(
            Relay {
                quic,
                announce: config.announce,
                locals: config.locals,
                api,
                remotes,
                ws_bind: config.ws_bind,
                tls: config.tls,
                tls_server: config.tls_server,
                ws_no_tls: config.ws_no_tls,
            },
        )
    }

    /// Starts the relay: with the task that follows the other relays, in a cluster,
    /// and with the connection to forward announces on, where one is asked for. The
    /// handles on the cluster are those made from what the relay has to reach it.
    pub fn run(self, cluster: Option<Cluster<H>>) -> (res: (RelayRun<H>, RelayAction<H>))
        requires
            self.admits(cluster),
        ensures
            res == self.started(cluster),
    {
        let (remotes, api) = match cluster {
            Some(cluster) => (Some(cluster.remotes), Some(cluster.api)),
            None => (None, None),
        };
        let run = RelayRun {
            services: Services { locals: self.locals, remotes, api, forward: None },
            ws_bind: self.ws_bind,
            tls: self.tls,
            tls_server: self.tls_server,
            ws_no_tls: self.ws_no_tls,
            phase: Phase::Connecting,
            tasks: Tasks {
                remotes: cluster.is_some(),
                forward: false,
                websocket: false,
                clients: 0,
            },
        };
        let start = if cluster.is_some() {
            Some(Task::Remotes)
        } else {
            None
        };
        match self.announce {
            Some(url) => (
                run,
                RelayAction { start, next: Next::ConnectForward(self.quic, url) },
            ),
            None => {
                let (run, next) = run.start_listening();
                (run, RelayAction { start, next })
            },
        }
    }
}

impl<H: Handles> RelayRun<H> {
    /// The relay in another phase.
    pub open spec fn at(self, phase: Phase) -> RelayRun<H> {
        RelayRun { phase, ..self }
    }

    /// The relay with other tasks.
    pub open spec fn with(self, tasks: Tasks) -> RelayRun<H> {
        RelayRun { tasks, ..self }
    }

    /// The relay once nothing is left to connect: it turns to its QUIC server, for
    /// which it must have a certificate.
    pub open spec fn listen(self) -> (RelayRun<H>, Next<H>) {
        if self.tls_server {
            (self.at(Phase::Listening), Next::LocalAddr)
        } else {
            (self.at(Phase::Finished), Next::Stop(RelayError::MissingCertificate))
        }
    }

    /// The WebSocket server that goes with the relay, at this address.
    pub open spec fn websocket_config(self, bind: SocketAddr, quic_addr: SocketAddr) -> WebSocketConfig<
        H,
    > {
        WebSocketConfig {
            bind,
            tls: self.tls,
            tls_server: self.tls_server,
            no_tls: self.ws_no_tls,
            locals: self.services.locals,
            remotes: self.services.remotes,
            api: self.services.api,
            forward: self.services.forward,
            quic_addr,
        }
    }

    /// Stops the relay for this reason.
    pub open spec fn stopped(self, error: RelayError) -> (RelayRun<H>, RelayAction<H>) {
        (self.at(Phase::Finished), RelayAction { start: None, next: Next::Stop(error) })
    }

    /// Goes on to serve clients with these tasks, of which one may be new.
    pub open spec fn serving(self, tasks: Tasks, start: Option<Task<H>>) -> (RelayRun<H>, RelayAction<H>) {
        (
            self.at(Phase::Serving).with(tasks),
            RelayAction { start, next: Next::Await { tasks: tasks.count() > 0 } },
        )
    }

    /// Whether this can happen to the relay now. The end of a task is noticed only
    /// while clients are served.
    pub open spec fn expects(self, event: RelayEvent<H>) -> bool {
        match event {
            RelayEvent::ForwardConnected(_) => self.phase == Phase::Connecting,
            RelayEvent::ForwardNegotiated(_) => self.phase == Phase::Negotiating,
            RelayEvent::LocalAddr(_) => self.phase == Phase::Listening,
            RelayEvent::Accepted => self.phase == Phase::Serving && self.tasks.clients < u64::MAX,
            RelayEvent::EndpointClosed => self.phase == Phase::Serving,
            RelayEvent::RemotesDone(_) => self.phase == Phase::Serving && self.tasks.remotes,
            RelayEvent::ForwardDone(_) => self.phase == Phase::Serving && self.tasks.forward,
            RelayEvent::WebSocketDone(_) => self.phase == Phase::Serving && self.tasks.websocket,
            RelayEvent::ClientDone => self.phase == Phase::Serving && self.tasks.clients > 0,
        }
    }

    /// What becomes of the relay, and what to do.
    pub open spec fn after(self, event: RelayEvent<H>) -> (RelayRun<H>, RelayAction<H>) {
        let tasks = self.tasks;
        match event {
            RelayEvent::ForwardConnected(Ok(())) => (
                self.at(Phase::Negotiating),
                RelayAction { start: None, next: Next::NegotiateForward },
            ),
            RelayEvent::ForwardConnected(Err(cause)) => self.stopped(
                RelayError::ForwardConnection(cause),
            ),
            RelayEvent::ForwardNegotiated(Ok(forward)) => {
                let forwarding = RelayRun {
                    services: Services { forward: Some(forward), ..self.services },
                    tasks: Tasks { forward: true, ..tasks },
                    ..self
                };
                (
                    forwarding.listen().0,
                    RelayAction {
                        start: Some(Task::Forward(self.services.for_relay())),
                        next: forwarding.listen().1,
                    },
                )
            },
            RelayEvent::ForwardNegotiated(Err(cause)) => self.stopped(
                RelayError::ForwardSession(cause),
            ),
            RelayEvent::LocalAddr(Ok(quic_addr)) => match self.ws_bind {
                Some(bind) => self.serving(
                    Tasks { websocket: true, ..tasks },
                    Some(Task::WebSocket(self.websocket_config(bind, quic_addr))),
                ),
                None => self.serving(tasks, None),
            },
            RelayEvent::LocalAddr(Err(cause)) => self.stopped(RelayError::LocalAddr(cause)),
            RelayEvent::Accepted => self.serving(
                Tasks { clients: (tasks.clients + 1) as u64, ..tasks },
                Some(Task::Client(Client::at_start(self.services))),
            ),
            RelayEvent::EndpointClosed => self.stopped(RelayError::EndpointClosed),
            RelayEvent::RemotesDone(Ok(())) => self.serving(Tasks { remotes: false, ..tasks }, None),
            RelayEvent::RemotesDone(Err(cause)) => self.stopped(RelayError::Remotes(cause)),
            RelayEvent::ForwardDone(Ok(())) => self.serving(Tasks { forward: false, ..tasks }, None),
            RelayEvent::ForwardDone(Err(cause)) => self.stopped(RelayError::Forwarding(cause)),
            RelayEvent::WebSocketDone(Ok(())) => self.serving(
                Tasks { websocket: false, ..tasks },
                None,
            ),
            RelayEvent::WebSocketDone(Err(cause)) => self.stopped(RelayError::WebSocket(cause)),
            RelayEvent::ClientDone => self.serving(
                Tasks { clients: (tasks.clients - 1) as u64, ..tasks },
                None,
            ),
        }
    }

    /// Whether a run of events can happen to the relay, in this order.
    pub open spec fn expects_all(self, events: Seq<RelayEvent<H>>) -> bool
        decreases events.len(),
    {
        events.len() == 0 || (self.expects_all(events.drop_last()) && self.after_all(
            events.drop_last(),
        ).expects(events.last()))
    }

    /// The relay after a run of events.
    pub open spec fn after_all(self, events: Seq<RelayEvent<H>>) -> RelayRun<H>
        decreases events.len(),
    {
        if events.len() == 0 {
            self
        } else {
            self.after_all(events.drop_last()).after(events.last()).0
        }
    }

    fn start_listening(self) -> (res: (RelayRun<H>, Next<H>))
        ensures
            res == self.listen(),
    {
        if self.tls_server {
            (RelayRun { phase: Phase::Listening, ..self }, Next::LocalAddr)
        } else {
            (
                RelayRun { phase: Phase::Finished, ..self },
                Next::Stop(RelayError::MissingCertificate),
            )
        }
    }

    fn stop(self, error: RelayError) -> (res: (RelayRun<H>, RelayAction<H>))
        ensures
            res == self.stopped(error),
    {
        (
            RelayRun { phase: Phase::Finished, ..self },
            RelayAction { start: None, next: Next::Stop(error) },
        )
    }

    fn serve(self, tasks: Tasks, start: Option<Task<H>>) -> (res: (RelayRun<H>, RelayAction<H>))
        ensures
            res == self.serving(tasks, start),
    {
        (
            RelayRun { phase: Phase::Serving, tasks, ..self },
            RelayAction { start, next: Next::Await { tasks: tasks.any() } },
        )
    }

    /// Takes in what happened. Once clients are served, only the end of the QUIC
    /// endpoint or the failure of a background task stops the relay.
    pub fn step(self, event: RelayEvent<H>) -> (res: (RelayRun<H>, RelayAction<H>))
        requires
            self.expects(event),
        ensures
            res == self.after(event),
    {
        let tasks = self.tasks;
        match event {
            RelayEvent::ForwardConnected(Ok(())) => (
                RelayRun { phase: Phase::Negotiating, ..self },
                RelayAction { start: None, next: Next::NegotiateForward },
            ),
            RelayEvent::ForwardConnected(Err(cause)) => self.stop(
                RelayError::ForwardConnection(cause),
            ),
            RelayEvent::ForwardNegotiated(Ok(forward)) => {
                let roles = self.services.relay_roles();
                let forwarding = RelayRun {
                    services: Services { forward: Some(forward), ..self.services },
                    tasks: Tasks { forward: true, ..tasks },
                    ..self
                };
                let (run, next) = forwarding.start_listening();
                (run, RelayAction { start: Some(Task::Forward(roles)), next })
            },
            RelayEvent::ForwardNegotiated(Err(cause)) => self.stop(
                RelayError::ForwardSession(cause),
            ),
            RelayEvent::LocalAddr(Ok(quic_addr)) => match self.ws_bind {
                Some(bind) => {
                    let config = WebSocketConfig {
                        bind,
                        tls: self.tls,
                        tls_server: self.tls_server,
                        no_tls: self.ws_no_tls,
                        locals: self.services.locals,
                        remotes: self.services.remotes,
                        api: self.services.api,
                        forward: self.services.forward,
                        quic_addr,
                    };
                    self.serve(Tasks { websocket: true, ..tasks }, Some(Task::WebSocket(config)))
                },
                None => self.serve(tasks, None),
            },
            RelayEvent::LocalAddr(Err(cause)) => self.stop(RelayError::LocalAddr(cause)),
            RelayEvent::Accepted => {
                let (client, _) = Client::new(self.services);
                self.serve(Tasks { clients: tasks.clients + 1, ..tasks }, Some(Task::Client(client)))
            },
            RelayEvent::EndpointClosed => self.stop(RelayError::EndpointClosed),
            RelayEvent::RemotesDone(Ok(())) => self.serve(Tasks { remotes: false, ..tasks }, None),
            RelayEvent::RemotesDone(Err(cause)) => self.stop(RelayError::Remotes(cause)),
            RelayEvent::ForwardDone(Ok(())) => self.serve(Tasks { forward: false, ..tasks }, None),
            RelayEvent::ForwardDone(Err(cause)) => self.stop(RelayError::Forwarding(cause)),
            RelayEvent::WebSocketDone(Ok(())) => self.serve(
                Tasks { websocket: false, ..tasks },
                None,
            ),
            RelayEvent::WebSocketDone(Err(cause)) => self.stop(RelayError::WebSocket(cause)),
            RelayEvent::ClientDone => self.serve(
                Tasks { clients: tasks.clients - 1, ..tasks },
                None,
            ),
        }
    }
}

/// Whether the event is the failure of something that the relay as a whole depends
/// on.
pub open spec fn is_fatal<H: Handles>(event: RelayEvent<H>) -> bool {
    match event {
        RelayEvent::EndpointClosed => true,
        RelayEvent::RemotesDone(Err(_)) => true,
        RelayEvent::ForwardDone(Err(_)) => true,
        RelayEvent::WebSocketDone(Err(_)) => true,
        _ => false,
    }
}

/// Whether the event is that a task ended.
pub open spec fn ends_task<H: Handles>(event: RelayEvent<H>) -> bool {
    event is RemotesDone || event is ForwardDone || event is WebSocketDone || event is ClientDone
}

/// How many tasks end in a run of events.
pub open spec fn tasks_ended<H: Handles>(events: Seq<RelayEvent<H>>) -> nat
    decreases events.len(),
{
    if events.len() == 0 {
        0
    } else {
        tasks_ended(events.drop_last()) + if ends_task(events.last()) {
            1nat
        } else {
            0nat
        }
    }
}

/// How many tasks a relay starts in a run of events, from its start.
pub open spec fn tasks_started<H: Handles>(
    relay: Relay<H>,
    cluster: Option<Cluster<H>>,
    events: Seq<RelayEvent<H>>,
) -> nat
    decreases events.len(),
{
    if events.len() == 0 {
        if relay.started(cluster).1.start is Some {
            1
        } else {
            0
        }
    } else {
        let before = relay.started(cluster).0.after_all(events.drop_last());
        tasks_started(relay, cluster, events.drop_last()) + if before.after(
            events.last(),
        ).1.start is Some {
            1nat
        } else {
            0nat
        }
    }
}

/// The session that announces can be forwarded on, if a run of events brought one.
pub open spec fn forward_given<H: Handles>(events: Seq<RelayEvent<H>>) -> Option<H::Forward>
    decreases events.len(),
{
    if events.len() == 0 {
        None
    } else {
        match events.last() {
            RelayEvent::ForwardNegotiated(Ok(forward)) => Some(forward),
            _ => forward_given(events.drop_last()),
        }
    }
}

/// A relay is in a cluster when, and only when, its configuration gives both the API and
/// the URL that we are known by. Then the other relays are reached by that API and from
/// the relay's own endpoint, they are followed in a task from the start, and its sessions
/// have them and the API to use. Else none of that is there.
pub proof fn law_cluster_takes_both_urls<H: Handles>(
    config: RelayConfig<H>,
    quic: H::Quic,
    cluster: Option<Cluster<H>>,
    forward: Option<H::Forward>,
)
    requires
        Relay::made(config, quic).admits(cluster),
    ensures
        ({
            let relay = Relay::made(config, quic);
            let both = config.api is Some && config.node is Some;
            &&& relay.api is Some <==> both
            &&& relay.api matches Some(api) ==> config.api == Some(api.url) && config.node == Some(
                api.node,
            )
            &&& relay.remotes is Some <==> both
            &&& relay.remotes matches Some(remotes) ==> relay.api == Some(remotes.api)
                && remotes.quic == relay.quic && relay.quic == quic
            &&& relay.services(cluster, forward).remotes is Some <==> both
            &&& relay.services(cluster, forward).api is Some <==> both
            &&& relay.started(cluster).1.start is Some <==> both
            &&& both ==> relay.started(cluster).1.start == Some(Task::<H>::Remotes)
            &&& relay.started(cluster).0.tasks.remotes <==> both
        }),
{
}

/// The task that follows the other relays is started at the start or never.
pub proof fn law_remotes_are_followed_once<H: Handles>(run: RelayRun<H>, event: RelayEvent<H>)
    requires
        run.expects(event),
    ensures
        run.after(event).1.start != Some(Task::<H>::Remotes),
{
}

/// A relay that serves clients stops when, and only when, its QUIC endpoint closes or
/// one of its background tasks fails. It goes on after anything else.
pub proof fn law_what_stops_a_relay<H: Handles>(run: RelayRun<H>, event: RelayEvent<H>)
    requires
        run.phase == Phase::Serving,
        run.expects(event),
    ensures
        is_fatal(event) <==> run.after(event).0.phase == Phase::Finished,
        is_fatal(event) <==> run.after(event).1.next is Stop,
        !is_fatal(event) ==> run.after(event).0.phase == Phase::Serving && run.after(
            event,
        ).1.next is Await,
{
}

/// No client can stop the relay: as long as clients come and go, and whatever
/// becomes of them, it serves, with the same services and background tasks.
pub proof fn law_clients_cannot_stop_a_relay<H: Handles>(
    run: RelayRun<H>,
    events: Seq<RelayEvent<H>>,
)
    requires
        run.phase == Phase::Serving,
        run.expects_all(events),
        forall|i: int|
            0 <= i < events.len() ==> #[trigger] events[i] is Accepted || events[i] is ClientDone,
    ensures
        run.after_all(events) == run.with(
            Tasks { clients: run.after_all(events).tasks.clients, ..run.tasks },
        ),
    decreases events.len(),
{
    if events.len() > 0 {
        let before = events.drop_last();
        assert forall|i: int| 0 <= i < before.len() implies #[trigger] before[i] is Accepted
            || before[i] is ClientDone by {
            assert(events[i] is Accepted || events[i] is ClientDone);
        }
        assert(events.last() is Accepted || events.last() is ClientDone);
        law_clients_cannot_stop_a_relay(run, before);
    }
}

/// What holds of a running relay at any time. It has the services that it was configured
/// for; clients are served only with a certificate, and with a session to forward
/// announces on exactly where one was asked for; a background task runs only where it was
/// asked for.
pub open spec fn running_as_configured<H: Handles>(
    relay: Relay<H>,
    cluster: Option<Cluster<H>>,
    forward: Option<H::Forward>,
    run: RelayRun<H>,
) -> bool {
    &&& run.services == relay.services(cluster, forward)
    &&& run.ws_bind == relay.ws_bind
    &&& run.tls == relay.tls
    &&& run.tls_server == relay.tls_server
    &&& run.ws_no_tls == relay.ws_no_tls
    &&& run.phase == Phase::Connecting || run.phase == Phase::Negotiating ==> relay.announce is Some
        && forward is None
    &&& run.phase == Phase::Listening || run.phase == Phase::Serving ==> relay.tls_server && (
    forward is Some <==> relay.announce is Some)
    &&& run.phase != Phase::Serving && run.phase != Phase::Finished ==> !run.tasks.websocket
        && run.tasks.clients == 0
    &&& run.phase == Phase::Connecting || run.phase == Phase::Negotiating ==> !run.tasks.forward
    &&& run.tasks.remotes ==> cluster is Some
    &&& run.tasks.forward ==> relay.announce is Some
    &&& run.tasks.websocket ==> relay.ws_bind is Some
}

/// Whatever happens, a relay runs as it was configured, and forwards announces on the
/// session that it set up for that.
pub proof fn law_relay_runs_as_configured<H: Handles>(
    relay: Relay<H>,
    cluster: Option<Cluster<H>>,
    events: Seq<RelayEvent<H>>,
)
    requires
        relay.started(cluster).0.expects_all(events),
    ensures
        running_as_configured(
            relay,
            cluster,
            forward_given(events),
            relay.started(cluster).0.after_all(events),
        ),
    decreases events.len(),
{
    if events.len() > 0 {
        law_relay_runs_as_configured(relay, cluster, events.drop_last());
    }
}

/// A client gets the same from the relay whether it comes over QUIC or over a
/// WebSocket: the services that the relay was configured for, with a session to forward
/// announces on exactly where one was asked for. And the WebSocket server is never
/// started in vain: it has a certificate, or needs none.
pub proof fn law_same_services_over_either_transport<H: Handles>(
    relay: Relay<H>,
    cluster: Option<Cluster<H>>,
    events: Seq<RelayEvent<H>>,
    event: RelayEvent<H>,
)
    requires
        relay.started(cluster).0.expects_all(events),
        relay.started(cluster).0.after_all(events).expects(event),
    ensures
        relay.started(cluster).0.after_all(events).after(event).1.start matches Some(
            Task::Client(client),
        ) ==> client.services == relay.services(cluster, forward_given(events)) && (forward_given(
            events,
        ) is Some <==> relay.announce is Some),
        relay.started(cluster).0.after_all(events).after(event).1.start matches Some(
            Task::WebSocket(config),
        ) ==> config.services() == relay.services(cluster, forward_given(events)) && (forward_given(
            events,
        ) is Some <==> relay.announce is Some) && config.valid() && config.tls == relay.tls
            && relay.ws_bind == Some(config.bind),
{
    law_relay_runs_as_configured(relay, cluster, events);
}

/// All that a relay starts works on one registry, its own: clients over QUIC, the
/// WebSocket server, and the session with the relay that announces are forwarded to.
pub proof fn law_one_registry<H: Handles>(
    relay: Relay<H>,
    cluster: Option<Cluster<H>>,
    events: Seq<RelayEvent<H>>,
    event: RelayEvent<H>,
)
    requires
        relay.started(cluster).0.expects_all(events),
        relay.started(cluster).0.after_all(events).expects(event),
    ensures
        match relay.started(cluster).0.after_all(events).after(event).1.start {
            Some(Task::Forward(roles)) => roles.works_on(relay.locals) && roles.producer is Some
                && roles.consumer is Some,
            Some(Task::WebSocket(config)) => config.services().locals == relay.locals,
            Some(Task::Client(client)) => client.services.locals == relay.locals,
            _ => true,
        },
{
    law_relay_runs_as_configured(relay, cluster, events);
}

/// A relay that has a certificate never stops for want of one.
pub proof fn law_certificate_suffices<H: Handles>(
    relay: Relay<H>,
    cluster: Option<Cluster<H>>,
    events: Seq<RelayEvent<H>>,
    event: RelayEvent<H>,
)
    requires
        relay.tls_server,
        relay.started(cluster).0.expects_all(events),
        relay.started(cluster).0.after_all(events).expects(event),
    ensures
        relay.started(cluster).1.next != Next::<H>::Stop(RelayError::MissingCertificate),
        relay.started(cluster).0.after_all(events).after(event).1.next != Next::<H>::Stop(
            RelayError::MissingCertificate,
        ),
{
    law_relay_runs_as_configured(relay, cluster, events);
}

/// While the relay has not stopped, the tasks that it has are those that it started
/// less those that ended.
pub proof fn law_tasks_balance<H: Handles>(
    relay: Relay<H>,
    cluster: Option<Cluster<H>>,
    events: Seq<RelayEvent<H>>,
)
    requires
        relay.started(cluster).0.expects_all(events),
        relay.started(cluster).0.after_all(events).phase != Phase::Finished,
    ensures
        relay.started(cluster).0.after_all(events).tasks.count() + tasks_ended(events)
            == tasks_started(relay, cluster, events),
    decreases events.len(),
{
    if events.len() > 0 {
        law_relay_runs_as_configured(relay, cluster, events.drop_last());
        law_tasks_balance(relay, cluster, events.drop_last());
    }
}

/// What a relay that announces are forwarded to announces itself goes no further.
pub proof fn law_forward_announces_stay<H: Handles>(run: RelayRun<H>, event: RelayEvent<H>)
    requires
        run.expects(event),
    ensures
        run.after(event).1.start matches Some(Task::Forward(roles)) ==> !roles.passes_announces_on(),
{
}

/// A relay that goes on to serve starts a WebSocket server exactly when an address for one
/// is given, whatever its services are. The server listens at that address, with the
/// relay's TLS, and has all that the relay has for its clients.
pub proof fn law_websocket_server_starts_when_asked_for<H: Handles>(
    run: RelayRun<H>,
    quic_addr: SocketAddr,
)
    requires
        run.phase == Phase::Listening,
    ensures
        ({
            let (next, action) = run.after(RelayEvent::LocalAddr(Ok(quic_addr)));
            &&& next.phase == Phase::Serving
            &&& action.start is Some <==> run.ws_bind is Some
            &&& run.ws_bind is Some ==> (action.start matches Some(Task::WebSocket(_)))
            &&& next.tasks.websocket <==> run.ws_bind is Some || run.tasks.websocket
            &&& next.tasks.remotes == run.tasks.remotes
            &&& next.tasks.forward == run.tasks.forward
            &&& next.tasks.clients == run.tasks.clients
            &&& action.start matches Some(Task::WebSocket(config)) ==> {
                &&& run.ws_bind == Some(config.bind)
                &&& config.quic_addr == quic_addr
                &&& config.tls == run.tls
                &&& config.tls_server == run.tls_server
                &&& config.no_tls == run.ws_no_tls
                &&& config.locals == run.services.locals
                &&& config.remotes == run.services.remotes
                &&& config.api == run.services.api
                &&& config.forward == run.services.forward
            }
        }),
{
}

/// A relay that was asked for a WebSocket server and comes to serve has started it: at the
/// event that made it serve, and it runs from then on until it ends.
pub proof fn law_asked_for_websocket_server_runs<H: Handles>(
    relay: Relay<H>,
    cluster: Option<Cluster<H>>,
    events: Seq<RelayEvent<H>>,
)
    requires
        relay.started(cluster).0.expects_all(events),
        relay.started(cluster).0.after_all(events).phase == Phase::Serving,
        forall|i: int| 0 <= i < events.len() ==> !(#[trigger] events[i] is WebSocketDone),
    ensures
        relay.started(cluster).0.after_all(events).tasks.websocket <==> relay.ws_bind is Some,
    decreases events.len(),
{
    if events.len() > 0 {
        let before = events.drop_last();
        law_relay_runs_as_configured(relay, cluster, before);
        assert forall|i: int| 0 <= i < before.len() implies !(
        #[trigger] before[i] is WebSocketDone) by {
            assert(!(events[i] is WebSocketDone));
        }
        assert(!(events.last() is WebSocketDone));
        if relay.started(cluster).0.after_all(before).phase == Phase::Serving {
            law_asked_for_websocket_server_runs(relay, cluster, before);
        }
    }
}

/// Every client that connects is served, in a task of its own, from the set-up of its
/// session and with all services of the relay. Nothing else changes.
pub proof fn law_every_client_is_served<H: Handles>(run: RelayRun<H>)
    requires
        run.phase == Phase::Serving,
        run.tasks.clients < u64::MAX,
    ensures
        ({
            let (next, action) = run.after(RelayEvent::Accepted);
            &&& run.expects(RelayEvent::Accepted)
            &&& action.start matches Some(Task::Client(client)) && client.services == run.services
                && client.stage == ClientStage::Negotiating
            &&& action.next matches Next::Await { tasks } && tasks
            &&& next.phase == Phase::Serving
            &&& next.services == run.services
            &&& next.tasks.clients == run.tasks.clients + 1
            &&& next.tasks.remotes == run.tasks.remotes
            &&& next.tasks.forward == run.tasks.forward
            &&& next.tasks.websocket == run.tasks.websocket
        }),
{
}

/// When a task ends well, the relay goes on without it, and with everything else as it was.
/// A client may end in any way.
pub proof fn law_relay_goes_on_without_a_task<H: Handles>(run: RelayRun<H>, event: RelayEvent<H>)
    requires
        run.expects(event),
        event is ClientDone || (event matches RelayEvent::RemotesDone(Ok(_))) || (
        event matches RelayEvent::ForwardDone(Ok(_))) || (
        event matches RelayEvent::WebSocketDone(Ok(_))),
    ensures
        ({
            let (next, action) = run.after(event);
            &&& next.phase == Phase::Serving
            &&& next.services == run.services
            &&& action.start is None
            &&& action.next is Await
            &&& next.tasks.clients == run.tasks.clients - (if event is ClientDone {
                1int
            } else {
                0int
            })
            &&& next.tasks.remotes == (run.tasks.remotes && !(event is RemotesDone))
            &&& next.tasks.forward == (run.tasks.forward && !(event is ForwardDone))
            &&& next.tasks.websocket == (run.tasks.websocket && !(event is WebSocketDone))
        }),
{
}

/// While a relay serves, it always awaits clients, and the end of a task exactly while it
/// has one.
pub proof fn law_tasks_are_watched<H: Handles>(run: RelayRun<H>, event: RelayEvent<H>)
    requires
        run.expects(event),
    ensures
        run.after(event).1.next is Await <==> run.after(event).0.phase == Phase::Serving,
        run.after(event).1.next matches Next::Await { tasks } ==> (tasks <==> run.after(
            event,
        ).0.tasks.remotes || run.after(event).0.tasks.forward || run.after(
            event,
        ).0.tasks.websocket || run.after(event).0.tasks.clients > 0),
{
}

/// Every failure of something that the relay as a whole depends on stops it, with an error
/// that says what failed and carries the same cause, and without another task.
pub proof fn law_failures_stop_a_relay<H: Handles>(run: RelayRun<H>, event: RelayEvent<H>)
    requires
        run.expects(event),
    ensures
        event matches RelayEvent::ForwardConnected(Err(cause)) ==> run.after(event).1.next
            == Next::<H>::Stop(RelayError::ForwardConnection(cause)),
        event matches RelayEvent::ForwardNegotiated(Err(cause)) ==> run.after(event).1.next
            == Next::<H>::Stop(RelayError::ForwardSession(cause)),
        event matches RelayEvent::LocalAddr(Err(cause)) ==> run.after(event).1.next
            == Next::<H>::Stop(RelayError::LocalAddr(cause)),
        event is EndpointClosed ==> run.after(event).1.next == Next::<H>::Stop(
            RelayError::EndpointClosed,
        ),
        event matches RelayEvent::RemotesDone(Err(cause)) ==> run.after(event).1.next
            == Next::<H>::Stop(RelayError::Remotes(cause)),
        event matches RelayEvent::ForwardDone(Err(cause)) ==> run.after(event).1.next
            == Next::<H>::Stop(RelayError::Forwarding(cause)),
        event matches RelayEvent::WebSocketDone(Err(cause)) ==> run.after(event).1.next
            == Next::<H>::Stop(RelayError::WebSocket(cause)),
        run.after(event).1.next is Stop <==> run.after(event).0.phase == Phase::Finished,
        run.after(event).1.next matches Next::Stop(error) ==> {
            ||| error == RelayError::MissingCertificate && event is ForwardNegotiated
                && !run.tls_server
            ||| run.after(event).1.start is None && (event is EndpointClosed || (
            event matches RelayEvent::ForwardConnected(Err(_))) || (
            event matches RelayEvent::ForwardNegotiated(Err(_))) || (
            event matches RelayEvent::LocalAddr(Err(_))) || (
            event matches RelayEvent::RemotesDone(Err(_))) || (
            event matches RelayEvent::ForwardDone(Err(_))) || (
            event matches RelayEvent::WebSocketDone(Err(_))))
        },
{
}

/// A connection to the relay that announces are forwarded to leads to a session with it,
/// and nothing is started before there is one.
pub proof fn law_forward_connection_leads_to_a_session<H: Handles>(run: RelayRun<H>)
    requires
        run.phase == Phase::Connecting,
    ensures
        ({
            let (next, action) = run.after(RelayEvent::ForwardConnected(Ok(())));
            &&& next.phase == Phase::Negotiating
            &&& next.services == run.services
            &&& next.tasks == run.tasks
            &&& action.start is None
            &&& action.next is NegotiateForward
        }),
{
}

/// A session with the relay that announces are forwarded to is run in both directions, with
/// the registry and the other relays, and from then on announces are forwarded on it. The
/// relay then turns to its QUIC server, for which it takes a certificate.
pub proof fn law_forward_session_is_run<H: Handles>(run: RelayRun<H>, forward: H::Forward)
    requires
        run.phase == Phase::Negotiating,
    ensures
        ({
            let (next, action) = run.after(RelayEvent::ForwardNegotiated(Ok(forward)));
            &&& action.start matches Some(Task::Forward(roles))
            &&& roles.producer matches Some(producer)
            &&& roles.consumer matches Some(consumer)
            &&& producer.locals == run.services.locals
            &&& producer.remotes == run.services.remotes
            &&& consumer.locals == run.services.locals
            &&& consumer.api is None
            &&& consumer.forward is None
            &&& next.services.forward == Some(forward)
            &&& next.tasks.forward
            &&& next.tasks.remotes == run.tasks.remotes
            &&& next.tasks.websocket == run.tasks.websocket
            &&& next.tasks.clients == run.tasks.clients
            &&& run.tls_server ==> next.phase == Phase::Listening && action.next is LocalAddr
            &&& !run.tls_server ==> next.phase == Phase::Finished && action.next == Next::<
                H,
            >::Stop(RelayError::MissingCertificate)
        }),
{
}

/// No event changes what a relay was configured with, nor its services, but for the session
/// that announces are forwarded on, when it comes up.
pub proof fn law_events_keep_the_configuration<H: Handles>(run: RelayRun<H>, event: RelayEvent<H>)
    ensures
        run.after(event).0.ws_bind == run.ws_bind,
        run.after(event).0.tls == run.tls,
        run.after(event).0.tls_server == run.tls_server,
        run.after(event).0.ws_no_tls == run.ws_no_tls,
        run.after(event).0.services.locals == run.services.locals,
        run.after(event).0.services.remotes == run.services.remotes,
        run.after(event).0.services.api == run.services.api,
        run.after(event).0.services.forward == match event {
            RelayEvent::ForwardNegotiated(Ok(forward)) => Some(forward),
            _ => run.services.forward,
        },
{
}

/// What can happen to a relay in each phase: while it starts, only what it asked for last;
/// while it serves, that a client connects, that the endpoint closes, and that a task ends
/// which it has; and nothing once it has stopped.
pub proof fn law_relay_phases<H: Handles>(run: RelayRun<H>, event: RelayEvent<H>)
    ensures
        run.phase == Phase::Connecting ==> (run.expects(event) <==> event is ForwardConnected),
        run.phase == Phase::Negotiating ==> (run.expects(event) <==> event is ForwardNegotiated),
        run.phase == Phase::Listening ==> (run.expects(event) <==> event is LocalAddr),
        run.phase == Phase::Finished ==> !run.expects(event),
        run.phase == Phase::Serving ==> {
            &&& event is Accepted ==> (run.expects(event) <==> run.tasks.clients < u64::MAX)
            &&& event is EndpointClosed ==> run.expects(event)
            &&& event is RemotesDone ==> (run.expects(event) <==> run.tasks.remotes)
            &&& event is ForwardDone ==> (run.expects(event) <==> run.tasks.forward)
            &&& event is WebSocketDone ==> (run.expects(event) <==> run.tasks.websocket)
            &&& event is ClientDone ==> (run.expects(event) <==> run.tasks.clients > 0)
            &&& !(event is ForwardConnected) && !(event is ForwardNegotiated) && !(
            event is LocalAddr) || !run.expects(event)
        },
{
}

/// A relay starts with its own registry, the handles on its cluster, and nothing to forward
/// to. It connects to the relay that announces go to exactly where one is given, from its
/// own endpoint; else it turns to its QUIC server at once, for which it takes a certificate.
pub proof fn law_relay_starts_as_configured<H: Handles>(
    relay: Relay<H>,
    cluster: Option<Cluster<H>>,
)
    ensures
        ({
            let (run, action) = relay.started(cluster);
            &&& run.ws_bind == relay.ws_bind
            &&& run.tls == relay.tls
            &&& run.tls_server == relay.tls_server
            &&& run.ws_no_tls == relay.ws_no_tls
            &&& run.services.locals == relay.locals
            &&& run.services.forward is None
            &&& cluster is None ==> run.services.remotes is None && run.services.api is None
            &&& cluster matches Some(handles) ==> run.services.remotes == Some(handles.remotes)
                && run.services.api == Some(handles.api)
            &&& run.tasks.remotes <==> cluster is Some
            &&& !run.tasks.forward
            &&& !run.tasks.websocket
            &&& run.tasks.clients == 0
            &&& action.start is Some <==> cluster is Some
            &&& action.start matches Some(task) ==> task is Remotes
            &&& relay.announce matches Some(url) ==> run.phase == Phase::Connecting && action.next
                == Next::<H>::ConnectForward(relay.quic, url)
            &&& relay.announce is None && relay.tls_server ==> run.phase == Phase::Listening
                && action.next is LocalAddr
            &&& relay.announce is None && !relay.tls_server ==> run.phase == Phase::Finished
                && action.next == Next::<H>::Stop(RelayError::MissingCertificate)
        }),
{
}

/// A relay is made with what its configuration gives, on the endpoint that was made for it,
/// and takes handles on a cluster exactly where it has a place in one. What its sessions
/// use is its registry, those handles, and the session to forward on.
pub proof fn law_relay_is_made_as_configured<H: Handles>(
    config: RelayConfig<H>,
    quic: H::Quic,
    cluster: Option<Cluster<H>>,
    forward: Option<H::Forward>,
)
    ensures
        ({
            let relay = Relay::made(config, quic);
            &&& relay.quic == quic
            &&& relay.announce == config.announce
            &&& relay.locals == config.locals
            &&& relay.ws_bind == config.ws_bind
            &&& relay.tls == config.tls
            &&& relay.tls_server == config.tls_server
            &&& relay.ws_no_tls == config.ws_no_tls
            &&& relay.admits(cluster) <==> (cluster is Some <==> config.api is Some
                && config.node is Some)
            &&& config.api is Some && config.node is Some ==> {
                &&& relay.api matches Some(api) && Some(api.url) == config.api && Some(api.node)
                    == config.node
                &&& relay.remotes matches Some(remotes) && Some(remotes.api.url) == config.api
                    && Some(remotes.api.node) == config.node && remotes.quic == quic
            }
            &&& config.api is None || config.node is None ==> relay.api is None
                && relay.remotes is None
            &&& relay.services(cluster, forward).locals == config.locals
            &&& relay.services(cluster, forward).forward == forward
            &&& cluster matches Some(handles) ==> relay.services(cluster, forward).remotes == Some(
                handles.remotes,
            ) && relay.services(cluster, forward).api == Some(handles.api)
            &&& cluster is None ==> relay.services(cluster, forward).remotes is None
                && relay.services(cluster, forward).api is None
        }),
{
}

/// There is a task at all exactly while one of the background tasks or a client is there,
/// and each counts for one.
pub proof fn law_every_task_counts(tasks: Tasks)
    ensures
        tasks.count() == 0 <==> !tasks.remotes && !tasks.forward && !tasks.websocket
            && tasks.clients == 0,
        tasks.clients > 0 ==> tasks.count() == 1 + (Tasks {
            clients: (tasks.clients - 1) as u64,
            ..tasks
        }).count(),
        tasks.remotes ==> tasks.count() == 1 + (Tasks { remotes: false, ..tasks }).count(),
        tasks.forward ==> tasks.count() == 1 + (Tasks { forward: false, ..tasks }).count(),
        tasks.websocket ==> tasks.count() == 1 + (Tasks { websocket: false, ..tasks }).count(),
{
}

/// The message of an error says what failed, or else is that of its cause.
pub proof fn law_relay_messages(cause: String)
    ensures
        RelayError::Endpoint(cause).text() == cause@,
        RelayError::LocalAddr(cause).text() == cause@,
        RelayError::Remotes(cause).text() == cause@,
        RelayError::ForwardConnection(cause).text() == "failed to establish forward connection"@,
        RelayError::ForwardSession(cause).text() == "failed to establish forward session"@,
        RelayError::MissingCertificate.text() == "missing TLS certificate"@,
        RelayError::EndpointClosed.text() == "failed to accept QUIC connection"@,
        RelayError::Forwarding(cause).text() == "forwarding failed"@,
        RelayError::WebSocket(cause).text() == "WebSocket server failed"@,
{
}

/// A relay is made exactly when its endpoint could be: one at the address and with the TLS
/// configuration that are configured. Where it could not, the cause is handed on.
pub proof fn law_relay_is_made_on_its_endpoint<H: Handles>(
    config: RelayConfig<H>,
    endpoint: Result<H::Quic, String>,
)
    ensures
        config.quic_endpoint().bind == config.bind,
        config.quic_endpoint().tls == config.tls,
        Relay::outcome(config, endpoint) is Ok <==> endpoint is Ok,
        endpoint matches Ok(quic) ==> Relay::outcome(config, endpoint)->Ok_0.quic == quic,
        endpoint matches Err(cause) ==> (Relay::outcome(config, endpoint) matches Err(
            RelayError::Endpoint(text),
        ) && text == cause),
{
}

} // verus!
