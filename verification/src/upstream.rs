//! The connection to an upstream relay, which is made again whenever it is lost.

use vstd::prelude::*;
use url::Url;
use crate::addr::{IpAddr, SocketAddr};
use crate::endpoint::EndpointConfig;
use crate::error::labelled;
use crate::handles::Handles;
use crate::roles::{Services, SessionRoles};

verus! {

/// How long to wait before the upstream relay is tried again, in seconds.
pub const RETRY_SECONDS: u64 = 5;

/// Why a connection to the upstream relay came to nothing. What lies behind it is
/// given by its text.
#[derive(Debug)]
pub enum UpstreamError {
    /// There is no QUIC endpoint to connect from.
    Endpoint(String),
    /// The relay could not be reached.
    Connect(String),
    /// The relay was reached, and no MoQ session could be set up.
    Negotiate(String),
    /// The MoQ session broke.
    Session(String),
}

impl UpstreamError {
    /// The message shown for this error.
    pub open spec fn text(self) -> Seq<char> {
        match self {
            UpstreamError::Endpoint(cause) => cause@,
            UpstreamError::Connect(_) => "failed to connect to upstream relay"@,
            UpstreamError::Negotiate(_) => "failed to establish upstream MoQ session"@,
            UpstreamError::Session(cause) => "upstream session error: "@ + cause@,
        }
    }

    /// The message shown for this error.
    pub fn message(&self) -> (text: String)
        ensures
            text@ == self.text(),
    {
        match self {
            UpstreamError::Endpoint(cause) => cause.clone(),
            UpstreamError::Connect(_) => "failed to connect to upstream relay".to_owned(),
            UpstreamError::Negotiate(_) => "failed to establish upstream MoQ session".to_owned(),
            UpstreamError::Session(cause) => labelled("upstream session error: ", cause.as_str()),
        }
    }
}

/// What it takes to connect to an upstream relay.
pub struct UpstreamConfig<H: Handles> {
    /// The relay to connect to.
    pub url: Url,
    /// The TLS configuration to connect with.
    pub tls: H::Tls,
    /// The registry of local tracks, which the upstream relay is served from and whose
    /// announces are entered in it.
    pub locals: H::Locals,
}

/// How far an attempt to connect to the upstream relay has come.
#[derive(Clone, Copy, PartialEq, Eq, Debug, Structural)]
pub enum AttemptStage {
    /// The QUIC endpoint is being made.
    Binding,
    /// The relay is being connected to.
    Connecting,
    /// The MoQ session is being set up.
    Negotiating,
    /// The MoQ session runs.
    Running,
}

/// An attempt to connect to the upstream relay.
pub struct Attempt<H: Handles> {
    pub config: UpstreamConfig<H>,
    pub stage: AttemptStage,
}

/// What happened in an attempt. An error is given by its text.
#[derive(Debug)]
pub enum AttemptEvent {
    /// The QUIC endpoint was made, or not.
    Bound(Result<(), String>),
    /// The relay was connected to, or not.
    Connected(Result<(), String>),
    /// The MoQ session was set up, or not.
    Negotiated(Result<(), String>),
    /// The MoQ session ended.
    Ended(Result<(), String>),
}

/// What comes of an event in an attempt.
pub enum AttemptStep<H: Handles> {
    /// Connect to the relay at this URL next.
    Connect(Url),
    /// Set up a MoQ session next.
    Negotiate,
    /// Run the MoQ session next, in these roles.
    Run(SessionRoles<H>),
    /// The attempt is over.
    Over(Result<(), UpstreamError>),
}

/// The address that the QUIC endpoint of an attempt is bound to: any local address,
/// at a port that the system picks.
pub open spec fn client_addr() -> SocketAddr {
    SocketAddr::any_at(0)
}

impl<H: Handles> UpstreamConfig<H> {
    /// The QUIC endpoint that an attempt is made from.
    pub open spec fn endpoint(self) -> EndpointConfig<H> {
        EndpointConfig { bind: client_addr(), tls: self.tls }
    }

    /// What comes of an event in an attempt to connect to this relay.
    pub open spec fn outcome(self, event: AttemptEvent) -> AttemptStep<H> {
        match event {
            AttemptEvent::Bound(Ok(())) => AttemptStep::Connect(self.url),
            AttemptEvent::Bound(Err(cause)) => AttemptStep::Over(
                Err(UpstreamError::Endpoint(cause)),
            ),
            AttemptEvent::Connected(Ok(())) => AttemptStep::Negotiate,
            AttemptEvent::Connected(Err(cause)) => AttemptStep::Over(
                Err(UpstreamError::Connect(cause)),
            ),
            AttemptEvent::Negotiated(Ok(())) => AttemptStep::Run(
                Services::local_only(self.locals).for_relay(),
            ),
            AttemptEvent::Negotiated(Err(cause)) => AttemptStep::Over(
                Err(UpstreamError::Negotiate(cause)),
            ),
            AttemptEvent::Ended(Ok(())) => AttemptStep::Over(Ok(())),
            AttemptEvent::Ended(Err(cause)) => AttemptStep::Over(
                Err(UpstreamError::Session(cause)),
            ),
        }
    }

    /// What to do after an event in the background task for this relay.
    pub open spec fn action(self, event: UpstreamEvent) -> UpstreamAction<H> {
        match event {
            UpstreamEvent::Waited => UpstreamAction::Bind(self.endpoint()),
            UpstreamEvent::Attempt(e) => match self.outcome(e) {
                AttemptStep::Connect(url) => UpstreamAction::Connect(url),
                AttemptStep::Negotiate => UpstreamAction::Negotiate,
                AttemptStep::Run(roles) => UpstreamAction::Run(roles),
                AttemptStep::Over(end) => UpstreamAction::Wait(RETRY_SECONDS, end),
            },
        }
    }
}

impl<H: Handles> Attempt<H> {
    /// An attempt that has just begun.
    pub open spec fn at_start(config: UpstreamConfig<H>) -> Attempt<H> {
        Attempt { config, stage: AttemptStage::Binding }
    }

    /// Whether this can happen in the attempt now.
    pub open spec fn expects(self, event: AttemptEvent) -> bool {
        match event {
            AttemptEvent::Bound(_) => self.stage == AttemptStage::Binding,
            AttemptEvent::Connected(_) => self.stage == AttemptStage::Connecting,
            AttemptEvent::Negotiated(_) => self.stage == AttemptStage::Negotiating,
            AttemptEvent::Ended(_) => self.stage == AttemptStage::Running,
        }
    }

    /// The attempt after an event. One that is over stays where it was.
    pub open spec fn after(self, event: AttemptEvent) -> Attempt<H> {
        Attempt {
            config: self.config,
            stage: match self.config.outcome(event) {
                AttemptStep::Connect(_) => AttemptStage::Connecting,
                AttemptStep::Negotiate => AttemptStage::Negotiating,
                AttemptStep::Run(_) => AttemptStage::Running,
                AttemptStep::Over(_) => self.stage,
            },
        }
    }

    /// Takes in what happened. An attempt goes from one stage to the next until
    /// something fails or the MoQ session ends. It connects to its own relay, once; on
    /// the session nothing is fetched from other relays, and announces go no further
    /// than the registry.
    pub fn step(self, event: AttemptEvent) -> (res: (Attempt<H>, AttemptStep<H>))
        requires
            self.expects(event),
        ensures
            res == (self.after(event), self.config.outcome(event)),
    {
        let Attempt { config, stage } = self;
        let (stage, step) = match event {
            AttemptEvent::Bound(Ok(())) => (
                AttemptStage::Connecting,
                AttemptStep::Connect(config.url.clone()),
            ),
            AttemptEvent::Bound(Err(cause)) => (
                stage,
                AttemptStep::Over(Err(UpstreamError::Endpoint(cause))),
            ),
            AttemptEvent::Connected(Ok(())) => (AttemptStage::Negotiating, AttemptStep::Negotiate),
            AttemptEvent::Connected(Err(cause)) => (
                stage,
                AttemptStep::Over(Err(UpstreamError::Connect(cause))),
            ),
            AttemptEvent::Negotiated(Ok(())) => (
                AttemptStage::Running,
                AttemptStep::Run(Services::alone(config.locals).relay_roles()),
            ),
            AttemptEvent::Negotiated(Err(cause)) => (
                stage,
                AttemptStep::Over(Err(UpstreamError::Negotiate(cause))),
            ),
            AttemptEvent::Ended(Ok(())) => (stage, AttemptStep::Over(Ok(()))),
            AttemptEvent::Ended(Err(cause)) => (
                stage,
                AttemptStep::Over(Err(UpstreamError::Session(cause))),
            ),
        };
        (Attempt { config, stage }, step)
    }
}

/// Starts an attempt to connect to an upstream relay. The first thing to do is to
/// make the QUIC endpoint that comes with it: at any local address, at a port that the
/// system picks, with the TLS configuration that was given.
pub fn connect_upstream<H: Handles>(upstream_url: Url, tls: H::Tls, locals: H::Locals) -> (res: (
    Attempt<H>,
    EndpointConfig<H>,
))
    ensures
        res.0 == Attempt::<H>::at_start(UpstreamConfig { url: upstream_url, tls, locals }),
        res.1 == (EndpointConfig::<H> { bind: client_addr(), tls }),
{
    let config = UpstreamConfig { url: upstream_url, tls, locals };
    (
        Attempt { config, stage: AttemptStage::Binding },
        EndpointConfig { bind: SocketAddr::any(0), tls },
    )
}

/// The background task that keeps the relay connected to its upstream.
pub enum Upstream<H: Handles> {
    /// An attempt is under way.
    Trying(Attempt<H>),
    /// The pause before the next attempt.
    Waiting(UpstreamConfig<H>),
}

/// What happened in the background task.
#[derive(Debug)]
pub enum UpstreamEvent {
    /// Something happened in the attempt.
    Attempt(AttemptEvent),
    /// The pause is over.
    Waited,
}

/// What to do next in the background task.
pub enum UpstreamAction<H: Handles> {
    /// Make this QUIC endpoint.
    Bind(EndpointConfig<H>),
    /// Connect to the relay at this URL.
    Connect(Url),
    /// Set up a MoQ session.
    Negotiate,
    /// Run the MoQ session in these roles.
    Run(SessionRoles<H>),
    /// Wait for so many seconds; the attempt ended like this.
    Wait(u64, Result<(), UpstreamError>),
}

impl<H: Handles> Upstream<H> {
    /// The task as it starts, with an attempt.
    pub open spec fn at_start(config: UpstreamConfig<H>) -> Upstream<H> {
        Upstream::Trying(Attempt::at_start(config))
    }

    /// The relay that the task is about.
    pub open spec fn config(self) -> UpstreamConfig<H> {
        match self {
            Upstream::Trying(attempt) => attempt.config,
            Upstream::Waiting(config) => config,
        }
    }

    /// Whether this can happen in the task now.
    pub open spec fn expects(self, event: UpstreamEvent) -> bool {
        match event {
            UpstreamEvent::Attempt(e) => self matches Upstream::Trying(attempt) && attempt.expects(e),
            UpstreamEvent::Waited => self is Waiting,
        }
    }

    /// The task after an event.
    pub open spec fn after(self, event: UpstreamEvent) -> Upstream<H> {
        match (event, self) {
            (UpstreamEvent::Attempt(e), Upstream::Trying(attempt)) => if attempt.config.outcome(
                e,
            ) is Over {
                Upstream::Waiting(attempt.config)
            } else {
                Upstream::Trying(attempt.after(e))
            },
            _ => Upstream::at_start(self.config()),
        }
    }

    /// Starts the task, with an attempt at once.
    pub fn new(config: UpstreamConfig<H>) -> (res: (Upstream<H>, UpstreamAction<H>))
        ensures
            res.0 == Self::at_start(config),
            res.1 == UpstreamAction::Bind(config.endpoint()),
    {
        let (attempt, endpoint) = connect_upstream(config.url, config.tls, config.locals);
        (Upstream::Trying(attempt), UpstreamAction::Bind(endpoint))
    }

    /// Takes in what happened. However an attempt ends, well or badly, there is a
    /// pause and then another one, to the same relay: the task never ends by itself.
    pub fn step(self, event: UpstreamEvent) -> (res: (Upstream<H>, UpstreamAction<H>))
        requires
            self.expects(event),
        ensures
            res == (self.after(event), self.config().action(event)),
    {
        match (event, self) {
            (UpstreamEvent::Attempt(e), Upstream::Trying(attempt)) => {
                let (attempt, step) = attempt.step(e);
                match step {
                    AttemptStep::Connect(url) => (
                        Upstream::Trying(attempt),
                        UpstreamAction::Connect(url),
                    ),
                    AttemptStep::Negotiate => (
                        Upstream::Trying(attempt),
                        UpstreamAction::Negotiate,
                    ),
                    AttemptStep::Run(roles) => (
                        Upstream::Trying(attempt),
                        UpstreamAction::Run(roles),
                    ),
                    AttemptStep::Over(end) => (
                        Upstream::Waiting(attempt.config),
                        UpstreamAction::Wait(RETRY_SECONDS, end),
                    ),
                }
            },
            (_, Upstream::Trying(attempt)) => Upstream::new(attempt.config),
            (_, Upstream::Waiting(config)) => Upstream::new(config),
        }
    }

    /// Whether a run of events can happen in the task, in this order.
    pub open spec fn expects_all(self, events: Seq<UpstreamEvent>) -> bool
        decreases events.len(),
    {
        events.len() == 0 || (self.expects_all(events.drop_last()) && self.after_all(
            events.drop_last(),
        ).expects(events.last()))
    }

    /// The task after a run of events.
    pub open spec fn after_all(self, events: Seq<UpstreamEvent>) -> Upstream<H>
        decreases events.len(),
    {
        if events.len() == 0 {
            self
        } else {
            self.after_all(events.drop_last()).after(events.last())
        }
    }
}

/// What the task for a relay does in a run of events, from its start: the first thing,
/// and then one thing for each event.
pub open spec fn upstream_actions<H: Handles>(
    config: UpstreamConfig<H>,
    events: Seq<UpstreamEvent>,
) -> Seq<UpstreamAction<H>> {
    Seq::new(
        events.len() + 1,
        |i: int|
            if i == 0 {
                UpstreamAction::Bind(config.endpoint())
            } else {
                config.action(events[i - 1])
            },
    )
}

/// Whatever happens, the task is about the relay that it was started for: what it does
/// about the next event is the next of its [`upstream_actions`].
pub proof fn law_upstream_stays_the_same<H: Handles>(
    config: UpstreamConfig<H>,
    events: Seq<UpstreamEvent>,
    event: UpstreamEvent,
)
    ensures
        Upstream::at_start(config).after_all(events).config() == config,
        Upstream::at_start(config).after_all(events).config().action(event) == upstream_actions(
            config,
            events.push(event),
        ).last(),
    decreases events.len(),
{
    if events.len() > 0 {
        law_upstream_stays_the_same(config, events.drop_last(), events.last());
    }
}

/// The task connects to the relay that it was started for and to no other. Its endpoints
/// have the TLS configuration that it was given and any local address, and it connects
/// only directly after it has asked for one: there is one connection to an endpoint.
pub proof fn law_upstream_connects_to_its_relay<H: Handles>(
    config: UpstreamConfig<H>,
    events: Seq<UpstreamEvent>,
    i: int,
)
    requires
        Upstream::at_start(config).expects_all(events),
        0 <= i <= events.len(),
    ensures
        upstream_actions(config, events)[i] matches UpstreamAction::Connect(url) ==> url == config.url
            && i > 0 && upstream_actions(config, events)[i - 1] is Bind,
        upstream_actions(config, events)[i] matches UpstreamAction::Bind(endpoint) ==> endpoint.bind
            == client_addr() && endpoint.tls == config.tls,
    decreases events.len(),
{
    let before = events.drop_last();
    if i < events.len() {
        assert(upstream_actions(config, before)[i] == upstream_actions(config, events)[i]);
        if i > 0 {
            assert(upstream_actions(config, before)[i - 1] == upstream_actions(config, events)[i - 1]);
        }
        law_upstream_connects_to_its_relay(config, before, i);
    } else if i > 0 {
        lemma_binding_means_bind(config, before);
        assert(upstream_actions(config, before)[i - 1] == upstream_actions(config, events)[i - 1]);
    }
}

/// The task makes an endpoint only when the last thing that it did was to ask for one.
proof fn lemma_binding_means_bind<H: Handles>(
    config: UpstreamConfig<H>,
    events: Seq<UpstreamEvent>,
)
    requires
        Upstream::at_start(config).expects_all(events),
    ensures
        Upstream::at_start(config).after_all(events) matches Upstream::Trying(attempt) && attempt.stage
            == AttemptStage::Binding ==> upstream_actions(config, events)[events.len() as int] is Bind,
{
}

/// Between two attempts there is a pause of five seconds: a new QUIC endpoint is
/// made at the very start and directly after a pause, never else. In particular a
/// relay that is down is not hammered.
pub proof fn law_pause_before_retry<H: Handles>(
    config: UpstreamConfig<H>,
    events: Seq<UpstreamEvent>,
    i: int,
)
    requires
        Upstream::at_start(config).expects_all(events),
        0 < i <= events.len(),
        upstream_actions(config, events)[i] is Bind,
    ensures
        upstream_actions(config, events)[i - 1] matches UpstreamAction::Wait(seconds, _) && seconds
            == 5,
    decreases events.len(),
{
    let before = events.drop_last();
    assert(upstream_actions(config, before)[i - 1] == upstream_actions(config, events)[i - 1]);
    if i < events.len() {
        assert(upstream_actions(config, before)[i] == upstream_actions(config, events)[i]);
        law_pause_before_retry(config, before, i);
    } else {
        assert(events.last() is Waited);
        lemma_waiting_means_wait(config, before);
    }
}

/// The task waits only when the last thing that it did was to wait.
proof fn lemma_waiting_means_wait<H: Handles>(
    config: UpstreamConfig<H>,
    events: Seq<UpstreamEvent>,
)
    requires
        Upstream::at_start(config).expects_all(events),
        Upstream::at_start(config).after_all(events) is Waiting,
    ensures
        upstream_actions(config, events)[events.len() as int] matches UpstreamAction::Wait(seconds, _)
            && seconds == 5,
{
}

/// Every pause leads to a new attempt, from the beginning.
pub proof fn law_retry_after_pause<H: Handles>(
    config: UpstreamConfig<H>,
    events: Seq<UpstreamEvent>,
    i: int,
)
    requires
        Upstream::at_start(config).expects_all(events),
        0 <= i < events.len(),
        upstream_actions(config, events)[i] is Wait,
    ensures
        upstream_actions(config, events)[i + 1] == UpstreamAction::Bind(config.endpoint()),
    decreases events.len(),
{
    let before = events.drop_last();
    assert(upstream_actions(config, before)[i] == upstream_actions(config, events)[i]);
    if i + 1 < events.len() {
        assert(upstream_actions(config, before)[i + 1] == upstream_actions(config, events)[i + 1]);
        law_retry_after_pause(config, before, i);
    } else {
        lemma_wait_means_waiting(config, before);
        assert(events.last() is Waited);
    }
}

/// When the last thing that the task did was to wait, it waits.
proof fn lemma_wait_means_waiting<H: Handles>(
    config: UpstreamConfig<H>,
    events: Seq<UpstreamEvent>,
)
    requires
        Upstream::at_start(config).expects_all(events),
        upstream_actions(config, events)[events.len() as int] is Wait,
    ensures
        Upstream::at_start(config).after_all(events) is Waiting,
{
}

/// Whenever the task runs a session with the upstream relay, it does so on the registry
/// that it was given: what clients announce there is served upstream, and what the
/// upstream relay announces is served to them. It goes no further than that, and nothing
/// is fetched from elsewhere for it.
pub proof fn law_upstream_announces_stay<H: Handles>(
    config: UpstreamConfig<H>,
    events: Seq<UpstreamEvent>,
    i: int,
)
    requires
        0 <= i <= events.len(),
    ensures
        upstream_actions(config, events)[i] matches UpstreamAction::Run(roles) ==> {
            &&& roles.producer is Some
            &&& roles.consumer is Some
            &&& roles.works_on(config.locals)
            &&& !roles.passes_announces_on()
            &&& roles.producer->Some_0.remotes is None
        },
{
}

/// Every failure ends an attempt, with an error that says at which stage it came and
/// carries the same cause; so does the end of the session. Nothing else ends it.
pub proof fn law_failures_end_an_attempt<H: Handles>(attempt: Attempt<H>, event: AttemptEvent)
    requires
        attempt.expects(event),
    ensures
        event matches AttemptEvent::Bound(Err(cause)) ==> attempt.config.outcome(event)
            == AttemptStep::<H>::Over(Err(UpstreamError::Endpoint(cause))),
        event matches AttemptEvent::Connected(Err(cause)) ==> attempt.config.outcome(event)
            == AttemptStep::<H>::Over(Err(UpstreamError::Connect(cause))),
        event matches AttemptEvent::Negotiated(Err(cause)) ==> attempt.config.outcome(event)
            == AttemptStep::<H>::Over(Err(UpstreamError::Negotiate(cause))),
        event matches AttemptEvent::Ended(Err(cause)) ==> attempt.config.outcome(event)
            == AttemptStep::<H>::Over(Err(UpstreamError::Session(cause))),
        event matches AttemptEvent::Ended(Ok(_)) ==> attempt.config.outcome(event)
            == AttemptStep::<H>::Over(Ok(())),
        attempt.config.outcome(event) is Over ==> event is Ended || (
        event matches AttemptEvent::Bound(Err(_))) || (event matches AttemptEvent::Connected(
            Err(_),
        )) || (event matches AttemptEvent::Negotiated(Err(_))),
{
}

/// An attempt goes on exactly when the stage before succeeded: it connects, to its own
/// relay, when there is an endpoint; it sets up a session when it is connected; and it
/// runs the session, in both directions and on its own registry, when that is set up.
pub proof fn law_attempt_goes_from_stage_to_stage<H: Handles>(
    attempt: Attempt<H>,
    event: AttemptEvent,
)
    requires
        attempt.expects(event),
    ensures
        attempt.after(event).config == attempt.config,
        attempt.config.outcome(event) is Connect <==> (event matches AttemptEvent::Bound(Ok(_))),
        attempt.config.outcome(event) is Negotiate <==> (event matches AttemptEvent::Connected(
            Ok(_),
        )),
        attempt.config.outcome(event) is Run <==> (event matches AttemptEvent::Negotiated(Ok(_))),
        attempt.config.outcome(event) matches AttemptStep::Connect(url) ==> url
            == attempt.config.url && attempt.after(event).stage == AttemptStage::Connecting,
        attempt.config.outcome(event) is Negotiate ==> attempt.after(event).stage
            == AttemptStage::Negotiating,
        attempt.config.outcome(event) matches AttemptStep::Run(roles) ==> {
            &&& attempt.after(event).stage == AttemptStage::Running
            &&& roles.producer matches Some(producer)
            &&& roles.consumer matches Some(consumer)
            &&& producer.locals == attempt.config.locals
            &&& producer.remotes is None
            &&& consumer.locals == attempt.config.locals
            &&& consumer.api is None
            &&& consumer.forward is None
        },
{
}

/// However an attempt ends, the task waits for five seconds, and the way that it ended is
/// told: with the error of the stage that failed, and its cause, or well.
pub proof fn law_failures_lead_to_a_pause<H: Handles>(task: Upstream<H>, event: AttemptEvent)
    requires
        task.expects(UpstreamEvent::Attempt(event)),
    ensures
        event matches AttemptEvent::Bound(Err(cause)) ==> task.config().action(
            UpstreamEvent::Attempt(event),
        ) == UpstreamAction::<H>::Wait(5, Err(UpstreamError::Endpoint(cause))),
        event matches AttemptEvent::Connected(Err(cause)) ==> task.config().action(
            UpstreamEvent::Attempt(event),
        ) == UpstreamAction::<H>::Wait(5, Err(UpstreamError::Connect(cause))),
        event matches AttemptEvent::Negotiated(Err(cause)) ==> task.config().action(
            UpstreamEvent::Attempt(event),
        ) == UpstreamAction::<H>::Wait(5, Err(UpstreamError::Negotiate(cause))),
        event matches AttemptEvent::Ended(Err(cause)) ==> task.config().action(
            UpstreamEvent::Attempt(event),
        ) == UpstreamAction::<H>::Wait(5, Err(UpstreamError::Session(cause))),
        event matches AttemptEvent::Ended(Ok(_)) ==> task.config().action(
            UpstreamEvent::Attempt(event),
        ) == UpstreamAction::<H>::Wait(5, Ok(())),
        task.config().action(UpstreamEvent::Attempt(event)) is Wait <==> task.after(
            UpstreamEvent::Attempt(event),
        ) is Waiting,
        task.after(UpstreamEvent::Attempt(event)) matches Upstream::Waiting(config) ==> task
            == Upstream::Trying(Attempt { config, stage: task->Trying_0.stage }),
{
}

/// While an attempt succeeds, the task goes on with it: it connects to the relay that it is
/// about, sets up a session, and runs it on the registry that it was given.
pub proof fn law_task_goes_on_with_an_attempt<H: Handles>(
    attempt: Attempt<H>,
    event: AttemptEvent,
)
    requires
        attempt.expects(event),
    ensures
        ({
            let task = Upstream::Trying(attempt);
            let action = task.config().action(UpstreamEvent::Attempt(event));
            let next = task.after(UpstreamEvent::Attempt(event));
            &&& action is Connect <==> (event matches AttemptEvent::Bound(Ok(_)))
            &&& action is Negotiate <==> (event matches AttemptEvent::Connected(Ok(_)))
            &&& action is Run <==> (event matches AttemptEvent::Negotiated(Ok(_)))
            &&& !(action is Bind)
            &&& action matches UpstreamAction::Connect(url) ==> url == attempt.config.url && next
                == Upstream::Trying(
                Attempt { config: attempt.config, stage: AttemptStage::Connecting },
            )
            &&& action is Negotiate ==> next == Upstream::Trying(
                Attempt { config: attempt.config, stage: AttemptStage::Negotiating },
            )
            &&& action is Run ==> next == Upstream::Trying(
                Attempt { config: attempt.config, stage: AttemptStage::Running },
            )
            &&& action matches UpstreamAction::Run(roles) ==> {
                &&& roles.producer matches Some(producer)
                &&& roles.consumer matches Some(consumer)
                &&& producer.locals == attempt.config.locals
                &&& producer.remotes is None
                &&& consumer.locals == attempt.config.locals
                &&& consumer.api is None
                &&& consumer.forward is None
            }
        }),
{
}

/// After a pause the task tries the same relay again from the beginning: it asks for an
/// endpoint at `[::]:0`, with the TLS configuration that it was given, as it did at first.
pub proof fn law_pause_leads_to_an_attempt<H: Handles>(config: UpstreamConfig<H>)
    ensures
        Upstream::Waiting(config).expects(UpstreamEvent::Waited),
        Upstream::Waiting(config).after(UpstreamEvent::Waited) == Upstream::Trying(
            Attempt { config, stage: AttemptStage::Binding },
        ),
        Upstream::Waiting(config).config().action(
            UpstreamEvent::Waited,
        ) matches UpstreamAction::Bind(endpoint) && {
            &&& endpoint.bind.port == 0
            &&& endpoint.bind.ip == (IpAddr::V6 { bits: 0, flowinfo: 0, scope_id: 0 })
            &&& endpoint.tls == config.tls
        },
        Upstream::at_start(config) == Upstream::Trying(
            Attempt { config, stage: AttemptStage::Binding },
        ),
        config.endpoint().bind.port == 0,
        config.endpoint().bind.ip == (IpAddr::V6 { bits: 0, flowinfo: 0, scope_id: 0 }),
        config.endpoint().tls == config.tls,
        client_addr().port == 0,
{
}

/// What can happen in an attempt at each stage, and in the task: only what was asked for
/// last, whether it went well or not.
pub proof fn law_upstream_stages<H: Handles>(
    attempt: Attempt<H>,
    event: AttemptEvent,
    config: UpstreamConfig<H>,
)
    ensures
        Attempt::at_start(config).config == config,
        Attempt::at_start(config).stage == AttemptStage::Binding,
        attempt.stage == AttemptStage::Binding ==> (attempt.expects(event) <==> event is Bound),
        attempt.stage == AttemptStage::Connecting ==> (attempt.expects(event)
            <==> event is Connected),
        attempt.stage == AttemptStage::Negotiating ==> (attempt.expects(event)
            <==> event is Negotiated),
        attempt.stage == AttemptStage::Running ==> (attempt.expects(event) <==> event is Ended),
        Upstream::Trying(attempt).expects(UpstreamEvent::Attempt(event)) <==> attempt.expects(
            event,
        ),
        !Upstream::Trying(attempt).expects(UpstreamEvent::Waited),
        !Upstream::Waiting(config).expects(UpstreamEvent::Attempt(event)),
{
}

/// The message of an error names the stage that failed, and says the cause where the stage
/// does not: for the endpoint the cause alone, and for the session the cause at the end.
pub proof fn law_upstream_messages(cause: String)
    ensures
        UpstreamError::Endpoint(cause).text() == cause@,
        UpstreamError::Connect(cause).text() == "failed to connect to upstream relay"@,
        UpstreamError::Negotiate(cause).text() == "failed to establish upstream MoQ session"@,
        UpstreamError::Session(cause).text().len() == "upstream session error: "@.len()
            + cause@.len(),
        "upstream session error: "@.is_prefix_of(UpstreamError::Session(cause).text()),
        cause@ == UpstreamError::Session(cause).text().skip(
            "upstream session error: "@.len() as int,
        ),
{
}

} // verus!
