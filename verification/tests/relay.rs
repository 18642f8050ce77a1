use moq_relay::addr::{IpAddr, SocketAddr};
use moq_relay::client::{Client, ClientAction, ClientEvent, ClientStage};
use moq_relay::handles::Handles;
use moq_relay::relay::{
    Cluster, Next, Phase, Relay, RelayAction, RelayConfig, RelayError, RelayEvent, RelayRun, Task,
};
use moq_relay::roles::{ConsumerRole, Offer, ProducerRole, Services, SessionRoles};
use url::Url;

/// Handles that tell themselves apart.
#[derive(Clone, Copy, PartialEq, Debug)]
struct Ids;

impl Handles for Ids {
    type Tls = u8;
    type Quic = i8;
    type Locals = u16;
    type Remotes = u32;
    type Api = u64;
    type Forward = char;
}

fn url(text: &str) -> Url {
    Url::parse(text).unwrap()
}

fn v4(port: u16) -> SocketAddr {
    SocketAddr { ip: IpAddr::V4(0x7f00_0001), port }
}

fn config() -> RelayConfig<Ids> {
    RelayConfig {
        bind: SocketAddr::any(443),
        tls: 8,
        tls_server: true,
        locals: 16,
        announce: None,
        api: None,
        node: None,
        ws_bind: None,
        ws_no_tls: false,
    }
}

fn cluster() -> RelayConfig<Ids> {
    RelayConfig {
        announce: Some(url("https://forward.example/")),
        api: Some(url("https://api.example/")),
        node: Some(url("https://node.example/")),
        ws_bind: Some(v4(4444)),
        ..config()
    }
}

fn relay(config: RelayConfig<Ids>) -> Relay<Ids> {
    match Relay::new(config, Ok(-8)) {
        Ok(relay) => relay,
        Err(e) => panic!("{:?}", e),
    }
}

fn failed<T>() -> Result<T, String> {
    Err("cause".to_string())
}

/// Starts a relay, with handles on the cluster where it has a place in one.
fn start(relay: Relay<Ids>) -> (RelayRun<Ids>, RelayAction<Ids>) {
    let handles = relay.remotes.as_ref().map(|_| Cluster { api: 64, remotes: 32 });
    relay.run(handles)
}

fn full() -> Services<Ids> {
    Services { locals: 16, remotes: Some(32), api: Some(64), forward: Some('f') }
}

fn same(one: &Services<Ids>, other: &Services<Ids>) -> bool {
    one.locals == other.locals
        && one.remotes == other.remotes
        && one.api == other.api
        && one.forward == other.forward
}

fn producer(roles: &SessionRoles<Ids>) -> Option<(u16, Option<u32>)> {
    roles.producer.map(|ProducerRole { locals, remotes }| (locals, remotes))
}

fn consumer(roles: &SessionRoles<Ids>) -> Option<(u16, Option<u64>, Option<char>)> {
    roles.consumer.map(|ConsumerRole { locals, api, forward }| (locals, api, forward))
}

/// A relay that serves clients, with all that goes with it.
fn serving(config: RelayConfig<Ids>) -> RelayRun<Ids> {
    let forward = config.announce.is_some();
    let (mut run, _) = start(relay(config));
    if forward {
        run = run.step(RelayEvent::ForwardConnected(Ok(()))).0;
        run = run.step(RelayEvent::ForwardNegotiated(Ok('f'))).0;
    }
    run.step(RelayEvent::LocalAddr(Ok(v4(443)))).0
}

fn stop(action: RelayAction<Ids>) -> RelayError {
    assert!(action.start.is_none());
    match action.next {
        Next::Stop(e) => e,
        _ => panic!("not stopped"),
    }
}

#[test]
fn cluster_takes_both_urls() {
    let made = relay(cluster());
    let api = made.api.unwrap();
    assert_eq!(api.url.as_str(), "https://api.example/");
    assert_eq!(api.node.as_str(), "https://node.example/");
    assert_eq!((made.locals, made.tls, made.quic), (16, 8, -8));
    let remotes = made.remotes.unwrap();
    assert_eq!(remotes.api.url.as_str(), "https://api.example/");
    assert_eq!(remotes.api.node.as_str(), "https://node.example/");
    assert_eq!(remotes.quic, -8);

    let made = relay(RelayConfig { node: None, ..cluster() });
    assert!(made.api.is_none() && made.remotes.is_none());
    let made = relay(RelayConfig { api: None, ..cluster() });
    assert!(made.api.is_none() && made.remotes.is_none());
    assert_eq!(made.announce.unwrap().as_str(), "https://forward.example/");
    assert_eq!(made.ws_bind, Some(v4(4444)));
}

#[test]
fn half_a_cluster_is_none() {
    for config in [RelayConfig { node: None, ..cluster() }, RelayConfig { api: None, ..cluster() }] {
        let (run, action) = start(relay(config));
        assert!(action.start.is_none());
        assert!(!run.tasks.remotes);
        assert!(run.services.remotes.is_none() && run.services.api.is_none());
    }
}

#[test]
fn endpoint_is_the_configured_one() {
    let endpoint = RelayConfig { bind: v4(4443), tls: 9, ..config() }.endpoint();
    assert_eq!((endpoint.bind, endpoint.tls), (v4(4443), 9));
}

#[test]
fn endpoint_failure_is_passed_on() {
    match Relay::new(config(), Err("failed to bind UDP socket".to_string())) {
        Err(e) => assert_eq!(e.message(), "failed to bind UDP socket"),
        Ok(_) => panic!("made without an endpoint"),
    }
}

#[test]
fn plain_relay_listens_at_once() {
    let (run, action) = start(relay(config()));
    assert!(action.start.is_none());
    assert!(matches!(action.next, Next::LocalAddr));
    assert_eq!(run.phase, Phase::Listening);
    let (run, action) = run.step(RelayEvent::LocalAddr(Ok(v4(443))));
    assert_eq!(run.phase, Phase::Serving);
    assert!(action.start.is_none());
    assert!(matches!(action.next, Next::Await { tasks: false }));
}

#[test]
fn relay_without_certificate_stops() {
    let (run, action) = start(relay(RelayConfig { tls_server: false, ..config() }));
    assert_eq!(run.phase, Phase::Finished);
    assert_eq!(stop(action).message(), "missing TLS certificate");

    let (run, _) = start(relay(RelayConfig { tls_server: false, ..cluster() }));
    let (run, _) = run.step(RelayEvent::ForwardConnected(Ok(())));
    let (run, action) = run.step(RelayEvent::ForwardNegotiated(Ok('f')));
    assert_eq!(run.phase, Phase::Finished);
    assert!(matches!(action.next, Next::Stop(RelayError::MissingCertificate)));
}

#[test]
fn everything_starts_in_order() {
    let (run, action) = start(relay(cluster()));
    assert!(matches!(action.start, Some(Task::Remotes)));
    match action.next {
        Next::ConnectForward(from, to) => {
            assert_eq!((from, to.as_str()), (-8, "https://forward.example/"))
        }
        _ => panic!("nothing to connect to"),
    }
    let (run, action) = run.step(RelayEvent::ForwardConnected(Ok(())));
    assert!(action.start.is_none());
    assert!(matches!(action.next, Next::NegotiateForward));
    let (run, action) = run.step(RelayEvent::ForwardNegotiated(Ok('f')));
    match action.start {
        Some(Task::Forward(roles)) => {
            assert_eq!(producer(&roles), Some((16, Some(32))));
            assert_eq!(consumer(&roles), Some((16, None, None)));
        }
        _ => panic!("no session to forward on"),
    }
    assert!(matches!(action.next, Next::LocalAddr));
    let (run, action) = run.step(RelayEvent::LocalAddr(Ok(v4(443))));
    match action.start {
        Some(Task::WebSocket(config)) => {
            assert_eq!(config.bind, v4(4444));
            assert_eq!(config.quic_addr, v4(443));
            assert!(config.tls_server && !config.no_tls);
            assert_eq!((config.locals, config.tls), (16, 8));
            assert_eq!((config.remotes, config.api), (Some(32), Some(64)));
            assert_eq!(config.forward, Some('f'));
        }
        _ => panic!("no WebSocket server"),
    }
    assert!(matches!(action.next, Next::Await { tasks: true }));
    assert!(run.tasks.remotes && run.tasks.forward && run.tasks.websocket);
    assert_eq!(run.tasks.clients, 0);
}

#[test]
fn failures_before_serving_stop_the_relay() {
    let (run, _) = start(relay(cluster()));
    let (end, action) = run.step(RelayEvent::ForwardConnected(failed()));
    assert_eq!(end.phase, Phase::Finished);
    assert_eq!(stop(action).message(), "failed to establish forward connection");
    let (run, _) = run.step(RelayEvent::ForwardConnected(Ok(())));
    let (_, action) = run.step(RelayEvent::ForwardNegotiated(failed()));
    assert_eq!(stop(action).message(), "failed to establish forward session");
    let (run, _) = start(relay(config()));
    let (_, action) = run.step(RelayEvent::LocalAddr(Err("no address".to_string())));
    assert_eq!(stop(action).message(), "no address");
}

#[test]
fn background_failures_stop_the_relay() {
    let run = serving(cluster());
    let (end, action) = run.step(RelayEvent::RemotesDone(failed()));
    assert_eq!(end.phase, Phase::Finished);
    assert_eq!(stop(action).message(), "cause");
    let (_, action) = run.step(RelayEvent::ForwardDone(failed()));
    assert_eq!(stop(action).message(), "forwarding failed");
    let (_, action) = run.step(RelayEvent::WebSocketDone(failed()));
    assert_eq!(stop(action).message(), "WebSocket server failed");
    let (_, action) = run.step(RelayEvent::EndpointClosed);
    assert_eq!(stop(action).message(), "failed to accept QUIC connection");
}

#[test]
fn background_tasks_may_end_well() {
    let run = serving(cluster());
    let (run, action) = run.step(RelayEvent::RemotesDone(Ok(())));
    assert!(matches!(action.next, Next::Await { tasks: true }));
    let (run, action) = run.step(RelayEvent::ForwardDone(Ok(())));
    assert!(matches!(action.next, Next::Await { tasks: true }));
    let (run, action) = run.step(RelayEvent::WebSocketDone(Ok(())));
    assert!(matches!(action.next, Next::Await { tasks: false }));
    assert_eq!(run.phase, Phase::Serving);
    assert_eq!(run.services.forward, Some('f'));
}

#[test]
fn clients_come_and_go() {
    let begin = serving(cluster());
    let (run, action) = begin.step(RelayEvent::Accepted);
    let client = match action.start {
        Some(Task::Client(client)) => client,
        _ => panic!("no client"),
    };
    assert!(same(&client.services, &full()));
    assert_eq!(client.stage, ClientStage::Negotiating);
    assert!(matches!(action.next, Next::Await { tasks: true }));
    let (run, _) = run.step(RelayEvent::Accepted);
    assert_eq!(run.tasks.clients, 2);
    let (run, action) = run.step(RelayEvent::ClientDone);
    assert!(action.start.is_none());
    let (run, _) = run.step(RelayEvent::ClientDone);
    assert_eq!((run.phase, run.tasks), (begin.phase, begin.tasks));
    assert!(same(&run.services, &begin.services));
}

#[test]
fn relay_without_cluster_or_forwarding_has_its_registry() {
    let (_, action) = serving(config()).step(RelayEvent::Accepted);
    match action.start {
        Some(Task::Client(client)) => assert!(same(&client.services, &Services::alone(16))),
        _ => panic!("no client"),
    }
}

#[test]
fn client_gets_what_it_offers() {
    let services = Services { forward: None, ..full() };
    let (client, action) = Client::new(services);
    assert!(matches!(action, ClientAction::Negotiate));
    let negotiated = |publisher: bool, subscriber: bool| {
        let offer = Offer { publisher, subscriber };
        match client.step(ClientEvent::Negotiated(Ok(offer))) {
            (running, ClientAction::Run(roles)) => (running, roles),
            _ => panic!("not run"),
        }
    };
    let (running, roles) = negotiated(true, true);
    assert_eq!(running.stage, ClientStage::Running);
    assert_eq!(producer(&roles), Some((16, Some(32))));
    assert_eq!(consumer(&roles), Some((16, Some(64), None)));
    for end in [failed(), Ok(())] {
        let (closed, action) = running.step(ClientEvent::Ended(end));
        assert_eq!(closed.stage, ClientStage::Closed);
        assert!(matches!(action, ClientAction::Close));
    }
    let (_, roles) = negotiated(false, true);
    assert_eq!(producer(&roles), None);
    assert_eq!(consumer(&roles), Some((16, Some(64), None)));
    let (_, roles) = negotiated(true, false);
    assert_eq!(producer(&roles), Some((16, Some(32))));
    assert_eq!(consumer(&roles), None);
}

#[test]
fn client_that_cannot_negotiate_is_closed() {
    let (client, _) = Client::new(Services::<Ids>::alone(16));
    let (closed, action) = client.step(ClientEvent::Negotiated(Err("version".to_string())));
    assert_eq!(closed.stage, ClientStage::Closed);
    assert!(matches!(action, ClientAction::Close));
}

#[test]
fn other_relays_announces_go_no_further() {
    for remotes in [None, Some(32)] {
        let roles = Services { remotes, ..full() }.relay_roles();
        assert_eq!(producer(&roles), Some((16, remotes)));
        assert_eq!(consumer(&roles), Some((16, None, None)));
    }
}
