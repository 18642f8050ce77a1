use moq_relay::addr::{IpAddr, SocketAddr};
use moq_relay::client::{ClientAction, ClientEvent, ClientStage};
use moq_relay::handles::Handles;
use moq_relay::listener::{Listener, ListenerAction, ListenerEvent};
use moq_relay::roles::{ConsumerRole, Offer, ProducerRole, Services, SessionRoles};
use moq_relay::tls::{TlsAcceptor, TlsConfig};
use moq_relay::upstream::{
    connect_upstream, Attempt, AttemptEvent, AttemptStage, AttemptStep, Upstream, UpstreamAction,
    UpstreamConfig, UpstreamError, UpstreamEvent, RETRY_SECONDS,
};
use moq_relay::web::{
    Web, WebAction, WebConfig, WebConnection, WebEvent, FINGERPRINT_METHOD, FINGERPRINT_PATH,
};
use moq_relay::websocket::{
    Carrier, ConnectionAction, ConnectionEvent, ConnectionStage, WebSocketAction, WebSocketConfig,
    WebSocketConnection, WebSocketServer,
};
use url::Url;

/// Handles that tell themselves apart.
#[derive(Clone, Copy, PartialEq, Debug)]
struct Ids;

impl Handles for Ids {
    type Tls = u8;
    type Quic = i8;
    type Locals = u16;
    type Remotes = u32;
    type Api = u64;
    type Forward = char;
}

fn addr(port: u16) -> SocketAddr {
    SocketAddr { ip: IpAddr::V4(0), port }
}

fn config() -> WebSocketConfig<Ids> {
    WebSocketConfig {
        bind: addr(4444),
        tls: 8,
        tls_server: true,
        no_tls: false,
        locals: 16,
        remotes: Some(32),
        api: None,
        forward: Some('f'),
        quic_addr: addr(443),
    }
}

fn failed() -> Result<(), String> {
    Err("cause".to_string())
}

fn all(services: &Services<Ids>) -> (u16, Option<u32>, Option<u64>, Option<char>) {
    (services.locals, services.remotes, services.api, services.forward)
}

fn producer(roles: &SessionRoles<Ids>) -> Option<(u16, Option<u32>)> {
    roles.producer.map(|ProducerRole { locals, remotes }| (locals, remotes))
}

fn consumer(roles: &SessionRoles<Ids>) -> Option<(u16, Option<u64>, Option<char>)> {
    roles.consumer.map(|ConsumerRole { locals, api, forward }| (locals, api, forward))
}

fn upstream() -> UpstreamConfig<Ids> {
    UpstreamConfig { url: Url::parse("https://up.example/").unwrap(), tls: 8, locals: 16 }
}

fn certified(fingerprints: Vec<String>) -> TlsConfig<Ids> {
    TlsConfig { handle: 8, server: true, fingerprints }
}

#[test]
fn protocols_are_offered_in_order() {
    let acceptor = TlsAcceptor::<Ids>::for_web(8);
    assert_eq!(acceptor.alpn_protocols, vec![b"h2".to_vec(), b"http/1.1".to_vec()]);
    assert_eq!(acceptor.tls, 8);
    let acceptor = TlsAcceptor::<Ids>::for_websocket(9);
    assert_eq!(acceptor.alpn_protocols, vec![b"http/1.1".to_vec()]);
    assert_eq!(acceptor.tls, 9);
}

#[test]
fn listener_survives_bad_connections() {
    let (listener, action) = Listener::Binding.step(ListenerEvent::Bound(Ok(())));
    assert_eq!(listener, Listener::Accepting);
    assert!(matches!(action, ListenerAction::Accept));
    let mut listener = listener;
    let mut served = 0;
    for arrived in [true, false, false, true, true] {
        let outcome = if arrived { Ok(()) } else { failed() };
        let (next, action) = listener.step(ListenerEvent::Accepted(outcome));
        listener = next;
        match action {
            ListenerAction::ServeAndAccept => served += 1,
            ListenerAction::Accept => assert!(!arrived),
            ListenerAction::Fail(e) => panic!("{}", e),
        }
    }
    assert_eq!((listener, served), (Listener::Accepting, 3));
}

#[test]
fn listener_fails_when_it_cannot_bind() {
    let (listener, action) = Listener::Binding.step(ListenerEvent::Bound(failed()));
    assert_eq!(listener, Listener::Failed);
    assert!(matches!(action, ListenerAction::Fail(e) if e == "cause"));
}

#[test]
fn websocket_server_with_tls() {
    let server = WebSocketServer::new(config());
    assert_eq!(server.bind, addr(4444));
    assert_eq!(server.tls.as_ref().unwrap().alpn_protocols, vec![b"http/1.1".to_vec()]);
    assert_eq!(server.tls.as_ref().unwrap().tls, 8);
    assert_eq!(all(&server.services), (16, Some(32), None, Some('f')));
    let (run, bind) = server.run();
    assert_eq!(bind, addr(4444));
    assert!(run.secure);
    let (run, action) = run.step(ListenerEvent::Bound(Ok(())));
    assert!(matches!(action, WebSocketAction::Accept));
    let (run, action) = run.step(ListenerEvent::Accepted(failed()));
    assert!(matches!(action, WebSocketAction::Accept));
    let (_, action) = run.step(ListenerEvent::Accepted(Ok(())));
    match action {
        WebSocketAction::Serve(connection, first) => {
            assert!(matches!(connection.stage, ConnectionStage::Tls));
            assert!(matches!(first, ConnectionAction::Secure));
            assert_eq!(all(&connection.services), (16, Some(32), None, Some('f')));
        }
        _ => panic!("not served"),
    }
}

#[test]
fn websocket_server_behind_a_proxy() {
    let server = WebSocketServer::new(WebSocketConfig { no_tls: true, tls_server: false, ..config() });
    assert!(server.tls.is_none());
    let (run, _) = server.run();
    assert!(!run.secure);
    let (run, _) = run.step(ListenerEvent::Bound(Ok(())));
    let (_, action) = run.step(ListenerEvent::Accepted(Ok(())));
    match action {
        WebSocketAction::Serve(connection, first) => {
            assert!(matches!(connection.stage, ConnectionStage::Upgrade));
            assert!(matches!(first, ConnectionAction::Upgrade(Carrier::Tcp)));
        }
        _ => panic!("not served"),
    }
}

#[test]
fn websocket_server_fails_when_it_cannot_bind() {
    let (run, _) = WebSocketServer::new(config()).run();
    let (run, action) = run.step(ListenerEvent::Bound(failed()));
    assert_eq!(run.listener, Listener::Failed);
    assert!(matches!(action, WebSocketAction::Fail(e) if e == "cause"));
}

#[test]
fn websocket_connection_goes_all_the_way() {
    let services = Services { locals: 16, remotes: Some(32), api: Some(64), forward: Some('f') };
    let (connection, _) = WebSocketConnection::<Ids>::new(true, services);
    let (connection, action) = connection.step(ConnectionEvent::Secured(Ok(())));
    assert!(matches!(action, ConnectionAction::Upgrade(Carrier::Tls)));
    let (connection, action) = connection.step(ConnectionEvent::Upgraded(Ok(())));
    assert!(matches!(action, ConnectionAction::Client(ClientAction::Negotiate)));
    let offer = Offer { publisher: true, subscriber: true };
    let (connection, action) =
        connection.step(ConnectionEvent::Client(ClientEvent::Negotiated(Ok(offer))));
    match action {
        ConnectionAction::Client(ClientAction::Run(roles)) => {
            assert_eq!(producer(&roles), Some((16, Some(32))));
            assert_eq!(consumer(&roles), Some((16, Some(64), Some('f'))));
        }
        _ => panic!("not run"),
    }
    let (connection, action) =
        connection.step(ConnectionEvent::Client(ClientEvent::Ended(failed())));
    assert!(matches!(action, ConnectionAction::Client(ClientAction::Close)));
    assert!(matches!(connection.stage,
        ConnectionStage::Client(client) if client.stage == ClientStage::Closed));
}

#[test]
fn websocket_connection_is_dropped_on_failure() {
    let services = Services::<Ids>::alone(16);
    let (connection, _) = WebSocketConnection::new(true, services);
    let (closed, action) = connection.step(ConnectionEvent::Secured(failed()));
    assert!(matches!(closed.stage, ConnectionStage::Closed));
    assert!(matches!(action, ConnectionAction::Close));
    let (connection, _) = WebSocketConnection::new(false, services);
    let (closed, action) = connection.step(ConnectionEvent::Upgraded(failed()));
    assert!(matches!(closed.stage, ConnectionStage::Closed));
    assert!(matches!(action, ConnectionAction::Close));
    let (connection, _) = connection.step(ConnectionEvent::Upgraded(Ok(())));
    let refused = ClientEvent::Negotiated(Err("version".to_string()));
    let (_, action) = connection.step(ConnectionEvent::Client(refused));
    assert!(matches!(action, ConnectionAction::Client(ClientAction::Close)));
}

#[test]
fn web_server_tells_the_first_fingerprint() {
    let tls = certified(vec!["aa".to_string(), "bb".to_string()]);
    let web = Web::new(WebConfig { bind: addr(443), tls });
    assert_eq!(web.fingerprint, "aa");
    assert_eq!(web.tls.tls, 8);
    assert_eq!(web.tls.alpn_protocols, vec![b"h2".to_vec(), b"http/1.1".to_vec()]);
    let (run, bind) = web.run();
    assert_eq!(bind, addr(443));
    let (run, action) = run.step(ListenerEvent::Bound(Ok(())));
    assert!(matches!(action, WebAction::Accept));
    let (run, action) = run.step(ListenerEvent::Accepted(failed()));
    assert!(matches!(action, WebAction::Accept));
    let (run, action) = run.step(ListenerEvent::Accepted(Ok(())));
    assert!(matches!(action, WebAction::Serve(WebConnection::Tls)));
    assert_eq!(run.listener, Listener::Accepting);
    assert_eq!(run.serve_fingerprint(), "aa");
}

#[test]
fn fingerprint_is_for_pages_of_any_origin() {
    let (run, _) = Web::new(WebConfig { bind: addr(443), tls: certified(vec!["aa".to_string()]) }).run();
    assert_eq!((FINGERPRINT_PATH, FINGERPRINT_METHOD), ("/fingerprint", "GET"));
    assert_eq!((run.site.path.as_str(), run.site.method.as_str()), ("/fingerprint", "GET"));
    assert!(run.site.cors.any_origin);
    assert_eq!(run.site.cors.methods, vec!["GET".to_string()]);
    assert_eq!(run.site.fingerprint, "aa");
}

#[test]
fn web_server_fails_when_it_cannot_bind() {
    let (run, _) = Web::new(WebConfig { bind: addr(443), tls: certified(vec!["aa".to_string()]) }).run();
    let (run, action) = run.step(ListenerEvent::Bound(failed()));
    assert!(matches!(action, WebAction::Fail(e) if e == "cause"));
    assert_eq!(run.listener, Listener::Failed);
}

#[test]
fn web_requests_are_answered_over_tls_only() {
    assert_eq!(WebConnection::Tls.step(WebEvent::Secured(Ok(()))), WebConnection::Http);
    assert_eq!(WebConnection::Tls.step(WebEvent::Secured(failed())), WebConnection::Closed);
    assert_eq!(WebConnection::Http.step(WebEvent::Served(Ok(()))), WebConnection::Closed);
    assert_eq!(WebConnection::Http.step(WebEvent::Served(failed())), WebConnection::Closed);
}

#[test]
fn upstream_attempt_goes_all_the_way() {
    let url = Url::parse("https://up.example/path").unwrap();
    let (attempt, endpoint) = connect_upstream::<Ids>(url, 8, 16);
    assert_eq!(
        endpoint.bind,
        SocketAddr { ip: IpAddr::V6 { bits: 0, flowinfo: 0, scope_id: 0 }, port: 0 }
    );
    assert_eq!(endpoint.tls, 8);
    let (attempt, step) = attempt.step(AttemptEvent::Bound(Ok(())));
    match step {
        AttemptStep::Connect(to) => assert_eq!(to.as_str(), "https://up.example/path"),
        _ => panic!("nothing to connect to"),
    }
    let (attempt, step) = attempt.step(AttemptEvent::Connected(Ok(())));
    assert!(matches!(step, AttemptStep::Negotiate));
    let (attempt, step) = attempt.step(AttemptEvent::Negotiated(Ok(())));
    match step {
        AttemptStep::Run(roles) => {
            assert_eq!(producer(&roles), Some((16, None)));
            assert_eq!(consumer(&roles), Some((16, None, None)));
        }
        _ => panic!("not run"),
    }
    assert_eq!(attempt.stage, AttemptStage::Running);
    let (_, step) = attempt.step(AttemptEvent::Ended(Ok(())));
    assert!(matches!(step, AttemptStep::Over(Ok(()))));
}

#[test]
fn upstream_failures_have_messages() {
    let over = |stage: AttemptStage, event: AttemptEvent| {
        match (Attempt { config: upstream(), stage }).step(event) {
            (_, AttemptStep::Over(Err(e))) => e,
            _ => panic!("not over"),
        }
    };
    let e = over(AttemptStage::Binding, AttemptEvent::Bound(failed()));
    assert!(matches!(e, UpstreamError::Endpoint(_)));
    assert_eq!(e.message(), "cause");
    let e = over(AttemptStage::Connecting, AttemptEvent::Connected(failed()));
    assert_eq!(e.message(), "failed to connect to upstream relay");
    let e = over(AttemptStage::Negotiating, AttemptEvent::Negotiated(failed()));
    assert_eq!(e.message(), "failed to establish upstream MoQ session");
    let e = over(AttemptStage::Running, AttemptEvent::Ended(failed()));
    assert_eq!(e.message(), "upstream session error: cause");
}

fn binds(action: &UpstreamAction<Ids>) -> bool {
    matches!(action, UpstreamAction::Bind(e) if e.bind == SocketAddr::any(0) && e.tls == 8)
}

#[test]
fn upstream_is_tried_again_after_a_pause() {
    assert_eq!(RETRY_SECONDS, 5);
    let (mut task, mut action) = Upstream::new(upstream());
    let attempts = vec![
        vec![AttemptEvent::Bound(failed())],
        vec![AttemptEvent::Bound(Ok(())), AttemptEvent::Connected(failed())],
        vec![
            AttemptEvent::Bound(Ok(())),
            AttemptEvent::Connected(Ok(())),
            AttemptEvent::Negotiated(failed()),
        ],
        vec![
            AttemptEvent::Bound(Ok(())),
            AttemptEvent::Connected(Ok(())),
            AttemptEvent::Negotiated(Ok(())),
            AttemptEvent::Ended(Ok(())),
        ],
        vec![
            AttemptEvent::Bound(Ok(())),
            AttemptEvent::Connected(Ok(())),
            AttemptEvent::Negotiated(Ok(())),
            AttemptEvent::Ended(failed()),
        ],
    ];
    for events in attempts {
        assert!(binds(&action));
        for event in events {
            (task, action) = task.step(UpstreamEvent::Attempt(event));
            if let UpstreamAction::Connect(to) = &action {
                assert_eq!(to.as_str(), "https://up.example/");
            }
        }
        assert!(matches!(action, UpstreamAction::Wait(5, _)));
        assert!(matches!(task, Upstream::Waiting(_)));
        (task, action) = task.step(UpstreamEvent::Waited);
    }
    assert!(binds(&action));
}
