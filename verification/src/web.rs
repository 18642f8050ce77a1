//! The development web server, which tells a browser the fingerprint of the
//! certificate that it should trust.

use vstd::prelude::*;
use vstd::string::*;
use crate::addr::SocketAddr;
use crate::handles::Handles;
use crate::listener::{Listener, ListenerAction, ListenerEvent};
use crate::tls::{TlsAcceptor, TlsConfig};

verus! {

/// The path that the fingerprint is served at.
pub const FINGERPRINT_PATH: &'static str = "/fingerprint";

/// The method that the fingerprint is asked for with, and the only one that pages of
/// another origin may use.
pub const FINGERPRINT_METHOD: &'static str = "GET";

/// What a web server is made from.
pub struct WebConfig<H: Handles> {
    /// The address to listen on.
    pub bind: SocketAddr,
    /// The TLS configuration whose certificate is meant.
    pub tls: TlsConfig<H>,
}

impl<H: Handles> WebConfig<H> {
    /// Whether a server can be made from this configuration: there is a certificate,
    /// and it has a fingerprint.
    pub open spec fn valid(self) -> bool {
        self.tls.server && self.tls.fingerprints@.len() > 0
    }

    /// Whether this is the server with this configuration.
    pub open spec fn is_served_by(self, web: Web<H>) -> bool {
        &&& web.bind == self.bind
        &&& web.tls.tls == self.tls.handle
        &&& web.tls.protocols() == seq!["h2".spec_bytes(), "http/1.1".spec_bytes()]
        &&& web.fingerprint@ == self.tls.fingerprints@[0]@
    }
}

/// A web server that does not run yet.
pub struct Web<H: Handles> {
    /// The address to listen on.
    pub bind: SocketAddr,
    /// How TLS is accepted.
    pub tls: TlsAcceptor<H>,
    /// What is served.
    pub fingerprint: String,
}

/// The pages that may read what is served.
#[derive(Debug)]
pub struct Cors {
    /// Pages of any origin.
    pub any_origin: bool,
    /// With these methods.
    pub methods: Vec<String>,
}

/// What a web server serves: one text at one path.
#[derive(Debug)]
pub struct Site {
    /// The path.
    pub path: String,
    /// The method to ask for it with.
    pub method: String,
    /// Which pages may ask for it.
    pub cors: Cors,
    /// The text.
    pub fingerprint: String,
}

/// A running web server.
#[derive(Debug)]
pub struct WebRun {
    /// What is served.
    pub site: Site,
    pub listener: Listener,
}

/// What to do next for a web server.
#[derive(Debug)]
pub enum WebAction {
    /// Await the next TCP connection.
    Accept,
    /// Start on the connection that arrived, with a TLS handshake, in a task of its
    /// own; and await the next one.
    Serve(WebConnection),
    /// Give up: the address could not be bound for this reason.
    Fail(String),
}

/// How far a connection to the web server has come.
#[derive(Clone, Copy, PartialEq, Eq, Debug, Structural)]
pub enum WebConnection {
    /// The TLS handshake is under way.
    Tls,
    /// Requests are answered.
    Http,
    /// The connection is gone.
    Closed,
}

/// What happened on a connection. An error is given by its text.
#[derive(Debug)]
pub enum WebEvent {
    /// The TLS handshake ended.
    Secured(Result<(), String>),
    /// The last request was answered, or the connection broke.
    Served(Result<(), String>),
}

impl WebConnection {
    /// Whether this can happen on the connection now.
    pub open spec fn expects(self, event: WebEvent) -> bool {
        match event {
            WebEvent::Secured(_) => self == WebConnection::Tls,
            WebEvent::Served(_) => self == WebConnection::Http,
        }
    }

    /// What becomes of the connection.
    pub open spec fn after(self, event: WebEvent) -> WebConnection {
        match event {
            WebEvent::Secured(Ok(())) => WebConnection::Http,
            _ => WebConnection::Closed,
        }
    }

    /// Takes in what happened: requests are answered over TLS and not otherwise, and
    /// a connection that fails is gone without a trace.
    pub fn step(self, event: WebEvent) -> (next: WebConnection)
        requires
            self.expects(event),
        ensures
            next == self.after(event),
            next == if event matches WebEvent::Secured(Ok(_)) {
                WebConnection::Http
            } else {
                WebConnection::Closed
            },
    {
        match event {
            WebEvent::Secured(Ok(())) => WebConnection::Http,
            _ => WebConnection::Closed,
        }
    }
}

impl Cors {
    /// The names of the methods.
    pub open spec fn method_names(self) -> Seq<Seq<char>> {
        self.methods@.map_values(|name: String| name@)
    }
}

impl Site {
    /// Whether this is the site that tells a fingerprint: at its path, to `GET` and to
    /// pages of any origin, which may use `GET` and no other method.
    pub open spec fn tells(self, fingerprint: Seq<char>) -> bool {
        &&& self.path@ == "/fingerprint"@
        &&& self.method@ == "GET"@
        &&& self.cors.any_origin
        &&& self.cors.method_names() == seq!["GET"@]
        &&& self.fingerprint@ == fingerprint
    }

    fn new(fingerprint: String) -> (site: Site)
        ensures
            site.tells(fingerprint@),
    {
        let mut methods: Vec<String> = Vec::new();
        methods.push(FINGERPRINT_METHOD.to_owned());
        let cors = Cors { any_origin: true, methods };
        assert(cors.method_names() =~= seq!["GET"@]);
        Site {
            path: FINGERPRINT_PATH.to_owned(),
            method: FINGERPRINT_METHOD.to_owned(),
            cors,
            fingerprint,
        }
    }
}

impl<H: Handles> Web<H> {
    /// A server with this configuration, for the fingerprint of the first
    /// certificate.
    pub fn new(config: WebConfig<H>) -> (web: Web<H>)
        requires
            config.valid(),
        ensures
            config.is_served_by(web),
            web.bind == config.bind,
            web.tls.tls == config.tls.handle,
            web.tls.protocols() == seq!["h2".spec_bytes(), "http/1.1".spec_bytes()],
            web.fingerprint@ == config.tls.fingerprints@[0]@,
    {
        Web {
            bind: config.bind,
            tls: TlsAcceptor::for_web(config.tls.handle),
            fingerprint: config.tls.fingerprints[0].clone(),
        }
    }

    /// Starts the server. The first thing to do is to bind the address that comes
    /// with it.
    pub fn run(self) -> (res: (WebRun, SocketAddr))
        ensures
            res.0.site.tells(self.fingerprint@),
            res.0.listener == Listener::Binding,
            res.1 == self.bind,
    {
        (WebRun { site: Site::new(self.fingerprint), listener: Listener::Binding }, self.bind)
    }
}

impl WebRun {
    /// What becomes of the server, and what to do.
    pub open spec fn after(self, event: ListenerEvent) -> (WebRun, WebAction) {
        let (listener, action) = self.listener.after(event);
        (
            WebRun { site: self.site, listener },
            match action {
                ListenerAction::Accept => WebAction::Accept,
                ListenerAction::ServeAndAccept => WebAction::Serve(WebConnection::Tls),
                ListenerAction::Fail(reason) => WebAction::Fail(reason),
            },
        )
    }

    /// The server after a run of events.
    pub open spec fn after_all(self, events: Seq<ListenerEvent>) -> WebRun
        decreases events.len(),
    {
        if events.len() == 0 {
            self
        } else {
            self.after_all(events.drop_last()).after(events.last()).0
        }
    }

    /// Takes in what happened at the listener.
    pub fn step(self, event: ListenerEvent) -> (res: (WebRun, WebAction))
        requires
            self.listener.expects(event),
        ensures
            res == self.after(event),
    {
        let (listener, action) = self.listener.step(event);
        let action = match action {
            ListenerAction::Accept => WebAction::Accept,
            ListenerAction::ServeAndAccept => WebAction::Serve(WebConnection::Tls),
            ListenerAction::Fail(reason) => WebAction::Fail(reason),
        };
        (WebRun { site: self.site, listener }, action)
    }

    /// The body of the answer to a request for the fingerprint.
    pub open spec fn body(self) -> Seq<char> {
        self.site.fingerprint@
    }

    /// The body of the answer to a request for the fingerprint.
    pub fn serve_fingerprint(&self) -> (body: String)
        ensures
            body@ == self.body(),
            body@ == self.site.fingerprint@,
    {
        self.site.fingerprint.clone()
    }
}

/// A web server that is up stays up and serves the same, whatever becomes of its
/// connections, and starts on each that arrives with a TLS handshake.
pub proof fn law_web_server_stays_up(run: WebRun, events: Seq<ListenerEvent>, event: ListenerEvent)
    requires
        run.listener == Listener::Accepting,
        forall|i: int| 0 <= i < events.len() ==> #[trigger] events[i] is Accepted,
        event is Accepted,
    ensures
        run.after_all(events) == run,
        run.after_all(events).after(event).1 == match event {
            ListenerEvent::Accepted(Ok(_)) => WebAction::Serve(WebConnection::Tls),
            _ => WebAction::Accept,
        },
    decreases events.len(),
{
    if events.len() > 0 {
        let before = events.drop_last();
        assert forall|i: int| 0 <= i < before.len() implies #[trigger] before[i] is Accepted by {
            assert(events[i] is Accepted);
        }
        assert(events.last() is Accepted);
        law_web_server_stays_up(run, before, events.last());
    }
}

/// A server can be made from a configuration exactly when it has a certificate and a
/// fingerprint.
pub proof fn law_web_configuration<H: Handles>(config: WebConfig<H>)
    ensures
        config.valid() <==> config.tls.server && config.tls.fingerprints@.len() >= 1,
{
}

/// A site that tells a fingerprint tells that one and no other, at one path, to one
/// method, and to pages of any origin with that method alone.
pub proof fn law_site_tells_one_fingerprint(site: Site, one: Seq<char>, other: Seq<char>)
    requires
        site.tells(one),
    ensures
        site.fingerprint@ == one,
        site.tells(other) ==> other == one,
        site.path@ == "/fingerprint"@,
        site.method@ == "GET"@,
        site.cors.any_origin,
        site.cors.methods@.len() == 1,
        site.cors.methods@[0]@ == "GET"@,
{
    assert(site.cors.method_names().len() == site.cors.methods@.len());
    assert(site.cors.method_names()[0] == site.cors.methods@[0]@);
}

/// A connection is answered exactly from the end of a TLS handshake that succeeded, and is
/// gone after anything else.
pub proof fn law_answers_go_over_tls(connection: WebConnection, event: WebEvent)
    ensures
        connection.after(event) == WebConnection::Http <==> (event matches WebEvent::Secured(
            Ok(_),
        )),
        connection.after(event) != WebConnection::Http ==> connection.after(event)
            == WebConnection::Closed,
        connection == WebConnection::Tls ==> (connection.expects(event) <==> event is Secured),
        connection == WebConnection::Http ==> (connection.expects(event) <==> event is Served),
        connection == WebConnection::Closed ==> !connection.expects(event),
{
}

/// The server fails exactly when its address cannot be bound, for the reason given. It
/// starts on every connection that arrives, with a TLS handshake, and serves the same
/// throughout.
pub proof fn law_web_server_serves_what_arrives(run: WebRun, event: ListenerEvent)
    requires
        run.listener.expects(event),
    ensures
        run.after(event).0.site == run.site,
        event matches ListenerEvent::Bound(Err(reason)) ==> {
            &&& run.after(event).0.listener == Listener::Failed
            &&& run.after(event).1 == WebAction::Fail(reason)
        },
        !(event matches ListenerEvent::Bound(Err(_))) ==> run.after(event).0.listener
            == Listener::Accepting && !(run.after(event).1 is Fail),
        run.after(event).1 is Serve <==> (event matches ListenerEvent::Accepted(Ok(_))),
        run.after(event).1 matches WebAction::Serve(connection) ==> connection
            == WebConnection::Tls,
{
}

/// A server is made as it is configured: at its address, with the certificate whose
/// fingerprint comes first, and with HTTP/2 before HTTP/1.1.
pub proof fn law_web_server_is_as_configured<H: Handles>(config: WebConfig<H>, web: Web<H>)
    requires
        config.valid(),
        config.is_served_by(web),
    ensures
        web.bind == config.bind,
        web.tls.tls == config.tls.handle,
        web.fingerprint@ == config.tls.fingerprints@.first()@,
        web.tls.alpn_protocols@.len() == 2,
        web.tls.alpn_protocols@[0]@ == "h2".spec_bytes(),
        web.tls.alpn_protocols@[1]@ == "http/1.1".spec_bytes(),
{
    assert(web.tls.protocols().len() == web.tls.alpn_protocols@.len());
    assert(web.tls.protocols()[0] == web.tls.alpn_protocols@[0]@);
    assert(web.tls.protocols()[1] == web.tls.alpn_protocols@[1]@);
}

/// Whatever happens at the listener, a request for the fingerprint is answered with the one
/// that the server was started for.
pub proof fn law_fingerprint_stays_the_same(
    run: WebRun,
    fingerprint: Seq<char>,
    events: Seq<ListenerEvent>,
)
    requires
        run.site.tells(fingerprint),
    ensures
        run.after_all(events).body() == fingerprint,
        run.after_all(events).site == run.site,
    decreases events.len(),
{
    if events.len() > 0 {
        law_fingerprint_stays_the_same(run, fingerprint, events.drop_last());
    }
}

} // verus!
