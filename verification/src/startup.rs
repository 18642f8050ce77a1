//! What the relay's command line asks for, and what to set up for it.

use vstd::prelude::*;
use url::Url;
use crate::addr::{IpAddr, SocketAddr};
use crate::handles::Handles;
use crate::relay::RelayConfig;
use crate::tls::TlsConfig;
use crate::upstream::UpstreamConfig;
use crate::web::WebConfig;
use crate::websocket::WebSocketConfig;

verus! {

/// The command line.
pub struct Cli {
    /// Listen on this address for QUIC and WebTransport connections.
    pub bind: SocketAddr,
    /// Forward all announces to this relay for authentication and routing. Without
    /// it, every unique announce is accepted.
    pub announce: Option<Url>,
    /// The URL of the API of a cluster, to be used together with `node`.
    pub api: Option<Url>,
    /// The URL that we advertise to other relays.
    pub node: Option<Url>,
    /// Serve the fingerprint of the certificate over HTTPS, for development.
    pub dev: bool,
    /// Listen on this address for WebSocket connections.
    pub ws_bind: Option<SocketAddr>,
    /// Serve WebSockets without TLS, behind a proxy that terminates it.
    pub ws_no_tls: bool,
    /// Serve WebSockets alone, without a QUIC server.
    pub ws_only: bool,
    /// The relay that WebSocket clients are bridged to, with `ws_only`.
    pub upstream: Option<Url>,
}

/// Why a command line cannot be served.
#[derive(Clone, Copy, PartialEq, Eq, Debug, Structural)]
pub enum StartupError {
    /// WebSockets alone are asked for, and there is no address for them.
    WebSocketAddress,
    /// WebSockets alone are asked for, with TLS, and there is no certificate.
    WebSocketCertificate,
    /// A QUIC server takes a certificate, and there is none.
    Certificate,
}

impl StartupError {
    /// The message shown for this error.
    pub open spec fn text(self) -> Seq<char> {
        match self {
            StartupError::WebSocketAddress => "--ws-bind is required when using --ws-only mode"@,
            StartupError::WebSocketCertificate => "TLS certificates required unless --ws-no-tls is specified"@,
            StartupError::Certificate => "missing TLS certificates"@,
        }
    }

    /// The message shown for this error.
    pub fn message(&self) -> (text: String)
        ensures
            text@ == self.text(),
    {
        match self {
            StartupError::WebSocketAddress => "--ws-bind is required when using --ws-only mode".to_owned(),
            StartupError::WebSocketCertificate => "TLS certificates required unless --ws-no-tls is specified".to_owned(),
            StartupError::Certificate => "missing TLS certificates".to_owned(),
        }
    }
}

/// One thing to do at start-up.
pub enum Step<H: Handles> {
    /// Make a WebSocket server.
    MakeWebSocketServer(WebSocketConfig<H>),
    /// Keep connected to this upstream relay, in the background.
    KeepUpstream(UpstreamConfig<H>),
    /// Run the WebSocket server, to the end.
    RunWebSocketServer,
    /// Make a relay.
    MakeRelay(RelayConfig<H>),
    /// Run a web server, in the background.
    KeepWeb(WebConfig<H>),
    /// Run the relay, to the end.
    RunRelay,
}

impl Cli {
    /// Whether certificates are to be loaded at all. A WebSocket server behind a
    /// proxy that connects to no other relay has no use for them, and must start
    /// where there are none.
    pub open spec fn wants_tls(self) -> bool {
        !(self.ws_only && self.ws_no_tls && self.upstream is None)
    }

    /// The address to listen on for QUIC where none is given.
    pub open spec fn default_addr() -> SocketAddr {
        SocketAddr::any_at(443)
    }

    /// The address to listen on for QUIC where none is given: `[::]:443`.
    pub fn default_bind() -> (addr: SocketAddr)
        ensures
            addr == Self::default_addr(),
            addr == SocketAddr::any_at(443),
    {
        SocketAddr::any(443)
    }

    /// Whether certificates are to be loaded at all.
    pub fn loads_tls(&self) -> (res: bool)
        ensures
            res == self.wants_tls(),
    {
        !(self.ws_only && self.ws_no_tls && self.upstream.is_none())
    }

    /// Why this command line cannot be served with this TLS configuration, if so.
    pub open spec fn refusal<H: Handles>(self, tls: TlsConfig<H>) -> Option<StartupError> {
        if self.ws_only && self.ws_bind is None {
            Some(StartupError::WebSocketAddress)
        } else if self.ws_only && !self.ws_no_tls && !tls.server {
            Some(StartupError::WebSocketCertificate)
        } else if !self.ws_only && !tls.server {
            Some(StartupError::Certificate)
        } else {
            None
        }
    }

    /// The WebSocket server that stands alone at this address: there is no cluster
    /// and no forwarding, and in place of the address of a QUIC server its own.
    pub open spec fn lone_websocket<H: Handles>(
        self,
        bind: SocketAddr,
        tls: TlsConfig<H>,
        locals: H::Locals,
    ) -> WebSocketConfig<H> {
        WebSocketConfig {
            bind,
            tls: tls.handle,
            tls_server: tls.server,
            no_tls: self.ws_no_tls,
            locals,
            remotes: None,
            api: None,
            forward: None,
            quic_addr: bind,
        }
    }

    /// The relay with a QUIC server.
    pub open spec fn full_relay<H: Handles>(
        self,
        tls: TlsConfig<H>,
        locals: H::Locals,
    ) -> RelayConfig<H> {
        RelayConfig {
            bind: self.bind,
            tls: tls.handle,
            tls_server: tls.server,
            locals,
            announce: self.announce,
            api: self.api,
            node: self.node,
            ws_bind: self.ws_bind,
            ws_no_tls: self.ws_no_tls,
        }
    }

    /// What to do at start-up, in order.
    pub open spec fn plan<H: Handles>(self, tls: TlsConfig<H>, locals: H::Locals) -> Seq<Step<H>> {
        if self.ws_only {
            let server = Step::MakeWebSocketServer(
                self.lone_websocket(self.ws_bind.unwrap(), tls, locals),
            );
            match self.upstream {
                Some(url) => seq![
                    server,
                    Step::KeepUpstream(UpstreamConfig { url, tls: tls.handle, locals }),
                    Step::RunWebSocketServer,
                ],
                None => seq![server, Step::RunWebSocketServer],
            }
        } else {
            let relay = Step::MakeRelay(self.full_relay(tls, locals));
            if self.dev {
                seq![relay, Step::KeepWeb(WebConfig { bind: self.bind, tls }), Step::RunRelay]
            } else {
                seq![relay, Step::RunRelay]
            }
        }
    }

    /// Decides what to set up, given the TLS configuration that was loaded and a registry
    /// of local tracks, which is as yet empty.
    pub fn startup<H: Handles>(self, tls: TlsConfig<H>, locals: H::Locals) -> (res: Result<
        Vec<Step<H>>,
        StartupError,
    >)
        ensures
            self.refusal(tls) matches Some(e) ==> res == Err::<Vec<Step<H>>, StartupError>(e),
            self.refusal(tls) is None ==> (res matches Ok(steps) && steps@ == self.plan(
                tls,
                locals,
            )),
    {
        let mut steps: Vec<Step<H>> = Vec::new();
        if self.ws_only {
            let bind = match self.ws_bind {
                Some(bind) => bind,
                None => {
                    return Err(StartupError::WebSocketAddress);
                },
            };
            if !self.ws_no_tls && !tls.server {
                return Err(StartupError::WebSocketCertificate);
            }
            // The server comes first, so that clients find it as soon as possible.
            steps.push(
                Step::MakeWebSocketServer(
                    WebSocketConfig {
                        bind,
                        tls: tls.handle,
                        tls_server: tls.server,
                        no_tls: self.ws_no_tls,
                        locals,
                        remotes: None,
                        api: None,
                        forward: None,
                        quic_addr: bind,
                    },
                ),
            );
            if let Some(url) = self.upstream {
                steps.push(Step::KeepUpstream(UpstreamConfig { url, tls: tls.handle, locals }));
            }
            steps.push(Step::RunWebSocketServer);
            return Ok(steps);
        }
        if !tls.server {
            return Err(StartupError::Certificate);
        }
        steps.push(
            Step::MakeRelay(
                RelayConfig {
                    bind: self.bind,
                    tls: tls.handle,
                    tls_server: tls.server,
                    locals,
                    announce: self.announce,
                    api: self.api,
                    node: self.node,
                    ws_bind: self.ws_bind,
                    ws_no_tls: self.ws_no_tls,
                },
            ),
        );
        if self.dev {
            steps.push(Step::KeepWeb(WebConfig { bind: self.bind, tls }));
        }
        steps.push(Step::RunRelay);
        Ok(steps)
    }
}

/// A WebSocket server behind a proxy, without upstream, starts in a place that has no
/// certificates whatever: none are loaded, and none are missed.
pub proof fn law_lone_websocket_needs_no_certificates<H: Handles>(cli: Cli, tls: TlsConfig<H>)
    requires
        cli.ws_only,
        cli.ws_no_tls,
        cli.upstream is None,
        cli.ws_bind is Some,
    ensures
        !cli.wants_tls(),
        cli.refusal(tls) is None,
{
}

/// Without a certificate, nothing is served but WebSockets alone behind a proxy.
pub proof fn law_certificate_needed<H: Handles>(cli: Cli, tls: TlsConfig<H>)
    requires
        !tls.server,
        cli.refusal(tls) is None,
    ensures
        cli.ws_only && cli.ws_no_tls,
{
}

/// Where WebSockets alone are asked for, there is no QUIC server and no web server,
/// and the WebSocket server is made before anything else: the upstream relay is
/// never waited for.
pub proof fn law_websocket_only_comes_up_first<H: Handles>(
    cli: Cli,
    tls: TlsConfig<H>,
    locals: H::Locals,
    i: int,
)
    requires
        cli.ws_only,
        cli.refusal(tls) is None,
        0 <= i < cli.plan(tls, locals).len(),
    ensures
        cli.plan(tls, locals)[0] is MakeWebSocketServer,
        cli.plan(tls, locals).last() is RunWebSocketServer,
        !(cli.plan(tls, locals)[i] is MakeRelay),
        !(cli.plan(tls, locals)[i] is RunRelay),
        !(cli.plan(tls, locals)[i] is KeepWeb),
        cli.plan(tls, locals)[i] is KeepUpstream ==> 0 < i < cli.plan(tls, locals).len() - 1,
{
}

/// Every server in a plan can be made: a WebSocket server has a certificate or needs
/// none, a relay has one, and so has a web server, which therefore takes no more than
/// a fingerprint to go with it.
pub proof fn law_planned_servers_can_be_made<H: Handles>(
    cli: Cli,
    tls: TlsConfig<H>,
    locals: H::Locals,
    i: int,
)
    requires
        cli.refusal(tls) is None,
        0 <= i < cli.plan(tls, locals).len(),
    ensures
        cli.plan(tls, locals)[i] matches Step::MakeWebSocketServer(config) ==> config.valid(),
        cli.plan(tls, locals)[i] matches Step::MakeRelay(config) ==> config.tls_server,
        cli.plan(tls, locals)[i] matches Step::KeepWeb(config) ==> (config.valid() <==> tls.fingerprints@.len()
            > 0),
{
}

/// All that a plan sets up works on one registry and with one TLS configuration. Where
/// WebSockets alone are served, the upstream relay is connected to on the registry that
/// the clients use, at the URL that the command line gives.
pub proof fn law_plan_shares_the_registry<H: Handles>(
    cli: Cli,
    tls: TlsConfig<H>,
    locals: H::Locals,
    i: int,
)
    requires
        cli.refusal(tls) is None,
        0 <= i < cli.plan(tls, locals).len(),
    ensures
        match cli.plan(tls, locals)[i] {
            Step::MakeWebSocketServer(config) => config.locals == locals && config.tls == tls.handle,
            Step::KeepUpstream(config) => config.locals == locals && config.tls == tls.handle
                && cli.upstream == Some(config.url),
            Step::MakeRelay(config) => config.locals == locals && config.tls == tls.handle,
            Step::KeepWeb(config) => config.tls == tls,
            _ => true,
        },
{
}

/// Every server in a plan listens where the command line says, and is set up with what the
/// command line gives for it.
pub proof fn law_servers_follow_the_command_line<H: Handles>(
    cli: Cli,
    tls: TlsConfig<H>,
    locals: H::Locals,
    i: int,
)
    requires
        cli.refusal(tls) is None,
        0 <= i < cli.plan(tls, locals).len(),
    ensures
        cli.plan(tls, locals)[i] matches Step::MakeRelay(config) ==> {
            &&& config.bind == cli.bind
            &&& config.ws_bind == cli.ws_bind
            &&& config.ws_no_tls == cli.ws_no_tls
            &&& config.announce == cli.announce
            &&& config.api == cli.api
            &&& config.node == cli.node
            &&& config.tls == tls.handle
            &&& config.tls_server == tls.server
            &&& config.locals == locals
        },
        cli.plan(tls, locals)[i] matches Step::MakeWebSocketServer(config) ==> {
            &&& cli.ws_bind == Some(config.bind)
            &&& config.no_tls == cli.ws_no_tls
            &&& config.tls == tls.handle
            &&& config.tls_server == tls.server
            &&& config.locals == locals
            &&& config.remotes is None
            &&& config.api is None
            &&& config.forward is None
            &&& config.quic_addr == config.bind
        },
        cli.plan(tls, locals)[i] matches Step::KeepUpstream(config) ==> {
            &&& cli.upstream == Some(config.url)
            &&& config.tls == tls.handle
            &&& config.locals == locals
        },
        cli.plan(tls, locals)[i] matches Step::KeepWeb(config) ==> {
            &&& config.bind == cli.bind
            &&& config.tls == tls
        },
{
}

/// A plan has what the command line asks for, and nothing else. With WebSockets alone, a
/// WebSocket server is made, the upstream relay is kept exactly where one is given, and the
/// server runs. Else a relay is made, a web server is kept exactly in development, and the
/// relay runs.
pub proof fn law_plan_has_what_is_asked_for<H: Handles>(
    cli: Cli,
    tls: TlsConfig<H>,
    locals: H::Locals,
)
    requires
        cli.refusal(tls) is None,
    ensures
        cli.ws_only ==> {
            &&& cli.plan(tls, locals).first() is MakeWebSocketServer
            &&& cli.plan(tls, locals).last() is RunWebSocketServer
            &&& cli.upstream is None <==> cli.plan(tls, locals).len() == 2
            &&& cli.upstream is Some ==> cli.plan(tls, locals).len() == 3 && cli.plan(
                tls,
                locals,
            )[1] is KeepUpstream
        },
        !cli.ws_only ==> {
            &&& cli.plan(tls, locals).first() is MakeRelay
            &&& cli.plan(tls, locals).last() is RunRelay
            &&& !cli.dev <==> cli.plan(tls, locals).len() == 2
            &&& cli.dev ==> cli.plan(tls, locals).len() == 3 && cli.plan(tls, locals)[1] is KeepWeb
        },
{
}

/// A command line is refused exactly where something is missing that it needs: an address
/// for WebSockets alone, a certificate for their TLS, or one for QUIC. The address is
/// missed first.
pub proof fn law_refused_for_what_is_missing<H: Handles>(cli: Cli, tls: TlsConfig<H>)
    ensures
        cli.refusal(tls) == Some(StartupError::WebSocketAddress) <==> cli.ws_only
            && cli.ws_bind is None,
        cli.refusal(tls) == Some(StartupError::WebSocketCertificate) <==> cli.ws_only
            && cli.ws_bind is Some && !cli.ws_no_tls && !tls.server,
        cli.refusal(tls) == Some(StartupError::Certificate) <==> !cli.ws_only && !tls.server,
        cli.refusal(tls) is None <==> if cli.ws_only {
            cli.ws_bind is Some && (cli.ws_no_tls || tls.server)
        } else {
            tls.server
        },
{
}

/// Certificates are loaded whenever anything could use one: a QUIC server, TLS on
/// WebSockets, or a connection to an upstream relay.
pub proof fn law_certificates_are_loaded_for_a_use(cli: Cli)
    ensures
        !cli.ws_only ==> cli.wants_tls(),
        !cli.ws_no_tls ==> cli.wants_tls(),
        cli.upstream is Some ==> cli.wants_tls(),
        cli.ws_only && cli.ws_no_tls && cli.upstream is None ==> !cli.wants_tls(),
{
}

/// Each refusal has a message of its own.
pub proof fn law_startup_messages()
    ensures
        StartupError::WebSocketAddress.text()
            == "--ws-bind is required when using --ws-only mode"@,
        StartupError::WebSocketCertificate.text()
            == "TLS certificates required unless --ws-no-tls is specified"@,
        StartupError::Certificate.text() == "missing TLS certificates"@,
{
}

/// Where no address is given, the relay listens on every local one, at the port of HTTPS.
pub proof fn law_default_address()
    ensures
        Cli::default_addr().port == 443,
        Cli::default_addr().ip == (IpAddr::V6 { bits: 0, flowinfo: 0, scope_id: 0 }),
{
}

} // verus!
