//! From a destination URL to the transport that reaches it.

use vstd::prelude::*;
use vstd::string::*;

use crate::destination::{Destination, DestinationView};
use crate::error::{invalid_destination, FailureKind, ForwardError, ForwardErrorView};
use crate::text::{decimal, decimal_text, join, same_text};

verus! {

/// The transports that depend on the platform. The others are always there.
#[derive(Clone, Copy, Debug, PartialEq, Eq, Structural)]
pub struct Platform {
    /// Unix domain sockets can be dialed: the scheme `unix` is supported.
    pub unix_sockets: bool,
    /// Named pipes can be opened: the scheme `pipe` is supported.
    pub named_pipes: bool,
}

/// The way a destination is reached.
#[derive(Clone, Copy, Debug, PartialEq, Eq, Structural)]
pub enum Strategy {
    Tcp,
    Http,
    Https,
    Unix,
    Pipe,
}

/// A resolved destination: the strategy and what it dials.
#[derive(Clone, Debug, PartialEq, Eq)]
pub enum DialPlan {
    /// A TCP connection to `host:port`.
    Tcp { host: String, port: u16 },
    /// A TCP connection to `host:port` that carries HTTP.
    Http { host: String, port: u16 },
    /// A TCP connection to `host:port`, then a TLS handshake as a client
    /// that names `host` as the server.
    Https { host: String, port: u16 },
    /// A Unix domain socket at `path`.
    Unix { path: String },
    /// A named pipe at `address`.
    Pipe { address: String },
}

/// The mathematical value of a [`DialPlan`].
pub enum DialPlanView {
    Tcp { host: Seq<char>, port: u16 },
    Http { host: Seq<char>, port: u16 },
    Https { host: Seq<char>, port: u16 },
    Unix { path: Seq<char> },
    Pipe { address: Seq<char> },
}

impl View for DialPlan {
    type V = DialPlanView;

    open spec fn view(&self) -> DialPlanView {
        match self {
            DialPlan::Tcp { host, port } => DialPlanView::Tcp { host: host@, port: *port },
            DialPlan::Http { host, port } => DialPlanView::Http { host: host@, port: *port },
            DialPlan::Https { host, port } => DialPlanView::Https { host: host@, port: *port },
            DialPlan::Unix { path } => DialPlanView::Unix { path: path@ },
            DialPlan::Pipe { address } => DialPlanView::Pipe { address: address@ },
        }
    }
}

impl DialPlanView {
    /// The strategy of the plan.
    pub open spec fn strategy(self) -> Strategy {
        match self {
            DialPlanView::Tcp { .. } => Strategy::Tcp,
            DialPlanView::Http { .. } => Strategy::Http,
            DialPlanView::Https { .. } => Strategy::Https,
            DialPlanView::Unix { .. } => Strategy::Unix,
            DialPlanView::Pipe { .. } => Strategy::Pipe,
        }
    }
}

/// The host that is dialed: the URL's own, or `localhost` where it has none.
pub open spec fn host_or_local(host: Option<Seq<char>>) -> Seq<char> {
    match host {
        Some(h) => h,
        None => "localhost"@,
    }
}

/// The port that is dialed: the URL's own, or `default` where it has none.
pub open spec fn port_or(port: Option<u16>, default: u16) -> u16 {
    match port {
        Some(p) => p,
        None => default,
    }
}

/// The path of a Unix socket: the URL's path, with the host in front of it
/// where the URL has one, which makes the path relative.
pub open spec fn unix_path(host: Option<Seq<char>>, path: Seq<char>) -> Seq<char> {
    match host {
        Some(h) => h + path,
        None => path,
    }
}

/// The name of a pipe: the URL's path, less one leading slash where the URL
/// has a host.
pub open spec fn pipe_name(host: Option<Seq<char>>, path: Seq<char>) -> Seq<char> {
    if host is Some && path.len() > 0 && path[0] == '/' {
        path.subrange(1, path.len() as int)
    } else {
        path
    }
}

/// The machine that serves a pipe: the URL's host, with `.` for `localhost`
/// and for no host.
pub open spec fn pipe_host(host: Option<Seq<char>>) -> Seq<char> {
    match host {
        Some(h) => if h == "localhost"@ {
            "."@
        } else {
            h
        },
        None => "."@,
    }
}

/// The full address of the pipe `name` on `host`.
pub open spec fn pipe_address(host: Seq<char>, name: Seq<char>) -> Seq<char> {
    "\\\\"@ + host + "\\pipe\\"@ + name
}

/// The failure for a `tcp` URL without a port.
pub open spec fn missing_port(url: Seq<char>) -> ForwardErrorView {
    invalid_destination("missing port for tcp forwarding url "@ + url)
}

/// The failure for a `pipe` URL without a pipe name.
pub open spec fn missing_pipe_name(url: Seq<char>) -> ForwardErrorView {
    invalid_destination("missing pipe name in forwarding url "@ + url)
}

/// The failure for a URL whose scheme is not supported.
pub open spec fn unrecognized_scheme(url: Seq<char>) -> ForwardErrorView {
    invalid_destination("unrecognized scheme in forwarding url: "@ + url)
}

/// The plan for a destination, or the reason why there is none.
///
/// Dispatch is by scheme. `unix` and `pipe` count as schemes only where the
/// platform has the transport; everything else that is not listed here is
/// unrecognized.
pub open spec fn resolved(d: DestinationView, platform: Platform) -> Result<
    DialPlanView,
    ForwardErrorView,
> {
    let host = host_or_local(d.host);
    if d.scheme == "tcp"@ {
        match d.port {
            Some(port) => Ok(DialPlanView::Tcp { host, port }),
            None => Err(missing_port(d.text)),
        }
    } else if d.scheme == "http"@ {
        Ok(DialPlanView::Http { host, port: port_or(d.port, 80) })
    } else if d.scheme == "https"@ || d.scheme == "tls"@ {
        Ok(DialPlanView::Https { host, port: port_or(d.port, 443) })
    } else if platform.unix_sockets && d.scheme == "unix"@ {
        Ok(DialPlanView::Unix { path: unix_path(d.host, d.path) })
    } else if platform.named_pipes && d.scheme == "pipe"@ {
        let name = pipe_name(d.host, d.path);
        if name.len() == 0 {
            Err(missing_pipe_name(d.text))
        } else {
            Ok(DialPlanView::Pipe { address: pipe_address(pipe_host(d.host), name) })
        }
    } else {
        Err(unrecognized_scheme(d.text))
    }
}

/// The names of the schemes are six different texts.
pub proof fn lemma_scheme_names_differ()
    ensures
        "tcp"@ != "http"@,
        "tcp"@ != "https"@,
        "tcp"@ != "tls"@,
        "tcp"@ != "unix"@,
        "tcp"@ != "pipe"@,
        "http"@ != "https"@,
        "http"@ != "tls"@,
        "http"@ != "unix"@,
        "http"@ != "pipe"@,
        "https"@ != "tls"@,
        "https"@ != "unix"@,
        "https"@ != "pipe"@,
        "tls"@ != "unix"@,
        "tls"@ != "pipe"@,
        "unix"@ != "pipe"@,
{
    reveal_strlit("tcp");
    reveal_strlit("http");
    reveal_strlit("https");
    reveal_strlit("tls");
    reveal_strlit("unix");
    reveal_strlit("pipe");
    assert("tcp"@.len() == 3 && "tcp"@[1] == 'c');
    assert("tls"@.len() == 3 && "tls"@[1] == 'l');
    assert("http"@.len() == 4 && "http"@[0] == 'h');
    assert("unix"@.len() == 4 && "unix"@[0] == 'u');
    assert("pipe"@.len() == 4 && "pipe"@[0] == 'p');
    assert("https"@.len() == 5);
}

/// A destination of one of the network schemes resolves to the host and
/// port of its URL and to the strategy of its scheme. A host that the URL
/// lacks is `localhost`; a port that it lacks is 80 for `http` and 443 for
/// `https` and `tls`.
pub proof fn law_network_schemes_resolve(d: DestinationView, platform: Platform)
    ensures
        d.scheme == "tcp"@ && d.port is Some ==> resolved(d, platform) == Ok::<
            DialPlanView,
            ForwardErrorView,
        >(DialPlanView::Tcp { host: host_or_local(d.host), port: d.port->0 }),
        d.scheme == "http"@ ==> resolved(d, platform) == Ok::<DialPlanView, ForwardErrorView>(
            DialPlanView::Http { host: host_or_local(d.host), port: port_or(d.port, 80) },
        ),
        d.scheme == "https"@ || d.scheme == "tls"@ ==> resolved(d, platform) == Ok::<
            DialPlanView,
            ForwardErrorView,
        >(DialPlanView::Https { host: host_or_local(d.host), port: port_or(d.port, 443) }),
        port_or(None, 80) == 80,
        port_or(None, 443) == 443,
        host_or_local(None) == "localhost"@,
{
    lemma_scheme_names_differ();
}

/// A `tcp` destination without a port is an invalid destination.
pub proof fn law_tcp_needs_port(d: DestinationView, platform: Platform)
    requires
        d.scheme == "tcp"@,
        d.port is None,
    ensures
        resolved(d, platform) == Err::<DialPlanView, ForwardErrorView>(missing_port(d.text)),
        missing_port(d.text).kind == FailureKind::InvalidDestination,
{
}

/// Where the platform has Unix sockets, a `unix` destination resolves to
/// the socket at the path of its URL: to the path as it stands where the
/// URL has no host, be it absolute or relative, and to the host followed
/// by the path where it has one.
pub proof fn law_unix_resolves_to_socket_path(d: DestinationView, platform: Platform)
    requires
        platform.unix_sockets,
        d.scheme == "unix"@,
    ensures
        resolved(d, platform) == Ok::<DialPlanView, ForwardErrorView>(
            DialPlanView::Unix { path: unix_path(d.host, d.path) },
        ),
        d.host is None ==> unix_path(d.host, d.path) == d.path,
        d.host is Some ==> unix_path(d.host, d.path) == d.host->0 + d.path,
{
    lemma_scheme_names_differ();
}

/// Where the platform has named pipes, a `pipe` destination whose pipe
/// name is empty is an invalid destination, and any other resolves to the
/// pipe of that name on the host of its URL, with `.` for `localhost` and
/// for no host.
pub proof fn law_pipe_resolves_to_address(d: DestinationView, platform: Platform)
    requires
        platform.named_pipes,
        d.scheme == "pipe"@,
    ensures
        pipe_name(d.host, d.path).len() == 0 ==> resolved(d, platform) == Err::<
            DialPlanView,
            ForwardErrorView,
        >(missing_pipe_name(d.text)),
        pipe_name(d.host, d.path).len() > 0 ==> resolved(d, platform) == Ok::<
            DialPlanView,
            ForwardErrorView,
        >(
            DialPlanView::Pipe {
                address: pipe_address(pipe_host(d.host), pipe_name(d.host, d.path)),
            },
        ),
        missing_pipe_name(d.text).kind == FailureKind::InvalidDestination,
        pipe_host(Some("localhost"@)) == "."@,
        pipe_host(None) == "."@,
        d.path.len() == 0 ==> pipe_name(d.host, d.path).len() == 0,
{
    lemma_scheme_names_differ();
}

/// Whether `scheme` is one that the platform supports.
pub open spec fn is_supported(scheme: Seq<char>, platform: Platform) -> bool {
    ||| scheme == "tcp"@
    ||| scheme == "http"@
    ||| scheme == "https"@
    ||| scheme == "tls"@
    ||| platform.unix_sockets && scheme == "unix"@
    ||| platform.named_pipes && scheme == "pipe"@
}

/// A destination whose scheme is not supported is an invalid destination,
/// whatever else its URL holds.
pub proof fn law_unsupported_scheme_is_invalid(d: DestinationView, platform: Platform)
    requires
        !is_supported(d.scheme, platform),
    ensures
        resolved(d, platform) == Err::<DialPlanView, ForwardErrorView>(
            unrecognized_scheme(d.text),
        ),
        unrecognized_scheme(d.text).kind == FailureKind::InvalidDestination,
{
}

/// Resolving fails with an invalid destination and nothing else, and the
/// text of the failure ends with the URL.
pub proof fn law_resolve_fails_as_invalid_destination(d: DestinationView, platform: Platform)
    requires
        resolved(d, platform) is Err,
    ensures
        resolved(d, platform)->Err_0.kind == FailureKind::InvalidDestination,
        resolved(d, platform)->Err_0.message.len() >= d.text.len(),
        resolved(d, platform)->Err_0.message.subrange(
            resolved(d, platform)->Err_0.message.len() - d.text.len(),
            resolved(d, platform)->Err_0.message.len() as int,
        ) == d.text,
{
    let message = resolved(d, platform)->Err_0.message;
    let prefix = message.subrange(0, message.len() - d.text.len());
    assert(message =~= prefix + d.text);
    assert(message.subrange(message.len() - d.text.len(), message.len() as int) =~= d.text);
}

/// The address of a TCP endpoint: host, a colon, the port in decimal.
pub open spec fn tcp_address_of(host: Seq<char>, port: u16) -> Seq<char> {
    host + ":"@ + decimal(port as nat)
}

/// Writes the address of a TCP endpoint.
pub fn tcp_address(host: &str, port: u16) -> (address: String)
    ensures
        address@ == tcp_address_of(host@, port),
{
    let mut address = join(host, ":");
    let digits = decimal_text(port as u64);
    address.append(digits.as_str());
    address
}

fn invalid(prefix: &str, url: &str) -> (e: ForwardError)
    ensures
        e@ == invalid_destination(prefix@ + url@),
{
    ForwardError { kind: FailureKind::InvalidDestination, message: join(prefix, url) }
}

fn dialed_host(dest: &Destination) -> (host: String)
    ensures
        host@ == host_or_local(dest@.host),
{
    match &dest.host {
        Some(h) => h.clone(),
        None => String::from_str("localhost"),
    }
}

fn dialed_port(dest: &Destination, default: u16) -> (port: u16)
    ensures
        port == port_or(dest@.port, default),
{
    match dest.port {
        Some(p) => p,
        None => default,
    }
}

fn socket_path(dest: &Destination) -> (path: String)
    ensures
        path@ == unix_path(dest@.host, dest@.path),
{
    match &dest.host {
        Some(h) => join(h.as_str(), dest.path.as_str()),
        None => dest.path.clone(),
    }
}

fn named_pipe(dest: &Destination) -> (name: String)
    ensures
        name@ == pipe_name(dest@.host, dest@.path),
{
    let path = dest.path.as_str();
    let len = path.unicode_len();
    if dest.host.is_some() && len > 0 && path.get_char(0) == '/' {
        String::from_str(path.substring_char(1, len))
    } else {
        dest.path.clone()
    }
}

fn pipe_server(dest: &Destination) -> (host: String)
    ensures
        host@ == pipe_host(dest@.host),
{
    match &dest.host {
        Some(h) => if same_text(h.as_str(), "localhost") {
            String::from_str(".")
        } else {
            h.clone()
        },
        None => String::from_str("."),
    }
}

/// Resolves a destination URL to the plan that dials it.
pub fn resolve(dest: &Destination, platform: Platform) -> (plan: Result<DialPlan, ForwardError>)
    ensures
        match plan {
            Ok(p) => resolved(dest@, platform) == Ok::<DialPlanView, ForwardErrorView>(p@),
            Err(e) => resolved(dest@, platform) == Err::<DialPlanView, ForwardErrorView>(e@),
        },
{
    let scheme = dest.scheme.as_str();
    let url = dest.text.as_str();
    if same_text(scheme, "tcp") {
        match dest.port {
            Some(port) => Ok(DialPlan::Tcp { host: dialed_host(dest), port }),
            None => Err(invalid("missing port for tcp forwarding url ", url)),
        }
    } else if same_text(scheme, "http") {
        Ok(DialPlan::Http { host: dialed_host(dest), port: dialed_port(dest, 80) })
    } else if same_text(scheme, "https") || same_text(scheme, "tls") {
        Ok(DialPlan::Https { host: dialed_host(dest), port: dialed_port(dest, 443) })
    } else if platform.unix_sockets && same_text(scheme, "unix") {
        Ok(DialPlan::Unix { path: socket_path(dest) })
    } else if platform.named_pipes && same_text(scheme, "pipe") {
        let name = named_pipe(dest);
        if name.as_str().unicode_len() == 0 {
            Err(invalid("missing pipe name in forwarding url ", url))
        } else {
            let mut address = join("\\\\", pipe_server(dest).as_str());
            address.append("\\pipe\\");
            address.append(name.as_str());
            Ok(DialPlan::Pipe { address })
        }
    } else {
        Err(invalid("unrecognized scheme in forwarding url: ", url))
    }
}

} // verus!
