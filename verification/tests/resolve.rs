use tunnel_forward::destination::Destination;
use tunnel_forward::error::{FailureKind, ForwardError};
use tunnel_forward::plan::{resolve, tcp_address, DialPlan, Platform};
use tunnel_forward::text::{decimal_text, join, same_text};

const UNIX: Platform = Platform { unix_sockets: true, named_pipes: false };
const WINDOWS: Platform = Platform { unix_sockets: false, named_pipes: true };
const BOTH: Platform = Platform { unix_sockets: true, named_pipes: true };
const NEITHER: Platform = Platform { unix_sockets: false, named_pipes: false };

fn plan_for(url: &str, platform: Platform) -> Result<DialPlan, ForwardError> {
    let dest = Destination::parse(url).expect("the URL parses");
    resolve(&dest, platform)
}

fn invalid(message: &str) -> ForwardError {
    ForwardError { kind: FailureKind::InvalidDestination, message: message.to_string() }
}

#[test]
fn parse_copies_the_parts_of_the_url() {
    let dest = Destination::parse("HTTP://Example.COM:8080/a/b?c=d#e").unwrap();
    assert_eq!(
        dest,
        Destination {
            text: "http://example.com:8080/a/b?c=d#e".to_string(),
            scheme: "http".to_string(),
            host: Some("example.com".to_string()),
            port: Some(8080),
            path: "/a/b".to_string(),
        }
    );
}

#[test]
fn parse_of_a_url_without_authority() {
    let dest = Destination::parse("unix:relative/path").unwrap();
    assert_eq!(
        dest,
        Destination {
            text: "unix:relative/path".to_string(),
            scheme: "unix".to_string(),
            host: None,
            port: None,
            path: "relative/path".to_string(),
        }
    );
}

#[test]
fn parse_rejects_what_is_no_url() {
    assert_eq!(
        Destination::parse("not a url"),
        Err(invalid("invalid forwarding url: not a url"))
    );
    assert_eq!(Destination::parse(""), Err(invalid("invalid forwarding url: ")));
    assert_eq!(
        Destination::parse("http://"),
        Err(invalid("invalid forwarding url: http://"))
    );
}

#[test]
fn from_parsed_keeps_a_parsed_destination() {
    let dest = Destination {
        text: "tcp://h:1".to_string(),
        scheme: "tcp".to_string(),
        host: Some("h".to_string()),
        port: Some(1),
        path: String::new(),
    };
    assert_eq!(Destination::from_parsed("tcp://h:1", Some(dest.clone())), Ok(dest));
    assert_eq!(
        Destination::from_parsed("::", None),
        Err(invalid("invalid forwarding url: ::"))
    );
}

#[test]
fn tcp_resolves_to_host_and_port() {
    assert_eq!(
        plan_for("tcp://localhost:8080", UNIX),
        Ok(DialPlan::Tcp { host: "localhost".to_string(), port: 8080 })
    );
    assert_eq!(
        plan_for("tcp://10.0.0.7:22", WINDOWS),
        Ok(DialPlan::Tcp { host: "10.0.0.7".to_string(), port: 22 })
    );
    assert_eq!(
        plan_for("tcp://[::1]:65535", NEITHER),
        Ok(DialPlan::Tcp { host: "[::1]".to_string(), port: 65535 })
    );
}

#[test]
fn tcp_without_port_is_invalid() {
    assert_eq!(
        plan_for("tcp://host", UNIX),
        Err(invalid("missing port for tcp forwarding url tcp://host"))
    );
    assert_eq!(
        plan_for("tcp://host/path", BOTH),
        Err(invalid("missing port for tcp forwarding url tcp://host/path"))
    );
}

#[test]
fn http_port_defaults_to_80() {
    assert_eq!(
        plan_for("http://example.com", UNIX),
        Ok(DialPlan::Http { host: "example.com".to_string(), port: 80 })
    );
    assert_eq!(
        plan_for("http://example.com:80/", UNIX),
        Ok(DialPlan::Http { host: "example.com".to_string(), port: 80 })
    );
    assert_eq!(
        plan_for("http://example.com:8081/index.html", UNIX),
        Ok(DialPlan::Http { host: "example.com".to_string(), port: 8081 })
    );
}

#[test]
fn https_and_tls_ports_default_to_443() {
    assert_eq!(
        plan_for("https://example.com", UNIX),
        Ok(DialPlan::Https { host: "example.com".to_string(), port: 443 })
    );
    assert_eq!(
        plan_for("tls://example.com", UNIX),
        Ok(DialPlan::Https { host: "example.com".to_string(), port: 443 })
    );
    assert_eq!(
        plan_for("https://example.com:8443", UNIX),
        Ok(DialPlan::Https { host: "example.com".to_string(), port: 8443 })
    );
    assert_eq!(
        plan_for("tls://example.com:9000", UNIX),
        Ok(DialPlan::Https { host: "example.com".to_string(), port: 9000 })
    );
    assert_eq!(
        plan_for("tls://example.com:443", UNIX),
        Ok(DialPlan::Https { host: "example.com".to_string(), port: 443 })
    );
}

#[test]
fn a_missing_host_is_localhost() {
    let dest = Destination {
        text: "http:".to_string(),
        scheme: "http".to_string(),
        host: None,
        port: None,
        path: String::new(),
    };
    assert_eq!(
        resolve(&dest, UNIX),
        Ok(DialPlan::Http { host: "localhost".to_string(), port: 80 })
    );
    let dest = Destination {
        text: "tcp:".to_string(),
        scheme: "tcp".to_string(),
        host: None,
        port: Some(7),
        path: String::new(),
    };
    assert_eq!(
        resolve(&dest, UNIX),
        Ok(DialPlan::Tcp { host: "localhost".to_string(), port: 7 })
    );
}

#[test]
fn unix_forms_resolve_to_their_socket_path() {
    assert_eq!(
        plan_for("unix://path/to/socket", UNIX),
        Ok(DialPlan::Unix { path: "path/to/socket".to_string() })
    );
    assert_eq!(
        plan_for("unix:path/to/socket", UNIX),
        Ok(DialPlan::Unix { path: "path/to/socket".to_string() })
    );
    assert_eq!(
        plan_for("unix:///path/to/socket", UNIX),
        Ok(DialPlan::Unix { path: "/path/to/socket".to_string() })
    );
    assert_eq!(
        plan_for("unix:/path/to/socket", UNIX),
        Ok(DialPlan::Unix { path: "/path/to/socket".to_string() })
    );
}

#[test]
fn unix_needs_a_platform_with_unix_sockets() {
    assert_eq!(
        plan_for("unix:/run/app.sock", WINDOWS),
        Err(invalid("unrecognized scheme in forwarding url: unix:/run/app.sock"))
    );
    assert_eq!(
        plan_for("unix:/run/app.sock", BOTH),
        Ok(DialPlan::Unix { path: "/run/app.sock".to_string() })
    );
}

#[test]
fn pipe_forms_resolve_to_their_address() {
    assert_eq!(
        plan_for("pipe:mypipename", WINDOWS),
        Ok(DialPlan::Pipe { address: "\\\\.\\pipe\\mypipename".to_string() })
    );
    assert_eq!(
        plan_for("pipe://host/mypipename", WINDOWS),
        Ok(DialPlan::Pipe { address: "\\\\host\\pipe\\mypipename".to_string() })
    );
    assert_eq!(
        plan_for("pipe://localhost/mypipename", WINDOWS),
        Ok(DialPlan::Pipe { address: "\\\\.\\pipe\\mypipename".to_string() })
    );
}

#[test]
fn pipe_without_host_keeps_its_leading_slash() {
    assert_eq!(
        plan_for("pipe:///mypipename", WINDOWS),
        Ok(DialPlan::Pipe { address: "\\\\.\\pipe\\/mypipename".to_string() })
    );
    assert_eq!(
        plan_for("pipe:/mypipename", WINDOWS),
        Ok(DialPlan::Pipe { address: "\\\\.\\pipe\\/mypipename".to_string() })
    );
}

#[test]
fn pipe_with_host_loses_one_slash_only() {
    assert_eq!(
        plan_for("pipe://host//a/b", WINDOWS),
        Ok(DialPlan::Pipe { address: "\\\\host\\pipe\\/a/b".to_string() })
    );
}

#[test]
fn pipe_without_name_is_invalid() {
    assert_eq!(
        plan_for("pipe:", WINDOWS),
        Err(invalid("missing pipe name in forwarding url pipe:"))
    );
    assert_eq!(
        plan_for("pipe://host", WINDOWS),
        Err(invalid("missing pipe name in forwarding url pipe://host"))
    );
    assert_eq!(
        plan_for("pipe://localhost/", WINDOWS),
        Err(invalid("missing pipe name in forwarding url pipe://localhost/"))
    );
}

#[test]
fn pipe_needs_a_platform_with_named_pipes() {
    assert_eq!(
        plan_for("pipe:mypipename", UNIX),
        Err(invalid("unrecognized scheme in forwarding url: pipe:mypipename"))
    );
    assert_eq!(
        plan_for("pipe:", NEITHER),
        Err(invalid("unrecognized scheme in forwarding url: pipe:"))
    );
}

#[test]
fn unsupported_scheme_is_invalid() {
    assert_eq!(
        plan_for("ftp://host", UNIX),
        Err(invalid("unrecognized scheme in forwarding url: ftp://host/"))
    );
    assert_eq!(
        plan_for("udp://host:53", BOTH),
        Err(invalid("unrecognized scheme in forwarding url: udp://host:53"))
    );
    assert_eq!(
        plan_for("mailto:someone@example.com", BOTH),
        Err(invalid("unrecognized scheme in forwarding url: mailto:someone@example.com"))
    );
}

#[test]
fn scheme_is_matched_as_a_whole() {
    assert_eq!(
        plan_for("tcps://host:1", UNIX),
        Err(invalid("unrecognized scheme in forwarding url: tcps://host:1"))
    );
    assert_eq!(
        plan_for("htt://host:1", UNIX),
        Err(invalid("unrecognized scheme in forwarding url: htt://host:1"))
    );
}

#[test]
fn tcp_address_joins_host_and_port() {
    assert_eq!(tcp_address("localhost", 8080), "localhost:8080");
    assert_eq!(tcp_address("[::1]", 443), "[::1]:443");
    assert_eq!(tcp_address("h", 0), "h:0");
    assert_eq!(tcp_address("", 65535), ":65535");
}

#[test]
fn decimal_text_of_numbers() {
    assert_eq!(decimal_text(0), "0");
    assert_eq!(decimal_text(7), "7");
    assert_eq!(decimal_text(10), "10");
    assert_eq!(decimal_text(443), "443");
    assert_eq!(decimal_text(65535), "65535");
    assert_eq!(decimal_text(1_000_000_007), "1000000007");
    assert_eq!(decimal_text(u64::MAX), "18446744073709551615");
}

#[test]
fn text_helpers() {
    assert!(same_text("tcp", "tcp"));
    assert!(!same_text("tcp", "tcpx"));
    assert!(!same_text("tcp", "tls"));
    assert!(same_text("", ""));
    assert_eq!(join("a", "b"), "ab");
    assert_eq!(join("", "b"), "b");
    assert_eq!(join("a\u{e9}", ""), "a\u{e9}");
}
