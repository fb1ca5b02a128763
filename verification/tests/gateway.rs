use tunnel_forward::error::{FailureKind, ForwardError};
use tunnel_forward::gateway::{gateway_error, on_err, Degradation, GatewayError, BAD_GATEWAY};

fn refused() -> ForwardError {
    ForwardError { kind: FailureKind::DialFailure, message: "connection refused".to_string() }
}

fn response(body: &str) -> GatewayError {
    GatewayError { status: 502, http1_only: true, keep_alive: false, body: body.to_string() }
}

#[test]
fn gateway_error_is_a_502_that_tells_the_failure() {
    assert_eq!(BAD_GATEWAY, 502);
    assert_eq!(
        gateway_error(&refused()),
        response("failed to dial backend: connection refused")
    );
    let invalid = ForwardError {
        kind: FailureKind::InvalidDestination,
        message: "missing port for tcp forwarding url tcp://host".to_string(),
    };
    assert_eq!(
        gateway_error(&invalid),
        response("failed to dial backend: missing port for tcp forwarding url tcp://host")
    );
    let silent = ForwardError { kind: FailureKind::DialFailure, message: String::new() };
    assert_eq!(gateway_error(&silent), response("failed to dial backend: "));
}

#[test]
fn on_err_answers_http_and_https() {
    let answer = Degradation::Respond(response("failed to dial backend: connection refused"));
    assert_eq!(on_err("http", &refused()), answer);
    assert_eq!(on_err("https", &refused()), answer);
}

#[test]
fn on_err_drops_every_other_protocol() {
    assert_eq!(on_err("tcp", &refused()), Degradation::Drop);
    assert_eq!(on_err("tls", &refused()), Degradation::Drop);
    assert_eq!(on_err("", &refused()), Degradation::Drop);
    assert_eq!(on_err("HTTP", &refused()), Degradation::Drop);
    assert_eq!(on_err("http2", &refused()), Degradation::Drop);
    assert_eq!(on_err("htt", &refused()), Degradation::Drop);
}
