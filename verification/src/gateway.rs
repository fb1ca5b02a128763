//! What the tunnel side is told when the destination cannot be dialed.
//!
//! A connection that carries HTTP gets one response, `502 Bad Gateway`, whose
//! body describes the failure; any other connection is closed without a word.

use vstd::prelude::*;
use vstd::string::*;

use crate::error::{ForwardError, ForwardErrorView};
use crate::text::{join, same_text};

verus! {

/// The status of the response: `502 Bad Gateway`.
pub const BAD_GATEWAY: u16 = 502;

/// The one response that is served on a connection whose dial failed.
///
/// It is served over HTTP/1 only, and the connection is closed behind it.
#[derive(Clone, Debug, PartialEq, Eq)]
pub struct GatewayError {
    pub status: u16,
    pub http1_only: bool,
    pub keep_alive: bool,
    pub body: String,
}

/// The mathematical value of a [`GatewayError`].
pub struct GatewayErrorView {
    pub status: u16,
    pub http1_only: bool,
    pub keep_alive: bool,
    pub body: Seq<char>,
}

impl View for GatewayError {
    type V = GatewayErrorView;

    open spec fn view(&self) -> GatewayErrorView {
        GatewayErrorView {
            status: self.status,
            http1_only: self.http1_only,
            keep_alive: self.keep_alive,
            body: self.body@,
        }
    }
}

/// What is done with a connection whose dial failed.
#[derive(Clone, Debug, PartialEq, Eq)]
pub enum Degradation {
    /// Serve the response, then close.
    Respond(GatewayError),
    /// Close.
    Drop,
}

/// The mathematical value of a [`Degradation`].
pub enum DegradationView {
    Respond(GatewayErrorView),
    Drop,
}

impl View for Degradation {
    type V = DegradationView;

    open spec fn view(&self) -> DegradationView {
        match self {
            Degradation::Respond(r) => DegradationView::Respond(r@),
            Degradation::Drop => DegradationView::Drop,
        }
    }
}

/// Whether a protocol tag says that the connection carries HTTP.
pub open spec fn carries_http(proto: Seq<char>) -> bool {
    proto == "http"@ || proto == "https"@
}

/// The response for a dial that failed with `error`.
pub open spec fn gateway_error_for(error: ForwardErrorView) -> GatewayErrorView {
    GatewayErrorView {
        status: BAD_GATEWAY,
        http1_only: true,
        keep_alive: false,
        body: "failed to dial backend: "@ + error.message,
    }
}

/// What is done with a connection of protocol `proto` whose dial failed
/// with `error`.
pub open spec fn degraded(proto: Seq<char>, error: ForwardErrorView) -> DegradationView {
    if carries_http(proto) {
        DegradationView::Respond(gateway_error_for(error))
    } else {
        DegradationView::Drop
    }
}

/// Reads `hyper::StatusCode::BAD_GATEWAY` as a number, which is 502.
#[verifier::external_body]
fn bad_gateway_status() -> (status: u16)
    ensures
        status == BAD_GATEWAY,
{
    hyper::StatusCode::BAD_GATEWAY.as_u16()
}

/// Builds the response for a dial that failed with `error`.
pub fn gateway_error(error: &ForwardError) -> (response: GatewayError)
    ensures
        response@ == gateway_error_for(error@),
{
    GatewayError {
        status: bad_gateway_status(),
        http1_only: true,
        keep_alive: false,
        body: join("failed to dial backend: ", error.message.as_str()),
    }
}

/// Decides what becomes of a connection whose dial failed: a connection
/// tagged `http` or `https` is answered, any other is dropped.
pub fn on_err(proto: &str, error: &ForwardError) -> (outcome: Degradation)
    ensures
        outcome@ == degraded(proto@, error@),
{
    if same_text(proto, "http") || same_text(proto, "https") {
        Degradation::Respond(gateway_error(error))
    } else {
        Degradation::Drop
    }
}

} // verus!
