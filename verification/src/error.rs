//! The failures a forwarder reports.

use vstd::prelude::*;

verus! {

/// What went wrong.
#[derive(Clone, Copy, Debug, PartialEq, Eq, Structural)]
pub enum FailureKind {
    /// The destination URL is malformed, lacks a part that its scheme needs,
    /// or names a scheme that is not supported.
    InvalidDestination,
    /// The tunnel failed while the next connection was being taken from it.
    SourceUnavailable,
    /// The destination could not be reached: the connect, the TLS
    /// configuration or the handshake failed.
    DialFailure,
}

/// A failure with the text that describes it.
#[derive(Clone, Debug, PartialEq, Eq)]
pub struct ForwardError {
    pub kind: FailureKind,
    pub message: String,
}

/// The mathematical value of a [`ForwardError`].
pub struct ForwardErrorView {
    pub kind: FailureKind,
    pub message: Seq<char>,
}

impl View for ForwardError {
    type V = ForwardErrorView;

    open spec fn view(&self) -> ForwardErrorView {
        ForwardErrorView { kind: self.kind, message: self.message@ }
    }
}

/// The failure of kind `InvalidDestination` with the given text.
pub open spec fn invalid_destination(message: Seq<char>) -> ForwardErrorView {
    ForwardErrorView { kind: FailureKind::InvalidDestination, message }
}

/// The failure of kind `SourceUnavailable` with the given text.
pub open spec fn source_unavailable(message: Seq<char>) -> ForwardErrorView {
    ForwardErrorView { kind: FailureKind::SourceUnavailable, message }
}

/// The failure of kind `DialFailure` with the given text.
pub open spec fn dial_failure(message: Seq<char>) -> ForwardErrorView {
    ForwardErrorView { kind: FailureKind::DialFailure, message }
}

} // verus!
