//! How a relay between the two legs of a connection ended.

use vstd::prelude::*;
use vstd::string::*;

use crate::text::{decimal, decimal_text, join};

verus! {

/// The end of a relay. It is reported and goes no further: a relay that
/// failed fails nothing but itself.
#[derive(Clone, Debug, PartialEq, Eq)]
pub enum RelayOutcome {
    /// Both directions ran to their end, with the bytes that went each way.
    Closed { from_tunnel: u64, from_local: u64 },
    /// Reading or writing failed on one of the legs.
    Failed { message: String },
}

/// The mathematical value of a [`RelayOutcome`].
pub enum RelayOutcomeView {
    Closed { from_tunnel: u64, from_local: u64 },
    Failed { message: Seq<char> },
}

impl View for RelayOutcome {
    type V = RelayOutcomeView;

    open spec fn view(&self) -> RelayOutcomeView {
        match self {
            RelayOutcome::Closed { from_tunnel, from_local } => RelayOutcomeView::Closed {
                from_tunnel: *from_tunnel,
                from_local: *from_local,
            },
            RelayOutcome::Failed { message } => RelayOutcomeView::Failed { message: message@ },
        }
    }
}

/// The line that reports the end of a relay.
pub open spec fn relay_summary_of(outcome: RelayOutcomeView) -> Seq<char> {
    match outcome {
        RelayOutcomeView::Closed { from_tunnel, from_local } => {
            "joined streams closed, bytes from tunnel: "@ + decimal(from_tunnel as nat)
                + ", bytes from local: "@ + decimal(from_local as nat)
        },
        RelayOutcomeView::Failed { message } => "joined streams error: "@ + message,
    }
}

/// Writes the line that reports the end of a relay.
pub fn relay_summary(outcome: &RelayOutcome) -> (line: String)
    ensures
        line@ == relay_summary_of(outcome@),
{
    match outcome {
        RelayOutcome::Closed { from_tunnel, from_local } => {
            let mut line = join(
                "joined streams closed, bytes from tunnel: ",
                decimal_text(*from_tunnel).as_str(),
            );
            line.append(", bytes from local: ");
            line.append(decimal_text(*from_local).as_str());
            line
        },
        RelayOutcome::Failed { message } => join("joined streams error: ", message.as_str()),
    }
}

} // verus!
