//! The destination URL, as the parts that forwarding reads.

use vstd::prelude::*;
use vstd::string::*;

use crate::error::{invalid_destination, FailureKind, ForwardError, ForwardErrorView};
use crate::text::join;

verus! {

/// A parsed destination URL.
///
/// `text` is the URL as it is written out; the other fields are the parts
/// of it. The record is plain data: any combination of parts is a value,
/// and resolving decides what to make of it.
#[derive(Clone, Debug, PartialEq, Eq)]
pub struct Destination {
    pub text: String,
    pub scheme: String,
    pub host: Option<String>,
    pub port: Option<u16>,
    pub path: String,
}

/// The mathematical value of a [`Destination`].
pub struct DestinationView {
    pub text: Seq<char>,
    pub scheme: Seq<char>,
    pub host: Option<Seq<char>>,
    pub port: Option<u16>,
    pub path: Seq<char>,
}

/// The characters of an optional text.
pub open spec fn opt_text(text: Option<String>) -> Option<Seq<char>> {
    match text {
        Some(t) => Some(t@),
        None => None,
    }
}

impl View for Destination {
    type V = DestinationView;

    open spec fn view(&self) -> DestinationView {
        DestinationView {
            text: self.text@,
            scheme: self.scheme@,
            host: opt_text(self.host),
            port: self.port,
            path: self.path@,
        }
    }
}

/// What `url::Url::parse` makes of `text`: `None` where it rejects the text,
/// else the serialization, scheme, host, port and path of the URL it returns.
pub uninterp spec fn parsed_url(text: Seq<char>) -> Option<DestinationView>;

/// Calls `url::Url::parse` and copies out of the URL it returns what
/// `as_str`, `scheme`, `host_str`, `port` and `path` give. The parser is a
/// function of the text alone; the contract names its result and claims
/// nothing else of it.
#[verifier::external_body]
fn parse_url(text: &str) -> (parsed: Option<Destination>)
    ensures
        parsed matches Some(d) ==> parsed_url(text@) == Some(d@),
        parsed is None ==> parsed_url(text@) is None,
{
    match url::Url::parse(text) {
        Ok(u) => Some(
            Destination {
                text: String::from(u.as_str()),
                scheme: String::from(u.scheme()),
                host: u.host_str().map(String::from),
                port: u.port(),
                path: String::from(u.path()),
            },
        ),
        Err(_) => None,
    }
}

/// The failure reported for a text that is no URL.
pub open spec fn malformed_url(text: Seq<char>) -> ForwardErrorView {
    invalid_destination("invalid forwarding url: "@ + text)
}

impl Destination {
    /// Takes the outcome of the URL parser on `text` and reports a rejected
    /// text as an invalid destination.
    pub fn from_parsed(text: &str, parsed: Option<Destination>) -> (dest: Result<
        Destination,
        ForwardError,
    >)
        ensures
            match parsed {
                Some(d) => dest == Ok::<Destination, ForwardError>(d),
                None => dest matches Err(e) && e@ == malformed_url(text@),
            },
    {
        match parsed {
            Some(d) => Ok(d),
            None => Err(
                ForwardError {
                    kind: FailureKind::InvalidDestination,
                    message: join("invalid forwarding url: ", text),
                },
            ),
        }
    }

    /// Parses a destination URL.
    pub fn parse(text: &str) -> (dest: Result<Destination, ForwardError>)
        ensures
            match parsed_url(text@) {
                Some(v) => dest matches Ok(d) && d@ == v,
                None => dest matches Err(e) && e@ == malformed_url(text@),
            },
    {
        Destination::from_parsed(text, parse_url(text))
    }
}

} // verus!
