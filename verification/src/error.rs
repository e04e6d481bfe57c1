//! The closed error taxonomy of the library: flag-parse failures, transport
//! failures surfaced by the caller's HTTP client, undecodable response
//! bodies, and a response that lacks the expected identifier key.

use vstd::prelude::*;

verus! {

/// Which compiler flag a parse failure was about.
#[derive(Debug, Clone, Copy, PartialEq, Eq, Structural)]
pub enum FlagKind {
    Channel,
    Edition,
    Mode,
}

/// An error of the library. Each request or parse either fully succeeds or
/// fails with exactly one of these; none is fatal to the process.
#[derive(Debug, PartialEq, Eq)]
pub enum Error {
    /// A flag string matched none of the accepted tokens; carries the flag
    /// kind and the offending input verbatim.
    InvalidFlagValue { kind: FlagKind, input: String },
    /// A network or HTTP failure, carrying the transport's own rendering.
    TransportError { detail: String },
    /// A response body that could not be decoded as the expected JSON shape.
    MalformedResponse { detail: String },
    /// A decoded response that lacks the expected identifier key.
    MissingField,
}

/// The words each flag-parse failure message opens with.
pub open spec fn flag_error_prefix(kind: FlagKind) -> Seq<char> {
    match kind {
        FlagKind::Channel => "invalid release channel `"@,
        FlagKind::Edition => "invalid edition `"@,
        FlagKind::Mode => "invalid compilation mode `"@,
    }
}

/// The human-readable rendering of an error. The structured fields are the
/// representation; this is only a view of them.
pub open spec fn error_message(e: Error) -> Seq<char> {
    match e {
        Error::InvalidFlagValue { kind, input } => flag_error_prefix(kind) + input@ + "`"@,
        Error::TransportError { detail } => detail@,
        Error::MalformedResponse { detail } => detail@,
        Error::MissingField => "no gist found"@,
    }
}

impl Error {
    /// Renders the error as its human-readable message.
    pub fn message(&self) -> (r: String)
        ensures
            r@ == error_message(*self),
    {
        match self {
            Error::InvalidFlagValue { kind, input } => {
                let mut m: String = match kind {
                    FlagKind::Channel => String::from_str("invalid release channel `"),
                    FlagKind::Edition => String::from_str("invalid edition `"),
                    FlagKind::Mode => String::from_str("invalid compilation mode `"),
                };
                m.append(input.as_str());
                m.append("`");
                m
            },
            Error::TransportError { detail } => detail.clone(),
            Error::MalformedResponse { detail } => detail.clone(),
            Error::MissingField => String::from_str("no gist found"),
        }
    }
}

} // verus!
