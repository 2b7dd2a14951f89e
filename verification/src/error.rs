//! What can go wrong while a request is read.

use vstd::prelude::*;

verus! {

/// Why a combined `host:port` text was not accepted. Both are failures of the input
/// alone: they are found before any name is looked up.
#[derive(Clone, Copy, Debug, PartialEq, Eq, Structural)]
pub enum ParseError {
    /// The text holds no `:` to part the host from the port.
    MissingSeparator,
    /// What follows the last `:` is not a port number.
    InvalidPort,
}

impl ParseError {
    /// The words that describe this failure.
    pub open spec fn message_text(self) -> Seq<char> {
        match self {
            ParseError::MissingSeparator => "invalid socket address"@,
            ParseError::InvalidPort => "invalid port value"@,
        }
    }

    /// The words that describe this failure, for a report to the caller.
    pub fn message(&self) -> (text: &'static str)
        ensures
            text@ == self.message_text(),
    {
        match self {
            ParseError::MissingSeparator => "invalid socket address",
            ParseError::InvalidPort => "invalid port value",
        }
    }
}

/// The error that the operating system and the resolver report their failures with.
/// Nothing is known of what one holds: it is carried to the caller as it came.
#[verifier::external_type_specification]
#[verifier::external_body]
pub struct ExIoError(std::io::Error);

/// Why no addresses came of a request. Either way there are none at all: a request is
/// resolved in full or not at all, and nothing is tried a second time.
#[derive(Debug)]
pub enum ResolveError {
    /// The resolver could not resolve the name; what it reported is held inside.
    Resolution(std::io::Error),
    /// No scheduler could be made to run the resolution on; the cause is held inside.
    SchedulerCreation(std::io::Error),
}

impl ResolveError {
    /// The failure as the outside reported it.
    pub open spec fn cause(self) -> std::io::Error {
        match self {
            ResolveError::Resolution(cause) => cause,
            ResolveError::SchedulerCreation(cause) => cause,
        }
    }

    /// Gives up the failure as the outside reported it.
    pub fn into_cause(self) -> (cause: std::io::Error)
        ensures
            cause == self.cause(),
    {
        match self {
            ResolveError::Resolution(cause) => cause,
            ResolveError::SchedulerCreation(cause) => cause,
        }
    }
}

} // verus!
