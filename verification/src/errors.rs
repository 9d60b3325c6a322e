//! The validation error taxonomy: one variant per way an invocation can fail.
//!
//! Every error is terminal for its invocation.  The boundary layer renders
//! the usage text and the diagnostic message and terminates the process; the
//! library itself never prints and never exits.

use vstd::prelude::*;

verus! {

/// An option that a (mode, command) combination can demand.
#[derive(Clone, Copy, Debug, PartialEq, Eq, Structural)]
pub enum RequiredOption {
    /// `--start-url`: where a crawl begins.
    StartUrl,
    /// `--publish`: the address a coordinator exposes to the network.
    Publish,
    /// `--web-url`: the coordinator address a worker connects to.
    WebUrl,
}

/// Why an invocation was rejected.  Construction of one of these is the
/// terminal outcome for the invocation that produced it.
#[derive(Clone, Copy, Debug, PartialEq, Eq, Structural)]
pub enum ValidationError {
    /// The invocation has no tokens beyond the program name.
    InsufficientArguments,
    /// No recognized command token appeared anywhere in the invocation.
    NoCommandProvided,
    /// More than one recognized command token appeared; rather than letting
    /// the last one win silently, the ambiguity is rejected.
    AmbiguousCommand,
    /// Tokens at the carried index and the one after it are both
    /// flag-shaped, so the first of them has no value.
    AdjacentFlags(usize),
    /// `--mode` was absent, had no value, or named an unknown mode.
    InvalidMode,
    /// The option that the (mode, command) combination requires is absent.
    MissingRequiredOption(RequiredOption),
    /// `serve` was requested in standalone mode, where it has no meaning.
    StandaloneServeNoop,
    /// `connect` was requested in standalone mode; only distributed mode has
    /// a coordinator to connect to.
    ConnectRequiresDistributed,
}

/// The diagnostic text that `ValidationError::message` returns, as a
/// sequence of characters.
pub open spec fn message_view(e: ValidationError) -> Seq<char> {
    match e {
        ValidationError::InsufficientArguments => "insufficient number of arguments"@,
        ValidationError::NoCommandProvided => "no command was provided"@,
        ValidationError::AmbiguousCommand => "more than one command was provided"@,
        ValidationError::AdjacentFlags(_) => "invalid argument provided"@,
        ValidationError::InvalidMode => "a valid mode is required"@,
        ValidationError::MissingRequiredOption(o) => match o {
            RequiredOption::StartUrl => "start_url is required"@,
            RequiredOption::Publish => "publish address is required"@,
            RequiredOption::WebUrl => "web url is required"@,
        },
        ValidationError::StandaloneServeNoop => "serve command is a no-op in standalone mode"@,
        ValidationError::ConnectRequiresDistributed => "connect command only available for distributed mode"@,
    }
}

impl ValidationError {
    /// A short diagnostic identifying the specific failure, for the boundary
    /// layer to print beside the usage text.
    pub fn message(&self) -> (r: String)
        ensures
            r@ == message_view(*self),
    {
        match self {
            ValidationError::InsufficientArguments => {
                String::from_str("insufficient number of arguments")
            },
            ValidationError::NoCommandProvided => String::from_str("no command was provided"),
            ValidationError::AmbiguousCommand => {
                String::from_str("more than one command was provided")
            },
            ValidationError::AdjacentFlags(_) => String::from_str("invalid argument provided"),
            ValidationError::InvalidMode => String::from_str("a valid mode is required"),
            ValidationError::MissingRequiredOption(o) => match o {
                RequiredOption::StartUrl => String::from_str("start_url is required"),
                RequiredOption::Publish => String::from_str("publish address is required"),
                RequiredOption::WebUrl => String::from_str("web url is required"),
            },
            ValidationError::StandaloneServeNoop => {
                String::from_str("serve command is a no-op in standalone mode")
            },
            ValidationError::ConnectRequiresDistributed => {
                String::from_str("connect command only available for distributed mode")
            },
        }
    }
}

} // verus!
