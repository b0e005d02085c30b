//! Command-dispatch and request-translation core of an administrative client
//! for a payment-routing node.
//!
//! Given a parsed command invocation (a category, an optional action, and a
//! flat set of named string arguments), this library decides which remote
//! endpoint, HTTP method, authentication scheme, and request body correspond
//! to that invocation, and produces a fully specified outbound request.
//! Network I/O and command-line parsing are left to collaborators.

use vstd::prelude::*;

pub mod args;
pub mod interpreter;
pub mod request;
pub mod router;

verus! {

/// Everything that can go wrong while translating an invocation into a
/// request. Transport failures are a collaborator concern and have no
/// variant here.
#[derive(Debug)]
pub enum Error {
    /// The invocation lacks a resolvable category/action pair; the payload
    /// is a help hint for the user.
    UsageError(&'static str),
    /// A command requiring authentication was invoked without the token
    /// argument.
    MissingAuthToken,
    /// A required named argument was not supplied; the payload is its name.
    MissingArgument(&'static str),
    /// An action reached dispatch without a table entry: the parser and the
    /// dispatch table have drifted apart.
    UnrecognizedCommand,
    /// The command is declared as a capability placeholder only; no one-shot
    /// request corresponds to it.
    Unimplemented,
}

} // verus!
