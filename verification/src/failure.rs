//! The ways in which a request can fail.

use vstd::prelude::*;

verus! {

/// Why a request could not be carried through.
#[derive(Debug, Clone, Copy, PartialEq, Eq, Structural)]
pub enum Failure {
    /// A script asked for more than its permissions grant.
    PermissionDenied,
    /// A path led out of the workspace.
    PathContainmentViolation,
    /// A manifest or a script is not there.
    NotFound,
    /// The engine could not parse or run a script.
    ScriptEngineFailure,
    /// A channel or the network failed.
    TransportFailure,
    /// The server itself is at fault: it came to an abrupt end, or what is
    /// deployed on it cannot be used.
    InternalPanic,
}

} // verus!
