//! What can go wrong while compiling or checking permissions.

use crate::permissions::kind::PermissionKind;
use crate::failure::Failure;
use vstd::prelude::*;

verus! {

/// A failure to compile an allow-list, or a refused check.
#[derive(Debug)]
pub enum PermissionError {
    /// The kind is namespaced and no root was given.
    RootMissing,
    /// The name at the head of a pattern is longer than the limit.
    NameTooLong { name: String },
    /// The delimiter `$` occurs inside a root or a pattern.
    ReservedDelimiter { text: String },
    /// The matching engine refused the expression written for a pattern.
    PatternRejected { pattern: String },
    /// No pattern of the allow-list accepts the resource.
    Denied { kind: PermissionKind, resource: String },
}

/// A `PermissionError` as a mathematical value.
pub enum PermissionFault {
    RootMissing,
    NameTooLong { name: Seq<char> },
    ReservedDelimiter { text: Seq<char> },
    PatternRejected { pattern: Seq<char> },
    Denied { kind: PermissionKind, resource: Seq<char> },
}

impl View for PermissionError {
    type V = PermissionFault;

    open spec fn view(&self) -> PermissionFault {
        match self {
            PermissionError::RootMissing => PermissionFault::RootMissing,
            PermissionError::NameTooLong { name } => PermissionFault::NameTooLong { name: name@ },
            PermissionError::ReservedDelimiter { text } => PermissionFault::ReservedDelimiter {
                text: text@,
            },
            PermissionError::PatternRejected { pattern } => PermissionFault::PatternRejected {
                pattern: pattern@,
            },
            PermissionError::Denied { kind, resource } => PermissionFault::Denied {
                kind: *kind,
                resource: resource@,
            },
        }
    }
}

impl PermissionError {
    /// The failure that the error stands for when it ends a request. A
    /// resource that no pattern accepts, and a namespaced kind without its
    /// root, are a denied permission. An allow-list that does not compile is
    /// a fault in what is deployed on the server, not of the request, and is
    /// a failure inside the server.
    pub open spec fn spec_failure(&self) -> Failure {
        match self {
            PermissionError::Denied { .. } => Failure::PermissionDenied,
            PermissionError::RootMissing => Failure::PermissionDenied,
            PermissionError::NameTooLong { .. } => Failure::InternalPanic,
            PermissionError::ReservedDelimiter { .. } => Failure::InternalPanic,
            PermissionError::PatternRejected { .. } => Failure::InternalPanic,
        }
    }

    /// The failure that the error stands for when it ends a request.
    #[verifier::when_used_as_spec(spec_failure)]
    pub fn failure(&self) -> (r: Failure)
        ensures
            r == self.spec_failure(),
    {
        match self {
            PermissionError::Denied { .. } => Failure::PermissionDenied,
            PermissionError::RootMissing => Failure::PermissionDenied,
            PermissionError::NameTooLong { .. } => Failure::InternalPanic,
            PermissionError::ReservedDelimiter { .. } => Failure::InternalPanic,
            PermissionError::PatternRejected { .. } => Failure::InternalPanic,
        }
    }
}

} // verus!
