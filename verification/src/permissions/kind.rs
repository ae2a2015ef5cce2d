//! The closed set of permission kinds.

use crate::permissions::db::Db;
use crate::permissions::p2p::P2P;
use vstd::prelude::*;

verus! {

/// What a script may do in the workspace's directory tree.
#[derive(Debug, Clone, Copy, PartialEq, Eq, Structural)]
pub enum Fs {
    Open,
    Create,
    Read,
    Write,
    Execute,
}

/// What a script may do with the request that started it.
#[derive(Debug, Clone, Copy, PartialEq, Eq, Structural)]
pub enum HttpEvent {
    RequestRead,
    ResponseSend,
}

/// A category of restricted operation.
#[derive(Debug, Clone, Copy, PartialEq, Eq, Structural)]
pub enum PermissionFamily {
    Filesystem,
    Database,
    PeerNetwork,
    HttpEvent,
}

/// A category of restricted operation, with the operation itself.
#[derive(Debug, Clone, Copy, PartialEq, Eq, Structural)]
pub enum PermissionKind {
    Filesystem(Fs),
    Database(Db),
    PeerNetwork(P2P),
    HttpEvent(HttpEvent),
}

/// Identifies a permission: the family it belongs to and a variant number
/// within the family.
#[derive(Debug, Clone, Copy, PartialEq, Eq, Structural)]
pub struct PermissionTypeKey {
    pub family: PermissionFamily,
    pub variant: u32,
}

impl PermissionKind {
    /// The family of this kind.
    pub open spec fn spec_family(self) -> PermissionFamily {
        match self {
            PermissionKind::Filesystem(_) => PermissionFamily::Filesystem,
            PermissionKind::Database(_) => PermissionFamily::Database,
            PermissionKind::PeerNetwork(_) => PermissionFamily::PeerNetwork,
            PermissionKind::HttpEvent(_) => PermissionFamily::HttpEvent,
        }
    }

    /// Whether patterns of this kind are always read under a namespace root.
    pub open spec fn spec_needs_root(self) -> bool {
        self is Database
    }

    /// Whether patterns of this kind begin with a name of bounded length.
    pub open spec fn spec_bounds_name(self) -> bool {
        self is Database
    }

    /// The family of this kind.
    #[verifier::when_used_as_spec(spec_family)]
    pub fn family(self) -> (r: PermissionFamily)
        ensures
            r == self.spec_family(),
    {
        match self {
            PermissionKind::Filesystem(_) => PermissionFamily::Filesystem,
            PermissionKind::Database(_) => PermissionFamily::Database,
            PermissionKind::PeerNetwork(_) => PermissionFamily::PeerNetwork,
            PermissionKind::HttpEvent(_) => PermissionFamily::HttpEvent,
        }
    }

    /// Whether patterns of this kind are always read under a namespace root.
    #[verifier::when_used_as_spec(spec_needs_root)]
    pub fn needs_root(self) -> (r: bool)
        ensures
            r == self.spec_needs_root(),
    {
        match self {
            PermissionKind::Database(_) => true,
            _ => false,
        }
    }

    /// Whether patterns of this kind begin with a name of bounded length.
    #[verifier::when_used_as_spec(spec_bounds_name)]
    pub fn bounds_name(self) -> (r: bool)
        ensures
            r == self.spec_bounds_name(),
    {
        match self {
            PermissionKind::Database(_) => true,
            _ => false,
        }
    }
}

} // verus!
