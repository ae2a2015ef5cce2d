//! Capability-scoped permissions: resource patterns, the kinds of permission
//! and the checks that every restricted operation passes through.

pub mod db;
pub mod error;
pub mod kind;
pub mod laws;
pub mod matcher;
pub mod p2p;
pub mod pattern;

pub use db::{Db, DbPath, DbRoot, NamespaceRoot, ResourcePattern};
pub use error::{PermissionError, PermissionFault};
pub use kind::{Fs, HttpEvent, PermissionFamily, PermissionKind, PermissionTypeKey};
pub use p2p::P2P;
