//! The manifest of a route: what it asks for before its handler runs.

use crate::permissions::Db;
use vstd::prelude::*;

verus! {

/// Whether requests are authenticated before anything else runs.
#[derive(Debug)]
pub struct Authentication {
    pub enabled: bool,
}

/// A script that is run, in its turn, before the handler.
#[derive(Debug)]
pub struct Middleware {
    pub script: String,
}

/// The paths that the handler may open, create, read, write and execute.
#[derive(Debug)]
pub struct FsPermissions {
    pub open: Vec<String>,
    pub create: Vec<String>,
    pub read: Vec<String>,
    pub write: Vec<String>,
    pub execute: Vec<String>,
}

/// What the handler may do with the request that started it.
#[derive(Debug)]
pub struct HttpEventPermissions {
    pub request_read: bool,
    pub response_send: bool,
}

/// The database paths on which the handler may perform one operation.
#[derive(Debug)]
pub struct DbPermission {
    pub operation: Db,
    pub paths: Vec<String>,
}

/// The permissions that a route declares for its handler.
#[derive(Debug)]
pub struct ManifestPermissions {
    pub fs: FsPermissions,
    pub http_event: HttpEventPermissions,
    pub db: Vec<DbPermission>,
}

/// The manifest of a route.
#[derive(Debug)]
pub struct ApiManifest {
    pub authentication: Authentication,
    pub middlewares: Vec<Middleware>,
    pub permissions: Option<ManifestPermissions>,
}

/// The texts of `list`.
pub open spec fn texts(list: Seq<String>) -> Seq<Seq<char>> {
    list.map_values(|s: String| s@)
}

impl ApiManifest {
    /// The scripts of the middlewares, in the order of their declaration.
    pub open spec fn middleware_scripts(&self) -> Seq<Seq<char>> {
        self.middlewares@.map_values(|m: Middleware| m.script@)
    }
}

} // verus!
