//! The backend of a platform that runs the scripts of many workspaces side
//! by side.
//!
//! A request names a workspace and a route. The route is a directory in the
//! tree of the workspace, and holds a manifest and scripts: an authentication
//! script, middlewares, and a handler. This library decides everything about
//! a request that can be decided without touching the world:
//!
//! - `permissions`: what a pattern of an allow-list accepts, how allow-lists
//!   are compiled under the namespace of a workspace, and how a resource is
//!   checked against them;
//! - `path`, `paths`, `root`, `files`: which file a request means, and
//!   whether what the file system made of its path still lies in the
//!   workspace;
//! - `runtimes`: the directory of a route, the permissions that its manifest
//!   grants, and the order in which its scripts run;
//! - `server`, `responder`: where a request is routed, what a failure looks
//!   like from outside, and what is sent back, once.
//!
//! Reading files, running scripts and talking to the network are left to the
//! caller, who hands the library what came of them.

pub mod failure;
pub mod files;
pub mod path;
pub mod paths;
pub mod permissions;
pub mod responder;
pub mod root;
pub mod runtimes;
pub mod server;
pub mod streamer;
pub mod text;
