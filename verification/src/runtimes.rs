//! The runtimes that carry a request through its scripts.

pub mod api;
pub mod manifest;
pub mod permissions;
pub mod pipeline;
pub mod route;
pub mod surl;
