//! What the servers decide: where a request is routed, what a failure looks
//! like from outside, and what is sent back.

pub mod driver;
pub mod error;
pub mod handlers;
pub mod nats;
pub mod routes;
pub mod server;
