//! The streamer of request and response bodies.

use vstd::prelude::*;

verus! {

/// Streams the body of a request to its handler and the body of the
/// response back. It holds no state of its own.
#[derive(Debug, Clone, Copy, PartialEq, Eq, Structural)]
pub struct BackendStreamer {}

impl BackendStreamer {
    /// A streamer.
    pub fn new() -> (r: Self)
        ensures
            r == (BackendStreamer {  }),
    {
        BackendStreamer {  }
    }
}

} // verus!
