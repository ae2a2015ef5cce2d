//! What a connection answers.

use vstd::prelude::*;

verus! {

/// Drives one connection: a request is handed on, and the response that
/// comes back is sent.
#[derive(Debug)]
pub struct HttpDriver;

impl HttpDriver {
    /// The response that is sent for a request: the one that came back
    /// where the request was handed on and a response did come back, and
    /// `failure` in every other case.
    pub open spec fn answer<R>(handed_on: bool, response: Option<R>, failure: R) -> R {
        match response {
            Some(received) if handed_on => received,
            _ => failure,
        }
    }

    /// Chooses the response that is sent for a request. `failure` is the
    /// response to a failure inside the server.
    pub fn drive<R>(handed_on: bool, response: Option<R>, failure: R) -> (r: R)
        ensures
            r == Self::answer(handed_on, response, failure),
    {
        if handed_on {
            if let Some(received) = response {
                return received;
            }
        }
        failure
    }
}

} // verus!
