//! Answering a message once.

use vstd::prelude::*;

verus! {

/// An attempt to answer a message that has been answered already.
#[derive(Debug, Clone, Copy, PartialEq, Eq, Structural)]
pub struct AlreadyResponded;

/// Keeps the answer to a message to one: the first response is let through
/// and every later one is refused.
#[derive(Debug)]
pub struct NatsResponder {
    responded_already: bool,
}

/// How many of `attempts` responses in a row are let through by a
/// responder that has already responded, or has not.
pub open spec fn let_through(responded: bool, attempts: nat) -> nat
    decreases attempts,
{
    if attempts == 0 {
        0
    } else if responded {
        let_through(true, (attempts - 1) as nat)
    } else {
        1 + let_through(true, (attempts - 1) as nat)
    }
}

impl NatsResponder {
    /// Whether a response has been let through.
    pub closed spec fn responded(&self) -> bool {
        self.responded_already
    }

    /// A responder that has let no response through yet.
    pub fn new() -> (r: Self)
        ensures
            !r.responded(),
    {
        NatsResponder { responded_already: false }
    }

    /// Lets `response` through to be sent, unless a response has been let
    /// through before.
    pub fn respond(&mut self, response: Vec<u8>) -> (r: Result<Vec<u8>, AlreadyResponded>)
        ensures
            final(self).responded(),
            match r {
                Ok(bytes) => !old(self).responded() && bytes == response,
                Err(_) => old(self).responded(),
            },
    {
        if self.responded_already {
            return Err(AlreadyResponded);
        }
        self.responded_already = true;
        Ok(response)
    }
}

/// However often a response is attempted, at most one is let through, and
/// none once one has been.
pub proof fn law_at_most_one_response(responded: bool, attempts: nat)
    ensures
        let_through(responded, attempts) <= 1,
        responded ==> let_through(responded, attempts) == 0,
    decreases attempts,
{
    if attempts > 0 {
        law_at_most_one_response(true, (attempts - 1) as nat);
    }
}

} // verus!
