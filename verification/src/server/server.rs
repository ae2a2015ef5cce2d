//! What the server sends where a handler failed.

use crate::runtimes::pipeline::Failure;
use crate::server::error::{
    HandlerError, HandlerErrorClass, HandlerErrorMessage, Response, UNAUTHORIZED,
};
use vstd::prelude::*;

verus! {

/// The server that accepts connections and answers their requests.
#[derive(Debug)]
pub struct BackendServer;

impl BackendServer {
    /// The class of `class` once it is known what `failure` lay behind it:
    /// a failure inside the server that came of a script asking for more
    /// than its permissions grant is a request that was not authorised.
    pub open spec fn customized(class: HandlerErrorClass, failure: Failure) -> HandlerErrorClass {
        if class is Internal && failure is PermissionDenied {
            HandlerErrorClass::Client {
                ctx: HandlerErrorMessage::AuthMiddleware,
                code: UNAUTHORIZED,
            }
        } else {
            class
        }
    }

    /// Turns a failure inside the server into a request that was not
    /// authorised, where the failure behind it is a denied permission. The
    /// failure is told by its kind, never by the text of a message.
    pub fn customize_permission_error(handler_err: HandlerError, failure: Failure) -> (r:
        HandlerError)
        ensures
            r.class() == Self::customized(handler_err.class(), failure),
            r.class() == handler_err.class() ==> r == handler_err,
            r.class() != handler_err.class() ==> r.cause()
                == "permission error from JavaScript land"@,
    {
        match handler_err {
            HandlerError::Internal { ctx, src } => match failure {
                Failure::PermissionDenied => HandlerError::Client {
                    ctx: HandlerErrorMessage::AuthMiddleware,
                    code: UNAUTHORIZED,
                    src: "permission error from JavaScript land".to_owned(),
                },
                _ => HandlerError::Internal { ctx, src },
            },
            other => other,
        }
    }

    /// The response that is sent for the result of a handler: none where
    /// the handler has answered the request itself.
    pub fn handler_error_wrap(result: Result<(), HandlerError>, failure: Failure) -> (r: Option<
        Response,
    >)
        ensures
            match result {
                Ok(()) => r is None,
                Err(e) => r matches Some(response) && response.status == Self::customized(
                    e.class(),
                    failure,
                ).status() && response.body@ == Self::customized(e.class(), failure).message(),
            },
    {
        match result {
            Ok(()) => None,
            Err(e) => {
                let customized = Self::customize_permission_error(e, failure);
                Some(customized.as_response())
            },
        }
    }
}

} // verus!
