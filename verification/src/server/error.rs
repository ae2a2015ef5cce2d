//! Failures as the client is allowed to see them.
//!
//! A handler error keeps the cause of a failure for the log and a class for
//! the client. The response is made from the class alone: nothing of the
//! cause crosses into it.

use crate::runtimes::pipeline::{Failure, Outcome};
use vstd::prelude::*;

verus! {

/// The status of a response to a request that was not authorised.
pub const UNAUTHORIZED: u16 = 401;

/// The status of a response to a request for what is not there.
pub const NOT_FOUND: u16 = 404;

/// The status of a response to a request that failed inside the server.
pub const INTERNAL_SERVER_ERROR: u16 = 500;

/// What the client is told of a failure.
#[derive(Debug, Clone, Copy, PartialEq, Eq, Structural)]
pub enum HandlerErrorMessage {
    NotFound,
    AuthMiddleware,
    InternalError,
}

/// A failure to handle a request.
#[derive(Debug)]
pub enum HandlerError {
    /// The request is at fault. `src` is for the log.
    Client { ctx: HandlerErrorMessage, code: u16, src: String },
    /// The server is at fault. `src` is for the log.
    Internal { ctx: HandlerErrorMessage, src: String },
}

/// The class of a `HandlerError`: all of it but the cause.
pub enum HandlerErrorClass {
    Client { ctx: HandlerErrorMessage, code: u16 },
    Internal { ctx: HandlerErrorMessage },
}

/// A response: its status and its body.
#[derive(Debug)]
pub struct Response {
    pub status: u16,
    pub body: String,
}

impl HandlerErrorMessage {
    /// The text that the client is sent.
    pub open spec fn text(self) -> Seq<char> {
        match self {
            HandlerErrorMessage::NotFound => "resource not found"@,
            HandlerErrorMessage::AuthMiddleware => "unauthorized"@,
            HandlerErrorMessage::InternalError => "internal server error"@,
        }
    }

    /// The text that the client is sent.
    pub fn as_str(self) -> (r: &'static str)
        ensures
            r@ == self.text(),
    {
        match self {
            HandlerErrorMessage::NotFound => "resource not found",
            HandlerErrorMessage::AuthMiddleware => "unauthorized",
            HandlerErrorMessage::InternalError => "internal server error",
        }
    }
}

impl HandlerErrorClass {
    /// The status with which errors of this class are answered.
    pub open spec fn status(self) -> u16 {
        match self {
            HandlerErrorClass::Client { code, .. } => code,
            HandlerErrorClass::Internal { .. } => INTERNAL_SERVER_ERROR,
        }
    }

    /// The text with which errors of this class are answered.
    pub open spec fn message(self) -> Seq<char> {
        match self {
            HandlerErrorClass::Client { ctx, .. } => ctx.text(),
            HandlerErrorClass::Internal { ctx } => ctx.text(),
        }
    }
}

impl HandlerError {
    /// The class of the error.
    pub open spec fn class(&self) -> HandlerErrorClass {
        match self {
            HandlerError::Client { ctx, code, .. } => HandlerErrorClass::Client {
                ctx: *ctx,
                code: *code,
            },
            HandlerError::Internal { ctx, .. } => HandlerErrorClass::Internal { ctx: *ctx },
        }
    }

    /// The cause of the error, as it is logged.
    pub open spec fn cause(&self) -> Seq<char> {
        match self {
            HandlerError::Client { src, .. } => src@,
            HandlerError::Internal { src, .. } => src@,
        }
    }

    /// The cause of the error, for the log.
    pub fn system_error(&self) -> (r: &str)
        ensures
            r@ == self.cause(),
    {
        match self {
            HandlerError::Client { src, .. } => src.as_str(),
            HandlerError::Internal { src, .. } => src.as_str(),
        }
    }

    /// The response that is sent for the error: the status and the text of
    /// its class.
    pub fn as_response(&self) -> (r: Response)
        ensures
            r.status == self.class().status(),
            r.body@ == self.class().message(),
    {
        match self {
            HandlerError::Client { ctx, code, .. } => Response {
                status: *code,
                body: ctx.as_str().to_owned(),
            },
            HandlerError::Internal { ctx, .. } => Response {
                status: INTERNAL_SERVER_ERROR,
                body: ctx.as_str().to_owned(),
            },
        }
    }
}

/// The error that stands for a failure inside the server.
pub fn internal_error(err: String) -> (r: HandlerError)
    ensures
        r.class() == (HandlerErrorClass::Internal { ctx: HandlerErrorMessage::InternalError }),
        r.cause() == err@,
{
    HandlerError::Internal { ctx: HandlerErrorMessage::InternalError, src: err }
}

/// The class of a request that was not authorised.
pub open spec fn unauthorized() -> HandlerErrorClass {
    HandlerErrorClass::Client { ctx: HandlerErrorMessage::AuthMiddleware, code: UNAUTHORIZED }
}

/// The class of the error with which a request that ended with `outcome`
/// is answered; none where the request is done.
///
/// A request that a gate rejected, that asked for more than its permissions
/// grant, or that reached out of its workspace is unauthorised. What is not
/// there is not found. Everything else has failed inside the server.
pub open spec fn class_of(outcome: Outcome) -> Option<HandlerErrorClass> {
    match outcome {
        Outcome::Done => None,
        Outcome::Rejected => Some(unauthorized()),
        Outcome::Failed(Failure::PermissionDenied) => Some(unauthorized()),
        Outcome::Failed(Failure::PathContainmentViolation) => Some(unauthorized()),
        Outcome::Failed(Failure::NotFound) => Some(
            HandlerErrorClass::Client { ctx: HandlerErrorMessage::NotFound, code: NOT_FOUND },
        ),
        Outcome::Failed(_) => Some(
            HandlerErrorClass::Internal { ctx: HandlerErrorMessage::InternalError },
        ),
    }
}

/// The cause that is logged for a request that ended with `outcome`.
pub open spec fn cause_of(outcome: Outcome) -> Seq<char> {
    match outcome {
        Outcome::Done => Seq::empty(),
        Outcome::Rejected => "one of authorisation or middleware failed"@,
        Outcome::Failed(Failure::PermissionDenied) => "permission error from JavaScript land"@,
        Outcome::Failed(Failure::PathContainmentViolation) => {
            "path must be under the workspace path"@
        },
        Outcome::Failed(Failure::NotFound) => "resource not found"@,
        Outcome::Failed(Failure::ScriptEngineFailure) => "script engine failure"@,
        Outcome::Failed(Failure::TransportFailure) => "transport failure"@,
        Outcome::Failed(Failure::InternalPanic) => "internal panic"@,
    }
}

/// Turns the end of a request into the result of its handler.
pub fn result_of(outcome: Outcome) -> (r: Result<(), HandlerError>)
    ensures
        match r {
            Ok(()) => class_of(outcome) is None,
            Err(e) => class_of(outcome) == Some(e.class()) && e.cause() == cause_of(outcome),
        },
{
    match outcome {
        Outcome::Done => Ok(()),
        Outcome::Rejected => Err(
            HandlerError::Client {
                ctx: HandlerErrorMessage::AuthMiddleware,
                code: UNAUTHORIZED,
                src: "one of authorisation or middleware failed".to_owned(),
            },
        ),
        Outcome::Failed(failure) => match failure {
            Failure::PermissionDenied => Err(
                HandlerError::Client {
                    ctx: HandlerErrorMessage::AuthMiddleware,
                    code: UNAUTHORIZED,
                    src: "permission error from JavaScript land".to_owned(),
                },
            ),
            Failure::PathContainmentViolation => Err(
                HandlerError::Client {
                    ctx: HandlerErrorMessage::AuthMiddleware,
                    code: UNAUTHORIZED,
                    src: "path must be under the workspace path".to_owned(),
                },
            ),
            Failure::NotFound => Err(
                HandlerError::Client {
                    ctx: HandlerErrorMessage::NotFound,
                    code: NOT_FOUND,
                    src: "resource not found".to_owned(),
                },
            ),
            Failure::ScriptEngineFailure => Err(internal_error("script engine failure".to_owned())),
            Failure::TransportFailure => Err(internal_error("transport failure".to_owned())),
            Failure::InternalPanic => Err(internal_error("internal panic".to_owned())),
        },
    }
}

} // verus!
