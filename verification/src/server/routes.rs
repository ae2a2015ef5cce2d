//! Where a request is routed.

use crate::server::error::{HandlerError, HandlerErrorClass, HandlerErrorMessage, NOT_FOUND};
use crate::text::{chars_of, has_prefix};
use vstd::prelude::*;

verus! {

/// The handler that serves a request.
#[derive(Debug, Clone, Copy, PartialEq, Eq, Structural)]
pub enum Route {
    /// The handler of api routes.
    Api,
}

/// Routes requests by their path.
#[derive(Debug)]
pub struct Router;

impl Router {
    /// Whether `path` is the path of an api route.
    pub open spec fn is_api(path: Seq<char>) -> bool {
        "/api/"@.is_prefix_of(path)
    }

    /// The cause that is logged where nothing serves `path`.
    pub open spec fn not_found_cause(path: Seq<char>) -> Seq<char> {
        "resource not found \""@ + path + "\""@
    }

    /// Finds the handler that serves `path`: paths under `/api/` go to the
    /// api handler, and no other path is served.
    pub fn route(path: &str) -> (r: Result<Route, HandlerError>)
        ensures
            match r {
                Ok(route) => Self::is_api(path@) && route == Route::Api,
                Err(e) => {
                    &&& !Self::is_api(path@)
                    &&& e.class() == (HandlerErrorClass::Client {
                        ctx: HandlerErrorMessage::NotFound,
                        code: NOT_FOUND,
                    })
                    &&& e.cause() == Self::not_found_cause(path@)
                },
            },
    {
        let p = chars_of(path);
        let prefix = chars_of("/api/");
        if has_prefix(&p, &prefix) {
            Ok(Route::Api)
        } else {
            let mut src = "resource not found \"".to_owned();
            src.append(path);
            src.append("\"");
            Err(HandlerError::Client { ctx: HandlerErrorMessage::NotFound, code: NOT_FOUND, src })
        }
    }
}

} // verus!
