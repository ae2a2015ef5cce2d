use engine_backend::path::PathError;
use engine_backend::permissions::{Db, PermissionError, PermissionKind};
use engine_backend::responder::{AlreadyResponded, NatsResponder};
use engine_backend::runtimes::pipeline::{Failure, Outcome};
use engine_backend::server::driver::HttpDriver;
use engine_backend::server::error::{
    internal_error, result_of, HandlerError, HandlerErrorMessage, Response,
};
use engine_backend::server::handlers::{get_first_from_headers, run_surl, ApiHandler, SurlHandler};
use engine_backend::server::nats::{BackendNatsServer, TaskResult};
use engine_backend::server::routes::{Route, Router};
use engine_backend::server::server::BackendServer;
use engine_backend::streamer::BackendStreamer;

#[test]
fn api_paths_are_routed_to_the_api_handler() {
    assert_eq!(Router::route("/api/users").unwrap(), Route::Api);
    assert_eq!(Router::route("/api/").unwrap(), Route::Api);
}

#[test]
fn other_paths_are_not_found() {
    for path in ["/", "/api", "/apis/x", "/r/api/x", ""] {
        match Router::route(path) {
            Err(HandlerError::Client { ctx, code, src }) => {
                assert_eq!(ctx, HandlerErrorMessage::NotFound);
                assert_eq!(code, 404);
                assert_eq!(src, format!("resource not found \"{}\"", path));
            }
            other => panic!("unexpected result: {:?}", other),
        }
    }
}

#[test]
fn outcomes_map_to_their_classes() {
    assert!(result_of(Outcome::Done).is_ok());
    let unauthorised = [
        Outcome::Rejected,
        Outcome::Failed(Failure::PermissionDenied),
        Outcome::Failed(Failure::PathContainmentViolation),
    ];
    for outcome in unauthorised {
        match result_of(outcome) {
            Err(HandlerError::Client { ctx, code, .. }) => {
                assert_eq!(ctx, HandlerErrorMessage::AuthMiddleware);
                assert_eq!(code, 401);
            }
            other => panic!("unexpected result: {:?}", other),
        }
    }
    assert!(matches!(
        result_of(Outcome::Failed(Failure::NotFound)),
        Err(HandlerError::Client { ctx: HandlerErrorMessage::NotFound, code: 404, .. })
    ));
    let internal =
        [Failure::ScriptEngineFailure, Failure::TransportFailure, Failure::InternalPanic];
    for failure in internal {
        assert!(matches!(
            result_of(Outcome::Failed(failure)),
            Err(HandlerError::Internal { ctx: HandlerErrorMessage::InternalError, .. })
        ));
    }
}

#[test]
fn rejection_names_its_cause() {
    match ApiHandler::handle(Outcome::Rejected) {
        Err(e) => assert_eq!(e.system_error(), "one of authorisation or middleware failed"),
        Ok(()) => panic!("a rejection is an error"),
    }
    assert!(SurlHandler::handle(Outcome::Done).is_ok());
    assert!(SurlHandler::handle(Outcome::Rejected).is_err());
    assert_eq!(run_surl(Outcome::Done).unwrap(), Vec::<u8>::new());
    assert!(run_surl(Outcome::Failed(Failure::NotFound)).is_err());
}

#[test]
fn response_tells_nothing_of_the_cause() {
    let a = internal_error("secret detail of script at line 3".to_string()).as_response();
    let b = internal_error("".to_string()).as_response();
    assert_eq!(a.status, 500);
    assert_eq!(a.body, "internal server error");
    assert_eq!(b.status, a.status);
    assert_eq!(b.body, a.body);
    let c = HandlerError::Client {
        ctx: HandlerErrorMessage::AuthMiddleware,
        code: 401,
        src: "token of user 7 expired".to_string(),
    };
    assert_eq!(c.as_response().status, 401);
    assert_eq!(c.as_response().body, "unauthorized");
    assert_eq!(c.system_error(), "token of user 7 expired");
    assert_eq!(HandlerErrorMessage::NotFound.as_str(), "resource not found");
}

#[test]
fn denied_permission_is_not_an_internal_error() {
    let err = internal_error("engine said no".to_string());
    match BackendServer::customize_permission_error(err, Failure::PermissionDenied) {
        HandlerError::Client { ctx, code, src } => {
            assert_eq!(ctx, HandlerErrorMessage::AuthMiddleware);
            assert_eq!(code, 401);
            assert_eq!(src, "permission error from JavaScript land");
        }
        other => panic!("unexpected error: {:?}", other),
    }
    let err = internal_error("engine crashed".to_string());
    match BackendServer::customize_permission_error(err, Failure::ScriptEngineFailure) {
        HandlerError::Internal { src, .. } => assert_eq!(src, "engine crashed"),
        other => panic!("unexpected error: {:?}", other),
    }
    let err = HandlerError::Client {
        ctx: HandlerErrorMessage::NotFound,
        code: 404,
        src: "gone".to_string(),
    };
    assert!(matches!(
        BackendServer::customize_permission_error(err, Failure::PermissionDenied),
        HandlerError::Client { ctx: HandlerErrorMessage::NotFound, code: 404, .. }
    ));
}

#[test]
fn handler_error_is_answered() {
    assert!(BackendServer::handler_error_wrap(Ok(()), Failure::InternalPanic).is_none());
    let response = BackendServer::handler_error_wrap(
        Err(internal_error("x".to_string())),
        Failure::PermissionDenied,
    )
    .unwrap();
    assert_eq!(response.status, 401);
    assert_eq!(response.body, "unauthorized");
    let response = BackendServer::handler_error_wrap(
        Err(internal_error("x".to_string())),
        Failure::InternalPanic,
    )
    .unwrap();
    assert_eq!(response.status, 500);
}

#[test]
fn driver_answers_with_what_came_back() {
    let failure = || internal_error(String::new()).as_response();
    let received = Response { status: 200, body: "ok".to_string() };
    let sent = HttpDriver::drive(true, Some(received), failure());
    assert_eq!(sent.status, 200);
    assert_eq!(sent.body, "ok");
    let sent = HttpDriver::drive(true, None, failure());
    assert_eq!(sent.status, 500);
    assert_eq!(sent.body, "internal server error");
    let received = Response { status: 200, body: "ok".to_string() };
    let sent = HttpDriver::drive(false, Some(received), failure());
    assert_eq!(sent.status, 500);
    assert_eq!(HttpDriver::drive(true, Some(1), 0), 1);
    assert_eq!(HttpDriver::drive(false, Some(1), 0), 0);
}

#[test]
fn responder_lets_one_response_through() {
    let mut responder = NatsResponder::new();
    assert_eq!(responder.respond(vec![1, 2, 3]), Ok(vec![1, 2, 3]));
    assert_eq!(responder.respond(vec![4]), Err(AlreadyResponded));
    assert_eq!(responder.respond(Vec::new()), Err(AlreadyResponded));
}

#[test]
fn each_connection_gets_its_own_response() {
    let mut first = NatsResponder::new();
    let mut second = NatsResponder::new();
    assert_eq!(second.respond(b"second".to_vec()), Ok(b"second".to_vec()));
    assert_eq!(first.respond(b"first".to_vec()), Ok(b"first".to_vec()));
    assert!(first.respond(b"second".to_vec()).is_err());
    assert!(second.respond(b"first".to_vec()).is_err());
}

#[test]
fn broker_replies_with_output_or_placeholder() {
    assert_eq!(
        BackendNatsServer::error_wrap(TaskResult::Returned(vec![7, 8])),
        Some(vec![7, 8])
    );
    assert_eq!(
        BackendNatsServer::error_wrap(TaskResult::Failed(internal_error("x".to_string()))),
        Some(b"Placeholder <An error occured>".to_vec())
    );
    assert_eq!(BackendNatsServer::error_wrap(TaskResult::Panicked), None);
}

#[test]
fn first_header_value_is_found() {
    let headers = vec![
        ("url-path".to_string(), vec!["/r/shop".to_string(), "/r/other".to_string()]),
        ("workspace-id".to_string(), Vec::new()),
        ("workspace-id".to_string(), vec!["w1".to_string()]),
    ];
    assert_eq!(get_first_from_headers(&headers, "url-path"), Some("/r/shop".to_string()));
    assert_eq!(get_first_from_headers(&headers, "workspace-id"), Some("w1".to_string()));
    assert_eq!(get_first_from_headers(&headers, "missing"), None);
    assert_eq!(get_first_from_headers(&Vec::new(), "url-path"), None);
}

#[test]
fn streamer_is_made() {
    assert_eq!(BackendStreamer::new(), BackendStreamer {});
}

#[test]
fn errors_end_a_request_by_their_kind() {
    assert_eq!(PathError::SeparatorNotAllowed.failure(), Failure::PathContainmentViolation);
    assert_eq!(PathError::NotFound { path: "/x".into() }.failure(), Failure::NotFound);
    let violation = PathError::ContainmentViolation { path: "/x".into(), root: "/ws".into() };
    assert_eq!(violation.failure(), Failure::PathContainmentViolation);
    assert_eq!(PermissionError::RootMissing.failure(), Failure::PermissionDenied);
    let denied = PermissionError::Denied {
        kind: PermissionKind::Database(Db::RowRead),
        resource: "/main".into(),
    };
    assert_eq!(denied.failure(), Failure::PermissionDenied);
    assert!(matches!(
        result_of(Outcome::Failed(denied.failure())),
        Err(HandlerError::Client { code: 401, .. })
    ));
    let uncompiled = [
        PermissionError::NameTooLong { name: "n".repeat(49) },
        PermissionError::ReservedDelimiter { text: "a$b".into() },
        PermissionError::PatternRejected { pattern: "w1$/a".into() },
    ];
    for err in uncompiled {
        assert_eq!(err.failure(), Failure::InternalPanic);
        let response = result_of(Outcome::Failed(err.failure())).unwrap_err().as_response();
        assert_eq!(response.status, 500);
    }
}
