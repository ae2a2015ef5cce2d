use engine_backend::permissions::{
    Db, Fs, HttpEvent, NamespaceRoot, PermissionError, PermissionKind,
};
use engine_backend::runtimes::api::{Action, ApiRuntime, Method};
use engine_backend::runtimes::manifest::{
    ApiManifest, Authentication, DbPermission, FsPermissions, HttpEventPermissions,
    ManifestPermissions, Middleware,
};
use engine_backend::runtimes::pipeline::{
    advance, next_gate, outcome, Event, Failure, Outcome, Shape, Stage,
};

fn manifest(auth: bool, middlewares: &[&str]) -> ApiManifest {
    ApiManifest {
        authentication: Authentication { enabled: auth },
        middlewares: middlewares.iter().map(|s| Middleware { script: s.to_string() }).collect(),
        permissions: None,
    }
}

fn runtime(auth: bool, middlewares: &[&str], method: Method) -> ApiRuntime {
    ApiRuntime::new(
        "api/users".to_string(),
        method,
        manifest(auth, middlewares),
        Some(NamespaceRoot::from("w1")),
        '/',
    )
    .unwrap()
}

/// Runs the scripts of a request as a caller would, answering each gate
/// from `answers`, and returns the paths that were run and how it ended.
fn drive(runtime: &mut ApiRuntime, answers: &[bool]) -> (Vec<String>, Outcome, u32) {
    let mut ran = Vec::new();
    let mut handler_runs = 0;
    let mut answers = answers.iter();
    let mut action = runtime.execute(Event::Started);
    loop {
        action = match action {
            Action::RunScript { path } => {
                ran.push(path);
                runtime.execute(Event::Returned(*answers.next().unwrap()))
            }
            Action::RunHandler { specialized, fallback } => {
                handler_runs += 1;
                ran.push(ApiRuntime::get_method_index_path(specialized, fallback, false));
                runtime.execute(Event::Completed)
            }
            Action::Finish(outcome) => return (ran, outcome, handler_runs),
        }
    }
}

#[test]
fn failed_authentication_rejects_and_runs_no_handler() {
    let mut rt = runtime(true, &["mw/a.js", "mw/b.js"], Method::Get);
    let (ran, outcome, handler_runs) = drive(&mut rt, &[false]);
    assert_eq!(ran, vec!["api/users/auth.js"]);
    assert_eq!(outcome, Outcome::Rejected);
    assert_eq!(handler_runs, 0);
    assert_eq!(rt.current_stage(), Stage::Reject);
}

#[test]
fn steps_run_in_declared_order() {
    let mut rt = runtime(true, &["mw/a.js", "mw/b.js", "mw/c.js"], Method::Other);
    let (ran, outcome, handler_runs) = drive(&mut rt, &[true, true, true, true]);
    assert_eq!(
        ran,
        vec!["api/users/auth.js", "mw/a.js", "mw/b.js", "mw/c.js", "api/users/index.js"]
    );
    assert_eq!(outcome, Outcome::Done);
    assert_eq!(handler_runs, 1);
}

#[test]
fn negative_middleware_stops_all_later_steps() {
    for k in 0..3 {
        let mut answers = vec![true; k + 1];
        answers.push(false);
        let mut rt = runtime(true, &["mw/a.js", "mw/b.js", "mw/c.js"], Method::Get);
        let (ran, outcome, handler_runs) = drive(&mut rt, &answers);
        assert_eq!(ran.len(), k + 2);
        assert_eq!(outcome, Outcome::Rejected);
        assert_eq!(handler_runs, 0);
    }
}

#[test]
fn authentication_is_skipped_where_not_enabled() {
    let mut rt = runtime(false, &["mw/a.js"], Method::Other);
    let (ran, outcome, _) = drive(&mut rt, &[true]);
    assert_eq!(ran, vec!["mw/a.js", "api/users/index.js"]);
    assert_eq!(outcome, Outcome::Done);
    let mut rt = runtime(false, &[], Method::Other);
    let (ran, outcome, _) = drive(&mut rt, &[]);
    assert_eq!(ran, vec!["api/users/index.js"]);
    assert_eq!(outcome, Outcome::Done);
}

#[test]
fn rejected_request_stays_rejected() {
    let mut rt = runtime(true, &["mw/a.js"], Method::Get);
    assert!(matches!(rt.execute(Event::Started), Action::RunScript { .. }));
    assert!(matches!(rt.execute(Event::Returned(false)), Action::Finish(Outcome::Rejected)));
    for event in [
        Event::Returned(true),
        Event::Completed,
        Event::Started,
        Event::Failed(Failure::NotFound),
    ] {
        assert!(matches!(rt.execute(event), Action::Finish(Outcome::Rejected)));
        assert_eq!(rt.current_stage(), Stage::Reject);
    }
}

#[test]
fn failure_is_not_a_rejection() {
    let mut rt = runtime(true, &["mw/a.js"], Method::Get);
    rt.execute(Event::Started);
    assert!(matches!(
        rt.execute(Event::Failed(Failure::ScriptEngineFailure)),
        Action::Finish(Outcome::Failed(Failure::ScriptEngineFailure))
    ));
    assert_eq!(rt.current_stage(), Stage::Failed(Failure::ScriptEngineFailure));
    let mut rt = runtime(false, &[], Method::Get);
    rt.execute(Event::Started);
    assert!(matches!(
        rt.execute(Event::Failed(Failure::NotFound)),
        Action::Finish(Outcome::Failed(Failure::NotFound))
    ));
}

#[test]
fn event_out_of_turn_fails_the_request() {
    let mut rt = runtime(true, &[], Method::Get);
    assert!(matches!(
        rt.execute(Event::Returned(true)),
        Action::Finish(Outcome::Failed(Failure::InternalPanic))
    ));
    let mut rt = runtime(true, &[], Method::Get);
    rt.execute(Event::Started);
    assert!(matches!(
        rt.execute(Event::Completed),
        Action::Finish(Outcome::Failed(Failure::InternalPanic))
    ));
}

#[test]
fn stages_follow_the_shape() {
    let shape = Shape { has_auth: true, middlewares: 2 };
    assert_eq!(advance(shape, Stage::Init, Event::Started), Stage::AuthCheck);
    assert_eq!(advance(shape, Stage::AuthCheck, Event::Returned(true)), Stage::MiddlewareCheck(0));
    assert_eq!(
        advance(shape, Stage::MiddlewareCheck(0), Event::Returned(true)),
        Stage::MiddlewareCheck(1)
    );
    assert_eq!(advance(shape, Stage::MiddlewareCheck(1), Event::Returned(true)), Stage::HandlerRun);
    assert_eq!(advance(shape, Stage::HandlerRun, Event::Completed), Stage::Done);
    assert_eq!(advance(shape, Stage::MiddlewareCheck(1), Event::Returned(false)), Stage::Reject);
    assert_eq!(advance(shape, Stage::Done, Event::Returned(false)), Stage::Done);
    let bare = Shape { has_auth: false, middlewares: 0 };
    assert_eq!(advance(bare, Stage::Init, Event::Started), Stage::HandlerRun);
    assert_eq!(next_gate(shape, 1), Stage::MiddlewareCheck(1));
    assert_eq!(next_gate(shape, 2), Stage::HandlerRun);
    assert_eq!(outcome(Stage::Done), Some(Outcome::Done));
    assert_eq!(outcome(Stage::Reject), Some(Outcome::Rejected));
    assert_eq!(
        outcome(Stage::Failed(Failure::TransportFailure)),
        Some(Outcome::Failed(Failure::TransportFailure))
    );
    assert_eq!(outcome(Stage::HandlerRun), None);
    assert_eq!(outcome(Stage::Init), None);
}

#[test]
fn handler_is_specialized_by_method() {
    let cases = [
        (Method::Get, "index.get.js"),
        (Method::Post, "index.post.js"),
        (Method::Put, "index.put.js"),
        (Method::Delete, "index.delete.js"),
        (Method::Head, "index.head.js"),
        (Method::Options, "index.options.js"),
        (Method::Connect, "index.connect.js"),
        (Method::Patch, "index.patch.js"),
        (Method::Trace, "index.trace.js"),
    ];
    for (method, name) in cases {
        assert_eq!(method.get_index_name(), Some(name));
        let rt = runtime(false, &[], method);
        match rt.run_index() {
            Action::RunHandler { specialized, fallback } => {
                assert_eq!(specialized, Some(format!("api/users/{}", name)));
                assert_eq!(fallback, "api/users/index.js");
            }
            other => panic!("unexpected action: {:?}", other),
        }
    }
    assert_eq!(Method::Other.get_index_name(), None);
    assert!(matches!(
        runtime(false, &[], Method::Other).run_index(),
        Action::RunHandler { specialized: None, .. }
    ));
}

#[test]
fn specialized_handler_is_preferred_where_it_exists() {
    let special = Some("api/users/index.get.js".to_string());
    let fallback = "api/users/index.js".to_string();
    assert_eq!(
        ApiRuntime::get_method_index_path(special.clone(), fallback.clone(), true),
        "api/users/index.get.js"
    );
    assert_eq!(
        ApiRuntime::get_method_index_path(special, fallback.clone(), false),
        "api/users/index.js"
    );
    assert_eq!(ApiRuntime::get_method_index_path(None, fallback, true), "api/users/index.js");
}

#[test]
fn code_is_wrapped_in_a_strict_function() {
    assert_eq!(ApiRuntime::format_code("() => true"), "\"use strict\"; (\n() => true \n)();");
    assert_eq!(ApiRuntime::format_code(""), "\"use strict\"; (\n \n)();");
}

#[test]
fn manifest_and_module_paths() {
    assert_eq!(ApiRuntime::manifest_path("api/users", '/'), "api/users/api.yaml");
    assert_eq!(ApiRuntime::manifest_path("", '/'), "api.yaml");
    assert_eq!(ApiRuntime::module_name("api/users/index.js", '/'), "/api/users/index.js");
    assert_eq!(runtime(true, &[], Method::Get).run_auth(), "api/users/auth.js");
}

fn full_manifest() -> ApiManifest {
    ApiManifest {
        authentication: Authentication { enabled: false },
        middlewares: Vec::new(),
        permissions: Some(ManifestPermissions {
            fs: FsPermissions {
                open: Vec::new(),
                create: Vec::new(),
                read: vec!["/files/**".to_string()],
                write: vec!["/files/out/*".to_string()],
                execute: Vec::new(),
            },
            http_event: HttpEventPermissions { request_read: true, response_send: false },
            db: vec![
                DbPermission { operation: Db::RowRead, paths: vec!["/main/*".to_string()] },
                DbPermission { operation: Db::Connect, paths: Vec::new() },
            ],
        }),
    }
}

#[test]
fn handler_permissions_come_from_the_manifest() {
    let rt = ApiRuntime::new(
        "api/users".to_string(),
        Method::Get,
        full_manifest(),
        Some(NamespaceRoot::from("w1")),
        '/',
    )
    .unwrap();
    let permissions = rt.handler_permissions();
    assert!(permissions.check(PermissionKind::Filesystem(Fs::Read), "/files/a/b").is_ok());
    assert!(permissions.check(PermissionKind::Filesystem(Fs::Write), "/files/out/x").is_ok());
    assert!(permissions.check(PermissionKind::Filesystem(Fs::Write), "/files/a/b").is_err());
    assert!(permissions.check(PermissionKind::Filesystem(Fs::Open), "/files/a").is_err());
    assert!(permissions.check(PermissionKind::Database(Db::RowRead), "/main/users").is_ok());
    assert!(permissions.check(PermissionKind::Database(Db::RowRead), "/main/users/id").is_err());
    assert!(permissions.check(PermissionKind::Database(Db::Connect), "/main").is_err());
    assert!(permissions.check(PermissionKind::HttpEvent(HttpEvent::RequestRead), "").is_ok());
    assert!(permissions.check(PermissionKind::HttpEvent(HttpEvent::ResponseSend), "").is_err());
}

#[test]
fn manifest_that_does_not_compile_makes_no_runtime() {
    let mut bad = full_manifest();
    if let Some(permissions) = &mut bad.permissions {
        permissions.db.push(DbPermission {
            operation: Db::RowWrite,
            paths: vec![format!("/{}", "n".repeat(49))],
        });
    }
    assert!(matches!(
        ApiRuntime::new("api".to_string(), Method::Get, bad, Some(NamespaceRoot::from("w1")), '/'),
        Err(PermissionError::NameTooLong { .. })
    ));
    assert!(matches!(
        ApiRuntime::new("api".to_string(), Method::Get, full_manifest(), None, '/'),
        Err(PermissionError::RootMissing)
    ));
}
