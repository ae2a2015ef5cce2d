use engine_backend::files::FileManager;
use engine_backend::paths::WorkspacePaths;
use engine_backend::runtimes::api::Action;
use engine_backend::runtimes::pipeline::{Event, Outcome, Stage};
use engine_backend::runtimes::surl::{SurlManifest, SurlRuntime};

fn surl_runtime(middlewares: &[&str]) -> SurlRuntime {
    let paths = WorkspacePaths::with_separator("/data/workspaces/w1".to_string(), "/r/shop", '/');
    let manifest =
        SurlManifest { middlewares: middlewares.iter().map(|s| s.to_string()).collect() };
    SurlRuntime::new(FileManager::new(paths), manifest)
}

#[test]
fn surl_manifest_is_found_under_the_route() {
    let paths = WorkspacePaths::with_separator("/data/workspaces/w1".to_string(), "/r/shop", '/');
    assert_eq!(
        SurlRuntime::manifest_path(&FileManager::new(paths)),
        "/data/workspaces/w1//surl/shop/surl.yaml"
    );
}

#[test]
fn surl_scripts_run_in_order() {
    let mut rt = surl_runtime(&["log.js", "limit.js"]);
    let mut ran = Vec::new();
    let mut action = rt.execute(Event::Started);
    let outcome = loop {
        action = match action {
            Action::RunScript { path } => {
                ran.push(path);
                rt.execute(Event::Returned(true))
            }
            Action::RunHandler { specialized, fallback } => {
                assert_eq!(specialized, None);
                ran.push(fallback);
                rt.execute(Event::Completed)
            }
            Action::Finish(outcome) => break outcome,
        }
    };
    assert_eq!(
        ran,
        vec![
            "/system/auth.js",
            "/middlewares/log.js",
            "/middlewares/limit.js",
            "/surl/shop/index.js",
        ]
    );
    assert_eq!(outcome, Outcome::Done);
}

#[test]
fn surl_authentication_always_runs_and_can_reject() {
    let mut rt = surl_runtime(&[]);
    assert!(matches!(
        rt.execute(Event::Started),
        Action::RunScript { path } if path == "/system/auth.js"
    ));
    assert!(matches!(rt.execute(Event::Returned(false)), Action::Finish(Outcome::Rejected)));
    assert!(matches!(rt.execute(Event::Completed), Action::Finish(Outcome::Rejected)));
    assert!(matches!(surl_runtime(&[]).run_index(), Action::RunHandler { .. }));
    let _ = Stage::Init;
}
