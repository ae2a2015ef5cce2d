use engine_backend::files::FileManager;
use engine_backend::path::{is_contained, join, PathError};
use engine_backend::paths::{strip_route_prefix, WorkspacePaths};
use engine_backend::root::{RootLevel, RootManager};

#[test]
fn join_puts_a_separator_between() {
    assert_eq!(join("/ws", "a/b", '/'), "/ws/a/b");
    assert_eq!(join("/ws/", "a", '/'), "/ws/a");
    assert_eq!(join("", "a", '/'), "a");
    assert_eq!(join("/ws", "", '/'), "/ws/");
    assert_eq!(join("C:", "a", '\\'), "C:\\a");
}

#[test]
fn join_lets_an_absolute_path_stand() {
    assert_eq!(join("/ws", "/etc/passwd", '/'), "/etc/passwd");
}

#[test]
fn path_under_the_root_is_contained() {
    assert!(is_contained("/data/ws/a/b.js", "/data/ws", '/'));
    assert!(is_contained("/data/ws", "/data/ws", '/'));
    assert!(is_contained("/data/ws/", "/data/ws", '/'));
    assert!(is_contained("/a", "/", '/'));
    assert!(is_contained("C:\\ws\\a", "C:\\ws", '\\'));
}

#[test]
fn path_outside_the_root_is_not_contained() {
    assert!(!is_contained("/data/other/a", "/data/ws", '/'));
    assert!(!is_contained("/data/ws2/a", "/data/ws", '/'));
    assert!(!is_contained("/data", "/data/ws", '/'));
    assert!(!is_contained("/etc/passwd", "/data/ws", '/'));
    assert!(!is_contained("/data/ws", "", '/'));
    assert!(!is_contained("", "/data/ws", '/'));
}

#[test]
fn path_that_steps_up_is_not_contained() {
    assert!(!is_contained("/data/ws/../other", "/data/ws", '/'));
    assert!(!is_contained("/data/ws/a/../../b", "/data/ws", '/'));
    assert!(!is_contained("/data/ws/./a", "/data/ws", '/'));
    assert!(!is_contained("/data/ws/a/..", "/data/ws", '/'));
    assert!(is_contained("/data/ws/..a/b", "/data/ws", '/'));
    assert!(is_contained("/data/ws/a../...", "/data/ws", '/'));
}

#[test]
fn routing_prefix_is_stripped_once() {
    assert_eq!(strip_route_prefix("/r/products/edit"), "products/edit");
    assert_eq!(strip_route_prefix("/r/r/x"), "r/x");
    assert_eq!(strip_route_prefix("/products"), "/products");
    assert_eq!(strip_route_prefix("/r"), "/r");
    assert_eq!(strip_route_prefix(""), "");
}

#[test]
fn workspace_paths_name_files_of_the_route() {
    assert_eq!(WorkspacePaths::workspace_dir("/data", "w1"), "/data/workspaces/w1");
    let paths = WorkspacePaths::with_separator("/data/workspaces/w1".to_string(), "/r/shop", '/');
    assert_eq!(paths.canon_w_path(), "/data/workspaces/w1");
    assert_eq!(paths.url_path(), "shop");
    assert_eq!(paths.full_path("/system/auth.js"), "/data/workspaces/w1//system/auth.js");
    assert_eq!(paths.get_relative_path_from_surl("index.js"), "/surl/shop/index.js");
    assert_eq!(
        paths.get_canon_path_from_surl("surl.yaml"),
        "/data/workspaces/w1//surl/shop/surl.yaml"
    );
}

#[test]
fn resolved_path_outside_the_workspace_is_a_violation() {
    let paths = WorkspacePaths::with_separator("/data/workspaces/w1".to_string(), "/r/shop", '/');
    let relative = "/surl/shop/index.js";
    assert_eq!(
        paths
            .get_canon_path(relative, Some("/data/workspaces/w1/surl/shop/index.js".to_string()))
            .unwrap(),
        "/data/workspaces/w1/surl/shop/index.js"
    );
    match paths.get_canon_path(relative, Some("/data/workspaces/w2/surl/shop/index.js".to_string()))
    {
        Err(PathError::ContainmentViolation { path, root }) => {
            assert_eq!(path, "/data/workspaces/w2/surl/shop/index.js");
            assert_eq!(root, "/data/workspaces/w1");
        }
        other => panic!("unexpected result: {:?}", other),
    }
    assert!(paths.get_canon_path("link", Some("/etc/passwd".to_string())).is_err());
    assert!(paths
        .get_canon_path("../w2/x", Some("/data/workspaces/w1/../w2/x".to_string()))
        .is_err());
}

#[test]
fn missing_path_is_not_found_and_not_a_violation() {
    let paths = WorkspacePaths::with_separator("/data/workspaces/w1".to_string(), "/r/shop", '/');
    match paths.get_canon_path("missing.js", None) {
        Err(PathError::NotFound { path }) => assert_eq!(path, "/data/workspaces/w1/missing.js"),
        other => panic!("unexpected result: {:?}", other),
    }
    let manager = RootManager::with_separator("/data/workspaces/w1".to_string(), '/');
    match manager.validate_path("/data/workspaces/w1/api/x", None) {
        Err(PathError::NotFound { path }) => assert_eq!(path, "/data/workspaces/w1/api/x"),
        other => panic!("unexpected result: {:?}", other),
    }
}

#[test]
fn platform_separator_is_one_of_two() {
    let paths = WorkspacePaths::new("/data/workspaces/w1".to_string(), "/shop");
    assert_eq!(paths.url_path(), "/shop");
    let manager = RootManager::new("/data/workspaces/w1".to_string());
    assert!(manager.separator == '/' || manager.separator == '\\');
    assert_eq!(manager.separator, std::path::MAIN_SEPARATOR);
}

#[test]
fn root_levels_have_their_paths() {
    assert_eq!(RootLevel::Api.get_path('/'), "api");
    assert_eq!(RootLevel::ApiSystem.get_path('/'), "api/system");
    assert_eq!(RootLevel::ApiSystem.get_path('\\'), "api\\system");
    assert_eq!(RootLevel::Apps.get_path('/'), "apps");
    assert_eq!(RootLevel::Extensions.get_path('/'), "extensions");
    assert_eq!(RootLevel::Scheduled.get_path('/'), "scheduled");
}

#[test]
fn root_manager_joins_and_validates() {
    assert_eq!(RootManager::workspace_path("/data", "w1", '/'), "/data/workspaces/w1");
    let manager = RootManager::with_separator("/data/workspaces/w1".to_string(), '/');
    assert_eq!(manager.canon_workspace_path, "/data/workspaces/w1");
    assert_eq!(
        manager.read_file_from("users/index.js", RootLevel::Api),
        "/data/workspaces/w1/api/users/index.js"
    );
    assert_eq!(
        manager.read_file_from("auth.js", RootLevel::ApiSystem),
        "/data/workspaces/w1/api/system/auth.js"
    );
    assert_eq!(
        manager.read_file_from_workspace("api/x/api.yaml"),
        "/data/workspaces/w1/api/x/api.yaml"
    );
    assert_eq!(manager.read_file_from_workspace("/etc/passwd"), "/etc/passwd");
    let requested = "/data/workspaces/w1/api/x/api.yaml";
    assert_eq!(
        manager.validate_path(requested, Some(requested.to_string())).unwrap(),
        "/data/workspaces/w1/api/x/api.yaml"
    );
    assert!(matches!(
        manager.validate_path(requested, Some("/etc/passwd".to_string())),
        Err(PathError::ContainmentViolation { .. })
    ));
    assert!(manager.validate_path(requested, Some("/data/workspaces/w10/x".to_string())).is_err());
}

#[test]
fn file_manager_names_and_accepts() {
    let paths = WorkspacePaths::with_separator("/data/workspaces/w1".to_string(), "/r/shop", '/');
    let files = FileManager::new(paths);
    assert_eq!(files.read_file("/middlewares/log.js"), "/data/workspaces/w1//middlewares/log.js");
    assert_eq!(files.read_file_from_surl("index.js"), "/data/workspaces/w1//surl/shop/index.js");
    assert_eq!(files.get_relative_path_from_surl("index.js"), "/surl/shop/index.js");
    let relative = "/surl/shop/index.js";
    assert!(files
        .accept(relative, Some("/data/workspaces/w1/surl/shop/index.js".to_string()))
        .is_ok());
    assert!(matches!(
        files.accept(relative, Some("/data/workspaces/other/surl/shop/index.js".to_string())),
        Err(PathError::ContainmentViolation { .. })
    ));
    assert!(matches!(files.accept(relative, None), Err(PathError::NotFound { .. })));
}

#[test]
fn two_requests_keep_to_their_own_workspaces() {
    let first = FileManager::new(WorkspacePaths::with_separator("/data/ws/a".into(), "/r/x", '/'));
    let second = FileManager::new(WorkspacePaths::with_separator("/data/ws/b".into(), "/r/x", '/'));
    let relative = first.get_relative_path_from_surl("index.js");
    assert_eq!(relative, second.get_relative_path_from_surl("index.js"));
    let of_first = "/data/ws/a/surl/x/index.js".to_string();
    let of_second = "/data/ws/b/surl/x/index.js".to_string();
    assert_eq!(first.accept(&relative, Some(of_first.clone())).unwrap(), of_first);
    assert_eq!(second.accept(&relative, Some(of_second.clone())).unwrap(), of_second);
    assert!(first.accept(&relative, Some(of_second.clone())).is_err());
    assert!(second.accept(&relative, Some(of_first.clone())).is_err());
    assert_eq!(first.accept(&relative, Some(of_first.clone())).unwrap(), of_first);
}
