use engine_backend::permissions::{
    Db, Fs, HttpEvent, NamespaceRoot, PermissionError, PermissionKind,
};
use engine_backend::runtimes::manifest::{
    ApiManifest, Authentication, DbPermission, FsPermissions, HttpEventPermissions,
    ManifestPermissions,
};
use engine_backend::runtimes::permissions::{ApiPermissions, Grant, Permissions};

fn manifest(fs: FsPermissions, http: HttpEventPermissions, db: Vec<DbPermission>) -> ApiManifest {
    ApiManifest {
        authentication: Authentication { enabled: false },
        middlewares: Vec::new(),
        permissions: Some(ManifestPermissions { fs, http_event: http, db }),
    }
}

fn no_fs() -> FsPermissions {
    FsPermissions {
        open: Vec::new(),
        create: Vec::new(),
        read: Vec::new(),
        write: Vec::new(),
        execute: Vec::new(),
    }
}

fn kinds(grants: &[Grant]) -> Vec<PermissionKind> {
    grants.iter().map(|g| g.kind).collect()
}

#[test]
fn only_lists_that_name_a_path_are_granted() {
    let fs = FsPermissions {
        open: vec!["/a".to_string()],
        create: Vec::new(),
        read: vec!["/b".to_string(), "/c/*".to_string()],
        write: Vec::new(),
        execute: vec!["/d".to_string()],
    };
    let m = manifest(
        fs,
        HttpEventPermissions { request_read: false, response_send: false },
        vec![
            DbPermission { operation: Db::Connect, paths: Vec::new() },
            DbPermission { operation: Db::RowRead, paths: vec!["/main".to_string()] },
        ],
    );
    let grants = ApiPermissions::declared_permissions(&m);
    assert_eq!(
        kinds(&grants),
        vec![
            PermissionKind::Filesystem(Fs::Open),
            PermissionKind::Filesystem(Fs::Read),
            PermissionKind::Filesystem(Fs::Execute),
            PermissionKind::Database(Db::RowRead),
        ]
    );
    assert_eq!(grants[1].allow_list.len(), 2);
    assert_eq!(grants[1].allow_list[1].as_str(), "/c/*");
    assert!(!grants[1].allow_list[1].is_compiled());
}

#[test]
fn add_permission_if_exists_skips_empty_lists() {
    let mut result = Vec::new();
    ApiPermissions::add_permission_if_exists(
        &Vec::new(),
        PermissionKind::Filesystem(Fs::Read),
        &mut result,
    );
    assert!(result.is_empty());
    ApiPermissions::add_permission_if_exists(
        &vec!["/a".to_string()],
        PermissionKind::Filesystem(Fs::Write),
        &mut result,
    );
    assert_eq!(kinds(&result), vec![PermissionKind::Filesystem(Fs::Write)]);
    assert_eq!(result[0].allow_list[0].as_str(), "/a");
}

#[test]
fn request_permissions_follow_the_flags() {
    let both = manifest(
        no_fs(),
        HttpEventPermissions { request_read: true, response_send: true },
        Vec::new(),
    );
    assert_eq!(
        ApiPermissions::http_event_permissions(&both),
        vec![
            PermissionKind::HttpEvent(HttpEvent::RequestRead),
            PermissionKind::HttpEvent(HttpEvent::ResponseSend),
        ]
    );
    let send = manifest(
        no_fs(),
        HttpEventPermissions { request_read: false, response_send: true },
        Vec::new(),
    );
    assert_eq!(
        ApiPermissions::http_event_permissions(&send),
        vec![PermissionKind::HttpEvent(HttpEvent::ResponseSend)]
    );
}

#[test]
fn manifest_without_permissions_grants_nothing() {
    let m = ApiManifest {
        authentication: Authentication { enabled: true },
        middlewares: Vec::new(),
        permissions: None,
    };
    assert!(ApiPermissions::declared_permissions(&m).is_empty());
    assert!(ApiPermissions::http_event_permissions(&m).is_empty());
    let permissions = ApiPermissions::load_permissions(&m, None).unwrap();
    assert!(matches!(
        permissions.check(PermissionKind::Filesystem(Fs::Read), "/a"),
        Err(PermissionError::Denied { .. })
    ));
}

#[test]
fn default_permissions_deny_everything() {
    let permissions = Permissions::default();
    for kind in [
        PermissionKind::Filesystem(Fs::Read),
        PermissionKind::Database(Db::Connect),
        PermissionKind::HttpEvent(HttpEvent::RequestRead),
    ] {
        match permissions.check(kind, "/a") {
            Err(PermissionError::Denied { kind: denied, resource }) => {
                assert_eq!(denied, kind);
                assert_eq!(resource, "/a");
            }
            other => panic!("unexpected result: {:?}", other),
        }
    }
}

#[test]
fn loaded_permissions_are_read_under_the_root() {
    let fs = FsPermissions { read: vec!["/files/*".to_string()], ..no_fs() };
    let m = manifest(
        fs,
        HttpEventPermissions { request_read: true, response_send: false },
        vec![DbPermission { operation: Db::RowRead, paths: vec!["/main/**".to_string()] }],
    );
    let permissions =
        ApiPermissions::load_permissions(&m, Some(NamespaceRoot::from("w1"))).unwrap();
    assert!(permissions.check(PermissionKind::Filesystem(Fs::Read), "/files/a").is_ok());
    assert!(permissions.check(PermissionKind::Filesystem(Fs::Read), "/files/a/b").is_err());
    assert!(permissions.check(PermissionKind::Database(Db::RowRead), "/main/t/c").is_ok());
    assert!(permissions.check(PermissionKind::Database(Db::RowWrite), "/main/t/c").is_err());
    assert!(permissions.check(PermissionKind::HttpEvent(HttpEvent::RequestRead), "x").is_ok());
}

#[test]
fn first_grant_that_fails_decides_the_error() {
    let fs = FsPermissions { read: vec!["/a$b".to_string()], ..no_fs() };
    let m = manifest(
        fs,
        HttpEventPermissions { request_read: false, response_send: false },
        vec![DbPermission { operation: Db::RowRead, paths: vec![format!("/{}", "n".repeat(49))] }],
    );
    assert!(matches!(
        ApiPermissions::load_permissions(&m, Some(NamespaceRoot::from("w1"))),
        Err(PermissionError::ReservedDelimiter { .. })
    ));
}

#[test]
fn loaded_permissions_show_what_they_grant() {
    let fs = FsPermissions { read: vec!["/files/*".to_string()], ..no_fs() };
    let m = manifest(
        fs,
        HttpEventPermissions { request_read: true, response_send: false },
        vec![DbPermission { operation: Db::RowRead, paths: vec!["/main/**".to_string()] }],
    );
    let permissions =
        ApiPermissions::load_permissions(&m, Some(NamespaceRoot::from("w1"))).unwrap();
    assert_eq!(permissions.namespace_root().as_ref().unwrap().as_str(), "w1");
    assert_eq!(
        permissions.granted_outright(),
        &vec![PermissionKind::HttpEvent(HttpEvent::RequestRead)]
    );
    let grants = permissions.granted_on_paths();
    assert_eq!(
        kinds(grants),
        vec![PermissionKind::Filesystem(Fs::Read), PermissionKind::Database(Db::RowRead)]
    );
    assert_eq!(grants[0].allow_list[0].as_str(), "w1$/files/*");
    assert!(grants[1].allow_list[0].is_compiled());
}

#[test]
fn database_grant_needs_a_root() {
    let m = manifest(
        no_fs(),
        HttpEventPermissions { request_read: false, response_send: false },
        vec![DbPermission { operation: Db::RowRead, paths: vec!["/main".to_string()] }],
    );
    assert!(matches!(
        ApiPermissions::load_permissions(&m, None),
        Err(PermissionError::RootMissing)
    ));
    let only_fs = manifest(
        FsPermissions { read: vec!["/files/*".to_string()], ..no_fs() },
        HttpEventPermissions { request_read: false, response_send: false },
        Vec::new(),
    );
    assert!(ApiPermissions::load_permissions(&only_fs, None).is_ok());
}

#[test]
fn copy_of_permissions_answers_alike() {
    let fs = FsPermissions { read: vec!["/files/*".to_string()], ..no_fs() };
    let m = manifest(
        fs,
        HttpEventPermissions { request_read: true, response_send: false },
        vec![DbPermission { operation: Db::RowRead, paths: vec!["/main/**".to_string()] }],
    );
    let permissions =
        ApiPermissions::load_permissions(&m, Some(NamespaceRoot::from("w1"))).unwrap();
    let copy = permissions.clone();
    let asked = [
        (PermissionKind::Filesystem(Fs::Read), "/files/a"),
        (PermissionKind::Filesystem(Fs::Read), "/files/a/b"),
        (PermissionKind::Filesystem(Fs::Write), "/files/a"),
        (PermissionKind::Database(Db::RowRead), "/main/t/c"),
        (PermissionKind::Database(Db::RowRead), "/other"),
        (PermissionKind::HttpEvent(HttpEvent::RequestRead), ""),
        (PermissionKind::HttpEvent(HttpEvent::ResponseSend), ""),
    ];
    for (kind, resource) in asked {
        assert_eq!(permissions.check(kind, resource).is_ok(), copy.check(kind, resource).is_ok());
    }
    assert!(copy.check(PermissionKind::Database(Db::RowRead), "/main/t/c").is_ok());
    assert_eq!(copy.namespace_root().as_ref().unwrap().as_str(), "w1");
    let grant = permissions.granted_on_paths()[0].clone();
    assert_eq!(grant.kind, PermissionKind::Filesystem(Fs::Read));
    assert_eq!(grant.allow_list[0].as_str(), "w1$/files/*");
    assert!(grant.allow_list[0].accepts("w1$/files/a"));
}
