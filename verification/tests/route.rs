use engine_backend::path::PathError;
use engine_backend::runtimes::api::ApiRuntime;
use engine_backend::runtimes::route::{
    collapse, resolve_url_path, resolve_url_path_with, to_platform_path,
};

fn collapsed(path: &str) -> String {
    collapse(&path.chars().collect(), '/').into_iter().collect()
}

#[test]
fn parameter_segment_collapses_to_its_parent() {
    assert_eq!(resolve_url_path_with("/products/=id/edit", '/').unwrap(), "products/edit");
    assert_eq!(
        ApiRuntime::module_name(&resolve_url_path_with("/products/=id/edit", '/').unwrap(), '/'),
        "/products/edit"
    );
}

#[test]
fn trailing_parameter_falls_back_to_the_parent() {
    assert_eq!(resolve_url_path_with("/products/=id", '/').unwrap(), "products");
    assert_eq!(resolve_url_path_with("/products/=id/", '/').unwrap(), "products");
    assert_eq!(resolve_url_path_with("/products/=", '/').unwrap(), "products");
    assert_eq!(resolve_url_path_with("/=id", '/').unwrap(), "");
}

#[test]
fn every_parameter_segment_is_left_out() {
    assert_eq!(resolve_url_path_with("/a/=x/=y/b", '/').unwrap(), "a/b");
    assert_eq!(resolve_url_path_with("/a/=x/b/=y/c/=z", '/').unwrap(), "a/b/c");
    assert_eq!(collapsed("/a/=x/=y/b"), "/a/b");
    assert_eq!(collapsed("=x/a"), "a");
    assert_eq!(collapsed("/a/=x"), "/a/");
    assert_eq!(collapsed(""), "");
}

#[test]
fn only_a_leading_equals_sign_marks_a_parameter() {
    assert_eq!(resolve_url_path_with("/a/b=c/d", '/').unwrap(), "a/b=c/d");
    assert_eq!(resolve_url_path_with("/a/.=c/d", '/').unwrap(), "a/.=c/d");
}

#[test]
fn separators_are_trimmed_at_both_ends() {
    assert_eq!(resolve_url_path_with("/api/users/", '/').unwrap(), "api/users");
    assert_eq!(resolve_url_path_with("///api///", '/').unwrap(), "api");
    assert_eq!(resolve_url_path_with("/", '/').unwrap(), "");
    assert_eq!(resolve_url_path_with("", '/').unwrap(), "");
    assert_eq!(resolve_url_path_with("api", '/').unwrap(), "api");
}

#[test]
fn backslash_is_not_allowed_in_a_url() {
    assert!(matches!(
        resolve_url_path_with("/api\\..\\x", '/'),
        Err(PathError::SeparatorNotAllowed)
    ));
    assert!(matches!(to_platform_path("\\", '/'), Err(PathError::SeparatorNotAllowed)));
    assert!(matches!(to_platform_path("a\\b", '\\'), Err(PathError::SeparatorNotAllowed)));
    assert!(resolve_url_path("/api\\x").is_err());
}

#[test]
fn platform_path_uses_the_platform_separator() {
    assert_eq!(to_platform_path("/api/users", '/').unwrap(), "/api/users");
    assert_eq!(to_platform_path("/api/users", '\\').unwrap(), "\\api\\users");
    assert_eq!(resolve_url_path_with("/api/=id/users/", '\\').unwrap(), "api\\users");
}

#[test]
fn resolve_uses_the_separator_of_the_platform() {
    let expected = resolve_url_path_with("/api/=id/users", std::path::MAIN_SEPARATOR).unwrap();
    assert_eq!(resolve_url_path("/api/=id/users").unwrap(), expected);
}

#[test]
fn dot_segments_are_neither_made_nor_taken_away() {
    assert_eq!(resolve_url_path_with("/a/=x/b", '/').unwrap(), "a/b");
    assert_eq!(resolve_url_path_with("/./=x/.", '/').unwrap(), "./.");
    assert_eq!(resolve_url_path_with("/a/../b", '/').unwrap(), "a/../b");
    assert_eq!(resolve_url_path_with("/.=x/=./.", '/').unwrap(), ".=x/.");
    assert_eq!(resolve_url_path_with("/.=/=x/.", '/').unwrap(), ".=/.");
}
