use pathclip::path::get_cwd_name;
use pathclip::path::join;
use pathclip::path::parent_of;
use pathclip::path::ResolveError;

#[test]
fn test_get_cwd_name() {
    assert_eq!(
        get_cwd_name("/home/user/project", None).unwrap(),
        "/home/user/project"
    );
}

#[test]
fn no_argument_gives_cwd() {
    assert_eq!(get_cwd_name("/a/b", None), Ok("/a/b".to_string()));
}

#[test]
fn dot_gives_cwd() {
    assert_eq!(get_cwd_name("/a/b", Some(".")), Ok("/a/b".to_string()));
}

#[test]
fn dotdot_drops_last_segment() {
    assert_eq!(
        get_cwd_name("/home/user/project", Some("..")),
        Ok("/home/user".to_string())
    );
}

#[test]
fn dotdot_of_top_level_dir_is_root() {
    assert_eq!(get_cwd_name("/home", Some("..")), Ok("/".to_string()));
}

#[test]
fn dotdot_without_separator_fails() {
    assert_eq!(
        get_cwd_name("home", Some("..")),
        Err(ResolveError::NoSeparator)
    );
}

#[test]
fn relative_argument_is_joined() {
    assert_eq!(get_cwd_name("/a/b", Some("sub")), Ok("/a/b/sub".to_string()));
    assert_eq!(
        get_cwd_name("/a/b", Some("sub/dir")),
        Ok("/a/b/sub/dir".to_string())
    );
}

#[test]
fn absolute_argument_replaces_cwd() {
    assert_eq!(get_cwd_name("/a/b", Some("/etc")), Ok("/etc".to_string()));
}

#[test]
fn join_after_trailing_separator() {
    assert_eq!(get_cwd_name("/", Some("tmp")), Ok("/tmp".to_string()));
    assert_eq!(join("/a/", "b"), "/a/b");
}

#[test]
fn join_onto_empty_base() {
    assert_eq!(join("", "b"), "b");
}

#[test]
fn join_empty_argument_adds_separator() {
    assert_eq!(join("/a", ""), "/a/");
}

#[test]
fn dotted_names_are_joined() {
    assert_eq!(get_cwd_name("/a", Some("...")), Ok("/a/...".to_string()));
    assert_eq!(get_cwd_name("/a", Some(".x")), Ok("/a/.x".to_string()));
}

#[test]
fn parent_of_cases() {
    assert_eq!(parent_of("/a/b/c"), Some("/a/b".to_string()));
    assert_eq!(parent_of("/a/b/"), Some("/a/b".to_string()));
    assert_eq!(parent_of("/"), Some("/".to_string()));
    assert_eq!(parent_of(""), None);
    assert_eq!(parent_of("/é/ü"), Some("/é".to_string()));
}
