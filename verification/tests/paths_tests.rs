use cargo_ramdisk::{normalize_path, path_lies_under, resolve_target, store_path};

#[test]
fn normalize_strips_one_trailing_separator() {
    assert_eq!(normalize_path("foo/"), "foo");
    assert_eq!(normalize_path("/a/b/"), "/a/b");
    assert_eq!(normalize_path("/a/b"), "/a/b");
}

#[test]
fn normalize_keeps_bare_root() {
    assert_eq!(normalize_path("/"), "/");
    assert_eq!(normalize_path(""), "");
    assert_eq!(normalize_path("//"), "/");
}

#[test]
fn resolve_keeps_absolute_paths() {
    assert_eq!(resolve_target("/home/user", "/abs/target/"), "/abs/target");
    assert_eq!(resolve_target("/home/user", "/abs/target"), "/abs/target");
}

#[test]
fn resolve_joins_relative_paths() {
    assert_eq!(resolve_target("/home/user", "target"), "/home/user/target");
    assert_eq!(resolve_target("/home/user", "target/"), "/home/user/target");
    assert_eq!(resolve_target("/home/user", "./target"), "/home/user/./target");
}

#[test]
fn lies_under_respects_component_boundaries() {
    assert!(path_lies_under("/dev/shm", "/dev/shm/target123"));
    assert!(path_lies_under("/dev/shm", "/dev/shm"));
    assert!(!path_lies_under("/dev/shm", "/dev/shmother"));
    assert!(!path_lies_under("/dev/shm", "/dev"));
    assert!(!path_lies_under("/dev/shm", "/tmp/elsewhere"));
}

#[test]
fn store_path_concatenates() {
    assert_eq!(store_path("/dev/shm", "abc123"), "/dev/shm/targetabc123");
}
