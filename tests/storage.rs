use cargo_mini_repo::storage::{archive_path, resolve_download, storable_segment};

#[test]
fn archive_path_layout() {
    assert_eq!(archive_path("foo", "1.0.0"), "foo/1.0.0/archive.crate");
}

#[test]
fn download_resolves_name_and_version() {
    assert_eq!(resolve_download("/foo/1.0.0"), Some("foo/1.0.0/archive.crate".to_string()));
    assert_eq!(resolve_download("foo/9.9.9"), Some("foo/9.9.9/archive.crate".to_string()));
    assert_eq!(resolve_download("//foo/1.0.0"), Some("foo/1.0.0/archive.crate".to_string()));
}

#[test]
fn download_rejects_parent_references() {
    assert_eq!(resolve_download("/../1.0.0"), None);
    assert_eq!(resolve_download("/foo/.."), None);
    assert_eq!(resolve_download("/foo/../x"), None);
}

#[test]
fn download_allows_current_dir_segment() {
    assert_eq!(resolve_download("/./x"), Some("./x/archive.crate".to_string()));
}

#[test]
fn download_rejects_other_shapes() {
    assert_eq!(resolve_download(""), None);
    assert_eq!(resolve_download("/foo"), None);
    assert_eq!(resolve_download("/foo/"), None);
    assert_eq!(resolve_download("/foo//1.0.0"), None);
    assert_eq!(resolve_download("/foo/1.0.0/extra"), None);
}

#[test]
fn storable_segments() {
    assert!(storable_segment("foo"));
    assert!(storable_segment("1.0.0-beta+x"));
    assert!(storable_segment("..."));
    assert!(!storable_segment(""));
    assert!(storable_segment("."));
    assert!(!storable_segment(".."));
    assert!(!storable_segment("a/b"));
}
