use pkg_manifest::path::{file_name, file_stem, is_source_file, join, normalize_path};

#[test]
fn join_puts_one_separator() {
    assert_eq!(join("/pkg", "src"), "/pkg/src");
    assert_eq!(join("/pkg/", "src"), "/pkg/src");
    assert_eq!(join("", "src"), "src");
    assert_eq!(join("/pkg", ""), "/pkg/");
}

#[test]
fn join_with_absolute_path_replaces_base() {
    assert_eq!(join("/pkg", "/other/lib"), "/other/lib");
}

#[test]
fn normalize_removes_dot_and_dot_dot() {
    assert_eq!(normalize_path("/a/b/../c/./d"), "/a/c/d");
    assert_eq!(normalize_path("/pkg/./a"), "/pkg/a");
    assert_eq!(normalize_path("/pkg/../lib"), "/lib");
    assert_eq!(normalize_path("a//b/"), "a/b");
}

#[test]
fn normalize_stops_at_the_root() {
    assert_eq!(normalize_path("/.."), "/");
    assert_eq!(normalize_path("/"), "/");
    assert_eq!(normalize_path(""), "");
    assert_eq!(normalize_path("../x"), "x");
    assert_eq!(normalize_path("a/../../b"), "b");
}

#[test]
fn normalize_is_idempotent_on_examples() {
    for p in ["/a/b/../c", "x/./y/../z", "/", "", "../..", "/a//b/"] {
        let once = normalize_path(p);
        assert_eq!(normalize_path(&once), once);
    }
}

#[test]
fn file_name_is_last_component() {
    assert_eq!(file_name("/pkg/src/main.rs"), Some("main.rs".to_string()));
    assert_eq!(file_name("main.rs"), Some("main.rs".to_string()));
    assert_eq!(file_name("/pkg/src/"), None);
    assert_eq!(file_name("/pkg/.."), None);
    assert_eq!(file_name("."), None);
}

#[test]
fn file_stem_drops_last_extension() {
    assert_eq!(file_stem("/pkg/src/bin/tool.rs"), Some("tool".to_string()));
    assert_eq!(file_stem("a.b.rs"), Some("a.b".to_string()));
    assert_eq!(file_stem(".hidden"), Some(".hidden".to_string()));
    assert_eq!(file_stem("noext"), Some("noext".to_string()));
    assert_eq!(file_stem("trailing."), Some("trailing".to_string()));
    assert_eq!(file_stem("dir/"), None);
}

#[test]
fn source_files_end_in_rs_and_are_not_hidden() {
    assert!(is_source_file("/pkg/examples/demo.rs"));
    assert!(is_source_file("a.b.rs"));
    assert!(!is_source_file("/pkg/examples/.demo.rs"));
    assert!(!is_source_file("/pkg/examples/demo.txt"));
    assert!(!is_source_file("/pkg/examples/rs"));
    assert!(!is_source_file(".rs"));
    assert!(!is_source_file("demo.rs/"));
}
