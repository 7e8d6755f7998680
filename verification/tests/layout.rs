use pkg_manifest::layout::{DirListing, Layout};

fn names(list: &[&str]) -> Vec<String> {
    list.iter().map(|s| s.to_string()).collect()
}

#[test]
fn layout_lists_source_files_only() {
    let listing = DirListing {
        src: names(&["lib.rs", "main.rs"]),
        src_bin: names(&["tool.rs", ".hidden.rs", "notes.txt"]),
        examples: names(&["demo.rs"]),
        tests: vec![],
        benches: vec![],
        build_script: false,
    };
    let layout = Layout::from_project_path("/pkg", &listing);
    assert_eq!(layout.root, "/pkg");
    assert_eq!(layout.lib, Some("/pkg/src/lib.rs".to_string()));
    assert_eq!(layout.bins, names(&["/pkg/src/main.rs", "/pkg/src/bin/tool.rs"]));
    assert_eq!(layout.examples, names(&["/pkg/examples/demo.rs"]));
    assert!(layout.tests.is_empty());
    assert!(layout.benches.is_empty());
}
