use pkg_manifest::build_target::{LibKind, Target, TargetKind};
use pkg_manifest::layout::{DirListing, Layout};
use pkg_manifest::normalize::{
    inferred_bench_targets, inferred_bin_path, inferred_bin_targets, inferred_example_targets,
    inferred_lib_target, inferred_test_targets, normalize, unique_build_targets,
    unique_names_in_targets,
};
use pkg_manifest::target::TomlTarget;

fn names(list: &[&str]) -> Vec<String> {
    list.iter().map(|s| s.to_string()).collect()
}

fn layout(src: &[&str], src_bin: &[&str]) -> Layout {
    Layout::from_project_path(
        "/pkg",
        &DirListing {
            src: names(src),
            src_bin: names(src_bin),
            examples: vec![],
            tests: vec![],
            benches: vec![],
            build_script: false,
        },
    )
}

fn named(name: &str) -> TomlTarget {
    let mut t = TomlTarget::new();
    t.name = Some(name.to_string());
    t
}

#[test]
fn new_target_has_no_key() {
    let t = TomlTarget::new();
    assert!(t.name.is_none() && t.path.is_none() && t.crate_type.is_none());
    assert!(t.test.is_none() && t.doc.is_none() && t.harness.is_none());
    assert_eq!(t.proc_macro(), None);
}

#[test]
fn target_name_and_proc_macro() {
    let mut t = named("foo");
    assert_eq!(t.name(), "foo");
    t.proc_macro2 = Some(true);
    assert_eq!(t.proc_macro(), Some(true));
    t.proc_macro = Some(false);
    assert_eq!(t.proc_macro(), Some(false));
}

#[test]
fn library_name_rules() {
    assert!(TomlTarget::new().validate_library_name().is_ok());
    assert!(named("my_lib").validate_library_name().is_ok());
    assert_eq!(
        named("  ").validate_library_name().unwrap_err().message(),
        "library target names cannot be empty."
    );
    assert_eq!(
        named("my-lib").validate_library_name().unwrap_err().message(),
        "library target names cannot contain hyphens: my-lib"
    );
}

#[test]
fn other_target_name_rules() {
    assert!(named("a-b").validate_binary_name().is_ok());
    assert_eq!(
        TomlTarget::new().validate_binary_name().unwrap_err().message(),
        "binary target bin.name is required"
    );
    assert_eq!(
        named("").validate_binary_name().unwrap_err().message(),
        "binary target names cannot be empty."
    );
    assert_eq!(
        named("\t ").validate_example_name().unwrap_err().message(),
        "example target names cannot be empty"
    );
    assert_eq!(
        TomlTarget::new().validate_test_name().unwrap_err().message(),
        "test target test.name is required"
    );
    assert_eq!(
        TomlTarget::new().validate_bench_name().unwrap_err().message(),
        "bench target bench.name is required"
    );
}

#[test]
fn plugin_and_proc_macro_exclude_each_other() {
    let mut t = named("foo");
    t.plugin = Some(true);
    assert!(t.validate_crate_type().is_ok());
    t.proc_macro2 = Some(true);
    assert_eq!(
        t.validate_crate_type().unwrap_err().message(),
        "lib.plugin and lib.proc-macro cannot both be true"
    );
    t.proc_macro = Some(false);
    assert!(t.validate_crate_type().is_ok());
}

#[test]
fn inferred_targets_follow_the_layout() {
    let l = Layout::from_project_path(
        "/pkg",
        &DirListing {
            src: names(&["lib.rs", "main.rs"]),
            src_bin: names(&["tool.rs"]),
            examples: names(&["demo.rs", ".swp.rs"]),
            tests: names(&["it.rs"]),
            benches: names(&["speed.rs", "README.md"]),
            build_script: false,
        },
    );
    let lib = inferred_lib_target("foo", &l).unwrap();
    assert_eq!(lib.name, Some("foo".to_string()));
    assert_eq!(lib.path, Some("/pkg/src/lib.rs".to_string()));
    let bins = inferred_bin_targets("foo", &l);
    assert_eq!(bins.len(), 2);
    assert_eq!(bins[0].name, Some("foo".to_string()));
    assert_eq!(bins[0].path, Some("/pkg/src/main.rs".to_string()));
    assert_eq!(bins[1].name, Some("tool".to_string()));
    assert_eq!(bins[1].path, Some("/pkg/src/bin/tool.rs".to_string()));
    let examples = inferred_example_targets(&l);
    assert_eq!(examples.len(), 1);
    assert_eq!(examples[0].name, Some("demo".to_string()));
    assert_eq!(examples[0].path, Some("/pkg/examples/demo.rs".to_string()));
    let tests = inferred_test_targets(&l);
    assert_eq!(tests.len(), 1);
    assert_eq!(tests[0].name, Some("it".to_string()));
    let benches = inferred_bench_targets(&l);
    assert_eq!(benches.len(), 1);
    assert_eq!(benches[0].path, Some("/pkg/benches/speed.rs".to_string()));
}

#[test]
fn no_library_file_no_inferred_library() {
    assert!(inferred_lib_target("foo", &layout(&["main.rs"], &[])).is_none());
}

#[test]
fn unique_names_reports_first_repeat() {
    assert_eq!(unique_names_in_targets(&vec![]), Ok(()));
    assert_eq!(unique_names_in_targets(&vec![named("a"), named("b")]), Ok(()));
    assert_eq!(
        unique_names_in_targets(&vec![named("a"), named("b"), named("c"), named("b"), named("a")]),
        Err("b".to_string())
    );
}

#[test]
fn unique_build_targets_reports_first_shared_file() {
    let l = layout(&[], &[]);
    let t = |name: &str, path: &str| Target::bin_target(name.to_string(), path.to_string(), None);
    assert_eq!(unique_build_targets(&vec![t("a", "/pkg/src/a.rs"), t("b", "/pkg/src/b.rs")], &l), Ok(()));
    assert_eq!(
        unique_build_targets(
            &vec![t("a", "/pkg/src/a.rs"), t("b", "src/x.rs"), t("c", "/pkg/src/x.rs")],
            &l
        ),
        Err("/pkg/src/x.rs".to_string())
    );
}

#[test]
fn bin_path_with_several_binaries_is_in_src_bin() {
    let l = layout(&["main.rs", "foo.rs"], &["foo.rs"]);
    assert_eq!(inferred_bin_path(&named("foo"), &l, true, 2), "src/bin/foo.rs");
    assert_eq!(inferred_bin_path(&named("foo"), &l, false, 3), "src/bin/foo.rs");
}

#[test]
fn single_bin_path_with_library() {
    assert_eq!(inferred_bin_path(&named("foo"), &layout(&["main.rs", "foo.rs"], &["foo.rs"]), true, 1), "src/main.rs");
    assert_eq!(inferred_bin_path(&named("foo"), &layout(&["foo.rs"], &["foo.rs"]), true, 1), "src/bin/foo.rs");
    assert_eq!(inferred_bin_path(&named("foo"), &layout(&["foo.rs"], &[]), true, 1), "src/main.rs");
}

#[test]
fn single_bin_path_without_library() {
    assert_eq!(inferred_bin_path(&named("foo"), &layout(&["main.rs", "foo.rs"], &["foo.rs"]), false, 1), "src/main.rs");
    assert_eq!(inferred_bin_path(&named("foo"), &layout(&["foo.rs"], &["foo.rs"]), false, 1), "src/foo.rs");
    assert_eq!(inferred_bin_path(&named("foo"), &layout(&[], &["foo.rs"]), false, 1), "src/bin/foo.rs");
    assert_eq!(inferred_bin_path(&named("foo"), &layout(&[], &[]), false, 1), "src/main.rs");
}

#[test]
fn lib_kinds_from_their_names() {
    assert!(matches!(LibKind::from_str("lib"), LibKind::Lib));
    assert!(matches!(LibKind::from_str("rlib"), LibKind::Rlib));
    assert!(matches!(LibKind::from_str("dylib"), LibKind::Dylib));
    assert!(matches!(LibKind::from_str("proc-macro"), LibKind::ProcMacro));
    assert!(matches!(LibKind::from_str("proc_macro"), LibKind::ProcMacro));
    assert!(matches!(LibKind::from_str("staticlib"), LibKind::Other(s) if s == "staticlib"));
}

#[test]
fn normalize_orders_and_configures_targets() {
    let l = layout(&["lib.rs"], &[]);
    let mut lib = named("foo");
    lib.doctest = Some(false);
    let mut bin = named("tool");
    bin.test = Some(false);
    bin.required_features = Some(names(&["cli"]));
    let mut example = named("demo");
    example.crate_type = Some(names(&["dylib"]));
    let test = named("test");
    let bench = named("speed");
    let targets = normalize(
        &l,
        &Some(lib),
        &vec![bin, named("other")],
        Some("build.rs".to_string()),
        &vec![example],
        &vec![test],
        &vec![bench],
    );
    assert_eq!(targets.len(), 7);

    assert!(matches!(&targets[0].kind, TargetKind::Lib(k) if k.len() == 1 && matches!(k[0], LibKind::Lib)));
    assert_eq!(targets[0].name, "foo");
    assert_eq!(targets[0].src_path, "/pkg/src/foo.rs");
    assert!(targets[0].doc && !targets[0].doctest && targets[0].tested && targets[0].benched);
    assert!(targets[0].harness && !targets[0].for_host);

    assert!(matches!(targets[1].kind, TargetKind::Bin));
    assert_eq!(targets[1].src_path, "/pkg/src/bin/tool.rs");
    assert_eq!(targets[1].required_features, Some(names(&["cli"])));
    assert!(!targets[1].tested && targets[1].doc && !targets[1].doctest);
    assert_eq!(targets[2].name, "other");
    assert_eq!(targets[2].src_path, "/pkg/src/bin/other.rs");

    assert!(matches!(targets[3].kind, TargetKind::CustomBuild));
    assert_eq!(targets[3].name, "build-script-build");
    assert_eq!(targets[3].src_path, "/pkg/build.rs");
    assert!(targets[3].for_host && !targets[3].tested && !targets[3].benched);

    assert!(matches!(&targets[4].kind, TargetKind::ExampleLib(k) if matches!(k[0], LibKind::Dylib)));
    assert_eq!(targets[4].src_path, "/pkg/examples/demo.rs");
    assert!(!targets[4].benched && targets[4].tested);

    assert!(matches!(targets[5].kind, TargetKind::Test));
    assert_eq!(targets[5].src_path, "/pkg/src/test.rs");
    assert!(!targets[5].benched);

    assert!(matches!(targets[6].kind, TargetKind::Bench));
    assert_eq!(targets[6].src_path, "/pkg/benches/speed.rs");
    assert!(!targets[6].tested && targets[6].benched);
}

#[test]
fn plugin_and_proc_macro_decide_host_and_kind() {
    let l = layout(&[], &[]);
    let none: Vec<TomlTarget> = vec![];
    let build = |t: TomlTarget| normalize(&l, &Some(t), &none, None, &none, &none, &none).remove(0);

    let mut plugin = named("p");
    plugin.plugin = Some(true);
    let t = build(plugin);
    assert!(t.for_host);
    assert!(matches!(&t.kind, TargetKind::Lib(k) if matches!(k[0], LibKind::Dylib)));

    let mut pm = named("p");
    pm.proc_macro2 = Some(true);
    pm.plugin = Some(false);
    let t = build(pm);
    assert!(t.for_host);
    assert!(matches!(&t.kind, TargetKind::Lib(k) if matches!(k[0], LibKind::ProcMacro)));

    let mut off = named("p");
    off.plugin = Some(false);
    assert!(!build(off).for_host);

    let mut declared = named("p");
    declared.crate_type2 = Some(names(&["rlib", "staticlib"]));
    declared.path = Some("lib/mod.rs".to_string());
    let t = build(declared);
    assert_eq!(t.src_path, "/pkg/lib/mod.rs");
    assert!(matches!(&t.kind, TargetKind::Lib(k) if k.len() == 2 && matches!(k[0], LibKind::Rlib) && matches!(&k[1], LibKind::Other(s) if s == "staticlib")));
}

#[test]
fn bench_named_bench_lives_in_src() {
    let l = layout(&[], &[]);
    let none: Vec<TomlTarget> = vec![];
    let targets = normalize(&l, &None, &none, Some("tools/gen.rs".to_string()), &none, &vec![named("it")], &vec![named("bench")]);
    assert_eq!(targets.len(), 3);
    assert_eq!(targets[0].name, "build-script-gen");
    assert_eq!(targets[0].src_path, "/pkg/tools/gen.rs");
    assert_eq!(targets[1].src_path, "/pkg/tests/it.rs");
    assert_eq!(targets[2].src_path, "/pkg/src/bench.rs");
}
