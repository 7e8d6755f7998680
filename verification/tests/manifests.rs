use pkg_manifest::build_target::TargetKind;
use pkg_manifest::dependency::{DetailedTomlDependency, Kind, Platform, TomlDependency};
use pkg_manifest::document::{StringOrBool, TomlManifest, TomlPlatform, TomlProject, TomlWorkspace};
use pkg_manifest::error::{ManifestError, Section, Warning};
use pkg_manifest::interpret::{check_sources, maybe_custom_build, to_manifest};
use pkg_manifest::layout::{DirListing, Layout};
use pkg_manifest::manifest::{EitherManifest, Manifest, WorkspaceConfig};
use pkg_manifest::profile::{TomlProfile, TomlProfiles};
use pkg_manifest::source::SourceId;
use pkg_manifest::target::TomlTarget;
use pkg_manifest::version::{TomlVersion, VersionReq};

fn names(list: &[&str]) -> Vec<String> {
    list.iter().map(|s| s.to_string()).collect()
}

fn layout(src: &[&str], src_bin: &[&str], build_script: bool) -> Layout {
    Layout::from_project_path(
        "/work/pkg",
        &DirListing { src: names(src), src_bin: names(src_bin), examples: vec![], tests: vec![], benches: vec![], build_script },
    )
}

fn project(name: &str) -> TomlProject {
    TomlProject {
        name: name.to_string(),
        version: TomlVersion::from_text("0.1.0").unwrap(),
        authors: None,
        build: None,
        links: None,
        exclude: None,
        included: None,
        publish: None,
        workspace: None,
        description: None,
        homepage: None,
        documentation: None,
        readme: None,
        keywords: None,
        categories: None,
        license: None,
        license_file: None,
        repository: None,
    }
}

fn package(name: &str) -> TomlManifest {
    let mut m = TomlManifest::default();
    m.package = Some(project(name));
    m
}

fn local() -> SourceId {
    SourceId::Path("/work/pkg".to_string())
}

fn named(name: &str) -> TomlTarget {
    let mut t = TomlTarget::new();
    t.name = Some(name.to_string());
    t
}

fn path_dep(path: &str) -> TomlDependency {
    let mut d = DetailedTomlDependency::default();
    d.path = Some(path.to_string());
    TomlDependency::from_table(d)
}

fn accepted(m: &TomlManifest, l: &Layout) -> (Manifest, Vec<String>) {
    match to_manifest(m, &vec![], &local(), l) {
        Ok((EitherManifest::Real(manifest), paths)) => (manifest, paths),
        other => panic!("unexpected {:?}", other),
    }
}

fn failure(m: &TomlManifest, l: &Layout) -> ManifestError {
    match to_manifest(m, &vec![], &local(), l) {
        Err(e) => e,
        Ok(other) => panic!("unexpected {:?}", other),
    }
}

#[test]
fn library_file_alone_gives_one_library() {
    let (manifest, paths) = accepted(&package("foo"), &layout(&["lib.rs"], &[], false));
    assert_eq!(manifest.targets.len(), 1);
    assert!(matches!(manifest.targets[0].kind, TargetKind::Lib(_)));
    assert_eq!(manifest.targets[0].name, "foo");
    assert_eq!(manifest.targets[0].src_path, "/work/pkg/src/lib.rs");
    assert_eq!(manifest.package_id.name, "foo");
    assert_eq!(manifest.package_id.version.minor, 1);
    assert_eq!(manifest.package_id.source_id, local());
    assert!(manifest.dependencies.is_empty() && manifest.warnings.is_empty() && paths.is_empty());
    assert!(manifest.publish);
    assert!(matches!(manifest.workspace, WorkspaceConfig::Member { root: None }));
}

#[test]
fn library_and_main_give_library_and_binary() {
    let (manifest, _) = accepted(&package("foo"), &layout(&["lib.rs", "main.rs"], &[], false));
    assert_eq!(manifest.targets.len(), 2);
    assert!(matches!(manifest.targets[0].kind, TargetKind::Lib(_)));
    assert!(matches!(manifest.targets[1].kind, TargetKind::Bin));
    assert_eq!(manifest.targets[1].name, "foo");
    assert_eq!(manifest.targets[1].src_path, "/work/pkg/src/main.rs");
}

#[test]
fn project_section_wins_over_package() {
    let mut m = package("from_package");
    m.project = Some(project("from_project"));
    let (manifest, _) = accepted(&m, &layout(&["lib.rs"], &[], false));
    assert_eq!(manifest.package_id.name, "from_project");
}

#[test]
fn build_script_alone_is_no_target() {
    let err = failure(&package("foo"), &layout(&[], &[], true));
    assert!(matches!(err, ManifestError::NoTargets));
    assert!(err.message().starts_with("no targets specified in the manifest"));
}

#[test]
fn build_script_is_found_or_declared() {
    let l = layout(&["lib.rs"], &[], true);
    let (manifest, _) = accepted(&package("foo"), &l);
    assert_eq!(manifest.targets.len(), 2);
    assert!(matches!(manifest.targets[1].kind, TargetKind::CustomBuild));
    assert_eq!(manifest.targets[1].src_path, "/work/pkg/build.rs");

    assert_eq!(maybe_custom_build(&None, &l), Some("/work/pkg/build.rs".to_string()));
    assert_eq!(maybe_custom_build(&Some(StringOrBool::Bool(false)), &l), None);
    let none = layout(&["lib.rs"], &[], false);
    assert_eq!(maybe_custom_build(&None, &none), None);
    assert_eq!(maybe_custom_build(&Some(StringOrBool::Bool(true)), &none), Some("/work/pkg/build.rs".to_string()));
    assert_eq!(maybe_custom_build(&Some(StringOrBool::from_text("gen.rs")), &none), Some("gen.rs".to_string()));
}

#[test]
fn blank_package_name_fails() {
    let err = failure(&package(" \t"), &layout(&["lib.rs"], &[], false));
    assert!(matches!(err, ManifestError::EmptyPackageName));
    assert_eq!(err.message(), "package name cannot be an empty string.");
}

#[test]
fn missing_package_section_without_workspace_fails() {
    let err = failure(&TomlManifest::default(), &layout(&["lib.rs"], &[], false));
    assert!(matches!(err, ManifestError::NoPackageSection));
}

#[test]
fn duplicate_binary_names_fail_with_the_name() {
    let mut m = package("foo");
    m.bin = Some(vec![named("a"), named("b"), named("a")]);
    let err = failure(&m, &layout(&[], &[], false));
    assert!(matches!(&err, ManifestError::DuplicateTargetName { section: Section::Bin, name } if name == "a"));
    assert_eq!(err.message(), "found duplicate binary name a, but all binary targets must have a unique name");
}

#[test]
fn duplicate_example_names_fail() {
    let mut m = package("foo");
    m.example = Some(vec![named("x"), named("x")]);
    let err = failure(&m, &layout(&["lib.rs"], &[], false));
    assert!(matches!(&err, ManifestError::DuplicateTargetName { section: Section::Example, name } if name == "x"));
}

#[test]
fn forbidden_binary_name_fails() {
    for bad in ["build", "deps", "examples", "native"] {
        let mut m = package("foo");
        m.bin = Some(vec![named("ok"), named(bad)]);
        let err = failure(&m, &layout(&[], &[], false));
        assert!(matches!(&err, ManifestError::ForbiddenBinaryName { name } if name == bad));
    }
}

#[test]
fn hyphen_in_library_name_fails() {
    let mut m = package("foo");
    m.lib = Some(named("my-lib"));
    assert!(matches!(failure(&m, &layout(&[], &[], false)), ManifestError::HyphenInLibraryName { .. }));
}

#[test]
fn declared_library_takes_defaults_from_package_and_layout() {
    let mut m = package("foo");
    m.lib = Some(TomlTarget::new());
    let (manifest, _) = accepted(&m, &layout(&["lib.rs"], &[], false));
    assert_eq!(manifest.targets[0].name, "foo");
    assert_eq!(manifest.targets[0].src_path, "/work/pkg/src/lib.rs");
    let (manifest, _) = accepted(&m, &layout(&[], &[], false));
    assert_eq!(manifest.targets[0].src_path, "/work/pkg/src/foo.rs");
}

#[test]
fn shared_source_path_is_a_warning() {
    let mut m = package("foo");
    let mut a = named("a");
    a.path = Some("src/shared.rs".to_string());
    let mut b = named("b");
    b.path = Some("src/shared.rs".to_string());
    m.bin = Some(vec![a]);
    m.example = Some(vec![b]);
    let (manifest, _) = accepted(&m, &layout(&[], &[], false));
    assert_eq!(manifest.targets.len(), 2);
    assert_eq!(manifest.warnings.len(), 1);
    assert!(matches!(&manifest.warnings[0], Warning::DuplicateSourcePath { path } if path == "/work/pkg/src/shared.rs"));
    assert_eq!(
        manifest.warnings[0].message(),
        "file found to be present in multiple build targets: /work/pkg/src/shared.rs"
    );
}

fn windows_table(dep: TomlDependency) -> Vec<(String, TomlPlatform)> {
    let mut p = TomlPlatform::default();
    p.dependencies = Some(vec![("foo".to_string(), dep)]);
    vec![("cfg(windows)".to_string(), p)]
}

#[test]
fn one_name_two_directories_fails() {
    let mut m = package("pkg");
    m.dependencies = Some(vec![("foo".to_string(), path_dep("./a"))]);
    m.target = Some(windows_table(path_dep("./b")));
    let err = failure(&m, &layout(&["lib.rs"], &[], false));
    assert!(matches!(&err, ManifestError::ConflictingSources { dependency } if dependency == "foo"));
    assert!(err.message().starts_with("Dependency 'foo' has different source paths"));
}

#[test]
fn one_name_one_directory_in_two_spellings_succeeds() {
    let mut m = package("pkg");
    m.dependencies = Some(vec![("foo".to_string(), path_dep("./a"))]);
    m.target = Some(windows_table(path_dep("b/../a/")));
    let (manifest, paths) = accepted(&m, &layout(&["lib.rs"], &[], false));
    assert_eq!(manifest.dependencies.len(), 2);
    assert_eq!(manifest.dependencies[0].source_id, SourceId::Path("/work/pkg/a".to_string()));
    assert_eq!(manifest.dependencies[0].source_id, manifest.dependencies[1].source_id);
    assert!(manifest.dependencies[0].platform.is_none());
    assert!(matches!(&manifest.dependencies[1].platform, Some(Platform::Cfg(c)) if c == "windows"));
    assert_eq!(paths, names(&["./a", "b/../a/"]));
    assert!(check_sources(&manifest.dependencies).is_ok());
}

#[test]
fn tables_are_read_in_order_with_their_kinds() {
    let mut m = package("pkg");
    m.dependencies = Some(vec![("a".to_string(), TomlDependency::from_text("1"))]);
    m.dev_dependencies2 = Some(vec![("b".to_string(), TomlDependency::from_text("1"))]);
    m.build_dependencies = Some(vec![("c".to_string(), TomlDependency::from_text("1"))]);
    m.build_dependencies2 = Some(vec![("unused".to_string(), TomlDependency::from_text("1"))]);
    let mut p = TomlPlatform::default();
    p.dev_dependencies = Some(vec![("d".to_string(), TomlDependency::from_text("1"))]);
    p.build_dependencies2 = Some(vec![("e".to_string(), TomlDependency::from_text("1"))]);
    m.target = Some(vec![("x86_64-pc-windows-msvc".to_string(), p)]);
    let (manifest, _) = accepted(&m, &layout(&["lib.rs"], &[], false));
    let got: Vec<(&str, Kind, bool)> =
        manifest.dependencies.iter().map(|d| (d.name.as_str(), d.kind, d.platform.is_some())).collect();
    assert_eq!(
        got,
        vec![
            ("a", Kind::Normal, false),
            ("b", Kind::Development, false),
            ("c", Kind::Build, false),
            ("e", Kind::Build, true),
            ("d", Kind::Development, true),
        ]
    );
}

#[test]
fn malformed_platform_key_fails() {
    let mut m = package("pkg");
    m.target = Some(vec![("cfg(all(unix)".to_string(), TomlPlatform::default())]);
    let err = failure(&m, &layout(&["lib.rs"], &[], false));
    assert!(matches!(&err, ManifestError::InvalidPlatform { platform } if platform == "all(unix"));
    assert_eq!(err.message(), "failed to parse `all(unix` as a cfg expression");
}

#[test]
fn workspace_section_alone_is_a_virtual_manifest() {
    let mut m = TomlManifest::default();
    m.workspace = Some(TomlWorkspace { members: Some(names(&["a", "b"])), exclude: Some(names(&["c"])) });
    match to_manifest(&m, &names(&["stray"]), &local(), &layout(&[], &[], false)) {
        Ok((EitherManifest::Virtual(v), paths)) => {
            assert!(paths.is_empty());
            assert!(v.replace.is_empty());
            match v.workspace {
                WorkspaceConfig::Root { members, exclude } => {
                    assert_eq!(members, Some(names(&["a", "b"])));
                    assert_eq!(exclude, names(&["c"]));
                }
                other => panic!("unexpected {:?}", other),
            }
            assert_eq!(v.profiles.release.opt_level, "3");
        }
        other => panic!("unexpected {:?}", other),
    }
}

#[test]
fn virtual_manifest_must_not_declare_targets() {
    let mut m = TomlManifest::default();
    m.workspace = Some(TomlWorkspace::default());
    m.lib = Some(named("x"));
    let err = failure(&m, &layout(&[], &[], false));
    assert!(matches!(err, ManifestError::NoPackageSection));
    let err = m.to_virtual_manifest(&local(), &layout(&[], &[], false)).unwrap_err();
    assert!(matches!(err, ManifestError::VirtualDefines { section: Section::Lib }));
    assert_eq!(err.message(), "virtual manifests do not specifiy [lib]");
    let err = TomlManifest::default().to_virtual_manifest(&local(), &layout(&[], &[], false)).unwrap_err();
    assert!(matches!(err, ManifestError::VirtualWithoutWorkspace));
    let err = package("p").to_virtual_manifest(&local(), &layout(&[], &[], false)).unwrap_err();
    assert_eq!(err.message(), "virtual manifests do not define [package]");
}

#[test]
fn workspace_section_and_package_workspace_fail() {
    let mut m = package("foo");
    m.package.as_mut().unwrap().workspace = Some("..".to_string());
    m.workspace = Some(TomlWorkspace::default());
    let err = failure(&m, &layout(&["lib.rs"], &[], false));
    assert!(matches!(err, ManifestError::BothWorkspaces));
}

#[test]
fn package_is_root_or_member() {
    let mut m = package("foo");
    m.workspace = Some(TomlWorkspace { members: None, exclude: None });
    let (manifest, _) = accepted(&m, &layout(&["lib.rs"], &[], false));
    assert!(matches!(&manifest.workspace, WorkspaceConfig::Root { members: None, exclude } if exclude.is_empty()));
    let mut m = package("foo");
    m.package.as_mut().unwrap().workspace = Some("..".to_string());
    let (manifest, _) = accepted(&m, &layout(&["lib.rs"], &[], false));
    assert!(matches!(&manifest.workspace, WorkspaceConfig::Member { root: Some(r) } if r == ".."));
}

#[test]
fn replacement_with_version_requirement_fails() {
    let mut m = package("foo");
    m.replace = Some(vec![("bar:1.0.0".to_string(), TomlDependency::from_text("1.0.1"))]);
    let err = failure(&m, &layout(&["lib.rs"], &[], false));
    assert!(matches!(&err, ManifestError::ReplacementWithVersionReq { spec } if spec == "bar:1.0.0"));
    let mut d = DetailedTomlDependency::default();
    d.version = Some("1".to_string());
    d.path = Some("x".to_string());
    m.replace = Some(vec![("bar:1.0.0".to_string(), TomlDependency::from_table(d))]);
    assert!(matches!(failure(&m, &layout(&["lib.rs"], &[], false)), ManifestError::ReplacementWithVersionReq { .. }));
}

#[test]
fn replacement_without_version_to_replace_fails() {
    let mut m = package("foo");
    m.replace = Some(vec![("bar".to_string(), path_dep("../bar"))]);
    let err = failure(&m, &layout(&["lib.rs"], &[], false));
    assert!(matches!(&err, ManifestError::ReplacementWithoutVersion { spec } if spec == "bar"));
    assert_eq!(err.message(), "replacements must specify a version to replace, but `bar` does not");
    m.replace = Some(vec![("bar:one".to_string(), path_dep("../bar"))]);
    assert!(matches!(failure(&m, &layout(&["lib.rs"], &[], false)), ManifestError::InvalidReplacementSpec { .. }));
}

#[test]
fn replacement_is_pinned_to_the_exact_version() {
    let mut m = package("foo");
    m.replace = Some(vec![("bar:1.2.3".to_string(), path_dep("../bar"))]);
    let (manifest, paths) = accepted(&m, &layout(&["lib.rs"], &[], false));
    assert_eq!(manifest.replace.len(), 1);
    let (spec, dep) = &manifest.replace[0];
    assert_eq!(spec.name, "bar");
    assert_eq!(spec.url, Some("https://github.com/rust-lang/crates.io-index".to_string()));
    assert_eq!(dep.name, "bar");
    assert_eq!(dep.source_id, SourceId::Path("/work/bar".to_string()));
    assert!(matches!(&dep.req, VersionReq::Exact(v) if (v.major, v.minor, v.patch) == (1, 2, 3)));
    assert!(manifest.dependencies.is_empty());
    assert_eq!(paths, names(&["../bar"]));
}

#[test]
fn replacement_after_platform_tables_has_no_platform() {
    let mut m = package("foo");
    m.target = Some(windows_table(TomlDependency::from_text("1")));
    m.replace = Some(vec![("bar:1.2.3".to_string(), path_dep("../bar"))]);
    let (manifest, _) = accepted(&m, &layout(&["lib.rs"], &[], false));
    assert!(manifest.dependencies[0].platform.is_some());
    assert!(manifest.replace[0].1.platform.is_none());
}

#[test]
fn warnings_come_in_order() {
    let mut m = package("foo");
    {
        let p = m.package.as_mut().unwrap();
        p.license = Some("MIT".to_string());
        p.license_file = Some("LICENSE".to_string());
    }
    m.dependencies = Some(vec![("nothing".to_string(), TomlDependency::from_table(DetailedTomlDependency::default()))]);
    let unused = names(&["package.foo", "lib.bar"]);
    match to_manifest(&m, &unused, &local(), &layout(&["lib.rs"], &[], false)) {
        Ok((EitherManifest::Real(manifest), _)) => {
            let words: Vec<String> = manifest.warnings.iter().map(|w| w.message()).collect();
            assert_eq!(words.len(), 4);
            assert_eq!(words[0], "only one of `license` or `license-file` is necessary");
            assert!(words[1].starts_with("dependency (nothing) specified without providing"));
            assert_eq!(words[2], "unused manifest key: package.foo");
            assert_eq!(words[3], "unused manifest key: lib.bar");
        }
        other => panic!("unexpected {:?}", other),
    }
}

#[test]
fn metadata_and_lists_are_carried_over() {
    let mut m = package("foo");
    {
        let p = m.package.as_mut().unwrap();
        p.authors = Some(names(&["A", "B"]));
        p.exclude = Some(names(&["target"]));
        p.included = Some(names(&["src/**"]));
        p.links = Some("z".to_string());
        p.publish = Some(false);
        p.description = Some("d".to_string());
        p.keywords = Some(names(&["k"]));
    }
    m.features = Some(vec![("default".to_string(), names(&["x"]))]);
    m.badges = Some(vec![("ci".to_string(), vec![("repo".to_string(), "r".to_string())])]);
    let (manifest, _) = accepted(&m, &layout(&["lib.rs"], &[], false));
    assert_eq!(manifest.metadata.authors, names(&["A", "B"]));
    assert_eq!(manifest.metadata.description, Some("d".to_string()));
    assert_eq!(manifest.metadata.keywords, names(&["k"]));
    assert!(manifest.metadata.categories.is_empty());
    assert_eq!(manifest.metadata.badges, vec![("ci".to_string(), vec![("repo".to_string(), "r".to_string())])]);
    assert_eq!(manifest.exclude, names(&["target"]));
    assert_eq!(manifest.included, names(&["src/**"]));
    assert_eq!(manifest.links, Some("z".to_string()));
    assert!(!manifest.publish);
    assert_eq!(manifest.features, vec![("default".to_string(), names(&["x"]))]);
}

#[test]
fn test_profile_override_of_panic_is_dropped() {
    let mut m = package("foo");
    let mut t = TomlProfile::default();
    t.panic = Some("abort".to_string());
    let mut profiles = TomlProfiles::default();
    profiles.test = Some(t);
    m.profile = Some(profiles);
    let (manifest, _) = accepted(&m, &layout(&["lib.rs"], &[], false));
    assert_eq!(manifest.profiles.test.panic, None);
    assert!(manifest.profiles.test.test);
}

#[test]
fn failed_package_falls_back_to_its_own_error() {
    let mut m = package("foo");
    m.workspace = Some(TomlWorkspace::default());
    m.bin = Some(vec![TomlTarget::new()]);
    let err = failure(&m, &layout(&["lib.rs"], &[], false));
    assert!(matches!(err, ManifestError::MissingTargetName { section: Section::Bin }));
}

#[test]
fn tables_hold_each_key_once() {
    let mut m = package("pkg");
    assert!(m.has_distinct_keys());
    m.dependencies = Some(vec![
        ("a".to_string(), TomlDependency::from_text("1")),
        ("b".to_string(), TomlDependency::from_text("1")),
    ]);
    m.target = Some(windows_table(TomlDependency::from_text("1")));
    assert!(m.has_distinct_keys());
    m.target.as_mut().unwrap()[0].1.dev_dependencies = Some(vec![
        ("x".to_string(), TomlDependency::from_text("1")),
        ("x".to_string(), TomlDependency::from_text("2")),
    ]);
    assert!(!m.has_distinct_keys());
    m.target = None;
    m.dependencies.as_mut().unwrap().push(("a".to_string(), TomlDependency::from_text("2")));
    assert!(!m.has_distinct_keys());
}

#[test]
fn missing_targets_are_reported_before_dependencies() {
    let mut m = package("foo");
    m.dependencies = Some(vec![("bad".to_string(), TomlDependency::from_text("not a requirement"))]);
    assert!(matches!(failure(&m, &layout(&[], &[], true)), ManifestError::NoTargets));
    assert!(matches!(
        failure(&m, &layout(&["lib.rs"], &[], false)),
        ManifestError::InvalidVersionReq { .. }
    ));
}

#[test]
fn conflicting_sources_are_reported_before_replacements() {
    let mut m = package("pkg");
    m.dependencies = Some(vec![("foo".to_string(), path_dep("./a"))]);
    m.target = Some(windows_table(path_dep("./b")));
    m.replace = Some(vec![("bar".to_string(), path_dep("../bar"))]);
    assert!(matches!(
        failure(&m, &layout(&["lib.rs"], &[], false)),
        ManifestError::ConflictingSources { .. }
    ));
}

#[test]
fn real_manifest_reports_missing_targets_itself() {
    let err = package("foo").to_real_manifest(&local(), &layout(&[], &[], false)).unwrap_err();
    assert!(matches!(err, ManifestError::NoTargets));
    let id = project("foo").to_package_id(&local()).unwrap();
    assert_eq!(id.name, "foo");
    assert_eq!(id.source_id, local());
    assert_eq!((id.version.major, id.version.minor, id.version.patch), (0, 1, 0));
}
