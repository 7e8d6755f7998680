use pkg_manifest::dependency::{
    git_source, requirement_from, Context, DetailedTomlDependency, Kind, Platform, TomlDependency,
};
use pkg_manifest::error::{GitKey, ManifestError, Warning};
use pkg_manifest::layout::{DirListing, Layout};
use pkg_manifest::source::{to_url, GitReference, SourceId};
use pkg_manifest::version::{ReqParse, VersionReq};

fn layout(root: &str) -> Layout {
    Layout::from_project_path(
        root,
        &DirListing { src: vec![], src_bin: vec![], examples: vec![], tests: vec![], benches: vec![], build_script: false },
    )
}

fn detailed(f: impl FnOnce(&mut DetailedTomlDependency)) -> TomlDependency {
    let mut d = DetailedTomlDependency::default();
    f(&mut d);
    TomlDependency::from_table(d)
}

fn local() -> SourceId {
    SourceId::Path("/work/pkg".to_string())
}

#[test]
fn bare_version_is_a_registry_dependency() {
    let (src, l) = (local(), layout("/work/pkg"));
    let mut cx = Context::new(true, &src, &l);
    let dep = TomlDependency::from_text("1.2").to_dependency("foo", &mut cx, None).unwrap();
    assert_eq!(dep.name, "foo");
    assert_eq!(dep.source_id, SourceId::Registry("https://github.com/rust-lang/crates.io-index".to_string()));
    assert!(matches!(&dep.req, VersionReq::Range(r) if r == "^1.2"));
    assert_eq!(dep.kind, Kind::Normal);
    assert!(dep.default_features && !dep.optional);
    assert!(dep.features.is_empty());
    assert!(dep.platform.is_none());
    assert!(cx.warnings.is_empty() && cx.nested_paths.is_empty() && cx.deps.is_empty());
}

#[test]
fn detailed_flags_are_taken_over() {
    let (src, l) = (local(), layout("/work/pkg"));
    let mut cx = Context::new(true, &src, &l);
    cx.platform = Some(Platform::from_str("cfg(unix)").unwrap());
    let decl = detailed(|d| {
        d.version = Some("0.3".to_string());
        d.features = Some(vec!["a".to_string(), "b".to_string()]);
        d.optional = Some(true);
        d.default_features2 = Some(false);
    });
    let dep = decl.to_dependency("bar", &mut cx, Some(Kind::Build)).unwrap();
    assert_eq!(dep.kind, Kind::Build);
    assert!(dep.optional && !dep.default_features);
    assert_eq!(dep.features, vec!["a".to_string(), "b".to_string()]);
    assert!(matches!(&dep.platform, Some(Platform::Cfg(c)) if c == "unix"));
}

#[test]
fn default_features_prefers_the_hyphen_spelling() {
    let (src, l) = (local(), layout("/work/pkg"));
    let mut cx = Context::new(true, &src, &l);
    let decl = detailed(|d| {
        d.version = Some("1".to_string());
        d.default_features = Some(true);
        d.default_features2 = Some(false);
    });
    assert!(decl.to_dependency("bar", &mut cx, None).unwrap().default_features);
}

#[test]
fn path_dependency_is_normalized_from_the_package_root() {
    let (src, l) = (local(), layout("/work/pkg"));
    let mut cx = Context::new(true, &src, &l);
    let a = detailed(|d| d.path = Some("../lib".to_string())).to_dependency("lib", &mut cx, None).unwrap();
    let b = detailed(|d| d.path = Some("/work/lib".to_string())).to_dependency("lib", &mut cx, None).unwrap();
    let c = detailed(|d| d.path = Some("./sub/../../lib/.".to_string())).to_dependency("lib", &mut cx, None).unwrap();
    assert_eq!(a.source_id, SourceId::Path("/work/lib".to_string()));
    assert_eq!(a.source_id, b.source_id);
    assert_eq!(a.source_id, c.source_id);
    assert!(matches!(a.req, VersionReq::Any));
    assert_eq!(cx.nested_paths, vec!["../lib".to_string(), "/work/lib".to_string(), "./sub/../../lib/.".to_string()]);
    assert!(cx.warnings.is_empty());
}

#[test]
fn path_dependency_of_a_remote_package_inherits_its_source() {
    let src = SourceId::Git { url: "https://example.com/repo".to_string(), reference: GitReference::Tag("v1".to_string()) };
    let l = layout("/checkout");
    let mut cx = Context::new(true, &src, &l);
    let dep = detailed(|d| d.path = Some("sub".to_string())).to_dependency("sub", &mut cx, None).unwrap();
    assert_eq!(dep.source_id, src);
    assert_eq!(cx.nested_paths, vec!["sub".to_string()]);
}

#[test]
fn relative_root_gives_no_path_source() {
    let (src, l) = (SourceId::Path("pkg".to_string()), layout("pkg"));
    let mut cx = Context::new(true, &src, &l);
    match detailed(|d| d.path = Some("../lib".to_string())).to_dependency("lib", &mut cx, None) {
        Err(ManifestError::RelativePath { dependency, path }) => {
            assert_eq!(dependency, "lib");
            assert_eq!(path, "../lib");
        }
        other => panic!("unexpected {:?}", other),
    }
}

#[test]
fn git_dependency_takes_first_reference() {
    let (src, l) = (local(), layout("/work/pkg"));
    let mut cx = Context::new(true, &src, &l);
    let decl = detailed(|d| {
        d.git = Some("HTTPS://Example.com/repo".to_string());
        d.tag = Some("v1".to_string());
        d.rev = Some("abc".to_string());
        d.path = Some("ignored".to_string());
    });
    let dep = decl.to_dependency("g", &mut cx, None).unwrap();
    assert_eq!(
        dep.source_id,
        SourceId::Git { url: "https://example.com/repo".to_string(), reference: GitReference::Tag("v1".to_string()) }
    );
    assert!(cx.nested_paths.is_empty());
    assert_eq!(cx.warnings.len(), 2);
    assert!(matches!(&cx.warnings[0], Warning::GitAndPath { dependency } if dependency == "g"));
    assert!(matches!(&cx.warnings[1], Warning::SeveralGitReferences { dependency } if dependency == "g"));
}

#[test]
fn git_dependency_defaults_to_master() {
    let (src, l) = (local(), layout("/work/pkg"));
    let mut cx = Context::new(true, &src, &l);
    let dep = detailed(|d| d.git = Some("https://example.com/repo".to_string())).to_dependency("g", &mut cx, None).unwrap();
    assert!(matches!(&dep.source_id, SourceId::Git { reference: GitReference::Branch(b), .. } if b == "master"));
    let dep = detailed(|d| {
        d.git = Some("https://example.com/repo".to_string());
        d.branch = Some("dev".to_string());
        d.rev = Some("abc".to_string());
    })
    .to_dependency("g", &mut cx, None)
    .unwrap();
    assert!(matches!(&dep.source_id, SourceId::Git { reference: GitReference::Branch(b), .. } if b == "dev"));
}

#[test]
fn malformed_git_url_fails() {
    let (src, l) = (local(), layout("/work/pkg"));
    let mut cx = Context::new(true, &src, &l);
    match detailed(|d| d.git = Some("not a url".to_string())).to_dependency("g", &mut cx, None) {
        Err(e) => {
            assert!(matches!(&e, ManifestError::InvalidGitUrl { dependency, url } if dependency == "g" && url == "not a url"));
            assert_eq!(e.message(), "invalid url `not a url` for dependency (g)");
        }
        Ok(d) => panic!("unexpected {:?}", d),
    }
}

#[test]
fn malformed_requirement_fails() {
    let (src, l) = (local(), layout("/work/pkg"));
    let mut cx = Context::new(true, &src, &l);
    match TomlDependency::from_text("one point two").to_dependency("foo", &mut cx, None) {
        Err(ManifestError::InvalidVersionReq { dependency, requirement }) => {
            assert_eq!(dependency, "foo");
            assert_eq!(requirement, "one point two");
        }
        other => panic!("unexpected {:?}", other),
    }
}

#[test]
fn deprecated_requirement_warns_in_a_package_only() {
    let (src, l) = (local(), layout("/work/pkg"));
    let mut cx = Context::new(true, &src, &l);
    let dep = TomlDependency::from_text("0.2*").to_dependency("foo", &mut cx, None).unwrap();
    assert!(matches!(&dep.req, VersionReq::Range(r) if r == "0.2.*"));
    assert_eq!(cx.warnings.len(), 1);
    assert!(matches!(&cx.warnings[0], Warning::DeprecatedVersionReq { dependency, requirement } if dependency == "foo" && requirement == "0.2*"));

    let mut cx = Context::new(false, &src, &l);
    assert!(matches!(
        TomlDependency::from_text("0.2*").to_dependency("foo", &mut cx, None),
        Err(ManifestError::InvalidVersionReq { .. })
    ));
    assert!(cx.warnings.is_empty());
}

#[test]
fn dependency_without_source_and_stray_git_keys_warn() {
    let (src, l) = (local(), layout("/work/pkg"));
    let mut cx = Context::new(true, &src, &l);
    let decl = detailed(|d| {
        d.branch = Some("b".to_string());
        d.rev = Some("r".to_string());
    });
    let dep = decl.to_dependency("foo", &mut cx, Some(Kind::Development)).unwrap();
    assert_eq!(dep.kind, Kind::Development);
    assert!(matches!(dep.source_id, SourceId::Registry(_)));
    assert_eq!(cx.warnings.len(), 3);
    assert!(matches!(&cx.warnings[0], Warning::DependencyWithoutSource { dependency } if dependency == "foo"));
    assert!(matches!(&cx.warnings[1], Warning::IgnoredGitKey { key: GitKey::Branch, dependency } if dependency == "foo"));
    assert!(matches!(&cx.warnings[2], Warning::IgnoredGitKey { key: GitKey::Rev, .. }));
    assert_eq!(
        cx.warnings[1].message(),
        "key `branch` is ignored for dependency (foo). This will be considered an error in future versions"
    );
}

#[test]
fn git_source_from_parser_outcome() {
    let ok = git_source("g", "x", to_url("https://example.com/a b"), GitReference::Rev("r".to_string())).unwrap();
    assert_eq!(ok, SourceId::Git { url: "https://example.com/a%20b".to_string(), reference: GitReference::Rev("r".to_string()) });
    assert!(matches!(
        git_source("g", "x", None, GitReference::Rev("r".to_string())),
        Err(ManifestError::InvalidGitUrl { dependency, url }) if dependency == "g" && url == "x"
    ));
}

#[test]
fn requirement_from_parser_outcome() {
    let (req, w) = requirement_from("foo", "1", ReqParse::Valid("^1".to_string()), false).unwrap();
    assert!(matches!(req, VersionReq::Range(r) if r == "^1"));
    assert!(w.is_empty());
    let (req, w) = requirement_from("foo", "0.2*", ReqParse::Deprecated("0.2.*".to_string()), true).unwrap();
    assert!(matches!(req, VersionReq::Range(r) if r == "0.2.*"));
    assert_eq!(w.len(), 1);
    assert!(requirement_from("foo", "0.2*", ReqParse::Deprecated("0.2.*".to_string()), false).is_err());
    assert!(requirement_from("foo", "x", ReqParse::Invalid, true).is_err());
}
