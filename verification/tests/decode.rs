use pkg_manifest::cfg::str_is_cfg_expr;
use pkg_manifest::dependency::{Platform, TomlDependency};
use pkg_manifest::document::StringOrBool;
use pkg_manifest::error::ManifestError;
use pkg_manifest::package_id::PackageIdSpec;
use pkg_manifest::profile::{TomlOptLevel, U32OrBool};
use pkg_manifest::syntax::{parse, unused_key};
use pkg_manifest::text::i64_to_string;
use pkg_manifest::version::{Identifier, ReqParse, TomlVersion, Version, VersionReq};

#[test]
fn decimal_notation() {
    assert_eq!(i64_to_string(0), "0");
    assert_eq!(i64_to_string(7), "7");
    assert_eq!(i64_to_string(1203), "1203");
    assert_eq!(i64_to_string(-45), "-45");
    assert_eq!(i64_to_string(i64::MIN), "-9223372036854775808");
    assert_eq!(i64_to_string(i64::MAX), "9223372036854775807");
}

#[test]
fn opt_level_from_integer_is_its_decimal() {
    assert_eq!(TomlOptLevel::from_integer(3).0, "3");
    assert_eq!(TomlOptLevel::from_integer(-1).0, "-1");
}

#[test]
fn opt_level_from_text_takes_s_and_z_only() {
    assert_eq!(TomlOptLevel::from_text("s").unwrap().0, "s");
    assert_eq!(TomlOptLevel::from_text("z").unwrap().0, "z");
    match TomlOptLevel::from_text("fast") {
        Err(ManifestError::InvalidOptLevel { level }) => assert_eq!(level, "fast"),
        other => panic!("unexpected {:?}", other),
    }
    assert!(TomlOptLevel::from_text("3").is_err());
}

#[test]
fn debug_level_keeps_low_bits() {
    assert_eq!(U32OrBool::from_i64(2), U32OrBool::U32(2));
    assert_eq!(U32OrBool::from_i64(-1), U32OrBool::U32(u32::MAX));
    assert_eq!(U32OrBool::from_u64(1 << 32), U32OrBool::U32(0));
    assert_eq!(U32OrBool::from_u64((1 << 32) + 5), U32OrBool::U32(5));
    assert_eq!(U32OrBool::from_bool(true), U32OrBool::Bool(true));
}

#[test]
fn build_key_is_string_or_bool() {
    assert!(matches!(StringOrBool::from_text("build/main.rs"), StringOrBool::String(s) if s == "build/main.rs"));
    assert!(matches!(StringOrBool::from_bool(false), StringOrBool::Bool(false)));
}

#[test]
fn dependency_from_text_is_simple() {
    assert!(matches!(TomlDependency::from_text("0.9.8"), TomlDependency::Simple(v) if v == "0.9.8"));
    let details = TomlDependency::from_text("0.9.8").details();
    assert_eq!(details.version, Some("0.9.8".to_string()));
    assert_eq!(details.path, None);
    assert_eq!(details.git, None);
    assert_eq!(details.features, None);
}

#[test]
fn version_parses_all_parts() {
    let v = Version::parse("1.2.3-alpha1.7+build5").unwrap();
    assert_eq!((v.major, v.minor, v.patch), (1, 2, 3));
    assert_eq!(v.pre.len(), 2);
    assert!(matches!(&v.pre[0], Identifier::AlphaNumeric(s) if s == "alpha1"));
    assert!(matches!(&v.pre[1], Identifier::Numeric(7)));
    assert_eq!(v.build.len(), 1);
    assert!(matches!(&v.build[0], Identifier::AlphaNumeric(s) if s == "build5"));
}

#[test]
fn version_rejects_what_is_no_version() {
    assert!(Version::parse("1.2").is_none());
    assert!(Version::parse("").is_none());
    assert!(Version::parse("a.b.c").is_none());
    match TomlVersion::from_text("1.2") {
        Err(ManifestError::InvalidVersion { version }) => assert_eq!(version, "1.2"),
        other => panic!("unexpected {:?}", other),
    }
    assert_eq!(TomlVersion::from_text("0.1.0").unwrap().version.minor, 1);
}

#[test]
fn requirement_is_valid_deprecated_or_invalid() {
    assert!(matches!(VersionReq::parse("1.2.3"), ReqParse::Valid(s) if s == "^1.2.3"));
    assert!(matches!(VersionReq::parse(">= 1.0, < 2.0"), ReqParse::Valid(_)));
    assert!(matches!(VersionReq::parse("*"), ReqParse::Valid(s) if s == "*"));
    assert!(matches!(VersionReq::parse("0.2*"), ReqParse::Deprecated(s) if s == "0.2.*"));
    assert!(matches!(VersionReq::parse(".*"), ReqParse::Deprecated(s) if s == "*"));
    assert!(matches!(VersionReq::parse("not a requirement"), ReqParse::Invalid));
}

#[test]
fn cfg_expressions_are_recognized() {
    for ok in [
        "unix",
        "windows",
        "target_os = \"linux\"",
        "not(unix)",
        "all()",
        "any(unix, windows)",
        "all(unix, target_pointer_width = \"32\",)",
        "any(not(unix), all(a, b = \"c\"))",
        "  all( unix ,windows )  ",
        "feature = \"\"",
    ] {
        assert!(str_is_cfg_expr(ok), "{}", ok);
    }
    for bad in [
        "",
        "(",
        "all",
        "all(",
        "all(unix",
        "not()",
        "not(a, b)",
        "unix windows",
        "a = b",
        "a = \"b",
        "a.b",
        "all(,)",
        "all(a,,b)",
        "= \"x\"",
        "unix)",
        "\u{e9}",
    ] {
        assert!(!str_is_cfg_expr(bad), "{}", bad);
    }
}

#[test]
fn platform_is_name_or_cfg() {
    assert!(matches!(Platform::from_str("x86_64-unknown-linux-gnu"), Ok(Platform::Name(s)) if s == "x86_64-unknown-linux-gnu"));
    assert!(matches!(Platform::from_str("cfg(windows)"), Ok(Platform::Cfg(s)) if s == "windows"));
    assert!(matches!(Platform::from_str("cfg(any(unix, windows))"), Ok(Platform::Cfg(s)) if s == "any(unix, windows)"));
    assert!(matches!(Platform::from_str("cfg("), Ok(Platform::Name(s)) if s == "cfg("));
    match Platform::from_str("cfg(not a cfg)") {
        Err(ManifestError::InvalidPlatform { platform }) => assert_eq!(platform, "not a cfg"),
        other => panic!("unexpected {:?}", other),
    }
    assert!(Platform::from_str("cfg()").is_err());
}

#[test]
fn package_spec_plain_forms() {
    let s = PackageIdSpec::parse("foo").unwrap();
    assert_eq!(s.name, "foo");
    assert!(s.version.is_none());
    assert!(s.url.is_none());
    let s = PackageIdSpec::parse("foo:1.2.3").unwrap();
    assert_eq!(s.name, "foo");
    assert_eq!(s.version.as_ref().map(|v| (v.major, v.minor, v.patch)), Some((1, 2, 3)));
    assert!(s.url.is_none());
    assert!(PackageIdSpec::parse("foo:1.2").is_none());
    assert!(PackageIdSpec::parse("foo bar").is_none());
    assert!(PackageIdSpec::parse("foo_bar-baz").is_some());
}

#[test]
fn package_spec_url_forms() {
    let s = PackageIdSpec::parse("https://github.com/rust-lang/crates.io-index#foo:1.2.3").unwrap();
    assert_eq!(s.name, "foo");
    assert_eq!(s.version.as_ref().map(|v| v.patch), Some(3));
    assert_eq!(s.url, Some("https://github.com/rust-lang/crates.io-index".to_string()));
    let s = PackageIdSpec::parse("https://example.com/repo/bar#1.0.0").unwrap();
    assert_eq!(s.name, "bar");
    assert_eq!(s.version.as_ref().map(|v| v.major), Some(1));
    let s = PackageIdSpec::parse("https://example.com/repo/bar").unwrap();
    assert_eq!(s.name, "bar");
    assert!(s.version.is_none());
    assert_eq!(s.url, Some("https://example.com/repo/bar".to_string()));
    let s = PackageIdSpec::parse("example.com/repo/bar#baz").unwrap();
    assert_eq!(s.name, "baz");
    assert_eq!(s.url, Some("cargo://example.com/repo/bar".to_string()));
    assert!(PackageIdSpec::parse("https://example.com/repo/bar?x=1").is_none());
    assert!(PackageIdSpec::parse("https://example.com/repo/bar#").is_none());
}

#[test]
fn toml_text_parses_strictly_or_leniently() {
    let (value, warning) = parse("[package]\nname = \"foo\"\n", "Cargo.toml").unwrap();
    assert!(warning.is_none());
    assert_eq!(value["package"]["name"].as_str(), Some("foo"));

    let (value, warning) = parse("[a] b = 1\n", "dir/Cargo.toml").unwrap();
    assert_eq!(value["a"]["b"].as_integer(), Some(1));
    let words = warning.unwrap().message();
    assert!(words.contains("at `dir/Cargo.toml`."));
    assert!(words.starts_with("TOML file found which contains invalid syntax"));

    match parse("[a\nb = ", "Cargo.toml") {
        Err(ManifestError::InvalidToml { reason }) => assert!(!reason.is_empty()),
        other => panic!("unexpected {:?}", other.map(|_| ())),
    }
}

#[test]
fn unused_keys_are_dotted() {
    let seg = |l: &[&str]| l.iter().map(|s| s.to_string()).collect::<Vec<_>>();
    assert_eq!(unused_key(&seg(&["package", "foo"])), Some("package.foo".to_string()));
    assert_eq!(unused_key(&seg(&["bin", "0", "bar"])), Some("bin.0.bar".to_string()));
    assert_eq!(unused_key(&seg(&[])), Some(String::new()));
    assert_eq!(unused_key(&seg(&["", "x"])), Some("x".to_string()));
    assert_eq!(unused_key(&seg(&["package", "metadata"])), None);
    assert_eq!(unused_key(&seg(&["package", "metadata", "docs", "x"])), None);
    assert_eq!(unused_key(&seg(&["package", "metadata2"])), None);
    assert_eq!(unused_key(&seg(&["package", "meta"])), Some("package.meta".to_string()));
}

#[test]
fn cfg_expressions_nest_up_to_a_depth() {
    let nested = |n: usize| format!("{}unix{}", "not(".repeat(n), ")".repeat(n));
    assert!(str_is_cfg_expr(&nested(1)));
    assert!(str_is_cfg_expr(&nested(64)));
    assert!(!str_is_cfg_expr(&nested(65)));
    assert!(!str_is_cfg_expr(&nested(200_000)));
    let mixed = format!("{}a{}", "all(any(".repeat(32), "))".repeat(32));
    assert!(str_is_cfg_expr(&mixed));
    let wide = format!("all({})", vec!["a"; 200_000].join(", "));
    assert!(str_is_cfg_expr(&wide));
}
