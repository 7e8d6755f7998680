use pkg_manifest::profile::{
    build_profiles, merge, Profile, TomlOptLevel, TomlProfile, TomlProfiles, U32OrBool,
};

#[test]
fn default_profiles() {
    let p = build_profiles(&None);
    assert_eq!(p.dev.opt_level, "0");
    assert_eq!(p.dev.debuginfo, Some(2));
    assert!(p.dev.debug_assertions && p.dev.overflow_checks && !p.dev.lto && !p.dev.rpath);
    assert_eq!(p.release.opt_level, "3");
    assert_eq!(p.release.debuginfo, None);
    assert!(!p.release.debug_assertions);
    assert!(p.test.test && !p.test.doc);
    assert!(p.bench.test);
    assert_eq!(p.bench.opt_level, "3");
    assert!(p.doc.doc && !p.doc.test);
    assert!(p.custom_build.run_custom_build);
    assert!(p.check.check);
    assert!(p.doctest.doc && p.doctest.test);
    assert!(!p.test_deps.test && !p.bench_deps.test);
    assert_eq!(p.bench_deps.opt_level, "3");
    assert_eq!(p.dev.codegen_units, None);
    assert_eq!(p.dev.panic, None);
}

#[test]
fn overrides_apply_field_by_field() {
    let toml = TomlProfile {
        opt_level: Some(TomlOptLevel::from_integer(2)),
        lto: Some(true),
        codegen_units: Some(4),
        debug: Some(U32OrBool::Bool(false)),
        debug_assertions: None,
        rpath: Some(true),
        panic: Some("abort".to_string()),
        overflow_checks: Some(false),
    };
    let p = merge(Profile::default_dev(), &Some(toml));
    assert_eq!(p.opt_level, "2");
    assert!(p.lto && p.rpath);
    assert_eq!(p.codegen_units, Some(4));
    assert_eq!(p.debuginfo, None);
    assert!(p.debug_assertions);
    assert!(!p.overflow_checks);
    assert_eq!(p.panic, Some("abort".to_string()));
    assert!(!p.test && !p.doc && !p.check && !p.run_custom_build);
}

#[test]
fn debug_true_means_level_two() {
    let mut toml = TomlProfile::default();
    toml.debug = Some(U32OrBool::Bool(true));
    assert_eq!(merge(Profile::default_release(), &Some(toml)).debuginfo, Some(2));
    let mut toml = TomlProfile::default();
    toml.debug = Some(U32OrBool::U32(1));
    assert_eq!(merge(Profile::default_dev(), &Some(toml)).debuginfo, Some(1));
    assert_eq!(merge(Profile::default_dev(), &None).debuginfo, Some(2));
}

#[test]
fn test_profile_panic_is_forced_to_unwind() {
    let abort = || {
        let mut t = TomlProfile::default();
        t.panic = Some("abort".to_string());
        Some(t)
    };
    let profiles = TomlProfiles { test: abort(), doc: abort(), bench: abort(), dev: abort(), release: abort() };
    let p = build_profiles(&Some(profiles));
    assert_eq!(p.test.panic, None);
    assert_eq!(p.bench.panic, None);
    assert_eq!(p.test_deps.panic, None);
    assert_eq!(p.bench_deps.panic, None);
    assert_eq!(p.dev.panic, Some("abort".to_string()));
    assert_eq!(p.release.panic, Some("abort".to_string()));
    assert_eq!(p.doc.panic, Some("abort".to_string()));
    assert_eq!(p.check.panic, Some("abort".to_string()));
    assert_eq!(p.custom_build.panic, None);
    assert_eq!(p.doctest.panic, None);
}

#[test]
fn dev_overrides_reach_check_and_test_deps() {
    let mut dev = TomlProfile::default();
    dev.opt_level = Some(TomlOptLevel::from_text("s").unwrap());
    let mut profiles = TomlProfiles::default();
    profiles.dev = Some(dev);
    let p = build_profiles(&Some(profiles));
    assert_eq!(p.dev.opt_level, "s");
    assert_eq!(p.check.opt_level, "s");
    assert_eq!(p.test_deps.opt_level, "s");
    assert_eq!(p.test.opt_level, "0");
    assert!(p.check.check);
}
