//! Build profiles: the fixed defaults and what a manifest overrides.

use crate::error::{ManifestError, ManifestErrorView};
use crate::text::{clone_opt_text, decimal, i64_to_string, text_eq};
use vstd::prelude::*;
use vstd::string::*;

verus! {

/// An optimization level as written: an integer or one of `s` and `z`.
#[derive(Debug)]
pub struct TomlOptLevel(pub String);

impl View for TomlOptLevel {
    type V = Seq<char>;

    open spec fn view(&self) -> Seq<char> {
        self.0@
    }
}

impl DeepView for TomlOptLevel {
    type V = Seq<char>;

    open spec fn deep_view(&self) -> Seq<char> {
        self@
    }
}

impl TomlOptLevel {
    /// The level given as an integer, written in decimal.
    pub fn from_integer(value: i64) -> (r: TomlOptLevel)
        ensures
            r@ == decimal(value as int),
    {
        TomlOptLevel(i64_to_string(value))
    }

    /// The level given as a string: `s` and `z` are levels, nothing else is.
    pub fn from_text(value: &str) -> (r: Result<TomlOptLevel, ManifestError>)
        ensures
            match r {
                Ok(level) => level@ == value@ && (value@ == "s"@ || value@ == "z"@),
                Err(e) => e@ == (ManifestErrorView::InvalidOptLevel { level: value@ }) && value@
                    != "s"@ && value@ != "z"@,
            },
    {
        if text_eq(value, "s") || text_eq(value, "z") {
            Ok(TomlOptLevel(String::from_str(value)))
        } else {
            Err(ManifestError::InvalidOptLevel { level: String::from_str(value) })
        }
    }
}

/// A debug level as written: a number, or a boolean.
#[derive(Clone, Copy, Debug, PartialEq, Eq, Structural)]
pub enum U32OrBool {
    U32(u32),
    Bool(bool),
}

impl U32OrBool {
    /// A signed integer as a level: its low 32 bits.
    pub fn from_i64(u: i64) -> (r: U32OrBool)
        ensures
            r == U32OrBool::U32(u as u32),
    {
        U32OrBool::U32(
            #[verifier::truncate]
            (u as u32),
        )
    }

    /// An unsigned integer as a level: its low 32 bits.
    pub fn from_u64(u: u64) -> (r: U32OrBool)
        ensures
            r == U32OrBool::U32(u as u32),
    {
        U32OrBool::U32(
            #[verifier::truncate]
            (u as u32),
        )
    }

    /// A boolean as a level.
    pub fn from_bool(b: bool) -> (r: U32OrBool)
        ensures
            r == U32OrBool::Bool(b),
    {
        U32OrBool::Bool(b)
    }

    /// The debug level that is meant: the number, 2 for `true`, none for
    /// `false`.
    pub open spec fn level(self) -> Option<u32> {
        match self {
            U32OrBool::U32(n) => Some(n),
            U32OrBool::Bool(true) => Some(2),
            U32OrBool::Bool(false) => None,
        }
    }
}

/// One `[profile.*]` section, every key optional.
#[derive(Debug, Default)]
pub struct TomlProfile {
    pub opt_level: Option<TomlOptLevel>,
    pub lto: Option<bool>,
    pub codegen_units: Option<u32>,
    pub debug: Option<U32OrBool>,
    pub debug_assertions: Option<bool>,
    pub rpath: Option<bool>,
    pub panic: Option<String>,
    pub overflow_checks: Option<bool>,
}

/// The mathematical view of [`TomlProfile`].
pub struct TomlProfileView {
    pub opt_level: Option<Seq<char>>,
    pub lto: Option<bool>,
    pub codegen_units: Option<u32>,
    pub debug: Option<U32OrBool>,
    pub debug_assertions: Option<bool>,
    pub rpath: Option<bool>,
    pub panic: Option<Seq<char>>,
    pub overflow_checks: Option<bool>,
}

impl View for TomlProfile {
    type V = TomlProfileView;

    open spec fn view(&self) -> TomlProfileView {
        TomlProfileView {
            opt_level: self.opt_level.deep_view(),
            lto: self.lto,
            codegen_units: self.codegen_units,
            debug: self.debug,
            debug_assertions: self.debug_assertions,
            rpath: self.rpath,
            panic: self.panic.deep_view(),
            overflow_checks: self.overflow_checks,
        }
    }
}

impl DeepView for TomlProfile {
    type V = TomlProfileView;

    open spec fn deep_view(&self) -> TomlProfileView {
        self@
    }
}

/// The `[profile]` table.
#[derive(Debug, Default)]
pub struct TomlProfiles {
    pub test: Option<TomlProfile>,
    pub doc: Option<TomlProfile>,
    pub bench: Option<TomlProfile>,
    pub dev: Option<TomlProfile>,
    pub release: Option<TomlProfile>,
}

/// The mathematical view of [`TomlProfiles`].
pub struct TomlProfilesView {
    pub test: Option<TomlProfileView>,
    pub doc: Option<TomlProfileView>,
    pub bench: Option<TomlProfileView>,
    pub dev: Option<TomlProfileView>,
    pub release: Option<TomlProfileView>,
}

impl TomlProfilesView {
    /// The table without any section.
    pub open spec fn empty() -> TomlProfilesView {
        TomlProfilesView { test: None, doc: None, bench: None, dev: None, release: None }
    }
}

impl View for TomlProfiles {
    type V = TomlProfilesView;

    open spec fn view(&self) -> TomlProfilesView {
        TomlProfilesView {
            test: self.test.deep_view(),
            doc: self.doc.deep_view(),
            bench: self.bench.deep_view(),
            dev: self.dev.deep_view(),
            release: self.release.deep_view(),
        }
    }
}

impl DeepView for TomlProfiles {
    type V = TomlProfilesView;

    open spec fn deep_view(&self) -> TomlProfilesView {
        self@
    }
}

/// The settings of one build mode.
#[derive(Debug)]
pub struct Profile {
    pub opt_level: String,
    pub lto: bool,
    pub codegen_units: Option<u32>,
    pub rustc_args: Option<Vec<String>>,
    pub rustdoc_args: Option<Vec<String>>,
    pub debuginfo: Option<u32>,
    pub debug_assertions: bool,
    pub overflow_checks: bool,
    pub rpath: bool,
    pub test: bool,
    pub doc: bool,
    pub run_custom_build: bool,
    pub check: bool,
    /// The panic strategy; none means unwinding.
    pub panic: Option<String>,
}

/// The mathematical view of [`Profile`].
pub struct ProfileView {
    pub opt_level: Seq<char>,
    pub lto: bool,
    pub codegen_units: Option<u32>,
    pub rustc_args: Option<Seq<Seq<char>>>,
    pub rustdoc_args: Option<Seq<Seq<char>>>,
    pub debuginfo: Option<u32>,
    pub debug_assertions: bool,
    pub overflow_checks: bool,
    pub rpath: bool,
    pub test: bool,
    pub doc: bool,
    pub run_custom_build: bool,
    pub check: bool,
    pub panic: Option<Seq<char>>,
}

impl View for Profile {
    type V = ProfileView;

    open spec fn view(&self) -> ProfileView {
        ProfileView {
            opt_level: self.opt_level@,
            lto: self.lto,
            codegen_units: self.codegen_units,
            rustc_args: self.rustc_args.deep_view(),
            rustdoc_args: self.rustdoc_args.deep_view(),
            debuginfo: self.debuginfo,
            debug_assertions: self.debug_assertions,
            overflow_checks: self.overflow_checks,
            rpath: self.rpath,
            test: self.test,
            doc: self.doc,
            run_custom_build: self.run_custom_build,
            check: self.check,
            panic: self.panic.deep_view(),
        }
    }
}

impl ProfileView {
    /// What all default profiles start from.
    pub open spec fn base() -> ProfileView {
        ProfileView {
            opt_level: "0"@,
            lto: false,
            codegen_units: None,
            rustc_args: None,
            rustdoc_args: None,
            debuginfo: None,
            debug_assertions: false,
            overflow_checks: false,
            rpath: false,
            test: false,
            doc: false,
            run_custom_build: false,
            check: false,
            panic: None,
        }
    }

    /// The default for development builds: debug information and checks on.
    pub open spec fn default_dev() -> ProfileView {
        ProfileView {
            debuginfo: Some(2),
            debug_assertions: true,
            overflow_checks: true,
            ..ProfileView::base()
        }
    }

    /// The default for release builds: optimized.
    pub open spec fn default_release() -> ProfileView {
        ProfileView { opt_level: "3"@, ..ProfileView::base() }
    }

    /// The default for tests.
    pub open spec fn default_test() -> ProfileView {
        ProfileView { test: true, ..ProfileView::default_dev() }
    }

    /// The default for benchmarks.
    pub open spec fn default_bench() -> ProfileView {
        ProfileView { test: true, ..ProfileView::default_release() }
    }

    /// The default for documentation.
    pub open spec fn default_doc() -> ProfileView {
        ProfileView { doc: true, ..ProfileView::default_dev() }
    }

    /// The profile of build scripts.
    pub open spec fn default_custom_build() -> ProfileView {
        ProfileView { run_custom_build: true, ..ProfileView::default_dev() }
    }

    /// The default for checking without building.
    pub open spec fn default_check() -> ProfileView {
        ProfileView { check: true, ..ProfileView::default_dev() }
    }

    /// The profile of documentation tests.
    pub open spec fn default_doctest() -> ProfileView {
        ProfileView { doc: true, test: true, ..ProfileView::default_dev() }
    }

    /// The profile with unwinding as its panic strategy.
    pub open spec fn unwinding(self) -> ProfileView {
        ProfileView { panic: None, ..self }
    }
}

impl Profile {
    fn base() -> (r: Profile)
        ensures
            r@ == ProfileView::base(),
    {
        Profile {
            opt_level: String::from_str("0"),
            lto: false,
            codegen_units: None,
            rustc_args: None,
            rustdoc_args: None,
            debuginfo: None,
            debug_assertions: false,
            overflow_checks: false,
            rpath: false,
            test: false,
            doc: false,
            run_custom_build: false,
            check: false,
            panic: None,
        }
    }

    /// The default for development builds: debug information and checks on.
    pub fn default_dev() -> (r: Profile)
        ensures
            r@ == ProfileView::default_dev(),
    {
        let mut p = Profile::base();
        p.debuginfo = Some(2);
        p.debug_assertions = true;
        p.overflow_checks = true;
        p
    }

    /// The default for release builds: optimized.
    pub fn default_release() -> (r: Profile)
        ensures
            r@ == ProfileView::default_release(),
    {
        let mut p = Profile::base();
        p.opt_level = String::from_str("3");
        p
    }

    /// The default for tests.
    pub fn default_test() -> (r: Profile)
        ensures
            r@ == ProfileView::default_test(),
    {
        let mut p = Profile::default_dev();
        p.test = true;
        p
    }

    /// The default for benchmarks.
    pub fn default_bench() -> (r: Profile)
        ensures
            r@ == ProfileView::default_bench(),
    {
        let mut p = Profile::default_release();
        p.test = true;
        p
    }

    /// The default for documentation.
    pub fn default_doc() -> (r: Profile)
        ensures
            r@ == ProfileView::default_doc(),
    {
        let mut p = Profile::default_dev();
        p.doc = true;
        p
    }

    /// The profile of build scripts.
    pub fn default_custom_build() -> (r: Profile)
        ensures
            r@ == ProfileView::default_custom_build(),
    {
        let mut p = Profile::default_dev();
        p.run_custom_build = true;
        p
    }

    /// The default for checking without building.
    pub fn default_check() -> (r: Profile)
        ensures
            r@ == ProfileView::default_check(),
    {
        let mut p = Profile::default_dev();
        p.check = true;
        p
    }

    /// The profile of documentation tests.
    pub fn default_doctest() -> (r: Profile)
        ensures
            r@ == ProfileView::default_doctest(),
    {
        let mut p = Profile::default_dev();
        p.doc = true;
        p.test = true;
        p
    }
}

/// The profiles of every build mode.
#[derive(Debug)]
pub struct Profiles {
    pub release: Profile,
    pub dev: Profile,
    pub test: Profile,
    pub test_deps: Profile,
    pub bench: Profile,
    pub bench_deps: Profile,
    pub doc: Profile,
    pub custom_build: Profile,
    pub check: Profile,
    pub doctest: Profile,
}

/// The mathematical view of [`Profiles`].
pub struct ProfilesView {
    pub release: ProfileView,
    pub dev: ProfileView,
    pub test: ProfileView,
    pub test_deps: ProfileView,
    pub bench: ProfileView,
    pub bench_deps: ProfileView,
    pub doc: ProfileView,
    pub custom_build: ProfileView,
    pub check: ProfileView,
    pub doctest: ProfileView,
}

impl View for Profiles {
    type V = ProfilesView;

    open spec fn view(&self) -> ProfilesView {
        ProfilesView {
            release: self.release@,
            dev: self.dev@,
            test: self.test@,
            test_deps: self.test_deps@,
            bench: self.bench@,
            bench_deps: self.bench_deps@,
            doc: self.doc@,
            custom_build: self.custom_build@,
            check: self.check@,
            doctest: self.doctest@,
        }
    }
}

/// `value` where it is set, else `default`.
pub open spec fn flag_or(value: Option<bool>, default: bool) -> bool {
    match value {
        Some(b) => b,
        None => default,
    }
}

/// The profile with every setting that the section overrides. The markers
/// of the build mode are never overridden.
pub open spec fn spec_merge(profile: ProfileView, toml: Option<TomlProfileView>) -> ProfileView {
    match toml {
        None => profile,
        Some(t) => ProfileView {
            opt_level: match t.opt_level {
                Some(level) => level,
                None => profile.opt_level,
            },
            lto: flag_or(t.lto, profile.lto),
            codegen_units: if t.codegen_units is Some {
                t.codegen_units
            } else {
                profile.codegen_units
            },
            debuginfo: match t.debug {
                Some(d) => d.level(),
                None => profile.debuginfo,
            },
            debug_assertions: flag_or(t.debug_assertions, profile.debug_assertions),
            overflow_checks: flag_or(t.overflow_checks, profile.overflow_checks),
            rpath: flag_or(t.rpath, profile.rpath),
            panic: if t.panic is Some {
                t.panic
            } else {
                profile.panic
            },
            ..profile
        },
    }
}

/// The profiles of a manifest with the `[profile]` table `toml`. The
/// profiles under which tests and benchmarks are built always unwind.
pub open spec fn spec_build_profiles(toml: Option<TomlProfilesView>) -> ProfilesView {
    let t = match toml {
        Some(t) => t,
        None => TomlProfilesView::empty(),
    };
    ProfilesView {
        release: spec_merge(ProfileView::default_release(), t.release),
        dev: spec_merge(ProfileView::default_dev(), t.dev),
        test: spec_merge(ProfileView::default_test(), t.test).unwinding(),
        test_deps: spec_merge(ProfileView::default_dev(), t.dev).unwinding(),
        bench: spec_merge(ProfileView::default_bench(), t.bench).unwinding(),
        bench_deps: spec_merge(ProfileView::default_release(), t.release).unwinding(),
        doc: spec_merge(ProfileView::default_doc(), t.doc),
        custom_build: ProfileView::default_custom_build(),
        check: spec_merge(ProfileView::default_check(), t.dev),
        doctest: ProfileView::default_doctest(),
    }
}

/// `profile` overridden by the section `toml`, where there is one.
pub fn merge(profile: Profile, toml: &Option<TomlProfile>) -> (r: Profile)
    ensures
        r@ == spec_merge(profile@, toml.deep_view()),
{
    let t = match toml {
        Some(t) => t,
        None => return profile,
    };
    Profile {
        opt_level: match &t.opt_level {
            Some(level) => level.0.clone(),
            None => profile.opt_level,
        },
        lto: match t.lto {
            Some(b) => b,
            None => profile.lto,
        },
        codegen_units: if t.codegen_units.is_some() {
            t.codegen_units
        } else {
            profile.codegen_units
        },
        rustc_args: profile.rustc_args,
        rustdoc_args: profile.rustdoc_args,
        debuginfo: match t.debug {
            Some(U32OrBool::U32(n)) => Some(n),
            Some(U32OrBool::Bool(true)) => Some(2),
            Some(U32OrBool::Bool(false)) => None,
            None => profile.debuginfo,
        },
        debug_assertions: match t.debug_assertions {
            Some(b) => b,
            None => profile.debug_assertions,
        },
        overflow_checks: match t.overflow_checks {
            Some(b) => b,
            None => profile.overflow_checks,
        },
        rpath: match t.rpath {
            Some(b) => b,
            None => profile.rpath,
        },
        test: profile.test,
        doc: profile.doc,
        run_custom_build: profile.run_custom_build,
        check: profile.check,
        panic: if t.panic.is_some() {
            clone_opt_text(&t.panic)
        } else {
            profile.panic
        },
    }
}

fn unwinding(profile: Profile) -> (r: Profile)
    ensures
        r@ == profile@.unwinding(),
{
    let mut p = profile;
    p.panic = None;
    p
}

/// The profiles of a manifest with the `[profile]` table `profiles`.
pub fn build_profiles(profiles: &Option<TomlProfiles>) -> (r: Profiles)
    ensures
        r@ == spec_build_profiles(profiles.deep_view()),
        r@.test.panic is None,
        r@.bench.panic is None,
        r@.test_deps.panic is None,
        r@.bench_deps.panic is None,
{
    let none: Option<TomlProfile> = None;
    let (test, doc, bench, dev, release) = match profiles {
        Some(p) => (&p.test, &p.doc, &p.bench, &p.dev, &p.release),
        None => (&none, &none, &none, &none, &none),
    };
    Profiles {
        release: merge(Profile::default_release(), release),
        dev: merge(Profile::default_dev(), dev),
        test: unwinding(merge(Profile::default_test(), test)),
        test_deps: unwinding(merge(Profile::default_dev(), dev)),
        bench: unwinding(merge(Profile::default_bench(), bench)),
        bench_deps: unwinding(merge(Profile::default_release(), release)),
        doc: merge(Profile::default_doc(), doc),
        custom_build: Profile::default_custom_build(),
        check: merge(Profile::default_check(), dev),
        doctest: Profile::default_doctest(),
    }
}

} // verus!
