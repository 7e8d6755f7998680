//! Dependencies: what a manifest declares of them, and what they resolve to.

use crate::cfg::{is_cfg_expr, str_is_cfg_expr};
use crate::error::{GitKey, ManifestError, ManifestErrorView, Warning, WarningView};
use crate::layout::Layout;
use crate::path::{join, normalize_path, spec_join, spec_normalize_path};
use crate::source::{
    crates_io_index, is_absolute, to_url, url_parse, GitReference, GitReferenceView, ParsedUrl,
    ParsedUrlView, SourceId, SourceIdView,
};
use crate::text::{chars_of, clone_opt_text, clone_opt_texts, clone_texts};
use crate::version::{
    semver_requirement, ReqParse, ReqParseView, VersionReq, VersionReqView,
};
use vstd::prelude::*;
use vstd::string::*;

verus! {

/// What a dependency is needed for.
#[derive(Clone, Copy, Debug, PartialEq, Eq, Structural)]
pub enum Kind {
    Normal,
    Development,
    Build,
}

/// The platforms that a dependency table applies to.
#[derive(Debug)]
pub enum Platform {
    /// The platform of this name.
    Name(String),
    /// The platforms on which the `cfg` expression holds.
    Cfg(String),
}

/// The mathematical view of [`Platform`].
pub enum PlatformView {
    Name(Seq<char>),
    Cfg(Seq<char>),
}

impl View for Platform {
    type V = PlatformView;

    open spec fn view(&self) -> PlatformView {
        match self {
            Platform::Name(s) => PlatformView::Name(s@),
            Platform::Cfg(s) => PlatformView::Cfg(s@),
        }
    }
}

impl DeepView for Platform {
    type V = PlatformView;

    open spec fn deep_view(&self) -> PlatformView {
        self@
    }
}

impl Clone for Platform {
    fn clone(&self) -> (r: Platform)
        ensures
            r@ == self@,
    {
        match self {
            Platform::Name(s) => Platform::Name(s.clone()),
            Platform::Cfg(s) => Platform::Cfg(s.clone()),
        }
    }
}

/// The key has the shape `cfg(` .. `)`.
pub open spec fn is_cfg_key(key: Seq<char>) -> bool {
    key.len() >= 5 && key.take(4) == "cfg("@ && key.last() == ')'
}

/// The platforms that the key of a platform table denotes: those of the
/// expression inside `cfg(` .. `)`, which must be well formed, or else the
/// one that the key names.
pub open spec fn spec_platform(key: Seq<char>) -> Result<PlatformView, ManifestErrorView> {
    if is_cfg_key(key) {
        let inner = key.subrange(4, key.len() - 1);
        if is_cfg_expr(inner) {
            Ok(PlatformView::Cfg(inner))
        } else {
            Err(ManifestErrorView::InvalidPlatform { platform: inner })
        }
    } else {
        Ok(PlatformView::Name(key))
    }
}

impl Platform {
    /// The platforms that the key of a platform table denotes.
    pub fn from_str(key: &str) -> (r: Result<Platform, ManifestError>)
        ensures
            match r {
                Ok(p) => spec_platform(key@) == Ok::<PlatformView, ManifestErrorView>(p@),
                Err(e) => spec_platform(key@) == Err::<PlatformView, ManifestErrorView>(e@),
            },
    {
        let v = chars_of(key);
        let n = v.len();
        proof {
            reveal_strlit("cfg(");
            assert("cfg("@.len() == 4 && "cfg("@[0] == 'c' && "cfg("@[1] == 'f' && "cfg("@[2] == 'g'
                && "cfg("@[3] == '(');
        }
        if n >= 5 && v[0] == 'c' && v[1] == 'f' && v[2] == 'g' && v[3] == '(' && v[n - 1] == ')' {
            assert(key@.take(4) =~= "cfg("@);
            let inner = key.substring_char(4, n - 1);
            if str_is_cfg_expr(inner) {
                Ok(Platform::Cfg(String::from_str(inner)))
            } else {
                Err(ManifestError::InvalidPlatform { platform: String::from_str(inner) })
            }
        } else {
            proof {
                if n >= 5 && key@.take(4) == "cfg("@ {
                    assert(key@.take(4)[0] == 'c' && key@.take(4)[1] == 'f' && key@.take(4)[2]
                        == 'g' && key@.take(4)[3] == '(');
                }
            }
            Ok(Platform::Name(String::from_str(key)))
        }
    }
}

/// A dependency bound to its source.
#[derive(Debug)]
pub struct Dependency {
    pub name: String,
    pub source_id: SourceId,
    pub req: VersionReq,
    pub kind: Kind,
    pub optional: bool,
    pub default_features: bool,
    pub features: Vec<String>,
    pub platform: Option<Platform>,
}

/// The mathematical view of [`Dependency`].
pub struct DependencyView {
    pub name: Seq<char>,
    pub source_id: SourceIdView,
    pub req: VersionReqView,
    pub kind: Kind,
    pub optional: bool,
    pub default_features: bool,
    pub features: Seq<Seq<char>>,
    pub platform: Option<PlatformView>,
}

impl View for Dependency {
    type V = DependencyView;

    open spec fn view(&self) -> DependencyView {
        DependencyView {
            name: self.name@,
            source_id: self.source_id@,
            req: self.req@,
            kind: self.kind,
            optional: self.optional,
            default_features: self.default_features,
            features: self.features.deep_view(),
            platform: self.platform.deep_view(),
        }
    }
}

impl DeepView for Dependency {
    type V = DependencyView;

    open spec fn deep_view(&self) -> DependencyView {
        self@
    }
}

/// A dependency written as a table, every key optional.
#[derive(Debug, Default)]
pub struct DetailedTomlDependency {
    pub version: Option<String>,
    pub path: Option<String>,
    pub git: Option<String>,
    pub branch: Option<String>,
    pub tag: Option<String>,
    pub rev: Option<String>,
    pub features: Option<Vec<String>>,
    pub optional: Option<bool>,
    /// `default-features`.
    pub default_features: Option<bool>,
    /// `default_features`, the older spelling.
    pub default_features2: Option<bool>,
}

/// The mathematical view of [`DetailedTomlDependency`].
pub struct DetailedView {
    pub version: Option<Seq<char>>,
    pub path: Option<Seq<char>>,
    pub git: Option<Seq<char>>,
    pub branch: Option<Seq<char>>,
    pub tag: Option<Seq<char>>,
    pub rev: Option<Seq<char>>,
    pub features: Option<Seq<Seq<char>>>,
    pub optional: Option<bool>,
    pub default_features: Option<bool>,
    pub default_features2: Option<bool>,
}

impl View for DetailedTomlDependency {
    type V = DetailedView;

    open spec fn view(&self) -> DetailedView {
        DetailedView {
            version: self.version.deep_view(),
            path: self.path.deep_view(),
            git: self.git.deep_view(),
            branch: self.branch.deep_view(),
            tag: self.tag.deep_view(),
            rev: self.rev.deep_view(),
            features: self.features.deep_view(),
            optional: self.optional,
            default_features: self.default_features,
            default_features2: self.default_features2,
        }
    }
}

impl DetailedView {
    /// The table with only a version.
    pub open spec fn of_version(version: Seq<char>) -> DetailedView {
        DetailedView {
            version: Some(version),
            path: None,
            git: None,
            branch: None,
            tag: None,
            rev: None,
            features: None,
            optional: None,
            default_features: None,
            default_features2: None,
        }
    }

    /// The reference to check out: the branch, else the tag, else the
    /// revision, else the branch `master`.
    pub open spec fn git_reference(self) -> GitReferenceView {
        match self.branch {
            Some(b) => GitReferenceView::Branch(b),
            None => match self.tag {
                Some(t) => GitReferenceView::Tag(t),
                None => match self.rev {
                    Some(r) => GitReferenceView::Rev(r),
                    None => GitReferenceView::Branch("master"@),
                },
            },
        }
    }

    /// How many of `branch`, `tag` and `rev` are set.
    pub open spec fn git_keys(self) -> nat {
        let b: nat = if self.branch is Some { 1 } else { 0 };
        let t: nat = if self.tag is Some { 1 } else { 0 };
        let r: nat = if self.rev is Some { 1 } else { 0 };
        b + t + r
    }

    /// `default-features`, else `default_features`, else true.
    pub open spec fn uses_default_features(self) -> bool {
        match self.default_features {
            Some(b) => b,
            None => match self.default_features2 {
                Some(b) => b,
                None => true,
            },
        }
    }
}

/// A dependency as a manifest declares it.
#[derive(Debug)]
pub enum TomlDependency {
    /// Only a version requirement.
    Simple(String),
    Detailed(DetailedTomlDependency),
}

/// The mathematical view of [`TomlDependency`].
pub enum TomlDependencyView {
    Simple(Seq<char>),
    Detailed(DetailedView),
}

impl View for TomlDependency {
    type V = TomlDependencyView;

    open spec fn view(&self) -> TomlDependencyView {
        match self {
            TomlDependency::Simple(s) => TomlDependencyView::Simple(s@),
            TomlDependency::Detailed(d) => TomlDependencyView::Detailed(d@),
        }
    }
}

impl DeepView for TomlDependency {
    type V = TomlDependencyView;

    open spec fn deep_view(&self) -> TomlDependencyView {
        self@
    }
}

impl TomlDependencyView {
    /// The declaration as a table.
    pub open spec fn details(self) -> DetailedView {
        match self {
            TomlDependencyView::Simple(v) => DetailedView::of_version(v),
            TomlDependencyView::Detailed(d) => d,
        }
    }

    /// Whether a version requirement is written.
    pub open spec fn version_specified(self) -> bool {
        self.details().version is Some
    }
}

/// What surrounds the resolution of a dependency.
pub struct Ambient {
    /// Whether the manifest describes a package.
    pub in_package: bool,
    /// The source of the manifest's package.
    pub source_id: SourceIdView,
    /// The directory of the manifest.
    pub root: Seq<char>,
    /// The platforms of the table being read.
    pub platform: Option<PlatformView>,
}

/// The state of dependency resolution: what surrounds it, and what it has
/// collected.
pub struct Context<'a> {
    pub in_package: bool,
    pub deps: Vec<Dependency>,
    pub source_id: &'a SourceId,
    pub nested_paths: Vec<String>,
    pub warnings: Vec<Warning>,
    pub platform: Option<Platform>,
    pub layout: &'a Layout,
}

impl<'a> Context<'a> {
    /// What surrounds the resolution, apart from what was collected.
    pub open spec fn ambient(&self) -> Ambient {
        Ambient {
            in_package: self.in_package,
            source_id: self.source_id@,
            root: self.layout@.root,
            platform: self.platform.deep_view(),
        }
    }

    /// A context that has collected nothing yet.
    pub fn new(in_package: bool, source_id: &'a SourceId, layout: &'a Layout) -> (r: Context<'a>)
        ensures
            r.ambient() == (Ambient {
                in_package,
                source_id: source_id@,
                root: layout@.root,
                platform: None,
            }),
            r.deps@ == Seq::<Dependency>::empty(),
            r.nested_paths@ == Seq::<String>::empty(),
            r.warnings@ == Seq::<Warning>::empty(),
            r.layout == layout,
            r.source_id == source_id,
    {
        Context {
            in_package,
            deps: Vec::new(),
            source_id,
            nested_paths: Vec::new(),
            warnings: Vec::new(),
            platform: None,
            layout,
        }
    }
}

/// The source of a dependency with a `git` key, once the URL parser's
/// answer `parsed` is known.
pub open spec fn spec_git_source(
    name: Seq<char>,
    git: Seq<char>,
    parsed: Option<ParsedUrlView>,
    reference: GitReferenceView,
) -> Result<SourceIdView, ManifestErrorView> {
    match parsed {
        Some(url) => Ok(SourceIdView::Git { url: url.serialization, reference }),
        None => Err(ManifestErrorView::InvalidGitUrl { dependency: name, url: git }),
    }
}

/// The source of a dependency with a `path` key and no `git` key. In a
/// package that itself comes from a directory, the path is taken from the
/// package's directory and normalized, and must then be absolute. In any
/// other package the dependency comes from where the package comes from.
pub open spec fn spec_path_source(name: Seq<char>, path: Seq<char>, ctx: Ambient) -> Result<
    SourceIdView,
    ManifestErrorView,
> {
    if ctx.source_id is Path {
        let p = spec_normalize_path(spec_join(ctx.root, path));
        if is_absolute(p) {
            Ok(SourceIdView::Path(p))
        } else {
            Err(ManifestErrorView::RelativePath { dependency: name, path })
        }
    } else {
        Ok(ctx.source_id)
    }
}

/// The source of a dependency: its repository, else its directory, else
/// the default registry.
pub open spec fn spec_source_id(name: Seq<char>, d: DetailedView, ctx: Ambient) -> Result<
    SourceIdView,
    ManifestErrorView,
> {
    match d.git {
        Some(git) => spec_git_source(name, git, url_parse(git), d.git_reference()),
        None => match d.path {
            Some(path) => spec_path_source(name, path, ctx),
            None => Ok(SourceIdView::Registry(crates_io_index())),
        },
    }
}

/// The paths of dependencies that are to be read as packages in turn.
pub open spec fn spec_nested_paths(d: DetailedView) -> Seq<Seq<char>> {
    match (d.git, d.path) {
        (None, Some(path)) => seq![path],
        _ => Seq::empty(),
    }
}

/// The requirement that the text `text` of a dependency's `version` key
/// stands for, once the requirement parser's answer `parsed` is known. A
/// deprecated notation is accepted in the manifest of a package only.
pub open spec fn spec_requirement_from(
    name: Seq<char>,
    text: Seq<char>,
    parsed: ReqParseView,
    in_package: bool,
) -> Result<VersionReqView, ManifestErrorView> {
    match parsed {
        ReqParseView::Valid(req) => Ok(VersionReqView::Range(req)),
        ReqParseView::Deprecated(req) => if in_package {
            Ok(VersionReqView::Range(req))
        } else {
            Err(ManifestErrorView::InvalidVersionReq { dependency: name, requirement: text })
        },
        ReqParseView::Invalid => Err(
            ManifestErrorView::InvalidVersionReq { dependency: name, requirement: text },
        ),
    }
}

/// The warning that goes with an accepted deprecated notation.
pub open spec fn spec_requirement_warnings(
    name: Seq<char>,
    text: Seq<char>,
    parsed: ReqParseView,
    in_package: bool,
) -> Seq<WarningView> {
    if parsed is Deprecated && in_package {
        seq![WarningView::DeprecatedVersionReq { dependency: name, requirement: text }]
    } else {
        Seq::empty()
    }
}

/// The version requirement of a dependency: any version where none is
/// written.
pub open spec fn spec_requirement(name: Seq<char>, d: DetailedView, ctx: Ambient) -> Result<
    VersionReqView,
    ManifestErrorView,
> {
    match d.version {
        Some(text) => spec_requirement_from(name, text, semver_requirement(text), ctx.in_package),
        None => Ok(VersionReqView::Any),
    }
}

/// One warning for each of `branch`, `tag` and `rev` that is set.
pub open spec fn ignored_key_warnings(name: Seq<char>, d: DetailedView) -> Seq<WarningView> {
    (if d.branch is Some {
        seq![WarningView::IgnoredGitKey { key: GitKey::Branch, dependency: name }]
    } else {
        Seq::empty()
    }) + (if d.tag is Some {
        seq![WarningView::IgnoredGitKey { key: GitKey::Tag, dependency: name }]
    } else {
        Seq::empty()
    }) + (if d.rev is Some {
        seq![WarningView::IgnoredGitKey { key: GitKey::Rev, dependency: name }]
    } else {
        Seq::empty()
    })
}

/// The warnings about how a dependency names its source: that it names
/// none; without `git`, each key that only `git` gives a meaning; with
/// `git`, a `path` beside it, and more than one of `branch`, `tag`, `rev`.
pub open spec fn spec_source_warnings(name: Seq<char>, d: DetailedView) -> Seq<WarningView> {
    (if d.version is None && d.path is None && d.git is None {
        seq![WarningView::DependencyWithoutSource { dependency: name }]
    } else {
        Seq::empty()
    }) + (if d.git is None {
        ignored_key_warnings(name, d)
    } else {
        (if d.path is Some {
            seq![WarningView::GitAndPath { dependency: name }]
        } else {
            Seq::empty()
        }) + (if d.git_keys() > 1 {
            seq![WarningView::SeveralGitReferences { dependency: name }]
        } else {
            Seq::empty()
        })
    })
}

/// All warnings that resolving a dependency adds. The one about a
/// deprecated requirement is only reached where the source is in order.
pub open spec fn spec_dependency_warnings(
    name: Seq<char>,
    dep: TomlDependencyView,
    ctx: Ambient,
) -> Seq<WarningView> {
    let d = dep.details();
    spec_source_warnings(name, d) + (match (spec_source_id(name, d, ctx), d.version) {
        (Ok(_), Some(text)) => spec_requirement_warnings(
            name,
            text,
            semver_requirement(text),
            ctx.in_package,
        ),
        _ => Seq::empty(),
    })
}

/// The dependency that a declaration under `name` resolves to.
pub open spec fn spec_to_dependency(
    name: Seq<char>,
    dep: TomlDependencyView,
    ctx: Ambient,
    kind: Option<Kind>,
) -> Result<DependencyView, ManifestErrorView> {
    let d = dep.details();
    match spec_source_id(name, d, ctx) {
        Err(e) => Err(e),
        Ok(source_id) => match spec_requirement(name, d, ctx) {
            Err(e) => Err(e),
            Ok(req) => Ok(
                DependencyView {
                    name,
                    source_id,
                    req,
                    kind: match kind {
                        Some(k) => k,
                        None => Kind::Normal,
                    },
                    optional: match d.optional {
                        Some(b) => b,
                        None => false,
                    },
                    default_features: d.uses_default_features(),
                    features: match d.features {
                        Some(f) => f,
                        None => Seq::empty(),
                    },
                    platform: ctx.platform,
                },
            ),
        },
    }
}

/// The views of a fallible result.
pub open spec fn views<T: View, E: View>(r: Result<T, E>) -> Result<T::V, E::V> {
    match r {
        Ok(t) => Ok(t@),
        Err(e) => Err(e@),
    }
}

/// The source of a dependency on a repository, given what the URL parser
/// made of its `git` key.
pub fn git_source(name: &str, git: &str, parsed: Option<ParsedUrl>, reference: GitReference) -> (r:
    Result<SourceId, ManifestError>)
    ensures
        views(r) == spec_git_source(name@, git@, parsed.deep_view(), reference@),
{
    match parsed {
        Some(url) => Ok(SourceId::for_git(url.serialization, reference)),
        None => Err(
            ManifestError::InvalidGitUrl {
                dependency: String::from_str(name),
                url: String::from_str(git),
            },
        ),
    }
}

/// The requirement of a dependency, and the warning that goes with it,
/// given what the requirement parser made of its `version` key.
pub fn requirement_from(name: &str, text: &str, parsed: ReqParse, in_package: bool) -> (r: Result<
    (VersionReq, Vec<Warning>),
    ManifestError,
>)
    ensures
        match r {
            Ok((req, w)) => spec_requirement_from(name@, text@, parsed@, in_package) == Ok::<
                VersionReqView,
                ManifestErrorView,
            >(req@) && w.deep_view() == spec_requirement_warnings(
                name@,
                text@,
                parsed@,
                in_package,
            ),
            Err(e) => spec_requirement_from(name@, text@, parsed@, in_package) == Err::<
                VersionReqView,
                ManifestErrorView,
            >(e@),
        },
{
    let mut w: Vec<Warning> = Vec::new();
    assert(w.deep_view() =~= Seq::empty());
    match parsed {
        ReqParse::Valid(req) => Ok((VersionReq::Range(req), w)),
        ReqParse::Deprecated(req) => {
            if in_package {
                let warning = Warning::DeprecatedVersionReq {
                    dependency: String::from_str(name),
                    requirement: String::from_str(text),
                };
                w.push(warning);
                assert(w.deep_view() =~= seq![warning@]);
                Ok((VersionReq::Range(req), w))
            } else {
                Err(
                    ManifestError::InvalidVersionReq {
                        dependency: String::from_str(name),
                        requirement: String::from_str(text),
                    },
                )
            }
        },
        ReqParse::Invalid => Err(
            ManifestError::InvalidVersionReq {
                dependency: String::from_str(name),
                requirement: String::from_str(text),
            },
        ),
    }
}

fn git_reference(d: &DetailedTomlDependency) -> (r: GitReference)
    ensures
        r@ == d@.git_reference(),
{
    match &d.branch {
        Some(b) => GitReference::Branch(b.clone()),
        None => match &d.tag {
            Some(t) => GitReference::Tag(t.clone()),
            None => match &d.rev {
                Some(r) => GitReference::Rev(r.clone()),
                None => GitReference::Branch(String::from_str("master")),
            },
        },
    }
}

fn ignored_keys(name: &str, d: &DetailedTomlDependency, w: &mut Vec<Warning>)
    ensures
        final(w).deep_view() == old(w).deep_view() + ignored_key_warnings(name@, d@),
{
    let ghost w0 = w.deep_view();
    if d.branch.is_some() {
        w.push(Warning::IgnoredGitKey { key: GitKey::Branch, dependency: String::from_str(name) });
    }
    let ghost w1 = w.deep_view();
    if d.tag.is_some() {
        w.push(Warning::IgnoredGitKey { key: GitKey::Tag, dependency: String::from_str(name) });
    }
    let ghost w2 = w.deep_view();
    if d.rev.is_some() {
        w.push(Warning::IgnoredGitKey { key: GitKey::Rev, dependency: String::from_str(name) });
    }
    proof {
        let a = if d@.branch is Some {
            seq![WarningView::IgnoredGitKey { key: GitKey::Branch, dependency: name@ }]
        } else {
            Seq::empty()
        };
        let b = if d@.tag is Some {
            seq![WarningView::IgnoredGitKey { key: GitKey::Tag, dependency: name@ }]
        } else {
            Seq::empty()
        };
        let c = if d@.rev is Some {
            seq![WarningView::IgnoredGitKey { key: GitKey::Rev, dependency: name@ }]
        } else {
            Seq::empty()
        };
        assert(w1 =~= w0 + a);
        assert(w2 =~= w1 + b);
        assert(w.deep_view() =~= w2 + c);
        assert(w.deep_view() =~= w0 + (a + b + c));
    }
}

fn source_warnings(name: &str, d: &DetailedTomlDependency, w: &mut Vec<Warning>)
    ensures
        final(w).deep_view() == old(w).deep_view() + spec_source_warnings(name@, d@),
{
    let ghost w0 = w.deep_view();
    if d.version.is_none() && d.path.is_none() && d.git.is_none() {
        w.push(Warning::DependencyWithoutSource { dependency: String::from_str(name) });
    }
    let ghost w1 = w.deep_view();
    let ghost a = if d@.version is None && d@.path is None && d@.git is None {
        seq![WarningView::DependencyWithoutSource { dependency: name@ }]
    } else {
        Seq::empty()
    };
    assert(w1 =~= w0 + a);
    if d.git.is_none() {
        ignored_keys(name, d, w);
        assert(w.deep_view() =~= w0 + (a + ignored_key_warnings(name@, d@)));
    } else {
        if d.path.is_some() {
            w.push(Warning::GitAndPath { dependency: String::from_str(name) });
        }
        let ghost w2 = w.deep_view();
        let ghost b = if d@.path is Some {
            seq![WarningView::GitAndPath { dependency: name@ }]
        } else {
            Seq::empty()
        };
        assert(w2 =~= w1 + b);
        let n: u8 = (if d.branch.is_some() { 1u8 } else { 0u8 })
            + (if d.tag.is_some() { 1u8 } else { 0u8 })
            + (if d.rev.is_some() { 1u8 } else { 0u8 });
        if n > 1 {
            w.push(Warning::SeveralGitReferences { dependency: String::from_str(name) });
        }
        let ghost c = if d@.git_keys() > 1 {
            seq![WarningView::SeveralGitReferences { dependency: name@ }]
        } else {
            Seq::empty()
        };
        assert(w.deep_view() =~= w2 + c);
        assert(w.deep_view() =~= w0 + (a + (b + c)));
    }
}

fn path_source(name: &str, path: &str, cx: &Context) -> (r: Result<SourceId, ManifestError>)
    ensures
        views(r) == spec_path_source(name@, path@, cx.ambient()),
{
    if cx.source_id.is_path() {
        let p = normalize_path(join(cx.layout.root.as_str(), path).as_str());
        match SourceId::for_path(p) {
            Some(id) => Ok(id),
            None => Err(
                ManifestError::RelativePath {
                    dependency: String::from_str(name),
                    path: String::from_str(path),
                },
            ),
        }
    } else {
        Ok(cx.source_id.clone())
    }
}

fn new_source_id(name: &str, d: &DetailedTomlDependency, cx: &Context) -> (r: Result<
    SourceId,
    ManifestError,
>)
    ensures
        views(r) == spec_source_id(name@, d@, cx.ambient()),
{
    match &d.git {
        Some(git) => git_source(name, git.as_str(), to_url(git.as_str()), git_reference(d)),
        None => match &d.path {
            Some(path) => path_source(name, path.as_str(), cx),
            None => Ok(SourceId::crates_io()),
        },
    }
}

impl Clone for DetailedTomlDependency {
    fn clone(&self) -> (r: DetailedTomlDependency)
        ensures
            r@ == self@,
    {
        DetailedTomlDependency {
            version: clone_opt_text(&self.version),
            path: clone_opt_text(&self.path),
            git: clone_opt_text(&self.git),
            branch: clone_opt_text(&self.branch),
            tag: clone_opt_text(&self.tag),
            rev: clone_opt_text(&self.rev),
            features: clone_opt_texts(&self.features),
            optional: self.optional,
            default_features: self.default_features,
            default_features2: self.default_features2,
        }
    }
}

impl Clone for TomlDependency {
    fn clone(&self) -> (r: TomlDependency)
        ensures
            r@ == self@,
    {
        match self {
            TomlDependency::Simple(v) => TomlDependency::Simple(v.clone()),
            TomlDependency::Detailed(d) => TomlDependency::Detailed(d.clone()),
        }
    }
}

impl TomlDependency {
    /// A dependency written as a bare string: a version requirement.
    pub fn from_text(version: &str) -> (r: TomlDependency)
        ensures
            r@ == TomlDependencyView::Simple(version@),
    {
        TomlDependency::Simple(String::from_str(version))
    }

    /// A dependency written as a table.
    pub fn from_table(details: DetailedTomlDependency) -> (r: TomlDependency)
        ensures
            r@ == TomlDependencyView::Detailed(details@),
    {
        TomlDependency::Detailed(details)
    }

    /// The declaration as a table: a bare requirement becomes the table
    /// with only `version`.
    pub fn details(&self) -> (r: DetailedTomlDependency)
        ensures
            r@ == self@.details(),
    {
        match self {
            TomlDependency::Simple(version) => DetailedTomlDependency {
                version: Some(version.clone()),
                path: None,
                git: None,
                branch: None,
                tag: None,
                rev: None,
                features: None,
                optional: None,
                default_features: None,
                default_features2: None,
            },
            TomlDependency::Detailed(details) => details.clone(),
        }
    }

    /// Resolves the declaration under `name` to a dependency of kind `kind`
    /// (normal where none is given). Warnings and the path of a path
    /// dependency are added to what `cx` has collected.
    pub fn to_dependency(&self, name: &str, cx: &mut Context, kind: Option<Kind>) -> (r: Result<
        Dependency,
        ManifestError,
    >)
        ensures
            views(r) == spec_to_dependency(name@, self@, old(cx).ambient(), kind),
            final(cx).warnings.deep_view() == old(cx).warnings.deep_view()
                + spec_dependency_warnings(name@, self@, old(cx).ambient()),
            final(cx).nested_paths.deep_view() == old(cx).nested_paths.deep_view()
                + spec_nested_paths(self@.details()),
            final(cx).deps == old(cx).deps,
            final(cx).ambient() == old(cx).ambient(),
            final(cx).layout == old(cx).layout,
            final(cx).source_id == old(cx).source_id,
    {
        let details = self.details();
        let ghost w0 = cx.warnings.deep_view();
        let ghost n0 = cx.nested_paths.deep_view();
        source_warnings(name, &details, &mut cx.warnings);
        let ghost w1 = cx.warnings.deep_view();
        if details.git.is_none() {
            if let Some(path) = &details.path {
                cx.nested_paths.push(path.clone());
                assert(cx.nested_paths.deep_view() =~= n0 + seq![path@]);
            }
        }
        assert(cx.nested_paths.deep_view() =~= n0 + spec_nested_paths(details@));
        let source_id = match new_source_id(name, &details, cx) {
            Ok(id) => id,
            Err(e) => {
                assert(w1 =~= w0 + spec_dependency_warnings(name@, self@, old(cx).ambient()));
                return Err(e);
            },
        };
        let req = match &details.version {
            Some(text) => {
                let parsed = VersionReq::parse(text.as_str());
                match requirement_from(name, text.as_str(), parsed, cx.in_package) {
                    Ok((req, mut w)) => {
                        let ghost extra = w.deep_view();
                        cx.warnings.append(&mut w);
                        assert(cx.warnings.deep_view() =~= w1 + extra);
                        assert(cx.warnings.deep_view() =~= w0 + spec_dependency_warnings(
                            name@,
                            self@,
                            old(cx).ambient(),
                        ));
                        req
                    },
                    Err(e) => {
                        assert(spec_requirement_warnings(
                            name@,
                            text@,
                            semver_requirement(text@),
                            cx.in_package,
                        ) =~= Seq::empty());
                        assert(w1 =~= w0 + spec_dependency_warnings(
                            name@,
                            self@,
                            old(cx).ambient(),
                        ));
                        return Err(e);
                    },
                }
            },
            None => {
                assert(w1 =~= w0 + spec_dependency_warnings(name@, self@, old(cx).ambient()));
                VersionReq::Any
            },
        };
        Ok(
            Dependency {
                name: String::from_str(name),
                source_id,
                req,
                kind: match kind {
                    Some(k) => k,
                    None => Kind::Normal,
                },
                optional: match details.optional {
                    Some(b) => b,
                    None => false,
                },
                default_features: match details.default_features {
                    Some(b) => b,
                    None => match details.default_features2 {
                        Some(b) => b,
                        None => true,
                    },
                },
                features: match &details.features {
                    Some(f) => clone_texts(f),
                    None => {
                        let v: Vec<String> = Vec::new();
                        assert(v.deep_view() =~= Seq::empty());
                        v
                    },
                },
                platform: match &cx.platform {
                    Some(p) => Some(p.clone()),
                    None => None,
                },
            },
        )
    }
}

} // verus!
