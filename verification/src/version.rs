//! Semantic versions and version requirements.

use crate::error::{ManifestError, ManifestErrorView};
use vstd::prelude::*;
use vstd::string::*;

verus! {

/// One dot-separated part of a pre-release tag or of build metadata.
#[derive(Debug)]
pub enum Identifier {
    Numeric(u64),
    AlphaNumeric(String),
}

/// The mathematical view of [`Identifier`].
pub enum IdentifierView {
    Numeric(u64),
    AlphaNumeric(Seq<char>),
}

impl View for Identifier {
    type V = IdentifierView;

    open spec fn view(&self) -> IdentifierView {
        match self {
            Identifier::Numeric(n) => IdentifierView::Numeric(*n),
            Identifier::AlphaNumeric(s) => IdentifierView::AlphaNumeric(s@),
        }
    }
}

impl DeepView for Identifier {
    type V = IdentifierView;

    open spec fn deep_view(&self) -> IdentifierView {
        self@
    }
}

impl Clone for Identifier {
    fn clone(&self) -> (r: Identifier)
        ensures
            r@ == self@,
    {
        match self {
            Identifier::Numeric(n) => Identifier::Numeric(*n),
            Identifier::AlphaNumeric(s) => Identifier::AlphaNumeric(s.clone()),
        }
    }
}

/// A semantic version.
#[derive(Debug)]
pub struct Version {
    pub major: u64,
    pub minor: u64,
    pub patch: u64,
    pub pre: Vec<Identifier>,
    pub build: Vec<Identifier>,
}

/// The mathematical view of [`Version`].
pub struct VersionView {
    pub major: u64,
    pub minor: u64,
    pub patch: u64,
    pub pre: Seq<IdentifierView>,
    pub build: Seq<IdentifierView>,
}

impl View for Version {
    type V = VersionView;

    open spec fn view(&self) -> VersionView {
        VersionView {
            major: self.major,
            minor: self.minor,
            patch: self.patch,
            pre: self.pre.deep_view(),
            build: self.build.deep_view(),
        }
    }
}

impl DeepView for Version {
    type V = VersionView;

    open spec fn deep_view(&self) -> VersionView {
        self@
    }
}

fn clone_identifiers(list: &Vec<Identifier>) -> (r: Vec<Identifier>)
    ensures
        r.deep_view() == list.deep_view(),
{
    let mut out: Vec<Identifier> = Vec::new();
    let mut i: usize = 0;
    while i < list.len()
        invariant
            i <= list.len(),
            out.len() == i,
            forall|j: int| 0 <= j < i ==> out[j]@ == list[j]@,
        decreases list.len() - i,
    {
        out.push(list[i].clone());
        i += 1;
    }
    assert(out.deep_view() =~= list.deep_view());
    out
}

impl Clone for Version {
    fn clone(&self) -> (r: Version)
        ensures
            r@ == self@,
    {
        Version {
            major: self.major,
            minor: self.minor,
            patch: self.patch,
            pre: clone_identifiers(&self.pre),
            build: clone_identifiers(&self.build),
        }
    }
}

/// What `semver::Version::parse` makes of a string: the version it reads,
/// or nothing where it reports an error.
pub uninterp spec fn semver_version(text: Seq<char>) -> Option<VersionView>;

/// Calls `semver::Version::parse`. The contract claims only that the
/// outcome is a function of the text, named `semver_version`; the fields of
/// a parsed version are moved over one for one.
#[verifier::external_body]
fn semver_parse(text: &str) -> (r: Option<Version>)
    ensures
        r.deep_view() == semver_version(text@),
{
    let id = |i: semver::Identifier| match i {
        semver::Identifier::Numeric(n) => Identifier::Numeric(n),
        semver::Identifier::AlphaNumeric(s) => Identifier::AlphaNumeric(s),
    };
    semver::Version::parse(text).ok().map(|v| Version {
        major: v.major,
        minor: v.minor,
        patch: v.patch,
        pre: v.pre.into_iter().map(id).collect(),
        build: v.build.into_iter().map(id).collect(),
    })
}

impl Version {
    /// The version that the text denotes, if it denotes one.
    pub fn parse(text: &str) -> (r: Option<Version>)
        ensures
            r.deep_view() == semver_version(text@),
    {
        semver_parse(text)
    }
}

/// The `version` key of a package: a semantic version.
#[derive(Debug)]
pub struct TomlVersion {
    pub version: Version,
}

impl View for TomlVersion {
    type V = VersionView;

    open spec fn view(&self) -> VersionView {
        self.version@
    }
}

/// The outcome of reading a package's version from a string.
pub open spec fn spec_toml_version(text: Seq<char>) -> Result<VersionView, ManifestErrorView> {
    match semver_version(text) {
        Some(v) => Ok(v),
        None => Err(ManifestErrorView::InvalidVersion { version: text }),
    }
}

/// What reading a version gives once the parser's answer `parsed` is known.
pub fn toml_version_from(text: &str, parsed: Option<Version>) -> (r: Result<
    TomlVersion,
    ManifestError,
>)
    ensures
        match r {
            Ok(v) => parsed.deep_view() == Some(v@),
            Err(e) => parsed is None && e@ == (ManifestErrorView::InvalidVersion {
                version: text@,
            }),
        },
{
    match parsed {
        Some(version) => Ok(TomlVersion { version }),
        None => Err(ManifestError::InvalidVersion { version: String::from_str(text) }),
    }
}

impl TomlVersion {
    /// The version that a manifest gives as a string.
    pub fn from_text(text: &str) -> (r: Result<TomlVersion, ManifestError>)
        ensures
            match r {
                Ok(v) => spec_toml_version(text@) == Ok::<VersionView, ManifestErrorView>(v@),
                Err(e) => spec_toml_version(text@) == Err::<VersionView, ManifestErrorView>(e@),
            },
    {
        toml_version_from(text, semver_parse(text))
    }
}

/// What a string is as a version requirement.
#[derive(Debug)]
pub enum ReqParse {
    /// A requirement, in its canonical notation.
    Valid(String),
    /// One of the malformed requirements that are still accepted, with the
    /// canonical notation of the requirement that is meant.
    Deprecated(String),
    /// No requirement.
    Invalid,
}

/// The mathematical view of [`ReqParse`].
pub enum ReqParseView {
    Valid(Seq<char>),
    Deprecated(Seq<char>),
    Invalid,
}

impl View for ReqParse {
    type V = ReqParseView;

    open spec fn view(&self) -> ReqParseView {
        match self {
            ReqParse::Valid(s) => ReqParseView::Valid(s@),
            ReqParse::Deprecated(s) => ReqParseView::Deprecated(s@),
            ReqParse::Invalid => ReqParseView::Invalid,
        }
    }
}

/// What `semver::VersionReq::parse` makes of a string: a requirement, a
/// deprecated notation of one, or an error.
pub uninterp spec fn semver_requirement(text: Seq<char>) -> ReqParseView;

/// Calls `semver::VersionReq::parse` and writes the requirement it returns,
/// also the one inside its deprecation error, with `to_string`. The contract
/// claims only that the outcome is a function of the text, named
/// `semver_requirement`.
#[verifier::external_body]
fn semver_parse_requirement(text: &str) -> (r: ReqParse)
    ensures
        r@ == semver_requirement(text@),
{
    match semver::VersionReq::parse(text) {
        Ok(req) => ReqParse::Valid(req.to_string()),
        Err(semver::ReqParseError::DeprecatedVersionRequirement(req)) => ReqParse::Deprecated(
            req.to_string(),
        ),
        Err(_) => ReqParse::Invalid,
    }
}

/// Which versions of a dependency are wanted.
#[derive(Debug)]
pub enum VersionReq {
    /// Any version.
    Any,
    /// The versions that a requirement in canonical notation admits.
    Range(String),
    /// This version and no other.
    Exact(Version),
}

/// The mathematical view of [`VersionReq`].
pub enum VersionReqView {
    Any,
    Range(Seq<char>),
    Exact(VersionView),
}

impl View for VersionReq {
    type V = VersionReqView;

    open spec fn view(&self) -> VersionReqView {
        match self {
            VersionReq::Any => VersionReqView::Any,
            VersionReq::Range(s) => VersionReqView::Range(s@),
            VersionReq::Exact(v) => VersionReqView::Exact(v@),
        }
    }
}

impl VersionReq {
    /// What the text is as a requirement.
    pub fn parse(text: &str) -> (r: ReqParse)
        ensures
            r@ == semver_requirement(text@),
    {
        semver_parse_requirement(text)
    }

    /// The requirement that only `version` meets.
    pub fn exact(version: &Version) -> (r: VersionReq)
        ensures
            r@ == VersionReqView::Exact(version@),
    {
        VersionReq::Exact(version.clone())
    }
}

} // verus!
