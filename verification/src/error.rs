//! Hard failures and warnings of manifest interpretation.

use vstd::prelude::*;

verus! {

/// A section of the manifest that declares build targets or the package.
#[derive(Clone, Copy, Debug, PartialEq, Eq, Structural)]
pub enum Section {
    Project,
    Package,
    Lib,
    Bin,
    Example,
    Test,
    Bench,
}

/// A key of a dependency that only has a meaning beside `git`.
#[derive(Clone, Copy, Debug, PartialEq, Eq, Structural)]
pub enum GitKey {
    Branch,
    Tag,
    Rev,
}

/// Why a manifest was rejected.
#[derive(Debug)]
pub enum ManifestError {
    /// The text nests tables or values more deeply than is read.
    TooDeeplyNested,
    /// The text is not a TOML document; the parser's words are kept.
    InvalidToml { reason: String },
    /// Neither a `package` nor a `project` section.
    NoPackageSection,
    /// The package name is blank.
    EmptyPackageName,
    /// The package version is not a semantic version.
    InvalidVersion { version: String },
    /// An optimization level that is neither an integer nor `s` nor `z`.
    InvalidOptLevel { level: String },
    /// A target of the section has a blank name.
    EmptyTargetName { section: Section },
    /// A target of the section has no name.
    MissingTargetName { section: Section },
    /// The library's name holds a hyphen.
    HyphenInLibraryName { name: String },
    /// The library is declared both a plugin and a procedural macro.
    PluginAndProcMacro,
    /// A binary has a reserved name.
    ForbiddenBinaryName { name: String },
    /// Two targets of the section share the name.
    DuplicateTargetName { section: Section, name: String },
    /// No target but perhaps a build script.
    NoTargets,
    /// The `git` key of the dependency is not a URL.
    InvalidGitUrl { dependency: String, url: String },
    /// The path of the dependency does not lead to an absolute path.
    RelativePath { dependency: String, path: String },
    /// The version requirement of the dependency does not parse.
    InvalidVersionReq { dependency: String, requirement: String },
    /// The key of a platform table is a malformed `cfg(..)` expression.
    InvalidPlatform { platform: String },
    /// The dependency has different sources in different tables.
    ConflictingSources { dependency: String },
    /// Both `package.workspace` and a `[workspace]` section.
    BothWorkspaces,
    /// The key of a replacement is not a package specification.
    InvalidReplacementSpec { spec: String },
    /// The replacement carries a version requirement of its own.
    ReplacementWithVersionReq { spec: String },
    /// The key of the replacement names no version to replace.
    ReplacementWithoutVersion { spec: String },
    /// A manifest without a package has the section.
    VirtualDefines { section: Section },
    /// A manifest without a package has no `[workspace]` section.
    VirtualWithoutWorkspace,
}

/// The mathematical view of [`ManifestError`].
pub enum ManifestErrorView {
    TooDeeplyNested,
    InvalidToml { reason: Seq<char> },
    NoPackageSection,
    EmptyPackageName,
    InvalidVersion { version: Seq<char> },
    InvalidOptLevel { level: Seq<char> },
    EmptyTargetName { section: Section },
    MissingTargetName { section: Section },
    HyphenInLibraryName { name: Seq<char> },
    PluginAndProcMacro,
    ForbiddenBinaryName { name: Seq<char> },
    DuplicateTargetName { section: Section, name: Seq<char> },
    NoTargets,
    InvalidGitUrl { dependency: Seq<char>, url: Seq<char> },
    RelativePath { dependency: Seq<char>, path: Seq<char> },
    InvalidVersionReq { dependency: Seq<char>, requirement: Seq<char> },
    InvalidPlatform { platform: Seq<char> },
    ConflictingSources { dependency: Seq<char> },
    BothWorkspaces,
    InvalidReplacementSpec { spec: Seq<char> },
    ReplacementWithVersionReq { spec: Seq<char> },
    ReplacementWithoutVersion { spec: Seq<char> },
    VirtualDefines { section: Section },
    VirtualWithoutWorkspace,
}

impl View for ManifestError {
    type V = ManifestErrorView;

    open spec fn view(&self) -> ManifestErrorView {
        match self {
            ManifestError::TooDeeplyNested => ManifestErrorView::TooDeeplyNested,
            ManifestError::InvalidToml { reason } => ManifestErrorView::InvalidToml {
                reason: reason@,
            },
            ManifestError::NoPackageSection => ManifestErrorView::NoPackageSection,
            ManifestError::EmptyPackageName => ManifestErrorView::EmptyPackageName,
            ManifestError::InvalidVersion { version } => ManifestErrorView::InvalidVersion {
                version: version@,
            },
            ManifestError::InvalidOptLevel { level } => ManifestErrorView::InvalidOptLevel {
                level: level@,
            },
            ManifestError::EmptyTargetName { section } => ManifestErrorView::EmptyTargetName {
                section: *section,
            },
            ManifestError::MissingTargetName { section } => ManifestErrorView::MissingTargetName {
                section: *section,
            },
            ManifestError::HyphenInLibraryName { name } => ManifestErrorView::HyphenInLibraryName {
                name: name@,
            },
            ManifestError::PluginAndProcMacro => ManifestErrorView::PluginAndProcMacro,
            ManifestError::ForbiddenBinaryName { name } => ManifestErrorView::ForbiddenBinaryName {
                name: name@,
            },
            ManifestError::DuplicateTargetName {
                section,
                name,
            } => ManifestErrorView::DuplicateTargetName { section: *section, name: name@ },
            ManifestError::NoTargets => ManifestErrorView::NoTargets,
            ManifestError::InvalidGitUrl { dependency, url } => ManifestErrorView::InvalidGitUrl {
                dependency: dependency@,
                url: url@,
            },
            ManifestError::RelativePath { dependency, path } => ManifestErrorView::RelativePath {
                dependency: dependency@,
                path: path@,
            },
            ManifestError::InvalidVersionReq {
                dependency,
                requirement,
            } => ManifestErrorView::InvalidVersionReq {
                dependency: dependency@,
                requirement: requirement@,
            },
            ManifestError::InvalidPlatform { platform } => ManifestErrorView::InvalidPlatform {
                platform: platform@,
            },
            ManifestError::ConflictingSources {
                dependency,
            } => ManifestErrorView::ConflictingSources { dependency: dependency@ },
            ManifestError::BothWorkspaces => ManifestErrorView::BothWorkspaces,
            ManifestError::InvalidReplacementSpec {
                spec,
            } => ManifestErrorView::InvalidReplacementSpec { spec: spec@ },
            ManifestError::ReplacementWithVersionReq {
                spec,
            } => ManifestErrorView::ReplacementWithVersionReq { spec: spec@ },
            ManifestError::ReplacementWithoutVersion {
                spec,
            } => ManifestErrorView::ReplacementWithoutVersion { spec: spec@ },
            ManifestError::VirtualDefines { section } => ManifestErrorView::VirtualDefines {
                section: *section,
            },
            ManifestError::VirtualWithoutWorkspace => ManifestErrorView::VirtualWithoutWorkspace,
        }
    }
}

/// Something in a manifest that is accepted for now.
#[derive(Debug)]
pub enum Warning {
    /// A key of the document that no field took.
    UnusedKey { name: String },
    /// Two targets have the source file.
    DuplicateSourcePath { path: String },
    /// The dependency gives neither a version nor a path nor a repository.
    DependencyWithoutSource { dependency: String },
    /// The key is set on a dependency without `git`.
    IgnoredGitKey { key: GitKey, dependency: String },
    /// The dependency gives both `git` and `path`; the path is ignored.
    GitAndPath { dependency: String },
    /// The dependency gives more than one of `branch`, `tag` and `rev`.
    SeveralGitReferences { dependency: String },
    /// The version requirement is of a form that will be rejected later.
    DeprecatedVersionReq { dependency: String, requirement: String },
    /// Both `license` and `license-file` are set.
    RedundantLicense,
    /// The document only parses without a newline after a table header.
    MissingNewlineAfterTable { file: String },
}

/// The mathematical view of [`Warning`].
pub enum WarningView {
    UnusedKey { name: Seq<char> },
    DuplicateSourcePath { path: Seq<char> },
    DependencyWithoutSource { dependency: Seq<char> },
    IgnoredGitKey { key: GitKey, dependency: Seq<char> },
    GitAndPath { dependency: Seq<char> },
    SeveralGitReferences { dependency: Seq<char> },
    DeprecatedVersionReq { dependency: Seq<char>, requirement: Seq<char> },
    RedundantLicense,
    MissingNewlineAfterTable { file: Seq<char> },
}

impl View for Warning {
    type V = WarningView;

    open spec fn view(&self) -> WarningView {
        match self {
            Warning::UnusedKey { name } => WarningView::UnusedKey { name: name@ },
            Warning::DuplicateSourcePath { path } => WarningView::DuplicateSourcePath {
                path: path@,
            },
            Warning::DependencyWithoutSource {
                dependency,
            } => WarningView::DependencyWithoutSource { dependency: dependency@ },
            Warning::IgnoredGitKey { key, dependency } => WarningView::IgnoredGitKey {
                key: *key,
                dependency: dependency@,
            },
            Warning::GitAndPath { dependency } => WarningView::GitAndPath {
                dependency: dependency@,
            },
            Warning::SeveralGitReferences { dependency } => WarningView::SeveralGitReferences {
                dependency: dependency@,
            },
            Warning::DeprecatedVersionReq {
                dependency,
                requirement,
            } => WarningView::DeprecatedVersionReq {
                dependency: dependency@,
                requirement: requirement@,
            },
            Warning::RedundantLicense => WarningView::RedundantLicense,
            Warning::MissingNewlineAfterTable {
                file,
            } => WarningView::MissingNewlineAfterTable { file: file@ },
        }
    }
}

impl DeepView for Warning {
    type V = WarningView;

    open spec fn deep_view(&self) -> WarningView {
        self@
    }
}

} // verus!
