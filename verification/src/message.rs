//! The words of failures and warnings.

use crate::error::{GitKey, ManifestError, ManifestErrorView, Section, Warning, WarningView};
use crate::text::concat;
use vstd::prelude::*;
use vstd::string::*;

verus! {

/// The kind of target that a section declares, as failures name it.
pub open spec fn target_word(section: Section) -> Seq<char> {
    match section {
        Section::Project => "project"@,
        Section::Package => "package"@,
        Section::Lib => "library"@,
        Section::Bin => "binary"@,
        Section::Example => "example"@,
        Section::Test => "test"@,
        Section::Bench => "bench"@,
    }
}

/// The key of a section in the manifest.
pub open spec fn section_key(section: Section) -> Seq<char> {
    match section {
        Section::Project => "project"@,
        Section::Package => "package"@,
        Section::Lib => "lib"@,
        Section::Bin => "bin"@,
        Section::Example => "example"@,
        Section::Test => "test"@,
        Section::Bench => "bench"@,
    }
}

/// The header of a section as it stands in a manifest.
pub open spec fn section_header(section: Section) -> Seq<char> {
    match section {
        Section::Project => "[project]"@,
        Section::Package => "[package]"@,
        Section::Lib => "[lib]"@,
        Section::Bin => "[[bin]]"@,
        Section::Example => "[[example]]"@,
        Section::Test => "[[test]]"@,
        Section::Bench => "[[bench]]"@,
    }
}

/// How the failure about an empty target name ends.
pub open spec fn empty_name_end(section: Section) -> Seq<char> {
    match section {
        Section::Lib | Section::Bin => " target names cannot be empty."@,
        _ => " target names cannot be empty"@,
    }
}

/// How the failure about a section in a manifest without a package starts.
pub open spec fn virtual_start(section: Section) -> Seq<char> {
    match section {
        Section::Project | Section::Package => "virtual manifests do not define "@,
        _ => "virtual manifests do not specifiy "@,
    }
}

/// The name of a key that only `git` gives a meaning.
pub open spec fn git_key_name(key: GitKey) -> Seq<char> {
    match key {
        GitKey::Branch => "branch"@,
        GitKey::Tag => "tag"@,
        GitKey::Rev => "rev"@,
    }
}

impl ManifestErrorView {
    /// The failure in words.
    pub open spec fn message(self) -> Seq<char> {
        match self {
            ManifestErrorView::TooDeeplyNested => "could not parse input as TOML: tables or values are nested too deeply"@,
            ManifestErrorView::InvalidToml { reason } => "could not parse input as TOML: "@
                + reason,
            ManifestErrorView::NoPackageSection => "no `package` or `project` section found."@,
            ManifestErrorView::EmptyPackageName => "package name cannot be an empty string."@,
            ManifestErrorView::InvalidVersion { version } => "cannot parse `"@ + version
                + "` as a semantic version"@,
            ManifestErrorView::InvalidOptLevel { level } => "must be an integer, `z`, or `s`, but found: "@
                + level,
            ManifestErrorView::EmptyTargetName { section } => target_word(section)
                + empty_name_end(section),
            ManifestErrorView::MissingTargetName { section } => target_word(section) + " target "@
                + section_key(section) + ".name is required"@,
            ManifestErrorView::HyphenInLibraryName { name } => "library target names cannot contain hyphens: "@
                + name,
            ManifestErrorView::PluginAndProcMacro => "lib.plugin and lib.proc-macro cannot both be true"@,
            ManifestErrorView::ForbiddenBinaryName { name } => "the binary target name `"@ + name
                + "` is forbidden"@,
            ManifestErrorView::DuplicateTargetName { section, name } => "found duplicate "@
                + target_word(section) + " name "@ + name
                + ", but all binary targets must have a unique name"@,
            ManifestErrorView::NoTargets => "no targets specified in the manifest\n  either src/lib.rs, src/main.rs, a [lib] section, or [[bin]] section must be present"@,
            ManifestErrorView::InvalidGitUrl { dependency, url } => "invalid url `"@ + url
                + "` for dependency ("@ + dependency + ")"@,
            ManifestErrorView::RelativePath { dependency, path } => "invalid path url `"@ + path
                + "` for dependency ("@ + dependency + ")"@,
            ManifestErrorView::InvalidVersionReq {
                dependency,
                requirement,
            } => "the version requirement `"@ + requirement + "` of dependency ("@ + dependency
                + ") is invalid"@,
            ManifestErrorView::InvalidPlatform { platform } => "failed to parse `"@ + platform
                + "` as a cfg expression"@,
            ManifestErrorView::ConflictingSources { dependency } => "Dependency '"@ + dependency
                + "' has different source paths depending on the build target. Each dependency must have a single canonical source path irrespective of build target."@,
            ManifestErrorView::BothWorkspaces => "cannot configure both `package.workspace` and `[workspace]`, only one can be specified"@,
            ManifestErrorView::InvalidReplacementSpec {
                spec,
            } => "replacements must specify a valid semver version to replace, but `"@ + spec
                + "` does not"@,
            ManifestErrorView::ReplacementWithVersionReq {
                spec,
            } => "replacements cannot specify a version requirement, but found one for `"@ + spec
                + "`"@,
            ManifestErrorView::ReplacementWithoutVersion {
                spec,
            } => "replacements must specify a version to replace, but `"@ + spec + "` does not"@,
            ManifestErrorView::VirtualDefines { section } => virtual_start(section)
                + section_header(section),
            ManifestErrorView::VirtualWithoutWorkspace => "virtual manifests must be configured with [workspace]"@,
        }
    }
}

impl WarningView {
    /// The warning in words.
    pub open spec fn message(self) -> Seq<char> {
        match self {
            WarningView::UnusedKey { name } => "unused manifest key: "@ + name,
            WarningView::DuplicateSourcePath { path } => "file found to be present in multiple build targets: "@
                + path,
            WarningView::DependencyWithoutSource { dependency } => "dependency ("@ + dependency
                + ") specified without providing a local path, Git repository, or version to use. This will be considered an error in future versions"@,
            WarningView::IgnoredGitKey { key, dependency } => "key `"@ + git_key_name(key)
                + "` is ignored for dependency ("@ + dependency
                + "). This will be considered an error in future versions"@,
            WarningView::GitAndPath { dependency } => "dependency ("@ + dependency
                + ") specification is ambiguous. Only one of `git` or `path` is allowed. This will be considered an error in future versions"@,
            WarningView::SeveralGitReferences { dependency } => "dependency ("@ + dependency
                + ") specification is ambiguous. Only one of `branch`, `tag` or `rev` is allowed. This will be considered an error in future versions"@,
            WarningView::DeprecatedVersionReq { dependency, requirement } => "the version requirement `"@
                + requirement + "` of dependency ("@ + dependency
                + ") is malformed; it is accepted for now and will be rejected in future versions"@,
            WarningView::RedundantLicense => "only one of `license` or `license-file` is necessary"@,
            WarningView::MissingNewlineAfterTable { file } => "TOML file found which contains invalid syntax and will soon not parse\nat `"@
                + file
                + "`.\n\nThe TOML spec requires newlines after table definitions (e.g. `[a] b = 1` is\ninvalid), but this file has a table header which does not have a newline after\nit. A newline needs to be added and this warning will soon become a hard error\nin the future."@,
        }
    }
}

fn word_of(section: Section) -> (r: &'static str)
    ensures
        r@ == target_word(section),
{
    match section {
        Section::Project => "project",
        Section::Package => "package",
        Section::Lib => "library",
        Section::Bin => "binary",
        Section::Example => "example",
        Section::Test => "test",
        Section::Bench => "bench",
    }
}

fn key_of(section: Section) -> (r: &'static str)
    ensures
        r@ == section_key(section),
{
    match section {
        Section::Project => "project",
        Section::Package => "package",
        Section::Lib => "lib",
        Section::Bin => "bin",
        Section::Example => "example",
        Section::Test => "test",
        Section::Bench => "bench",
    }
}

fn header_of(section: Section) -> (r: &'static str)
    ensures
        r@ == section_header(section),
{
    match section {
        Section::Project => "[project]",
        Section::Package => "[package]",
        Section::Lib => "[lib]",
        Section::Bin => "[[bin]]",
        Section::Example => "[[example]]",
        Section::Test => "[[test]]",
        Section::Bench => "[[bench]]",
    }
}

fn git_key_of(key: GitKey) -> (r: &'static str)
    ensures
        r@ == git_key_name(key),
{
    match key {
        GitKey::Branch => "branch",
        GitKey::Tag => "tag",
        GitKey::Rev => "rev",
    }
}

fn around(before: &str, middle: &str, after: &str) -> (r: String)
    ensures
        r@ == before@ + middle@ + after@,
{
    concat(before, middle).concat(after)
}

fn around_two(a: &str, x: &str, b: &str, y: &str, c: &str) -> (r: String)
    ensures
        r@ == a@ + x@ + b@ + y@ + c@,
{
    concat(a, x).concat(b).concat(y).concat(c)
}

impl ManifestError {
    /// The failure in words.
    pub fn message(&self) -> (r: String)
        ensures
            r@ == self@.message(),
    {
        match self {
            ManifestError::TooDeeplyNested => String::from_str(
                "could not parse input as TOML: tables or values are nested too deeply",
            ),
            ManifestError::InvalidToml { reason } => concat(
                "could not parse input as TOML: ",
                reason.as_str(),
            ),
            ManifestError::NoPackageSection => String::from_str(
                "no `package` or `project` section found.",
            ),
            ManifestError::EmptyPackageName => String::from_str(
                "package name cannot be an empty string.",
            ),
            ManifestError::InvalidVersion { version } => around(
                "cannot parse `",
                version.as_str(),
                "` as a semantic version",
            ),
            ManifestError::InvalidOptLevel { level } => concat(
                "must be an integer, `z`, or `s`, but found: ",
                level.as_str(),
            ),
            ManifestError::EmptyTargetName { section } => concat(
                word_of(*section),
                match section {
                    Section::Lib | Section::Bin => " target names cannot be empty.",
                    _ => " target names cannot be empty",
                },
            ),
            ManifestError::MissingTargetName { section } => concat(
                word_of(*section),
                " target ",
            ).concat(key_of(*section)).concat(".name is required"),
            ManifestError::HyphenInLibraryName { name } => concat(
                "library target names cannot contain hyphens: ",
                name.as_str(),
            ),
            ManifestError::PluginAndProcMacro => String::from_str(
                "lib.plugin and lib.proc-macro cannot both be true",
            ),
            ManifestError::ForbiddenBinaryName { name } => around(
                "the binary target name `",
                name.as_str(),
                "` is forbidden",
            ),
            ManifestError::DuplicateTargetName { section, name } => around_two(
                "found duplicate ",
                word_of(*section),
                " name ",
                name.as_str(),
                ", but all binary targets must have a unique name",
            ),
            ManifestError::NoTargets => String::from_str(
                "no targets specified in the manifest\n  either src/lib.rs, src/main.rs, a [lib] section, or [[bin]] section must be present",
            ),
            ManifestError::InvalidGitUrl { dependency, url } => around_two(
                "invalid url `",
                url.as_str(),
                "` for dependency (",
                dependency.as_str(),
                ")",
            ),
            ManifestError::RelativePath { dependency, path } => around_two(
                "invalid path url `",
                path.as_str(),
                "` for dependency (",
                dependency.as_str(),
                ")",
            ),
            ManifestError::InvalidVersionReq { dependency, requirement } => around_two(
                "the version requirement `",
                requirement.as_str(),
                "` of dependency (",
                dependency.as_str(),
                ") is invalid",
            ),
            ManifestError::InvalidPlatform { platform } => around(
                "failed to parse `",
                platform.as_str(),
                "` as a cfg expression",
            ),
            ManifestError::ConflictingSources { dependency } => around(
                "Dependency '",
                dependency.as_str(),
                "' has different source paths depending on the build target. Each dependency must have a single canonical source path irrespective of build target.",
            ),
            ManifestError::BothWorkspaces => String::from_str(
                "cannot configure both `package.workspace` and `[workspace]`, only one can be specified",
            ),
            ManifestError::InvalidReplacementSpec { spec } => around(
                "replacements must specify a valid semver version to replace, but `",
                spec.as_str(),
                "` does not",
            ),
            ManifestError::ReplacementWithVersionReq { spec } => around(
                "replacements cannot specify a version requirement, but found one for `",
                spec.as_str(),
                "`",
            ),
            ManifestError::ReplacementWithoutVersion { spec } => around(
                "replacements must specify a version to replace, but `",
                spec.as_str(),
                "` does not",
            ),
            ManifestError::VirtualDefines { section } => concat(
                match section {
                    Section::Project | Section::Package => "virtual manifests do not define ",
                    _ => "virtual manifests do not specifiy ",
                },
                header_of(*section),
            ),
            ManifestError::VirtualWithoutWorkspace => String::from_str(
                "virtual manifests must be configured with [workspace]",
            ),
        }
    }
}

impl Warning {
    /// The warning in words.
    pub fn message(&self) -> (r: String)
        ensures
            r@ == self@.message(),
    {
        match self {
            Warning::UnusedKey { name } => concat("unused manifest key: ", name.as_str()),
            Warning::DuplicateSourcePath { path } => concat(
                "file found to be present in multiple build targets: ",
                path.as_str(),
            ),
            Warning::DependencyWithoutSource { dependency } => around(
                "dependency (",
                dependency.as_str(),
                ") specified without providing a local path, Git repository, or version to use. This will be considered an error in future versions",
            ),
            Warning::IgnoredGitKey { key, dependency } => around_two(
                "key `",
                git_key_of(*key),
                "` is ignored for dependency (",
                dependency.as_str(),
                "). This will be considered an error in future versions",
            ),
            Warning::GitAndPath { dependency } => around(
                "dependency (",
                dependency.as_str(),
                ") specification is ambiguous. Only one of `git` or `path` is allowed. This will be considered an error in future versions",
            ),
            Warning::SeveralGitReferences { dependency } => around(
                "dependency (",
                dependency.as_str(),
                ") specification is ambiguous. Only one of `branch`, `tag` or `rev` is allowed. This will be considered an error in future versions",
            ),
            Warning::DeprecatedVersionReq { dependency, requirement } => around_two(
                "the version requirement `",
                requirement.as_str(),
                "` of dependency (",
                dependency.as_str(),
                ") is malformed; it is accepted for now and will be rejected in future versions",
            ),
            Warning::RedundantLicense => String::from_str(
                "only one of `license` or `license-file` is necessary",
            ),
            Warning::MissingNewlineAfterTable { file } => around(
                "TOML file found which contains invalid syntax and will soon not parse\nat `",
                file.as_str(),
                "`.\n\nThe TOML spec requires newlines after table definitions (e.g. `[a] b = 1` is\ninvalid), but this file has a table header which does not have a newline after\nit. A newline needs to be added and this warning will soon become a hard error\nin the future.",
            ),
        }
    }
}

} // verus!
