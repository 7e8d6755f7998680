//! The manifest document as decoded: every section and key optional, both
//! spellings of a key kept apart, nothing validated yet.

use crate::dependency::{TomlDependency, TomlDependencyView};
use crate::error::ManifestError;
use crate::normalize::{find_duplicate, lemma_first_duplicate};
use crate::package_id::{PackageId, PackageIdView};
use crate::profile::{TomlProfiles, TomlProfilesView};
use crate::source::SourceId;
use crate::target::{TomlTarget, TomlTargetView};
use crate::version::{TomlVersion, VersionView};
use vstd::prelude::*;
use vstd::string::*;

verus! {

/// The `build` key of a package: whether there is a build script, or where
/// it is.
#[derive(Debug)]
pub enum StringOrBool {
    String(String),
    Bool(bool),
}

/// The mathematical view of [`StringOrBool`].
pub enum StringOrBoolView {
    String(Seq<char>),
    Bool(bool),
}

impl View for StringOrBool {
    type V = StringOrBoolView;

    open spec fn view(&self) -> StringOrBoolView {
        match self {
            StringOrBool::String(s) => StringOrBoolView::String(s@),
            StringOrBool::Bool(b) => StringOrBoolView::Bool(*b),
        }
    }
}

impl DeepView for StringOrBool {
    type V = StringOrBoolView;

    open spec fn deep_view(&self) -> StringOrBoolView {
        self@
    }
}

impl StringOrBool {
    /// A `build` key that names the build script.
    pub fn from_text(s: &str) -> (r: StringOrBool)
        ensures
            r@ == StringOrBoolView::String(s@),
    {
        StringOrBool::String(String::from_str(s))
    }

    /// A `build` key that switches the build script on or off.
    pub fn from_bool(b: bool) -> (r: StringOrBool)
        ensures
            r@ == StringOrBoolView::Bool(b),
    {
        StringOrBool::Bool(b)
    }
}

/// The `[package]` or `[project]` section.
#[derive(Debug)]
pub struct TomlProject {
    pub name: String,
    pub version: TomlVersion,
    pub authors: Option<Vec<String>>,
    pub build: Option<StringOrBool>,
    pub links: Option<String>,
    pub exclude: Option<Vec<String>>,
    pub included: Option<Vec<String>>,
    pub publish: Option<bool>,
    pub workspace: Option<String>,
    pub description: Option<String>,
    pub homepage: Option<String>,
    pub documentation: Option<String>,
    pub readme: Option<String>,
    pub keywords: Option<Vec<String>>,
    pub categories: Option<Vec<String>>,
    pub license: Option<String>,
    /// `license-file`.
    pub license_file: Option<String>,
    pub repository: Option<String>,
}

/// The mathematical view of [`TomlProject`].
pub struct TomlProjectView {
    pub name: Seq<char>,
    pub version: VersionView,
    pub authors: Option<Seq<Seq<char>>>,
    pub build: Option<StringOrBoolView>,
    pub links: Option<Seq<char>>,
    pub exclude: Option<Seq<Seq<char>>>,
    pub included: Option<Seq<Seq<char>>>,
    pub publish: Option<bool>,
    pub workspace: Option<Seq<char>>,
    pub description: Option<Seq<char>>,
    pub homepage: Option<Seq<char>>,
    pub documentation: Option<Seq<char>>,
    pub readme: Option<Seq<char>>,
    pub keywords: Option<Seq<Seq<char>>>,
    pub categories: Option<Seq<Seq<char>>>,
    pub license: Option<Seq<char>>,
    pub license_file: Option<Seq<char>>,
    pub repository: Option<Seq<char>>,
}

impl View for TomlProject {
    type V = TomlProjectView;

    open spec fn view(&self) -> TomlProjectView {
        TomlProjectView {
            name: self.name@,
            version: self.version@,
            authors: self.authors.deep_view(),
            build: self.build.deep_view(),
            links: self.links.deep_view(),
            exclude: self.exclude.deep_view(),
            included: self.included.deep_view(),
            publish: self.publish,
            workspace: self.workspace.deep_view(),
            description: self.description.deep_view(),
            homepage: self.homepage.deep_view(),
            documentation: self.documentation.deep_view(),
            readme: self.readme.deep_view(),
            keywords: self.keywords.deep_view(),
            categories: self.categories.deep_view(),
            license: self.license.deep_view(),
            license_file: self.license_file.deep_view(),
            repository: self.repository.deep_view(),
        }
    }
}

impl DeepView for TomlProject {
    type V = TomlProjectView;

    open spec fn deep_view(&self) -> TomlProjectView {
        self@
    }
}

impl TomlProject {
    /// The identity of the package, which comes from `source_id`. It is
    /// always there: the version was validated when it was decoded.
    pub fn to_package_id(&self, source_id: &SourceId) -> (r: Result<PackageId, ManifestError>)
        ensures
            r matches Ok(id) && id@ == (PackageIdView {
                name: self@.name,
                version: self@.version,
                source_id: source_id@,
            }),
    {
        Ok(PackageId::new(self.name.as_str(), self.version.version.clone(), source_id))
    }
}

/// The `[workspace]` section.
#[derive(Debug, Default)]
pub struct TomlWorkspace {
    pub members: Option<Vec<String>>,
    pub exclude: Option<Vec<String>>,
}

/// The mathematical view of [`TomlWorkspace`].
pub struct TomlWorkspaceView {
    pub members: Option<Seq<Seq<char>>>,
    pub exclude: Option<Seq<Seq<char>>>,
}

impl View for TomlWorkspace {
    type V = TomlWorkspaceView;

    open spec fn view(&self) -> TomlWorkspaceView {
        TomlWorkspaceView {
            members: self.members.deep_view(),
            exclude: self.exclude.deep_view(),
        }
    }
}

impl DeepView for TomlWorkspace {
    type V = TomlWorkspaceView;

    open spec fn deep_view(&self) -> TomlWorkspaceView {
        self@
    }
}

/// A table of dependencies: names with declarations, in document order.
/// A table that was decoded from a document holds each name once.
pub type DependencyTable = Vec<(String, TomlDependency)>;

/// The view of a table of dependencies.
pub type DependencyTableView = Seq<(Seq<char>, TomlDependencyView)>;

/// A table of lists of strings, by name.
pub type StringLists = Vec<(String, Vec<String>)>;

/// The badges of a package: for each badge its attributes.
pub type Badges = Vec<(String, Vec<(String, String)>)>;

/// One `[target.<platform>]` section.
#[derive(Debug, Default)]
pub struct TomlPlatform {
    pub dependencies: Option<DependencyTable>,
    /// `build-dependencies`.
    pub build_dependencies: Option<DependencyTable>,
    /// `build_dependencies`.
    pub build_dependencies2: Option<DependencyTable>,
    /// `dev-dependencies`.
    pub dev_dependencies: Option<DependencyTable>,
    /// `dev_dependencies`.
    pub dev_dependencies2: Option<DependencyTable>,
}

/// The mathematical view of [`TomlPlatform`].
pub struct TomlPlatformView {
    pub dependencies: Option<DependencyTableView>,
    pub build_dependencies: Option<DependencyTableView>,
    pub build_dependencies2: Option<DependencyTableView>,
    pub dev_dependencies: Option<DependencyTableView>,
    pub dev_dependencies2: Option<DependencyTableView>,
}

impl View for TomlPlatform {
    type V = TomlPlatformView;

    open spec fn view(&self) -> TomlPlatformView {
        TomlPlatformView {
            dependencies: self.dependencies.deep_view(),
            build_dependencies: self.build_dependencies.deep_view(),
            build_dependencies2: self.build_dependencies2.deep_view(),
            dev_dependencies: self.dev_dependencies.deep_view(),
            dev_dependencies2: self.dev_dependencies2.deep_view(),
        }
    }
}

impl DeepView for TomlPlatform {
    type V = TomlPlatformView;

    open spec fn deep_view(&self) -> TomlPlatformView {
        self@
    }
}

/// `first` where it is there, else `second`.
pub open spec fn either<T>(first: Option<T>, second: Option<T>) -> Option<T> {
    if first is Some {
        first
    } else {
        second
    }
}

impl TomlPlatformView {
    /// `build-dependencies`, or else `build_dependencies`.
    pub open spec fn build_deps(self) -> Option<DependencyTableView> {
        either(self.build_dependencies, self.build_dependencies2)
    }

    /// `dev-dependencies`, or else `dev_dependencies`.
    pub open spec fn dev_deps(self) -> Option<DependencyTableView> {
        either(self.dev_dependencies, self.dev_dependencies2)
    }
}

/// The whole manifest document.
#[derive(Debug, Default)]
pub struct TomlManifest {
    pub package: Option<TomlProject>,
    pub project: Option<TomlProject>,
    pub profile: Option<TomlProfiles>,
    pub lib: Option<TomlTarget>,
    pub bin: Option<Vec<TomlTarget>>,
    pub example: Option<Vec<TomlTarget>>,
    pub test: Option<Vec<TomlTarget>>,
    pub bench: Option<Vec<TomlTarget>>,
    pub dependencies: Option<DependencyTable>,
    /// `dev-dependencies`.
    pub dev_dependencies: Option<DependencyTable>,
    /// `dev_dependencies`.
    pub dev_dependencies2: Option<DependencyTable>,
    /// `build-dependencies`.
    pub build_dependencies: Option<DependencyTable>,
    /// `build_dependencies`.
    pub build_dependencies2: Option<DependencyTable>,
    pub features: Option<StringLists>,
    pub target: Option<Vec<(String, TomlPlatform)>>,
    pub replace: Option<DependencyTable>,
    pub workspace: Option<TomlWorkspace>,
    pub badges: Option<Badges>,
}

/// The mathematical view of [`TomlManifest`].
pub struct TomlManifestView {
    pub package: Option<TomlProjectView>,
    pub project: Option<TomlProjectView>,
    pub profile: Option<TomlProfilesView>,
    pub lib: Option<TomlTargetView>,
    pub bin: Option<Seq<TomlTargetView>>,
    pub example: Option<Seq<TomlTargetView>>,
    pub test: Option<Seq<TomlTargetView>>,
    pub bench: Option<Seq<TomlTargetView>>,
    pub dependencies: Option<DependencyTableView>,
    pub dev_dependencies: Option<DependencyTableView>,
    pub dev_dependencies2: Option<DependencyTableView>,
    pub build_dependencies: Option<DependencyTableView>,
    pub build_dependencies2: Option<DependencyTableView>,
    pub features: Option<Seq<(Seq<char>, Seq<Seq<char>>)>>,
    pub target: Option<Seq<(Seq<char>, TomlPlatformView)>>,
    pub replace: Option<DependencyTableView>,
    pub workspace: Option<TomlWorkspaceView>,
    pub badges: Option<Seq<(Seq<char>, Seq<(Seq<char>, Seq<char>)>)>>,
}

impl View for TomlManifest {
    type V = TomlManifestView;

    open spec fn view(&self) -> TomlManifestView {
        TomlManifestView {
            package: self.package.deep_view(),
            project: self.project.deep_view(),
            profile: self.profile.deep_view(),
            lib: self.lib.deep_view(),
            bin: self.bin.deep_view(),
            example: self.example.deep_view(),
            test: self.test.deep_view(),
            bench: self.bench.deep_view(),
            dependencies: self.dependencies.deep_view(),
            dev_dependencies: self.dev_dependencies.deep_view(),
            dev_dependencies2: self.dev_dependencies2.deep_view(),
            build_dependencies: self.build_dependencies.deep_view(),
            build_dependencies2: self.build_dependencies2.deep_view(),
            features: self.features.deep_view(),
            target: self.target.deep_view(),
            replace: self.replace.deep_view(),
            workspace: self.workspace.deep_view(),
            badges: self.badges.deep_view(),
        }
    }
}

impl TomlManifestView {
    /// The section that describes the package: `[project]`, else
    /// `[package]`.
    pub open spec fn project_section(self) -> Option<TomlProjectView> {
        either(self.project, self.package)
    }

    /// `dev-dependencies`, or else `dev_dependencies`.
    pub open spec fn dev_deps(self) -> Option<DependencyTableView> {
        either(self.dev_dependencies, self.dev_dependencies2)
    }

    /// `build-dependencies`, or else `build_dependencies`.
    pub open spec fn build_deps(self) -> Option<DependencyTableView> {
        either(self.build_dependencies, self.build_dependencies2)
    }
}

/// The keys of a table that is held as a list of entries.
pub open spec fn keys_of<T>(table: Seq<(String, T)>) -> Seq<Seq<char>> {
    Seq::new(table.len(), |i: int| table[i].0@)
}

/// A table holds each key once.
pub open spec fn distinct_keys<T>(table: Option<Vec<(String, T)>>) -> bool {
    match table {
        Some(t) => keys_of(t@).no_duplicates(),
        None => true,
    }
}

/// Whether the table holds each key once.
pub fn has_distinct_keys<T>(table: &Option<Vec<(String, T)>>) -> (r: bool)
    ensures
        r == distinct_keys(*table),
{
    let t = match table {
        Some(t) => t,
        None => {
            return true;
        },
    };
    let mut keys: Vec<String> = Vec::new();
    let mut i: usize = 0;
    while i < t.len()
        invariant
            i <= t.len(),
            keys.len() == i,
            forall|k: int| 0 <= k < i ==> keys[k]@ == t[k].0@,
        decreases t.len() - i,
    {
        keys.push(t[i].0.clone());
        i += 1;
    }
    assert(keys.deep_view() =~= keys_of(t@));
    proof {
        lemma_first_duplicate(keys.deep_view());
    }
    find_duplicate(&keys).is_none()
}

impl TomlPlatform {
    /// Each table of the section holds each name once.
    pub open spec fn distinct_keys(&self) -> bool {
        &&& distinct_keys(self.dependencies)
        &&& distinct_keys(self.build_dependencies)
        &&& distinct_keys(self.build_dependencies2)
        &&& distinct_keys(self.dev_dependencies)
        &&& distinct_keys(self.dev_dependencies2)
    }

    /// Whether each table holds each key once.
    pub fn has_distinct_keys(&self) -> (r: bool)
        ensures
            r == self.distinct_keys(),
    {
        has_distinct_keys(&self.dependencies) && has_distinct_keys(&self.build_dependencies)
            && has_distinct_keys(&self.build_dependencies2) && has_distinct_keys(
            &self.dev_dependencies,
        ) && has_distinct_keys(&self.dev_dependencies2)
    }
}

impl TomlManifest {
    /// Each table of the document holds each key once, as the tables of a
    /// document do. Interpretation does not rely on it.
    pub open spec fn distinct_keys(&self) -> bool {
        &&& distinct_keys(self.dependencies)
        &&& distinct_keys(self.dev_dependencies)
        &&& distinct_keys(self.dev_dependencies2)
        &&& distinct_keys(self.build_dependencies)
        &&& distinct_keys(self.build_dependencies2)
        &&& distinct_keys(self.features)
        &&& distinct_keys(self.replace)
        &&& distinct_keys(self.badges)
        &&& distinct_keys(self.target)
        &&& self.target matches Some(sections) ==> forall|i: int|
            0 <= i < sections.len() ==> (#[trigger] sections[i]).1.distinct_keys()
    }

    /// Whether each table holds each key once.
    pub fn has_distinct_keys(&self) -> (r: bool)
        ensures
            r == self.distinct_keys(),
    {
        if !(has_distinct_keys(&self.dependencies) && has_distinct_keys(&self.dev_dependencies)
            && has_distinct_keys(&self.dev_dependencies2) && has_distinct_keys(
            &self.build_dependencies,
        ) && has_distinct_keys(&self.build_dependencies2) && has_distinct_keys(&self.features)
            && has_distinct_keys(&self.replace) && has_distinct_keys(&self.badges)
            && has_distinct_keys(&self.target)) {
            return false;
        }
        match &self.target {
            Some(sections) => {
                let mut i: usize = 0;
                while i < sections.len()
                    invariant
                        i <= sections.len(),
                        self.target == Some(*sections),
                        forall|k: int| 0 <= k < i ==> (#[trigger] sections[k]).1.distinct_keys(),
                    decreases sections.len() - i,
                {
                    if !sections[i].1.has_distinct_keys() {
                        assert(!sections[i as int].1.distinct_keys());
                        return false;
                    }
                    i += 1;
                }
                true
            },
            None => true,
        }
    }
}

} // verus!
