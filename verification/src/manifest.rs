//! The canonical description of a package, or of a workspace root without
//! a package.

use crate::build_target::{Target, TargetView};
use crate::dependency::{Dependency, DependencyView};
use crate::document::{Badges, StringLists};
use crate::error::{Warning, WarningView};
use crate::package_id::{PackageId, PackageIdSpec, PackageIdSpecView, PackageIdView};
use crate::profile::{Profiles, ProfilesView};
use vstd::prelude::*;

verus! {

/// How a manifest relates to a workspace.
#[derive(Debug)]
pub enum WorkspaceConfig {
    /// It is the root of one, with these members and exclusions.
    Root { members: Option<Vec<String>>, exclude: Vec<String> },
    /// It is a member of one, perhaps naming the root's directory.
    Member { root: Option<String> },
}

/// The mathematical view of [`WorkspaceConfig`].
pub enum WorkspaceConfigView {
    Root { members: Option<Seq<Seq<char>>>, exclude: Seq<Seq<char>> },
    Member { root: Option<Seq<char>> },
}

impl View for WorkspaceConfig {
    type V = WorkspaceConfigView;

    open spec fn view(&self) -> WorkspaceConfigView {
        match self {
            WorkspaceConfig::Root { members, exclude } => WorkspaceConfigView::Root {
                members: members.deep_view(),
                exclude: exclude.deep_view(),
            },
            WorkspaceConfig::Member { root } => WorkspaceConfigView::Member {
                root: root.deep_view(),
            },
        }
    }
}

/// What a package says of itself.
#[derive(Debug)]
pub struct ManifestMetadata {
    pub authors: Vec<String>,
    pub keywords: Vec<String>,
    pub categories: Vec<String>,
    pub license: Option<String>,
    pub license_file: Option<String>,
    pub description: Option<String>,
    pub readme: Option<String>,
    pub homepage: Option<String>,
    pub repository: Option<String>,
    pub documentation: Option<String>,
    pub badges: Badges,
}

/// The mathematical view of [`ManifestMetadata`].
pub struct ManifestMetadataView {
    pub authors: Seq<Seq<char>>,
    pub keywords: Seq<Seq<char>>,
    pub categories: Seq<Seq<char>>,
    pub license: Option<Seq<char>>,
    pub license_file: Option<Seq<char>>,
    pub description: Option<Seq<char>>,
    pub readme: Option<Seq<char>>,
    pub homepage: Option<Seq<char>>,
    pub repository: Option<Seq<char>>,
    pub documentation: Option<Seq<char>>,
    pub badges: Seq<(Seq<char>, Seq<(Seq<char>, Seq<char>)>)>,
}

impl View for ManifestMetadata {
    type V = ManifestMetadataView;

    open spec fn view(&self) -> ManifestMetadataView {
        ManifestMetadataView {
            authors: self.authors.deep_view(),
            keywords: self.keywords.deep_view(),
            categories: self.categories.deep_view(),
            license: self.license.deep_view(),
            license_file: self.license_file.deep_view(),
            description: self.description.deep_view(),
            readme: self.readme.deep_view(),
            homepage: self.homepage.deep_view(),
            repository: self.repository.deep_view(),
            documentation: self.documentation.deep_view(),
            badges: self.badges.deep_view(),
        }
    }
}

/// A replacement: the packages to replace, and what replaces them.
pub type Replacements = Vec<(PackageIdSpec, Dependency)>;

/// The view of a list of replacements.
pub type ReplacementsView = Seq<(PackageIdSpecView, DependencyView)>;

/// The validated description of a package.
#[derive(Debug)]
pub struct Manifest {
    pub package_id: PackageId,
    pub dependencies: Vec<Dependency>,
    pub features: StringLists,
    pub targets: Vec<Target>,
    pub exclude: Vec<String>,
    pub included: Vec<String>,
    pub links: Option<String>,
    pub metadata: ManifestMetadata,
    pub profiles: Profiles,
    pub publish: bool,
    pub replace: Replacements,
    pub workspace: WorkspaceConfig,
    pub warnings: Vec<Warning>,
}

/// The mathematical view of [`Manifest`].
pub struct ManifestView {
    pub package_id: PackageIdView,
    pub dependencies: Seq<DependencyView>,
    pub features: Seq<(Seq<char>, Seq<Seq<char>>)>,
    pub targets: Seq<TargetView>,
    pub exclude: Seq<Seq<char>>,
    pub included: Seq<Seq<char>>,
    pub links: Option<Seq<char>>,
    pub metadata: ManifestMetadataView,
    pub profiles: ProfilesView,
    pub publish: bool,
    pub replace: ReplacementsView,
    pub workspace: WorkspaceConfigView,
    pub warnings: Seq<WarningView>,
}

impl View for Manifest {
    type V = ManifestView;

    open spec fn view(&self) -> ManifestView {
        ManifestView {
            package_id: self.package_id@,
            dependencies: self.dependencies.deep_view(),
            features: self.features.deep_view(),
            targets: self.targets.deep_view(),
            exclude: self.exclude.deep_view(),
            included: self.included.deep_view(),
            links: self.links.deep_view(),
            metadata: self.metadata@,
            profiles: self.profiles@,
            publish: self.publish,
            replace: self.replace.deep_view(),
            workspace: self.workspace@,
            warnings: self.warnings.deep_view(),
        }
    }
}

impl Manifest {
    /// Adds a warning behind those that are there.
    pub fn add_warning(&mut self, warning: Warning)
        ensures
            final(self)@ == (ManifestView {
                warnings: old(self)@.warnings.push(warning@),
                ..old(self)@
            }),
    {
        let ghost before = self.warnings.deep_view();
        self.warnings.push(warning);
        assert(self.warnings.deep_view() =~= before.push(warning@));
    }
}

/// The description of a workspace root that is no package.
#[derive(Debug)]
pub struct VirtualManifest {
    pub replace: Replacements,
    pub workspace: WorkspaceConfig,
    pub profiles: Profiles,
}

/// The mathematical view of [`VirtualManifest`].
pub struct VirtualManifestView {
    pub replace: ReplacementsView,
    pub workspace: WorkspaceConfigView,
    pub profiles: ProfilesView,
}

impl View for VirtualManifest {
    type V = VirtualManifestView;

    open spec fn view(&self) -> VirtualManifestView {
        VirtualManifestView {
            replace: self.replace.deep_view(),
            workspace: self.workspace@,
            profiles: self.profiles@,
        }
    }
}

/// What a manifest describes.
#[derive(Debug)]
pub enum EitherManifest {
    Real(Manifest),
    Virtual(VirtualManifest),
}

/// The mathematical view of [`EitherManifest`].
pub enum EitherManifestView {
    Real(ManifestView),
    Virtual(VirtualManifestView),
}

impl View for EitherManifest {
    type V = EitherManifestView;

    open spec fn view(&self) -> EitherManifestView {
        match self {
            EitherManifest::Real(m) => EitherManifestView::Real(m@),
            EitherManifest::Virtual(m) => EitherManifestView::Virtual(m@),
        }
    }
}

} // verus!
