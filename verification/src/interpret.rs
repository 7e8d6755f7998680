//! From the decoded document to the description of a package or of a
//! workspace root.

use crate::build_target::{Target, TargetView};
use crate::collect::{
    collect_dependencies, collected, replace, spec_all_tables, spec_replace, Collected,
};
use crate::dependency::{Ambient, Context, Dependency, DependencyView};
use crate::document::{
    StringOrBool, StringOrBoolView, TomlManifest, TomlManifestView, TomlProject, TomlProjectView,
    TomlWorkspace, TomlWorkspaceView,
};
use crate::error::{ManifestError, ManifestErrorView, Section, Warning, WarningView};
use crate::invariants::lemma_real_manifest_well_formed;
use crate::layout::{Layout, LayoutView};
use crate::manifest::{
    EitherManifest, EitherManifestView, Manifest, ManifestMetadata, ManifestMetadataView,
    ManifestView, ReplacementsView, VirtualManifest, VirtualManifestView, WorkspaceConfig,
    WorkspaceConfigView,
};
use crate::normalize::{
    first_duplicate, normalize, source_paths, spec_normalize, unique_build_targets,
};
use crate::package_id::PackageIdView;
use crate::path::{join, spec_join};
use crate::profile::{build_profiles, spec_build_profiles};
use crate::source::{SourceId, SourceIdView};
use crate::target::{check, outcome};
use crate::target_sets::{spec_target_sets, target_sets, TargetSetsView};
use crate::text::{
    clone_opt_text, clone_opt_texts, clone_pair_lists, clone_string_lists, clone_texts, is_blank,
    str_is_blank,
};
use vstd::prelude::*;
use vstd::string::*;

verus! {

/// Whether an earlier dependency of the list has the name of the one at
/// `j` and another source.
pub open spec fn conflicts_with_earlier(deps: Seq<DependencyView>, j: int) -> bool {
    exists|i: int|
        0 <= i < j && (#[trigger] deps[i]).name == deps[j].name && deps[i].source_id
            != deps[j].source_id
}

/// The name of the first dependency of the list that has another source
/// than an earlier dependency of its name.
pub open spec fn first_conflict(deps: Seq<DependencyView>) -> Option<Seq<char>>
    decreases deps.len(),
{
    if deps.len() == 0 {
        None
    } else {
        match first_conflict(deps.drop_last()) {
            Some(name) => Some(name),
            None => if conflicts_with_earlier(deps, deps.len() - 1) {
                Some(deps.last().name)
            } else {
                None
            },
        }
    }
}

/// Dependencies of one name have one source.
pub open spec fn consistent_sources(deps: Seq<DependencyView>) -> bool {
    forall|i: int, j: int|
        0 <= i < deps.len() && 0 <= j < deps.len() && (#[trigger] deps[i]).name == (
        #[trigger] deps[j]).name ==> deps[i].source_id == deps[j].source_id
}

/// There is a first conflict exactly when the sources are not consistent.
pub proof fn lemma_first_conflict(deps: Seq<DependencyView>)
    ensures
        first_conflict(deps) is None <==> consistent_sources(deps),
    decreases deps.len(),
{
    if deps.len() > 0 {
        let init = deps.drop_last();
        let last = deps.len() - 1;
        lemma_first_conflict(init);
        if first_conflict(init) is Some {
            let (a, b) = choose|a: int, b: int|
                0 <= a < init.len() && 0 <= b < init.len() && (#[trigger] init[a]).name == (
                #[trigger] init[b]).name && init[a].source_id != init[b].source_id;
            assert(deps[a] == init[a] && deps[b] == init[b]);
        } else if conflicts_with_earlier(deps, last) {
            let i = choose|i: int|
                0 <= i < last && (#[trigger] deps[i]).name == deps[last].name && deps[i].source_id
                    != deps[last].source_id;
            assert(deps[i].name == deps[last].name);
        } else {
            assert forall|i: int, j: int|
                0 <= i < deps.len() && 0 <= j < deps.len() && (#[trigger] deps[i]).name == (
                #[trigger] deps[j]).name implies deps[i].source_id == deps[j].source_id by {
                if i < last && j < last {
                    assert(init[i] == deps[i] && init[j] == deps[j]);
                }
            }
        }
    }
}

/// The failure that the first conflict of sources is.
pub open spec fn conflict_error(deps: Seq<DependencyView>) -> Option<ManifestErrorView> {
    match first_conflict(deps) {
        Some(name) => Some(ManifestErrorView::ConflictingSources { dependency: name }),
        None => None,
    }
}

/// Checks that dependencies of one name have one source.
pub fn check_sources(deps: &Vec<Dependency>) -> (r: Result<(), ManifestError>)
    ensures
        outcome(r) == check(conflict_error(deps.deep_view())),
        r is Ok <==> consistent_sources(deps.deep_view()),
{
    let ghost all = deps.deep_view();
    let mut j: usize = 0;
    assert(all.take(0) =~= Seq::empty());
    while j < deps.len()
        invariant
            j <= deps.len(),
            all == deps.deep_view(),
            first_conflict(all.take(j as int)) is None,
        decreases deps.len() - j,
    {
        let ghost upto = all.take(j + 1);
        proof {
            assert(upto.drop_last() =~= all.take(j as int));
        }
        let mut i: usize = 0;
        while i < j
            invariant
                i <= j < deps.len(),
                all == deps.deep_view(),
                upto == all.take(j + 1),
                upto.drop_last() == all.take(j as int),
                first_conflict(all.take(j as int)) is None,
                forall|k: int|
                    0 <= k < i ==> !((#[trigger] upto[k]).name == upto[j as int].name
                        && upto[k].source_id != upto[j as int].source_id),
            decreases j - i,
        {
            if deps[i].name == deps[j].name && !(deps[i].source_id == deps[j].source_id) {
                proof {
                    assert(upto[i as int] == deps[i as int]@);
                    assert(upto[j as int] == deps[j as int]@);
                    assert(conflicts_with_earlier(upto, j as int));
                    assert(first_conflict(upto) == Some(deps[j as int]@.name));
                    lemma_first_conflict_extends(all, j + 1);
                    lemma_first_conflict(all);
                }
                return Err(ManifestError::ConflictingSources { dependency: deps[j].name.clone() });
            }
            i += 1;
        }
        assert(!conflicts_with_earlier(upto, j as int));
        j += 1;
    }
    proof {
        assert(all.take(j as int) =~= all);
        lemma_first_conflict(all);
    }
    Ok(())
}

/// A conflict found in a prefix is the first conflict of the whole list.
proof fn lemma_first_conflict_extends(deps: Seq<DependencyView>, n: int)
    requires
        0 <= n <= deps.len(),
        first_conflict(deps.take(n)) is Some,
    ensures
        first_conflict(deps) == first_conflict(deps.take(n)),
    decreases deps.len() - n,
{
    if n < deps.len() {
        assert(deps.take(n + 1).drop_last() =~= deps.take(n));
        lemma_first_conflict_extends(deps, n + 1);
    } else {
        assert(deps.take(n) =~= deps);
    }
}

/// The build script of a package: none where `build` is false, the file
/// `build.rs` in the root where it is true, the file it names where it is
/// a string, and `build.rs` in the root if that is a file where the key is
/// missing.
pub open spec fn spec_maybe_custom_build(build: Option<StringOrBoolView>, layout: LayoutView) -> Option<
    Seq<char>,
> {
    match build {
        Some(StringOrBoolView::Bool(false)) => None,
        Some(StringOrBoolView::Bool(true)) => Some(spec_join(layout.root, "build.rs"@)),
        Some(StringOrBoolView::String(s)) => Some(s),
        None => if layout.build_script {
            Some(spec_join(layout.root, "build.rs"@))
        } else {
            None
        },
    }
}

/// The build script of a package, if it has one.
pub fn maybe_custom_build(build: &Option<StringOrBool>, layout: &Layout) -> (r: Option<String>)
    ensures
        r.deep_view() == spec_maybe_custom_build(build.deep_view(), layout@),
{
    match build {
        Some(StringOrBool::Bool(false)) => None,
        Some(StringOrBool::Bool(true)) => Some(join(layout.root.as_str(), "build.rs")),
        Some(StringOrBool::String(s)) => Some(s.clone()),
        None => if layout.build_script {
            Some(join(layout.root.as_str(), "build.rs"))
        } else {
            None
        },
    }
}

/// The list, or the empty list where there is none.
pub open spec fn list_or_empty<T>(list: Option<Seq<T>>) -> Seq<T> {
    match list {
        Some(l) => l,
        None => Seq::empty(),
    }
}

fn texts_or_empty(list: &Option<Vec<String>>) -> (r: Vec<String>)
    ensures
        r.deep_view() == list_or_empty(list.deep_view()),
{
    match list {
        Some(l) => clone_texts(l),
        None => {
            let v: Vec<String> = Vec::new();
            assert(v.deep_view() =~= Seq::empty());
            v
        },
    }
}

/// The workspace root that a `[workspace]` section describes.
pub open spec fn spec_workspace_root(ws: TomlWorkspaceView) -> WorkspaceConfigView {
    WorkspaceConfigView::Root { members: ws.members, exclude: list_or_empty(ws.exclude) }
}

/// How a package relates to a workspace: it is a root where it has a
/// `[workspace]` section, a member otherwise, and cannot both be a root
/// and name another root.
pub open spec fn spec_workspace(ws: Option<TomlWorkspaceView>, member_of: Option<Seq<char>>) -> Result<
    WorkspaceConfigView,
    ManifestErrorView,
> {
    match ws {
        Some(w) => if member_of is Some {
            Err(ManifestErrorView::BothWorkspaces)
        } else {
            Ok(spec_workspace_root(w))
        },
        None => Ok(WorkspaceConfigView::Member { root: member_of }),
    }
}

fn workspace_root(ws: &TomlWorkspace) -> (r: WorkspaceConfig)
    ensures
        r@ == spec_workspace_root(ws@),
{
    WorkspaceConfig::Root {
        members: clone_opt_texts(&ws.members),
        exclude: texts_or_empty(&ws.exclude),
    }
}

fn workspace_config(ws: &Option<TomlWorkspace>, member_of: &Option<String>) -> (r: Result<
    WorkspaceConfig,
    ManifestError,
>)
    ensures
        match r {
            Ok(c) => spec_workspace(ws.deep_view(), member_of.deep_view()) == Ok::<
                WorkspaceConfigView,
                ManifestErrorView,
            >(c@),
            Err(e) => spec_workspace(ws.deep_view(), member_of.deep_view()) == Err::<
                WorkspaceConfigView,
                ManifestErrorView,
            >(e@),
        },
{
    match ws {
        Some(w) => {
            if member_of.is_some() {
                Err(ManifestError::BothWorkspaces)
            } else {
                Ok(workspace_root(w))
            }
        },
        None => Ok(WorkspaceConfig::Member { root: clone_opt_text(member_of) }),
    }
}

/// What the package says of itself.
pub open spec fn spec_metadata(
    project: TomlProjectView,
    badges: Option<Seq<(Seq<char>, Seq<(Seq<char>, Seq<char>)>)>>,
) -> ManifestMetadataView {
    ManifestMetadataView {
        authors: list_or_empty(project.authors),
        keywords: list_or_empty(project.keywords),
        categories: list_or_empty(project.categories),
        license: project.license,
        license_file: project.license_file,
        description: project.description,
        readme: project.readme,
        homepage: project.homepage,
        repository: project.repository,
        documentation: project.documentation,
        badges: list_or_empty(badges),
    }
}

fn metadata(project: &TomlProject, m: &TomlManifest) -> (r: ManifestMetadata)
    ensures
        r@ == spec_metadata(project@, m@.badges),
{
    ManifestMetadata {
        authors: texts_or_empty(&project.authors),
        keywords: texts_or_empty(&project.keywords),
        categories: texts_or_empty(&project.categories),
        license: clone_opt_text(&project.license),
        license_file: clone_opt_text(&project.license_file),
        description: clone_opt_text(&project.description),
        readme: clone_opt_text(&project.readme),
        homepage: clone_opt_text(&project.homepage),
        repository: clone_opt_text(&project.repository),
        documentation: clone_opt_text(&project.documentation),
        badges: match &m.badges {
            Some(b) => clone_pair_lists(b),
            None => {
                let v: Vec<(String, Vec<(String, String)>)> = Vec::new();
                assert(v.deep_view() =~= Seq::empty());
                v
            },
        },
    }
}

/// The warning about a source file that two targets share.
pub open spec fn shared_path_warnings(root: Seq<char>, targets: Seq<TargetView>) -> Seq<
    WarningView,
> {
    match first_duplicate(source_paths(root, targets)) {
        Some(path) => seq![WarningView::DuplicateSourcePath { path }],
        None => Seq::empty(),
    }
}

/// The warning about a licence given twice.
pub open spec fn license_warnings(project: TomlProjectView) -> Seq<WarningView> {
    if project.license_file is Some && project.license is Some {
        seq![WarningView::RedundantLicense]
    } else {
        Seq::empty()
    }
}

/// What surrounds the dependencies of a manifest.
pub open spec fn ambient_of(in_package: bool, source_id: SourceIdView, layout: LayoutView) -> Ambient {
    Ambient { in_package, source_id, root: layout.root, platform: None }
}

/// The build targets of the package that `project` describes.
pub open spec fn spec_targets(project: TomlProjectView, sets: TargetSetsView, layout: LayoutView) -> Seq<
    TargetView,
> {
    spec_normalize(
        layout,
        sets.lib,
        sets.bins,
        spec_maybe_custom_build(project.build, layout),
        sets.examples,
        sets.tests,
        sets.benches,
    )
}

/// The description that is assembled once every part is in order.
pub open spec fn spec_assemble(
    m: TomlManifestView,
    project: TomlProjectView,
    source_id: SourceIdView,
    targets: Seq<TargetView>,
    done: Collected,
    replace: ReplacementsView,
    workspace: WorkspaceConfigView,
) -> ManifestView {
    ManifestView {
        package_id: PackageIdView { name: project.name, version: project.version, source_id },
        dependencies: done.deps,
        features: list_or_empty(m.features),
        targets,
        exclude: list_or_empty(project.exclude),
        included: list_or_empty(project.included),
        links: project.links,
        metadata: spec_metadata(project, m.badges),
        profiles: spec_build_profiles(m.profile),
        publish: match project.publish {
            Some(b) => b,
            None => true,
        },
        replace,
        workspace,
        warnings: license_warnings(project) + done.warnings,
    }
}

/// The dependencies, replacements and workspace of a package whose
/// targets are `targets`, and the description assembled from them. The
/// dependency tables are resolved first; then dependencies of one name
/// must have one source; then come the replacements and the workspace.
pub open spec fn spec_with_targets(
    m: TomlManifestView,
    project: TomlProjectView,
    source_id: SourceIdView,
    layout: LayoutView,
    targets: Seq<TargetView>,
) -> Result<(ManifestView, Seq<Seq<char>>), ManifestErrorView> {
    let ctx = ambient_of(true, source_id, layout);
    let start = Collected {
        warnings: shared_path_warnings(layout.root, targets),
        ..Collected::empty()
    };
    match spec_all_tables(m, ctx, start) {
        Err(e) => Err(e),
        Ok(c1) => match conflict_error(c1.deps) {
            Some(e) => Err(e),
            None => match spec_replace(m, ctx, c1) {
                Err(e) => Err(e),
                Ok((replace, c2)) => match spec_workspace(m.workspace, project.workspace) {
                    Err(e) => Err(e),
                    Ok(workspace) => Ok(
                        (
                            spec_assemble(m, project, source_id, targets, c2, replace, workspace),
                            c2.nested_paths,
                        ),
                    ),
                },
            },
        },
    }
}

/// Some target is more than a build script.
pub open spec fn has_real_target(targets: Seq<TargetView>) -> bool {
    exists|i: int| 0 <= i < targets.len() && !(#[trigger] targets[i]).is_custom_build()
}

/// The description of the package of a manifest, with the paths of its
/// path dependencies. The manifest must have a package section with a name
/// that is not blank, and a target that is more than a build script; then
/// dependencies, their sources, replacements and workspace are checked in
/// this order, and the first failure is returned.
pub open spec fn spec_real_manifest(
    m: TomlManifestView,
    source_id: SourceIdView,
    layout: LayoutView,
) -> Result<(ManifestView, Seq<Seq<char>>), ManifestErrorView> {
    match m.project_section() {
        None => Err(ManifestErrorView::NoPackageSection),
        Some(project) => if is_blank(project.name) {
            Err(ManifestErrorView::EmptyPackageName)
        } else {
            match spec_target_sets(m, project.name, layout) {
                Err(e) => Err(e),
                Ok(sets) => if has_real_target(spec_targets(project, sets, layout)) {
                    spec_with_targets(
                        m,
                        project,
                        source_id,
                        layout,
                        spec_targets(project, sets, layout),
                    )
                } else {
                    Err(ManifestErrorView::NoTargets)
                },
            }
        },
    }
}

/// The section that a manifest without a package must not have, if it has
/// one: the first of `[project]`, `[package]`, `[lib]`, `[[bin]]`,
/// `[[example]]`, `[[test]]` and `[[bench]]`.
pub open spec fn package_only_section(m: TomlManifestView) -> Option<Section> {
    if m.project is Some {
        Some(Section::Project)
    } else if m.package is Some {
        Some(Section::Package)
    } else if m.lib is Some {
        Some(Section::Lib)
    } else if m.bin is Some {
        Some(Section::Bin)
    } else if m.example is Some {
        Some(Section::Example)
    } else if m.test is Some {
        Some(Section::Test)
    } else if m.bench is Some {
        Some(Section::Bench)
    } else {
        None
    }
}

/// The description of a workspace root without a package, with the paths
/// of the path dependencies among its replacements.
pub open spec fn spec_virtual_manifest(
    m: TomlManifestView,
    source_id: SourceIdView,
    layout: LayoutView,
) -> Result<(VirtualManifestView, Seq<Seq<char>>), ManifestErrorView> {
    match package_only_section(m) {
        Some(section) => Err(ManifestErrorView::VirtualDefines { section }),
        None => match spec_replace(m, ambient_of(false, source_id, layout), Collected::empty()) {
            Err(e) => Err(e),
            Ok((replace, c)) => match m.workspace {
                Some(ws) => Ok(
                    (
                        VirtualManifestView {
                            replace,
                            workspace: spec_workspace_root(ws),
                            profiles: spec_build_profiles(m.profile),
                        },
                        c.nested_paths,
                    ),
                ),
                None => Err(ManifestErrorView::VirtualWithoutWorkspace),
            },
        },
    }
}

/// One warning for each unused key.
pub open spec fn unused_key_warnings(unused: Seq<Seq<char>>) -> Seq<WarningView> {
    unused.map_values(|name: Seq<char>| WarningView::UnusedKey { name })
}

/// What a manifest describes. A package whose description is in order
/// gets a warning for each unused key. Where the description of a package
/// fails, the manifest is read as a workspace root; where that fails too,
/// the failure of the package stands.
pub open spec fn spec_to_manifest(
    m: TomlManifestView,
    unused: Seq<Seq<char>>,
    source_id: SourceIdView,
    layout: LayoutView,
) -> Result<(EitherManifestView, Seq<Seq<char>>), ManifestErrorView> {
    match spec_real_manifest(m, source_id, layout) {
        Ok((manifest, paths)) => Ok(
            (
                EitherManifestView::Real(
                    ManifestView {
                        warnings: manifest.warnings + unused_key_warnings(unused),
                        ..manifest
                    },
                ),
                paths,
            ),
        ),
        Err(e) => match spec_virtual_manifest(m, source_id, layout) {
            Ok((v, paths)) => Ok((EitherManifestView::Virtual(v), paths)),
            Err(_) => Err(e),
        },
    }
}

/// The views of a description that comes with nested paths.
pub open spec fn with_paths<T: View>(r: Result<(T, Vec<String>), ManifestError>) -> Result<
    (T::V, Seq<Seq<char>>),
    ManifestErrorView,
> {
    match r {
        Ok((t, paths)) => Ok((t@, paths.deep_view())),
        Err(e) => Err(e@),
    }
}

fn any_real_target(targets: &Vec<Target>) -> (r: bool)
    ensures
        r == has_real_target(targets.deep_view()),
{
    let mut i: usize = 0;
    while i < targets.len()
        invariant
            i <= targets.len(),
            forall|k: int| 0 <= k < i ==> (#[trigger] targets.deep_view()[k]).is_custom_build(),
        decreases targets.len() - i,
    {
        if !targets[i].is_custom_build() {
            assert(!targets.deep_view()[i as int].is_custom_build());
            return true;
        }
        i += 1;
    }
    false
}

impl TomlManifest {
    /// Interprets the manifest as that of a package that comes from
    /// `source_id` and lies in the directory that `layout` describes.
    pub fn to_real_manifest(&self, source_id: &SourceId, layout: &Layout) -> (r: Result<
        (Manifest, Vec<String>),
        ManifestError,
    >)
        ensures
            with_paths(r) == spec_real_manifest(self@, source_id@, layout@),
            r matches Ok(described) ==> described.0@.well_formed() && has_real_target(
                described.0@.targets,
            ),
    {
        proof {
            lemma_real_manifest_well_formed(self@, source_id@, layout@);
        }
        let project = match &self.project {
            Some(p) => p,
            None => match &self.package {
                Some(p) => p,
                None => {
                    return Err(ManifestError::NoPackageSection);
                },
            },
        };
        if str_is_blank(project.name.as_str()) {
            return Err(ManifestError::EmptyPackageName);
        }
        let package_id = match project.to_package_id(source_id) {
            Ok(id) => id,
            Err(e) => {
                return Err(e);
            },
        };
        let sets = match target_sets(self, project.name.as_str(), layout) {
            Ok(s) => s,
            Err(e) => {
                return Err(e);
            },
        };
        let new_build = maybe_custom_build(&project.build, layout);
        let targets = normalize(
            layout,
            &sets.lib,
            &sets.bins,
            new_build,
            &sets.examples,
            &sets.tests,
            &sets.benches,
        );
        assert(targets.deep_view() == spec_targets(project@, sets@, layout@));
        if !any_real_target(&targets) {
            return Err(ManifestError::NoTargets);
        }

        let mut cx = Context::new(true, source_id, layout);
        assert(cx.warnings.deep_view() =~= Seq::empty());
        match unique_build_targets(&targets, layout) {
            Ok(()) => {},
            Err(path) => {
                cx.warnings.push(Warning::DuplicateSourcePath { path });
                assert(cx.warnings.deep_view() =~= seq![WarningView::DuplicateSourcePath {
                    path: path@,
                }]);
            },
        }
        proof {
            assert(cx.deps.deep_view() =~= Seq::empty());
            assert(cx.nested_paths.deep_view() =~= Seq::empty());
            assert(collected(&cx) == (Collected {
                warnings: shared_path_warnings(layout@.root, targets.deep_view()),
                ..Collected::empty()
            }));
        }
        match collect_dependencies(self, &mut cx) {
            Ok(()) => {},
            Err(e) => {
                return Err(e);
            },
        }
        match check_sources(&cx.deps) {
            Ok(()) => {},
            Err(e) => {
                return Err(e);
            },
        }
        let replacements = match replace(self, &mut cx) {
            Ok(r) => r,
            Err(e) => {
                return Err(e);
            },
        };
        let workspace = match workspace_config(&self.workspace, &project.workspace) {
            Ok(w) => w,
            Err(e) => {
                return Err(e);
            },
        };
        let ghost done = collected(&cx);
        let mut warnings: Vec<Warning> = Vec::new();
        if project.license_file.is_some() && project.license.is_some() {
            warnings.push(Warning::RedundantLicense);
        }
        assert(warnings.deep_view() =~= license_warnings(project@));
        warnings.append(&mut cx.warnings);
        assert(warnings.deep_view() =~= license_warnings(project@) + done.warnings);
        let manifest = Manifest {
            package_id,
            dependencies: cx.deps,
            features: match &self.features {
                Some(f) => clone_string_lists(f),
                None => {
                    let v: Vec<(String, Vec<String>)> = Vec::new();
                    assert(v.deep_view() =~= Seq::empty());
                    v
                },
            },
            targets,
            exclude: texts_or_empty(&project.exclude),
            included: texts_or_empty(&project.included),
            links: clone_opt_text(&project.links),
            metadata: metadata(project, self),
            profiles: build_profiles(&self.profile),
            publish: match project.publish {
                Some(b) => b,
                None => true,
            },
            replace: replacements,
            workspace,
            warnings,
        };
        Ok((manifest, cx.nested_paths))
    }

    /// Interprets the manifest as that of a workspace root without a
    /// package.
    pub fn to_virtual_manifest(&self, source_id: &SourceId, layout: &Layout) -> (r: Result<
        (VirtualManifest, Vec<String>),
        ManifestError,
    >)
        ensures
            with_paths(r) == spec_virtual_manifest(self@, source_id@, layout@),
            r matches Ok(described) ==> described.0@.workspace is Root,
    {
        if self.project.is_some() {
            return Err(ManifestError::VirtualDefines { section: Section::Project });
        }
        if self.package.is_some() {
            return Err(ManifestError::VirtualDefines { section: Section::Package });
        }
        if self.lib.is_some() {
            return Err(ManifestError::VirtualDefines { section: Section::Lib });
        }
        if self.bin.is_some() {
            return Err(ManifestError::VirtualDefines { section: Section::Bin });
        }
        if self.example.is_some() {
            return Err(ManifestError::VirtualDefines { section: Section::Example });
        }
        if self.test.is_some() {
            return Err(ManifestError::VirtualDefines { section: Section::Test });
        }
        if self.bench.is_some() {
            return Err(ManifestError::VirtualDefines { section: Section::Bench });
        }
        let mut cx = Context::new(false, source_id, layout);
        proof {
            assert(cx.warnings.deep_view() =~= Seq::empty());
            assert(cx.deps.deep_view() =~= Seq::empty());
            assert(cx.nested_paths.deep_view() =~= Seq::empty());
        }
        let replacements = match replace(self, &mut cx) {
            Ok(r) => r,
            Err(e) => {
                return Err(e);
            },
        };
        let profiles = build_profiles(&self.profile);
        let workspace = match &self.workspace {
            Some(ws) => workspace_root(ws),
            None => {
                return Err(ManifestError::VirtualWithoutWorkspace);
            },
        };
        Ok((VirtualManifest { replace: replacements, workspace, profiles }, cx.nested_paths))
    }
}

/// Interprets a decoded manifest. `unused` holds the keys of the document
/// that no field took; `source_id` says where the package comes from, and
/// `layout` what its directory holds.
pub fn to_manifest(
    manifest: &TomlManifest,
    unused: &Vec<String>,
    source_id: &SourceId,
    layout: &Layout,
) -> (r: Result<(EitherManifest, Vec<String>), ManifestError>)
    ensures
        with_paths(r) == spec_to_manifest(manifest@, unused.deep_view(), source_id@, layout@),
        r matches Ok(described) ==> (described.0@ matches EitherManifestView::Real(m)
            ==> m.well_formed() && has_real_target(m.targets)),
        r matches Ok(described) ==> (described.0@ matches EitherManifestView::Virtual(v)
            ==> v.workspace is Root),
{
    match manifest.to_real_manifest(source_id, layout) {
        Ok((mut package, paths)) => {
            let ghost before = package@;
            let ghost keys = unused.deep_view();
            let mut i: usize = 0;
            assert(keys.take(0) =~= Seq::empty());
            assert(before.warnings + unused_key_warnings(keys.take(0)) =~= before.warnings);
            while i < unused.len()
                invariant
                    i <= unused.len(),
                    keys == unused.deep_view(),
                    package@ == (ManifestView {
                        warnings: before.warnings + unused_key_warnings(keys.take(i as int)),
                        ..before
                    }),
                decreases unused.len() - i,
            {
                let ghost w = package@.warnings;
                package.add_warning(Warning::UnusedKey { name: unused[i].clone() });
                assert(w.push(WarningView::UnusedKey { name: keys[i as int] }) =~= before.warnings
                    + unused_key_warnings(keys.take(i + 1)));
                i += 1;
            }
            assert(keys.take(i as int) =~= keys);
            Ok((EitherManifest::Real(package), paths))
        },
        Err(e) => match manifest.to_virtual_manifest(source_id, layout) {
            Ok((v, paths)) => Ok((EitherManifest::Virtual(v), paths)),
            Err(_) => Err(e),
        },
    }
}

} // verus!
