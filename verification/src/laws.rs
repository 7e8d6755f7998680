//! What holds of manifest interpretation as a whole.

use crate::build_target::TargetView;
use crate::collect::{
    replacement_noting, spec_all_tables, spec_opt_table, spec_platform_section,
    spec_platform_sections, spec_replace, spec_replacement, spec_replacements, spec_table,
    Collected,
};
use crate::dependency::{
    spec_path_source, spec_platform, spec_source_id, spec_to_dependency, Ambient, DetailedView,
    Kind, TomlDependencyView,
};
use crate::document::{
    DependencyTableView, TomlManifestView, TomlPlatformView, TomlProjectView, TomlWorkspaceView,
};
use crate::error::{ManifestErrorView, Section, WarningView};
use crate::interpret::{
    ambient_of, consistent_sources, lemma_first_conflict, license_warnings, shared_path_warnings,
    spec_real_manifest, spec_targets, spec_to_manifest, spec_with_targets, spec_workspace_root,
};
use crate::invariants::lemma_real_manifest_well_formed;
use crate::layout::LayoutView;
use crate::manifest::{EitherManifestView, ReplacementsView, VirtualManifestView};
use crate::normalize::{
    first_duplicate, inferred_bins, inferred_by_stem, lemma_first_duplicate, names_of,
    source_paths, spec_bin_target, spec_lib_target,
};
use crate::package_id::spec_package_id_spec;
use crate::path::{lemma_dot_prefix, lemma_normalize_idempotent, spec_join, spec_normalize_path};
use crate::profile::{spec_build_profiles, TomlProfilesView};
use crate::source::{is_absolute, SourceIdView};
use crate::target::TomlTargetView;
use crate::target_sets::{
    first_forbidden, first_name_error, is_forbidden_bin, spec_declared, spec_lib,
    spec_target_sets, TargetSetsView,
};
use crate::version::VersionReqView;
use vstd::prelude::*;

verus! {

/// A declaration that names a directory and no repository.
pub open spec fn is_path_dependency(d: DetailedView) -> bool {
    d.git is None && d.path is Some
}

/// Two path dependencies whose paths, taken from the package's directory
/// and normalized, are the same path have the same source: both resolve,
/// or neither does, and where they resolve the sources are equal.
pub proof fn law_same_directory_same_source(
    name1: Seq<char>,
    d1: DetailedView,
    name2: Seq<char>,
    d2: DetailedView,
    ctx: Ambient,
)
    requires
        is_path_dependency(d1),
        is_path_dependency(d2),
        spec_normalize_path(spec_join(ctx.root, d1.path.unwrap())) == spec_normalize_path(
            spec_join(ctx.root, d2.path.unwrap()),
        ),
    ensures
        spec_source_id(name1, d1, ctx) is Ok <==> spec_source_id(name2, d2, ctx) is Ok,
        spec_source_id(name1, d1, ctx) is Ok ==> spec_source_id(name1, d1, ctx) == spec_source_id(
            name2,
            d2,
            ctx,
        ),
{
}

/// A relative path dependency may as well be written with `./` before
/// it: the source is the same, or neither resolves.
pub proof fn law_dot_prefix_same_source(name: Seq<char>, path: Seq<char>, ctx: Ambient)
    requires
        path.len() == 0 || path[0] != '/',
    ensures
        spec_path_source(name, seq!['.', '/'] + path, ctx) is Ok <==> spec_path_source(
            name,
            path,
            ctx,
        ) is Ok,
        spec_path_source(name, path, ctx) is Ok ==> spec_path_source(
            name,
            seq!['.', '/'] + path,
            ctx,
        ) == spec_path_source(name, path, ctx),
{
    lemma_dot_prefix(ctx.root, path);
}

/// The manifest declares no target.
pub open spec fn no_declared_targets(m: TomlManifestView) -> bool {
    m.lib is None && m.bin is None && m.example is None && m.test is None && m.bench is None
}

/// A package without declared targets and without a build script, whose
/// directory holds a library entry file and no other candidate, has
/// exactly one target, a library named after the package.
pub proof fn law_library_only(m: TomlManifestView, project: TomlProjectView, layout: LayoutView)
    requires
        no_declared_targets(m),
        project.build is None,
        !layout.build_script,
        layout.lib is Some,
        layout.bins.len() == 0,
        layout.examples.len() == 0,
        layout.tests.len() == 0,
        layout.benches.len() == 0,
    ensures
        spec_target_sets(m, project.name, layout) matches Ok(sets) && ({
            let targets = spec_targets(project, sets, layout);
            &&& targets.len() == 1
            &&& targets[0].kind is Lib
            &&& targets[0].name == project.name
        }),
{
    let name = project.name;
    let empty = Seq::<TomlTargetView>::empty();
    assert(inferred_bins(name, layout, layout.bins) == empty);
    assert(inferred_by_stem(layout.examples) == empty);
    assert(inferred_by_stem(layout.tests) == empty);
    assert(inferred_by_stem(layout.benches) == empty);
    assert(names_of(empty) =~= Seq::empty());
    assert(first_duplicate(names_of(empty)) is None);
    assert(first_forbidden(empty) is None);
    let sets = spec_target_sets(m, name, layout)->Ok_0;
    assert(sets.bins == empty && sets.examples == empty && sets.tests == empty && sets.benches
        == empty);
    let lib = TomlTargetView::at(name, layout.lib.unwrap());
    assert(sets.lib == Some(lib));
    let targets = spec_targets(project, sets, layout);
    assert(targets =~= seq![spec_lib_target(layout.root, lib)]);
}

/// A package without declared targets and without a build script, whose
/// directory holds a library entry file and the main entry file and no
/// other candidate, has exactly two targets: a library, and a binary named
/// after the package.
pub proof fn law_library_and_main(m: TomlManifestView, project: TomlProjectView, layout: LayoutView)
    requires
        no_declared_targets(m),
        project.build is None,
        !layout.build_script,
        layout.lib is Some,
        layout.bins == seq![spec_join(spec_join(layout.root, "src"@), "main.rs"@)],
        layout.examples.len() == 0,
        layout.tests.len() == 0,
        layout.benches.len() == 0,
        !is_forbidden_bin(project.name),
    ensures
        spec_target_sets(m, project.name, layout) matches Ok(sets) && ({
            let targets = spec_targets(project, sets, layout);
            &&& targets.len() == 2
            &&& targets[0].kind is Lib
            &&& targets[1].kind is Bin
            &&& targets[1].name == project.name
        }),
{
    let name = project.name;
    let main = spec_join(spec_join(layout.root, "src"@), "main.rs"@);
    let empty = Seq::<TomlTargetView>::empty();
    let bin = TomlTargetView::at(name, main);
    assert(layout.bins.drop_last() =~= Seq::<Seq<char>>::empty());
    assert(inferred_bins(name, layout, layout.bins.drop_last()) == empty);
    assert(inferred_bins(name, layout, layout.bins) =~= seq![bin]);
    assert(inferred_by_stem(layout.examples) == empty);
    assert(inferred_by_stem(layout.tests) == empty);
    assert(inferred_by_stem(layout.benches) == empty);
    assert(names_of(empty) =~= Seq::empty());
    assert(first_duplicate(names_of(empty)) is None);
    let bins = seq![bin];
    assert(names_of(bins) =~= seq![name]);
    assert(names_of(bins).drop_last() =~= Seq::<Seq<char>>::empty());
    assert(first_duplicate(names_of(bins).drop_last()) is None);
    assert(first_duplicate(names_of(bins)) is None);
    assert(bins.drop_first() =~= empty);
    assert(first_forbidden(bins.drop_first()) is None);
    assert(first_forbidden(bins) is None);
    let sets = spec_target_sets(m, name, layout)->Ok_0;
    assert(sets.bins == bins);
    let lib = TomlTargetView::at(name, layout.lib.unwrap());
    let targets = spec_targets(project, sets, layout);
    assert(targets =~= seq![
        spec_lib_target(layout.root, lib),
        spec_bin_target(layout, bin, true, 1),
    ]);
}

/// Where the binaries of a manifest are in order one by one but two of
/// them share a name, and the sections before them are in order, the
/// manifest is rejected for the first name that is repeated.
pub proof fn law_duplicate_binary_names(
    m: TomlManifestView,
    name: Seq<char>,
    layout: LayoutView,
    bins: Seq<TomlTargetView>,
)
    requires
        m.bin == Some(bins),
        spec_lib(m.lib, name, layout) is Ok,
        first_name_error(bins, Section::Bin) is None,
        first_forbidden(bins) is None,
        spec_declared(m.example, inferred_by_stem(layout.examples), Section::Example) is Ok,
        spec_declared(m.test, inferred_by_stem(layout.tests), Section::Test) is Ok,
        spec_declared(m.bench, inferred_by_stem(layout.benches), Section::Bench) is Ok,
        !names_of(bins).no_duplicates(),
    ensures
        first_duplicate(names_of(bins)) matches Some(repeated) && names_of(bins).contains(repeated)
            && spec_target_sets(m, name, layout) == Err::<TargetSetsView, ManifestErrorView>(
            ManifestErrorView::DuplicateTargetName { section: Section::Bin, name: repeated },
        ),
{
    lemma_first_duplicate(names_of(bins));
}

/// What is collected only grows: every warning of `before` is in `after`.
pub open spec fn keeps_warnings(before: Collected, after: Collected) -> bool {
    forall|w: WarningView| before.warnings.contains(w) ==> after.warnings.contains(w)
}

proof fn lemma_noting_keeps(acc: Collected, name: Seq<char>, dep: TomlDependencyView, ctx: Ambient)
    ensures
        keeps_warnings(acc, acc.noting(name, dep, ctx)),
{
    let after = acc.noting(name, dep, ctx);
    assert forall|w: WarningView| acc.warnings.contains(w) implies after.warnings.contains(w) by {
        let i = choose|i: int| 0 <= i < acc.warnings.len() && acc.warnings[i] == w;
        assert(after.warnings[i] == w);
    }
}

proof fn lemma_table_keeps(
    entries: DependencyTableView,
    ctx: Ambient,
    kind: Option<Kind>,
    acc: Collected,
)
    ensures
        spec_table(entries, ctx, kind, acc) matches Ok(c) ==> keeps_warnings(acc, c),
    decreases entries.len(),
{
    if entries.len() > 0 {
        let (name, dep) = entries[0];
        match spec_to_dependency(name, dep, ctx, kind) {
            Err(_) => {},
            Ok(d) => {
                let next = acc.noting(name, dep, ctx).with_dep(d);
                lemma_noting_keeps(acc, name, dep, ctx);
                lemma_table_keeps(entries.drop_first(), ctx, kind, next);
            },
        }
    }
}

proof fn lemma_opt_table_keeps(
    table: Option<DependencyTableView>,
    ctx: Ambient,
    kind: Option<Kind>,
    acc: Collected,
)
    ensures
        spec_opt_table(table, ctx, kind, acc) matches Ok(c) ==> keeps_warnings(acc, c),
{
    if table is Some {
        lemma_table_keeps(table.unwrap(), ctx, kind, acc);
    }
}

proof fn lemma_section_keeps(
    key: Seq<char>,
    section: TomlPlatformView,
    ctx: Ambient,
    acc: Collected,
)
    ensures
        spec_platform_section(key, section, ctx, acc) matches Ok(c) ==> keeps_warnings(acc, c),
{
    if spec_platform(key) is Ok {
        let platform = spec_platform(key)->Ok_0;
        let c = Ambient { platform: Some(platform), ..ctx };
        lemma_opt_table_keeps(section.dependencies, c, None, acc);
        if spec_opt_table(section.dependencies, c, None, acc) is Ok {
            let a1 = spec_opt_table(section.dependencies, c, None, acc)->Ok_0;
            lemma_opt_table_keeps(section.build_deps(), c, Some(Kind::Build), a1);
            if spec_opt_table(section.build_deps(), c, Some(Kind::Build), a1) is Ok {
                let a2 = spec_opt_table(section.build_deps(), c, Some(Kind::Build), a1)->Ok_0;
                lemma_opt_table_keeps(section.dev_deps(), c, Some(Kind::Development), a2);
            }
        }
    }
}

proof fn lemma_sections_keep(
    sections: Seq<(Seq<char>, TomlPlatformView)>,
    ctx: Ambient,
    acc: Collected,
)
    ensures
        spec_platform_sections(sections, ctx, acc) matches Ok(c) ==> keeps_warnings(acc, c),
    decreases sections.len(),
{
    if sections.len() > 0 {
        lemma_section_keeps(sections[0].0, sections[0].1, ctx, acc);
        if spec_platform_section(sections[0].0, sections[0].1, ctx, acc) is Ok {
            let a = spec_platform_section(sections[0].0, sections[0].1, ctx, acc)->Ok_0;
            lemma_sections_keep(sections.drop_first(), ctx, a);
        }
    }
}

proof fn lemma_all_tables_keep(m: TomlManifestView, ctx: Ambient, acc: Collected)
    ensures
        spec_all_tables(m, ctx, acc) matches Ok(c) ==> keeps_warnings(acc, c),
{
    lemma_opt_table_keeps(m.dependencies, ctx, None, acc);
    if spec_opt_table(m.dependencies, ctx, None, acc) is Ok {
        let a1 = spec_opt_table(m.dependencies, ctx, None, acc)->Ok_0;
        lemma_opt_table_keeps(m.dev_deps(), ctx, Some(Kind::Development), a1);
        if spec_opt_table(m.dev_deps(), ctx, Some(Kind::Development), a1) is Ok {
            let a2 = spec_opt_table(m.dev_deps(), ctx, Some(Kind::Development), a1)->Ok_0;
            lemma_opt_table_keeps(m.build_deps(), ctx, Some(Kind::Build), a2);
            if spec_opt_table(m.build_deps(), ctx, Some(Kind::Build), a2) is Ok {
                let a3 = spec_opt_table(m.build_deps(), ctx, Some(Kind::Build), a2)->Ok_0;
                if m.target is Some {
                    lemma_sections_keep(m.target.unwrap(), ctx, a3);
                }
            }
        }
    }
}

proof fn lemma_replacements_keep(
    entries: DependencyTableView,
    ctx: Ambient,
    done: ReplacementsView,
    acc: Collected,
)
    ensures
        spec_replacements(entries, ctx, done, acc) matches Ok(r) ==> keeps_warnings(acc, r.1),
    decreases entries.len(),
{
    if entries.len() > 0 {
        let (key, dep) = entries[0];
        if spec_replacement(key, dep, ctx) is Ok {
            let r = spec_replacement(key, dep, ctx)->Ok_0;
            let next = replacement_noting(key, dep, ctx, acc);
            if spec_package_id_spec(key) is Some && !dep.version_specified() {
                lemma_noting_keeps(acc, spec_package_id_spec(key).unwrap().name, dep, ctx);
            }
            lemma_replacements_keep(entries.drop_first(), ctx, done.push(r), next);
        }
    }
}

/// Where two targets of a package share a source file and the manifest is
/// accepted, its description carries a warning that names the first file
/// that is shared.
pub proof fn law_shared_source_path_warns(
    m: TomlManifestView,
    source_id: SourceIdView,
    layout: LayoutView,
)
    ensures
        spec_real_manifest(m, source_id, layout) matches Ok(r) ==> (first_duplicate(
            source_paths(layout.root, r.0.targets),
        ) matches Some(path) ==> r.0.warnings.contains(WarningView::DuplicateSourcePath { path })),
        spec_real_manifest(m, source_id, layout) matches Ok(r) ==> (!source_paths(
            layout.root,
            r.0.targets,
        ).no_duplicates() ==> first_duplicate(source_paths(layout.root, r.0.targets)) is Some),
{
    if spec_real_manifest(m, source_id, layout) is Ok {
        let r = spec_real_manifest(m, source_id, layout)->Ok_0;
        let project = m.project_section().unwrap();
        let sets = spec_target_sets(m, project.name, layout)->Ok_0;
        let targets = spec_targets(project, sets, layout);
        assert(r.0.targets == targets);
        lemma_first_duplicate(source_paths(layout.root, targets));
        if first_duplicate(source_paths(layout.root, targets)) is Some {
            let path = first_duplicate(source_paths(layout.root, targets)).unwrap();
            let w = WarningView::DuplicateSourcePath { path };
            let ctx = ambient_of(true, source_id, layout);
            let start = Collected {
                warnings: shared_path_warnings(layout.root, targets),
                ..Collected::empty()
            };
            assert(start.warnings[0] == w);
            assert(start.warnings.contains(w));
            lemma_all_tables_keep(m, ctx, start);
            let c1 = spec_all_tables(m, ctx, start)->Ok_0;
            assert(c1.warnings.contains(w));
            if m.replace is Some {
                lemma_replacements_keep(m.replace.unwrap(), ctx, Seq::empty(), c1);
            }
            let c2 = spec_replace(m, ctx, c1)->Ok_0.1;
            assert(c2.warnings.contains(w));
            let i = choose|i: int| 0 <= i < c2.warnings.len() && c2.warnings[i] == w;
            let pre = license_warnings(project);
            assert(r.0.warnings == pre + c2.warnings);
            assert((pre + c2.warnings)[pre.len() + i] == w);
        }
    }
}

/// In the description of a package, dependencies of one name have one
/// source, whatever tables they come from.
pub proof fn law_one_source_per_name(m: TomlManifestView, source_id: SourceIdView, layout: LayoutView)
    ensures
        spec_real_manifest(m, source_id, layout) matches Ok(r) ==> consistent_sources(
            r.0.dependencies,
        ),
{
    lemma_real_manifest_well_formed(m, source_id, layout);
}

/// Where the dependency tables of a package resolve but give one name two
/// sources, the description of the package fails for the first dependency
/// that has another source than an earlier one of its name.
pub proof fn law_conflicting_sources_rejected(
    m: TomlManifestView,
    project: TomlProjectView,
    source_id: SourceIdView,
    layout: LayoutView,
    targets: Seq<TargetView>,
    resolved: Collected,
)
    requires
        ({
            let ctx = ambient_of(true, source_id, layout);
            let start = Collected {
                warnings: shared_path_warnings(layout.root, targets),
                ..Collected::empty()
            };
            spec_all_tables(m, ctx, start) == Ok::<Collected, ManifestErrorView>(resolved)
        }),
        !consistent_sources(resolved.deps),
    ensures
        spec_with_targets(m, project, source_id, layout, targets) matches Err(e) && e
            is ConflictingSources,
{
    lemma_first_conflict(resolved.deps);
}

/// A path dependency may as well be written as the normalized absolute
/// path that it leads to: the source is the same.
pub proof fn law_normalized_spelling(name: Seq<char>, path: Seq<char>, ctx: Ambient)
    requires
        is_absolute(spec_normalize_path(spec_join(ctx.root, path))),
    ensures
        spec_path_source(name, spec_normalize_path(spec_join(ctx.root, path)), ctx)
            == spec_path_source(name, path, ctx),
{
    lemma_normalize_idempotent(spec_join(ctx.root, path));
}

/// Whatever a manifest overrides, the profiles under which tests and
/// benchmarks are built unwind on panic.
pub proof fn law_test_profiles_unwind(toml: Option<TomlProfilesView>)
    ensures
        spec_build_profiles(toml).test.panic is None,
        spec_build_profiles(toml).bench.panic is None,
        spec_build_profiles(toml).test_deps.panic is None,
        spec_build_profiles(toml).bench_deps.panic is None,
{
}

/// A manifest with a `[workspace]` section, without a package section,
/// without targets and without replacements describes a workspace root
/// with the members and exclusions of that section, and names no nested
/// path.
pub proof fn law_virtual_fallback(
    m: TomlManifestView,
    unused: Seq<Seq<char>>,
    source_id: SourceIdView,
    layout: LayoutView,
    ws: TomlWorkspaceView,
)
    requires
        m.package is None,
        m.project is None,
        no_declared_targets(m),
        m.replace is None,
        m.workspace == Some(ws),
    ensures
        spec_to_manifest(m, unused, source_id, layout) == Ok::<
            (EitherManifestView, Seq<Seq<char>>),
            ManifestErrorView,
        >(
            (
                EitherManifestView::Virtual(
                    VirtualManifestView {
                        replace: Seq::empty(),
                        workspace: spec_workspace_root(ws),
                        profiles: spec_build_profiles(m.profile),
                    },
                ),
                Seq::empty(),
            ),
        ),
{
}

/// A manifest with a `[workspace]` section whose package names another
/// workspace root is rejected.
pub proof fn law_root_and_member_rejected(
    m: TomlManifestView,
    unused: Seq<Seq<char>>,
    source_id: SourceIdView,
    layout: LayoutView,
)
    requires
        m.workspace is Some,
        m.project_section() matches Some(project) && project.workspace is Some,
    ensures
        spec_to_manifest(m, unused, source_id, layout) is Err,
{
}

/// A replacement is accepted only without a version requirement of its
/// own and with a version in its key, and is then pinned to exactly that
/// version.
pub proof fn law_replacement_validity(key: Seq<char>, dep: TomlDependencyView, ctx: Ambient)
    ensures
        dep.version_specified() ==> spec_replacement(key, dep, ctx) is Err,
        (spec_package_id_spec(key) matches Some(spec) && spec.version is None) ==> spec_replacement(
            key,
            dep,
            ctx,
        ) is Err,
        spec_replacement(key, dep, ctx) matches Ok(r) ==> (spec_package_id_spec(key) matches Some(
            spec,
        ) && spec.version matches Some(v) && r.1.req == VersionReqView::Exact(v)
            && !dep.version_specified()),
{
}

} // verus!
