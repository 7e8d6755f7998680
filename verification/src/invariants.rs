//! What holds of every description of a package that interpretation
//! returns.

use crate::build_target::{TargetKindView, TargetView};
use crate::collect::{
    lemma_replace_keeps_deps, replacement_noting, spec_all_tables, spec_replace, spec_replacement, spec_replacements,
    Collected,
};
use crate::dependency::{Ambient, DependencyView};
use crate::document::{DependencyTableView, TomlManifestView};
use crate::error::Section;
use crate::interpret::{
    ambient_of, consistent_sources, lemma_first_conflict, shared_path_warnings,
    spec_maybe_custom_build, spec_real_manifest, spec_targets,
};
use crate::layout::LayoutView;
use crate::manifest::{ManifestView, ReplacementsView};
use crate::normalize::{
    all_named, inferred_bins, inferred_by_stem, lemma_first_duplicate, names_of,
    spec_bench_target, spec_bin_target, spec_custom_build_target, spec_example_target,
    spec_lib_target, spec_normalize, spec_test_target,
};
use crate::package_id::PackageIdSpecView;
use crate::source::SourceIdView;
use crate::target::TomlTargetView;
use crate::target_sets::{lemma_validated_are_named, spec_declared, spec_target_sets};
use crate::text::is_blank;
use crate::version::VersionReqView;
use vstd::prelude::*;

verus! {

/// A replacement names a source and a version, and what replaces them is
/// pinned to exactly that version.
pub open spec fn is_pinned(r: (PackageIdSpecView, DependencyView)) -> bool {
    r.0.url is Some && r.0.version is Some && r.1.req == VersionReqView::Exact(
        r.0.version.unwrap(),
    )
}

/// Two targets are declared by the same section of sections that hold
/// lists.
pub open spec fn same_section(a: TargetKindView, b: TargetKindView) -> bool {
    ||| a is Bin && b is Bin
    ||| (a is ExampleBin || a is ExampleLib) && (b is ExampleBin || b is ExampleLib)
    ||| a is Test && b is Test
    ||| a is Bench && b is Bench
}

/// Targets of one section have different names, and there is at most one
/// library and at most one build script.
pub open spec fn distinct_targets(targets: Seq<TargetView>) -> bool {
    forall|i: int, j: int|
        #![trigger targets[i], targets[j]]
        0 <= i < j < targets.len() ==> {
            &&& same_section(targets[i].kind, targets[j].kind) ==> targets[i].name
                != targets[j].name
            &&& !(targets[i].kind is Lib && targets[j].kind is Lib)
            &&& !(targets[i].kind is CustomBuild && targets[j].kind is CustomBuild)
        }
}

impl ManifestView {
    /// The description is in order: the package has a name, targets of one
    /// section differ in their names, dependencies of one name have one
    /// source, every replacement is pinned, and tests and benchmarks are
    /// built to unwind.
    pub open spec fn well_formed(self) -> bool {
        &&& !is_blank(self.package_id.name)
        &&& distinct_targets(self.targets)
        &&& consistent_sources(self.dependencies)
        &&& forall|i: int| 0 <= i < self.replace.len() ==> is_pinned(#[trigger] self.replace[i])
        &&& self.profiles.test.panic is None
        &&& self.profiles.bench.panic is None
        &&& self.profiles.test_deps.panic is None
        &&& self.profiles.bench_deps.panic is None
    }
}

proof fn lemma_inferred_bins_named(name: Seq<char>, layout: LayoutView, bins: Seq<Seq<char>>)
    ensures
        all_named(inferred_bins(name, layout, bins)),
    decreases bins.len(),
{
    if bins.len() > 0 {
        lemma_inferred_bins_named(name, layout, bins.drop_last());
        let before = inferred_bins(name, layout, bins.drop_last());
        let all = inferred_bins(name, layout, bins);
        assert forall|i: int| 0 <= i < all.len() implies (#[trigger] all[i]).name is Some by {
            if i < before.len() {
                assert(all[i] == before[i]);
            }
        }
    }
}

proof fn lemma_inferred_by_stem_named(files: Seq<Seq<char>>)
    ensures
        all_named(inferred_by_stem(files)),
    decreases files.len(),
{
    if files.len() > 0 {
        lemma_inferred_by_stem_named(files.drop_last());
        let before = inferred_by_stem(files.drop_last());
        let all = inferred_by_stem(files);
        assert forall|i: int| 0 <= i < all.len() implies (#[trigger] all[i]).name is Some by {
            if i < before.len() {
                assert(all[i] == before[i]);
            }
        }
    }
}

proof fn lemma_declared_named(
    declared: Option<Seq<TomlTargetView>>,
    inferred: Seq<TomlTargetView>,
    section: Section,
)
    requires
        all_named(inferred),
    ensures
        spec_declared(declared, inferred, section) matches Ok(ts) ==> all_named(ts),
{
    if declared is Some && spec_declared(declared, inferred, section) is Ok {
        lemma_validated_are_named(declared.unwrap(), section);
    }
}

/// The targets that pass validation all have names, and names differ
/// within each section.
proof fn lemma_target_sets(m: TomlManifestView, name: Seq<char>, layout: LayoutView)
    ensures
        spec_target_sets(m, name, layout) matches Ok(sets) ==> {
            &&& sets.named()
            &&& names_of(sets.bins).no_duplicates()
            &&& names_of(sets.examples).no_duplicates()
            &&& names_of(sets.tests).no_duplicates()
            &&& names_of(sets.benches).no_duplicates()
        },
{
    if spec_target_sets(m, name, layout) is Ok {
        let sets = spec_target_sets(m, name, layout)->Ok_0;
        lemma_inferred_bins_named(name, layout, layout.bins);
        lemma_inferred_by_stem_named(layout.examples);
        lemma_inferred_by_stem_named(layout.tests);
        lemma_inferred_by_stem_named(layout.benches);
        lemma_declared_named(m.bin, inferred_bins(name, layout, layout.bins), Section::Bin);
        lemma_declared_named(m.example, inferred_by_stem(layout.examples), Section::Example);
        lemma_declared_named(m.test, inferred_by_stem(layout.tests), Section::Test);
        lemma_declared_named(m.bench, inferred_by_stem(layout.benches), Section::Bench);
        lemma_first_duplicate(names_of(sets.bins));
        lemma_first_duplicate(names_of(sets.examples));
        lemma_first_duplicate(names_of(sets.tests));
        lemma_first_duplicate(names_of(sets.benches));
    }
}

/// Normalizing targets whose names differ within each section gives
/// targets whose names differ within each section.
proof fn lemma_normalize_distinct(
    layout: LayoutView,
    lib: Option<TomlTargetView>,
    bins: Seq<TomlTargetView>,
    custom_build: Option<Seq<char>>,
    examples: Seq<TomlTargetView>,
    tests: Seq<TomlTargetView>,
    benches: Seq<TomlTargetView>,
)
    requires
        names_of(bins).no_duplicates(),
        names_of(examples).no_duplicates(),
        names_of(tests).no_duplicates(),
        names_of(benches).no_duplicates(),
    ensures
        distinct_targets(
            spec_normalize(layout, lib, bins, custom_build, examples, tests, benches),
        ),
{
    let root = layout.root;
    let t = spec_normalize(layout, lib, bins, custom_build, examples, tests, benches);
    let l: Seq<TargetView> = match lib {
        Some(x) => seq![spec_lib_target(root, x)],
        None => Seq::empty(),
    };
    let b = bins.map_values(|x: TomlTargetView| spec_bin_target(layout, x, lib is Some, bins.len()));
    let c: Seq<TargetView> = match custom_build {
        Some(cmd) => seq![spec_custom_build_target(root, cmd)],
        None => Seq::empty(),
    };
    let e = examples.map_values(|x: TomlTargetView| spec_example_target(root, x));
    let s = tests.map_values(|x: TomlTargetView| spec_test_target(root, x));
    let h = benches.map_values(|x: TomlTargetView| spec_bench_target(root, x));
    assert(t == l + b + c + e + s + h);
    let o1 = l.len() as int;
    let o2 = o1 + b.len();
    let o3 = o2 + c.len();
    let o4 = o3 + e.len();
    let o5 = o4 + s.len();
    assert forall|i: int| 0 <= i < t.len() implies {
        &&& i < o1 ==> (#[trigger] t[i]).kind is Lib
        &&& o1 <= i < o2 ==> t[i].kind is Bin && t[i].name == names_of(bins)[i - o1]
        &&& o2 <= i < o3 ==> t[i].kind is CustomBuild
        &&& o3 <= i < o4 ==> (t[i].kind is ExampleBin || t[i].kind is ExampleLib) && t[i].name
            == names_of(examples)[i - o3]
        &&& o4 <= i < o5 ==> t[i].kind is Test && t[i].name == names_of(tests)[i - o4]
        &&& o5 <= i ==> t[i].kind is Bench && t[i].name == names_of(benches)[i - o5]
    } by {
        if i < o1 {
            assert(t[i] == l[i]);
        } else if i < o2 {
            assert(t[i] == b[i - o1]);
        } else if i < o3 {
            assert(t[i] == c[i - o2]);
        } else if i < o4 {
            assert(t[i] == e[i - o3]);
        } else if i < o5 {
            assert(t[i] == s[i - o4]);
        } else {
            assert(t[i] == h[i - o5]);
        }
    }
}

proof fn lemma_replacements_pinned(
    entries: DependencyTableView,
    ctx: Ambient,
    done: ReplacementsView,
    acc: Collected,
)
    requires
        forall|i: int| 0 <= i < done.len() ==> is_pinned(#[trigger] done[i]),
    ensures
        spec_replacements(entries, ctx, done, acc) matches Ok(r) ==> forall|i: int|
            0 <= i < r.0.len() ==> is_pinned(#[trigger] r.0[i]),
    decreases entries.len(),
{
    if entries.len() > 0 {
        let (key, dep) = entries[0];
        if spec_replacement(key, dep, ctx) is Ok {
            let r = spec_replacement(key, dep, ctx)->Ok_0;
            let next = done.push(r);
            assert forall|i: int| 0 <= i < next.len() implies is_pinned(#[trigger] next[i]) by {
                if i < done.len() {
                    assert(next[i] == done[i]);
                }
            }
            lemma_replacements_pinned(
                entries.drop_first(),
                ctx,
                next,
                replacement_noting(key, dep, ctx, acc),
            );
        }
    }
}

/// Every description of a package that interpretation returns is well
/// formed.
pub proof fn lemma_real_manifest_well_formed(
    m: TomlManifestView,
    source_id: SourceIdView,
    layout: LayoutView,
)
    ensures
        spec_real_manifest(m, source_id, layout) matches Ok(r) ==> r.0.well_formed(),
{
    if spec_real_manifest(m, source_id, layout) is Ok {
        let r = spec_real_manifest(m, source_id, layout)->Ok_0;
        let project = m.project_section().unwrap();
        lemma_target_sets(m, project.name, layout);
        let sets = spec_target_sets(m, project.name, layout)->Ok_0;
        lemma_normalize_distinct(
            layout,
            sets.lib,
            sets.bins,
            spec_maybe_custom_build(project.build, layout),
            sets.examples,
            sets.tests,
            sets.benches,
        );
        let targets = spec_targets(project, sets, layout);
        assert(r.0.targets == targets);
        let ctx = ambient_of(true, source_id, layout);
        let start = Collected {
            warnings: shared_path_warnings(layout.root, targets),
            ..Collected::empty()
        };
        let c1 = spec_all_tables(m, ctx, start)->Ok_0;
        lemma_first_conflict(c1.deps);
        lemma_replace_keeps_deps(m, ctx, c1);
        if m.replace is Some {
            lemma_replacements_pinned(m.replace.unwrap(), ctx, Seq::empty(), c1);
        }
        assert(r.0.replace == (spec_replace(m, ctx, c1)->Ok_0).0);
    }
}

} // verus!
