//! The targets of a package before they are normalized: those that its
//! manifest declares, validated, and those that its layout suggests.

use crate::document::{TomlManifest, TomlManifestView};
use crate::error::{ManifestError, ManifestErrorView, Section};
use crate::layout::{Layout, LayoutView};
use crate::normalize::{
    all_named, first_duplicate, inferred_bench_targets, inferred_bin_targets, inferred_bins,
    inferred_by_stem, inferred_example_targets, inferred_lib_target, inferred_test_targets,
    names_of, spec_inferred_lib_target, unique_names_in_targets,
};
use crate::target::{check, outcome, TomlTarget, TomlTargetView};
use crate::text::{clone_opt_text, text_eq};
use vstd::prelude::*;
use vstd::string::*;

verus! {

/// The declared or inferred targets of a package, by section.
#[derive(Debug)]
pub struct TargetSets {
    pub lib: Option<TomlTarget>,
    pub bins: Vec<TomlTarget>,
    pub examples: Vec<TomlTarget>,
    pub tests: Vec<TomlTarget>,
    pub benches: Vec<TomlTarget>,
}

/// The mathematical view of [`TargetSets`].
pub struct TargetSetsView {
    pub lib: Option<TomlTargetView>,
    pub bins: Seq<TomlTargetView>,
    pub examples: Seq<TomlTargetView>,
    pub tests: Seq<TomlTargetView>,
    pub benches: Seq<TomlTargetView>,
}

impl View for TargetSets {
    type V = TargetSetsView;

    open spec fn view(&self) -> TargetSetsView {
        TargetSetsView {
            lib: self.lib.deep_view(),
            bins: self.bins.deep_view(),
            examples: self.examples.deep_view(),
            tests: self.tests.deep_view(),
            benches: self.benches.deep_view(),
        }
    }
}

impl TargetSetsView {
    /// Every target has a name.
    pub open spec fn named(self) -> bool {
        &&& self.lib matches Some(l) ==> l.name is Some
        &&& all_named(self.bins)
        &&& all_named(self.examples)
        &&& all_named(self.tests)
        &&& all_named(self.benches)
    }
}

/// The error of the first target of the list whose name is not in order.
pub open spec fn first_name_error(targets: Seq<TomlTargetView>, section: Section) -> Option<
    ManifestErrorView,
>
    decreases targets.len(),
{
    if targets.len() == 0 {
        None
    } else {
        match targets[0].name_error(section) {
            Some(e) => Some(e),
            None => first_name_error(targets.drop_first(), section),
        }
    }
}

/// Names that no binary may have.
pub open spec fn is_forbidden_bin(name: Seq<char>) -> bool {
    name == "build"@ || name == "deps"@ || name == "examples"@ || name == "native"@
}

/// The first forbidden name among the binaries.
pub open spec fn first_forbidden(bins: Seq<TomlTargetView>) -> Option<Seq<char>>
    decreases bins.len(),
{
    if bins.len() == 0 {
        None
    } else if is_forbidden_bin(bins[0].name.unwrap()) {
        bins[0].name
    } else {
        first_forbidden(bins.drop_first())
    }
}

/// The library of a package named `name`: the declared one, validated,
/// with the package's name and the layout's library file where it gives
/// none of its own; or else the one that the layout suggests.
pub open spec fn spec_lib(lib: Option<TomlTargetView>, name: Seq<char>, layout: LayoutView) -> Result<
    Option<TomlTargetView>,
    ManifestErrorView,
> {
    match lib {
        Some(l) => match l.library_name_error() {
            Some(e) => Err(e),
            None => match l.crate_type_error() {
                Some(e) => Err(e),
                None => Ok(
                    Some(
                        TomlTargetView {
                            name: if l.name is Some {
                                l.name
                            } else {
                                Some(name)
                            },
                            path: if l.path is Some {
                                l.path
                            } else {
                                layout.lib
                            },
                            ..l
                        },
                    ),
                ),
            },
        },
        None => Ok(spec_inferred_lib_target(name, layout)),
    }
}

/// The targets of a section: those declared, whose names must be in
/// order, or else those inferred.
pub open spec fn spec_declared(
    declared: Option<Seq<TomlTargetView>>,
    inferred: Seq<TomlTargetView>,
    section: Section,
) -> Result<Seq<TomlTargetView>, ManifestErrorView> {
    match declared {
        Some(targets) => match first_name_error(targets, section) {
            Some(e) => Err(e),
            None => Ok(targets),
        },
        None => Ok(inferred),
    }
}

/// The error for the first name that two targets of a section share.
pub open spec fn duplicate_error(targets: Seq<TomlTargetView>, section: Section) -> Option<
    ManifestErrorView,
> {
    match first_duplicate(names_of(targets)) {
        Some(name) => Some(ManifestErrorView::DuplicateTargetName { section, name }),
        None => None,
    }
}

/// The first of the errors, in the order given.
pub open spec fn first_of(
    a: Option<ManifestErrorView>,
    b: Option<ManifestErrorView>,
    c: Option<ManifestErrorView>,
    d: Option<ManifestErrorView>,
) -> Option<ManifestErrorView> {
    if a is Some {
        a
    } else if b is Some {
        b
    } else if c is Some {
        c
    } else {
        d
    }
}

/// The targets of the package named `name`. Sections are validated in the
/// order library, binaries, forbidden binary names, examples, tests,
/// benchmarks; then names must be unique among the binaries, the examples,
/// the benchmarks and the tests, in this order.
pub open spec fn spec_target_sets(m: TomlManifestView, name: Seq<char>, layout: LayoutView) -> Result<
    TargetSetsView,
    ManifestErrorView,
> {
    match spec_lib(m.lib, name, layout) {
        Err(e) => Err(e),
        Ok(lib) => match spec_declared(
            m.bin,
            inferred_bins(name, layout, layout.bins),
            Section::Bin,
        ) {
            Err(e) => Err(e),
            Ok(bins) => match first_forbidden(bins) {
                Some(name) => Err(ManifestErrorView::ForbiddenBinaryName { name }),
                None => match spec_declared(
                    m.example,
                    inferred_by_stem(layout.examples),
                    Section::Example,
                ) {
                    Err(e) => Err(e),
                    Ok(examples) => match spec_declared(
                        m.test,
                        inferred_by_stem(layout.tests),
                        Section::Test,
                    ) {
                        Err(e) => Err(e),
                        Ok(tests) => match spec_declared(
                            m.bench,
                            inferred_by_stem(layout.benches),
                            Section::Bench,
                        ) {
                            Err(e) => Err(e),
                            Ok(benches) => match first_of(
                                duplicate_error(bins, Section::Bin),
                                duplicate_error(examples, Section::Example),
                                duplicate_error(benches, Section::Bench),
                                duplicate_error(tests, Section::Test),
                            ) {
                                Some(e) => Err(e),
                                None => Ok(TargetSetsView { lib, bins, examples, tests, benches }),
                            },
                        },
                    },
                },
            },
        },
    }
}

/// Targets whose names are in order all have names.
pub proof fn lemma_validated_are_named(targets: Seq<TomlTargetView>, section: Section)
    requires
        first_name_error(targets, section) is None,
    ensures
        all_named(targets),
    decreases targets.len(),
{
    if targets.len() > 0 {
        let rest = targets.drop_first();
        lemma_validated_are_named(rest, section);
        assert forall|i: int| 0 <= i < targets.len() implies (#[trigger] targets[i]).name is Some by {
            if i > 0 {
                assert(targets[i] == rest[i - 1]);
            }
        }
    }
}

fn validate_names(targets: &Vec<TomlTarget>, section: Section) -> (r: Result<(), ManifestError>)
    ensures
        outcome(r) == check(first_name_error(targets.deep_view(), section)),
        r is Ok ==> all_named(targets.deep_view()),
{
    let ghost all = targets.deep_view();
    let mut i: usize = 0;
    assert(all.skip(0) =~= all);
    while i < targets.len()
        invariant
            i <= targets.len(),
            all == targets.deep_view(),
            first_name_error(all, section) == first_name_error(all.skip(i as int), section),
        decreases targets.len() - i,
    {
        assert(all.skip(i as int)[0] == targets[i as int]@);
        assert(all.skip(i as int).drop_first() =~= all.skip(i + 1));
        match targets[i].validate_name(section) {
            Ok(()) => {},
            Err(e) => {
                return Err(e);
            },
        }
        i += 1;
    }
    proof {
        lemma_validated_are_named(all, section);
    }
    Ok(())
}

fn clone_targets(targets: &Vec<TomlTarget>) -> (r: Vec<TomlTarget>)
    ensures
        r.deep_view() == targets.deep_view(),
{
    let mut out: Vec<TomlTarget> = Vec::new();
    let mut i: usize = 0;
    while i < targets.len()
        invariant
            i <= targets.len(),
            out.len() == i,
            forall|j: int| 0 <= j < i ==> out[j]@ == targets[j]@,
        decreases targets.len() - i,
    {
        out.push(targets[i].clone());
        i += 1;
    }
    assert(out.deep_view() =~= targets.deep_view());
    out
}

fn declared(targets: &Vec<TomlTarget>, section: Section) -> (r: Result<
    Vec<TomlTarget>,
    ManifestError,
>)
    ensures
        match r {
            Ok(ts) => first_name_error(targets.deep_view(), section) is None && ts.deep_view()
                == targets.deep_view() && all_named(ts.deep_view()),
            Err(e) => first_name_error(targets.deep_view(), section) == Some(e@),
        },
{
    match validate_names(targets, section) {
        Ok(()) => Ok(clone_targets(targets)),
        Err(e) => Err(e),
    }
}

fn forbidden_bin(bins: &Vec<TomlTarget>) -> (r: Option<String>)
    requires
        all_named(bins.deep_view()),
    ensures
        r.deep_view() == first_forbidden(bins.deep_view()),
{
    let ghost all = bins.deep_view();
    let mut i: usize = 0;
    assert(all.skip(0) =~= all);
    while i < bins.len()
        invariant
            i <= bins.len(),
            all == bins.deep_view(),
            all_named(all),
            first_forbidden(all) == first_forbidden(all.skip(i as int)),
        decreases bins.len() - i,
    {
        assert(all.skip(i as int)[0] == bins[i as int]@);
        assert(all.skip(i as int).drop_first() =~= all.skip(i + 1));
        assert(all[i as int].name is Some);
        let name = bins[i].name();
        let n = name.as_str();
        if text_eq(n, "build") || text_eq(n, "deps") || text_eq(n, "examples") || text_eq(
            n,
            "native",
        ) {
            return Some(name);
        }
        i += 1;
    }
    None
}

fn library(lib: &Option<TomlTarget>, name: &str, layout: &Layout) -> (r: Result<
    Option<TomlTarget>,
    ManifestError,
>)
    ensures
        match r {
            Ok(l) => spec_lib(lib.deep_view(), name@, layout@) == Ok::<
                Option<TomlTargetView>,
                ManifestErrorView,
            >(l.deep_view()) && (l matches Some(t) ==> t.name is Some),
            Err(e) => spec_lib(lib.deep_view(), name@, layout@) == Err::<
                Option<TomlTargetView>,
                ManifestErrorView,
            >(e@),
        },
{
    match lib {
        Some(l) => {
            match l.validate_library_name() {
                Ok(()) => {},
                Err(e) => {
                    return Err(e);
                },
            }
            match l.validate_crate_type() {
                Ok(()) => {},
                Err(e) => {
                    return Err(e);
                },
            }
            let mut t = l.clone();
            if t.name.is_none() {
                t.name = Some(String::from_str(name));
            }
            if t.path.is_none() {
                t.path = clone_opt_text(&layout.lib);
            }
            Ok(Some(t))
        },
        None => Ok(inferred_lib_target(name, layout)),
    }
}

fn unique(targets: &Vec<TomlTarget>, section: Section) -> (r: Result<(), ManifestError>)
    requires
        all_named(targets.deep_view()),
    ensures
        outcome(r) == check(duplicate_error(targets.deep_view(), section)),
{
    match unique_names_in_targets(targets) {
        Ok(()) => Ok(()),
        Err(name) => Err(ManifestError::DuplicateTargetName { section, name }),
    }
}

/// The targets of the package named `name`, declared or inferred, with
/// their names validated.
pub fn target_sets(m: &TomlManifest, name: &str, layout: &Layout) -> (r: Result<
    TargetSets,
    ManifestError,
>)
    ensures
        match r {
            Ok(sets) => spec_target_sets(m@, name@, layout@) == Ok::<
                TargetSetsView,
                ManifestErrorView,
            >(sets@) && sets@.named(),
            Err(e) => spec_target_sets(m@, name@, layout@) == Err::<
                TargetSetsView,
                ManifestErrorView,
            >(e@),
        },
{
    let lib = match library(&m.lib, name, layout) {
        Ok(l) => l,
        Err(e) => {
            return Err(e);
        },
    };
    let bins = match &m.bin {
        Some(bins) => match declared(bins, Section::Bin) {
            Ok(b) => b,
            Err(e) => {
                return Err(e);
            },
        },
        None => inferred_bin_targets(name, layout),
    };
    match forbidden_bin(&bins) {
        Some(name) => {
            return Err(ManifestError::ForbiddenBinaryName { name });
        },
        None => {},
    }
    let examples = match &m.example {
        Some(examples) => match declared(examples, Section::Example) {
            Ok(x) => x,
            Err(e) => {
                return Err(e);
            },
        },
        None => inferred_example_targets(layout),
    };
    let tests = match &m.test {
        Some(tests) => match declared(tests, Section::Test) {
            Ok(x) => x,
            Err(e) => {
                return Err(e);
            },
        },
        None => inferred_test_targets(layout),
    };
    let benches = match &m.bench {
        Some(benches) => match declared(benches, Section::Bench) {
            Ok(x) => x,
            Err(e) => {
                return Err(e);
            },
        },
        None => inferred_bench_targets(layout),
    };
    match unique(&bins, Section::Bin) {
        Ok(()) => {},
        Err(e) => {
            return Err(e);
        },
    }
    match unique(&examples, Section::Example) {
        Ok(()) => {},
        Err(e) => {
            return Err(e);
        },
    }
    match unique(&benches, Section::Bench) {
        Ok(()) => {},
        Err(e) => {
            return Err(e);
        },
    }
    match unique(&tests, Section::Test) {
        Ok(()) => {},
        Err(e) => {
            return Err(e);
        },
    }
    Ok(TargetSets { lib, bins, examples, tests, benches })
}

} // verus!
