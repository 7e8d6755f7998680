//! From declared or inferred targets to the final list of build targets.

use crate::build_target::{lib_kinds_of, LibKind, LibKindView, Target, TargetView};
use crate::layout::{Layout, LayoutView};
use crate::path::{file_stem, join, spec_file_stem, spec_join};
use crate::target::{TomlTarget, TomlTargetView};
use crate::text::{clone_opt_texts, concat, contains_text, text_eq};
use vstd::prelude::*;
use vstd::string::*;

verus! {

/// Every target of the list has a name.
pub open spec fn all_named(targets: Seq<TomlTargetView>) -> bool {
    forall|i: int| 0 <= i < targets.len() ==> (#[trigger] targets[i]).name is Some
}

/// The names of targets that all have one.
pub open spec fn names_of(targets: Seq<TomlTargetView>) -> Seq<Seq<char>> {
    targets.map_values(|t: TomlTargetView| t.name.unwrap())
}

/// The library that the layout suggests, under the package's name.
pub open spec fn spec_inferred_lib_target(name: Seq<char>, layout: LayoutView) -> Option<
    TomlTargetView,
> {
    match layout.lib {
        Some(lib) => Some(TomlTargetView::at(name, lib)),
        None => None,
    }
}

/// The name of the executable whose entry file is `bin`: the package's name
/// for the main entry file, else the file's stem.
pub open spec fn inferred_bin_name(name: Seq<char>, layout: LayoutView, bin: Seq<char>) -> Option<
    Seq<char>,
> {
    if bin == "src/main.rs"@ || bin == spec_join(spec_join(layout.root, "src"@), "main.rs"@) {
        Some(name)
    } else {
        spec_file_stem(bin)
    }
}

/// One executable for each of `bins` that has a name, in their order.
pub open spec fn inferred_bins(name: Seq<char>, layout: LayoutView, bins: Seq<Seq<char>>) -> Seq<
    TomlTargetView,
>
    decreases bins.len(),
{
    if bins.len() == 0 {
        Seq::empty()
    } else {
        let before = inferred_bins(name, layout, bins.drop_last());
        match inferred_bin_name(name, layout, bins.last()) {
            Some(n) => before.push(TomlTargetView::at(n, bins.last())),
            None => before,
        }
    }
}

/// One target for each of `files` that has a stem, named by it, in their
/// order.
pub open spec fn inferred_by_stem(files: Seq<Seq<char>>) -> Seq<TomlTargetView>
    decreases files.len(),
{
    if files.len() == 0 {
        Seq::empty()
    } else {
        let before = inferred_by_stem(files.drop_last());
        match spec_file_stem(files.last()) {
            Some(n) => before.push(TomlTargetView::at(n, files.last())),
            None => before,
        }
    }
}

/// The library that the layout suggests, under the package's name.
pub fn inferred_lib_target(name: &str, layout: &Layout) -> (r: Option<TomlTarget>)
    ensures
        r.deep_view() == spec_inferred_lib_target(name@, layout@),
{
    match &layout.lib {
        Some(lib) => Some(TomlTarget::at(name, lib.as_str())),
        None => None,
    }
}

/// The binaries that the layout suggests: the main entry file under the
/// package's name, every other entry file under its stem.
pub fn inferred_bin_targets(name: &str, layout: &Layout) -> (r: Vec<TomlTarget>)
    ensures
        r.deep_view() == inferred_bins(name@, layout@, layout@.bins),
        all_named(r.deep_view()),
{
    let main = join(join(layout.root.as_str(), "src").as_str(), "main.rs");
    let ghost all = layout@.bins;
    let mut out: Vec<TomlTarget> = Vec::new();
    let mut i: usize = 0;
    assert(all.take(0) =~= Seq::empty());
    assert(out.deep_view() =~= Seq::empty());
    while i < layout.bins.len()
        invariant
            i <= layout.bins.len(),
            all == layout.bins.deep_view(),
            all == layout@.bins,
            main@ == spec_join(spec_join(layout@.root, "src"@), "main.rs"@),
            out.deep_view() == inferred_bins(name@, layout@, all.take(i as int)),
            all_named(out.deep_view()),
        decreases layout.bins.len() - i,
    {
        let bin = layout.bins[i].as_str();
        let bin_name = if text_eq(bin, "src/main.rs") || text_eq(bin, main.as_str()) {
            Some(String::from_str(name))
        } else {
            file_stem(bin)
        };
        proof {
            assert(all.take(i + 1).drop_last() =~= all.take(i as int));
            assert(all.take(i + 1).last() == bin@);
        }
        let ghost prev = out.deep_view();
        match bin_name {
            Some(n) => {
                out.push(TomlTarget::at(n.as_str(), bin));
                assert(out.deep_view() =~= prev.push(TomlTargetView::at(n@, bin@)));
            },
            None => {},
        }
        i += 1;
    }
    assert(all.take(i as int) =~= all);
    out
}

fn targets_by_stem(files: &Vec<String>) -> (r: Vec<TomlTarget>)
    ensures
        r.deep_view() == inferred_by_stem(files.deep_view()),
        all_named(r.deep_view()),
{
    let ghost all = files.deep_view();
    let mut out: Vec<TomlTarget> = Vec::new();
    let mut i: usize = 0;
    assert(all.take(0) =~= Seq::empty());
    assert(out.deep_view() =~= Seq::empty());
    while i < files.len()
        invariant
            i <= files.len(),
            all == files.deep_view(),
            out.deep_view() == inferred_by_stem(all.take(i as int)),
            all_named(out.deep_view()),
        decreases files.len() - i,
    {
        let file = files[i].as_str();
        proof {
            assert(all.take(i + 1).drop_last() =~= all.take(i as int));
            assert(all.take(i + 1).last() == file@);
        }
        let ghost prev = out.deep_view();
        match file_stem(file) {
            Some(n) => {
                out.push(TomlTarget::at(n.as_str(), file));
                assert(out.deep_view() =~= prev.push(TomlTargetView::at(n@, file@)));
            },
            None => {},
        }
        i += 1;
    }
    assert(all.take(i as int) =~= all);
    out
}

/// The examples that the layout suggests, named by their stems.
pub fn inferred_example_targets(layout: &Layout) -> (r: Vec<TomlTarget>)
    ensures
        r.deep_view() == inferred_by_stem(layout@.examples),
        all_named(r.deep_view()),
{
    targets_by_stem(&layout.examples)
}

/// The tests that the layout suggests, named by their stems.
pub fn inferred_test_targets(layout: &Layout) -> (r: Vec<TomlTarget>)
    ensures
        r.deep_view() == inferred_by_stem(layout@.tests),
        all_named(r.deep_view()),
{
    targets_by_stem(&layout.tests)
}

/// The benchmarks that the layout suggests, named by their stems.
pub fn inferred_bench_targets(layout: &Layout) -> (r: Vec<TomlTarget>)
    ensures
        r.deep_view() == inferred_by_stem(layout@.benches),
        all_named(r.deep_view()),
{
    targets_by_stem(&layout.benches)
}

/// The first string of the list that occurred in it before, if any.
pub open spec fn first_duplicate(names: Seq<Seq<char>>) -> Option<Seq<char>>
    decreases names.len(),
{
    if names.len() == 0 {
        None
    } else {
        match first_duplicate(names.drop_last()) {
            Some(d) => Some(d),
            None => if names.drop_last().contains(names.last()) {
                Some(names.last())
            } else {
                None
            },
        }
    }
}

/// A list has a first duplicate exactly when some string occurs twice.
pub proof fn lemma_first_duplicate(names: Seq<Seq<char>>)
    ensures
        first_duplicate(names) is None <==> names.no_duplicates(),
        first_duplicate(names) matches Some(d) ==> names.contains(d),
    decreases names.len(),
{
    if names.len() > 0 {
        let init = names.drop_last();
        lemma_first_duplicate(init);
        if first_duplicate(init) is Some {
            let d = first_duplicate(init).unwrap();
            let i = choose|i: int| 0 <= i < init.len() && init[i] == d;
            assert(names[i] == d);
            let (a, b) = choose|a: int, b: int|
                0 <= a < init.len() && 0 <= b < init.len() && a != b && init[a] == init[b];
            assert(names[a] == names[b]);
        } else if init.contains(names.last()) {
            let i = choose|i: int| 0 <= i < init.len() && init[i] == names.last();
            assert(names[i] == names[names.len() - 1]);
        } else {
            assert forall|a: int, b: int|
                0 <= a < names.len() && 0 <= b < names.len() && a != b implies names[a]
                != names[b] by {
                if a < init.len() && b < init.len() {
                    assert(init[a] != init[b]);
                } else if a < init.len() {
                    assert(init[a] == names[a]);
                } else {
                    assert(init[b] == names[b]);
                }
            }
        }
    }
}

/// The first string of the list that occurred in it before, if any.
pub fn find_duplicate(names: &Vec<String>) -> (r: Option<String>)
    ensures
        r.deep_view() == first_duplicate(names.deep_view()),
{
    let ghost all = names.deep_view();
    let mut j: usize = 0;
    assert(all.take(0) =~= Seq::empty());
    while j < names.len()
        invariant
            j <= names.len(),
            all == names.deep_view(),
            first_duplicate(all.take(j as int)) is None,
        decreases names.len() - j,
    {
        let ghost init = all.take(j as int);
        proof {
            assert(all.take(j + 1).drop_last() =~= init);
            assert(all.take(j + 1).last() == names[j as int]@);
        }
        let mut i: usize = 0;
        while i < j
            invariant
                i <= j < names.len(),
                all == names.deep_view(),
                init == all.take(j as int),
                forall|k: int| 0 <= k < i ==> init[k] != names[j as int]@,
                first_duplicate(init) is None,
                all.take(j + 1).drop_last() == init,
                all.take(j + 1).last() == names[j as int]@,
            decreases j - i,
        {
            if text_eq(names[i].as_str(), names[j].as_str()) {
                assert(init[i as int] == names[j as int]@);
                assert(first_duplicate(all.take(j + 1)) == Some(names[j as int]@));
                proof {
                    lemma_first_duplicate_extends(all, j + 1);
                }
                return Some(names[j].clone());
            }
            i += 1;
        }
        j += 1;
    }
    assert(all.take(j as int) =~= all);
    None
}

/// A duplicate found in a prefix is the first duplicate of the whole list.
proof fn lemma_first_duplicate_extends(names: Seq<Seq<char>>, n: int)
    requires
        0 <= n <= names.len(),
        first_duplicate(names.take(n)) is Some,
    ensures
        first_duplicate(names) == first_duplicate(names.take(n)),
    decreases names.len() - n,
{
    if n < names.len() {
        assert(names.take(n + 1).drop_last() =~= names.take(n));
        lemma_first_duplicate_extends(names, n + 1);
    } else {
        assert(names.take(n) =~= names);
    }
}

/// The names of the targets are distinct, or else the first name that
/// repeats an earlier one is returned.
pub fn unique_names_in_targets(targets: &Vec<TomlTarget>) -> (r: Result<(), String>)
    requires
        all_named(targets.deep_view()),
    ensures
        match r {
            Ok(()) => first_duplicate(names_of(targets.deep_view())) is None,
            Err(name) => first_duplicate(names_of(targets.deep_view())) == Some(name@),
        },
        r is Ok <==> names_of(targets.deep_view()).no_duplicates(),
{
    let mut names: Vec<String> = Vec::new();
    let mut i: usize = 0;
    while i < targets.len()
        invariant
            i <= targets.len(),
            names.len() == i,
            all_named(targets.deep_view()),
            forall|k: int| 0 <= k < i ==> Some(names[k]@) == targets[k]@.name,
        decreases targets.len() - i,
    {
        assert(targets.deep_view()[i as int].name is Some);
        names.push(targets[i].name());
        i += 1;
    }
    assert(names.deep_view() =~= names_of(targets.deep_view()));
    proof {
        lemma_first_duplicate(names.deep_view());
    }
    match find_duplicate(&names) {
        Some(name) => Err(name),
        None => Ok(()),
    }
}

/// The source files of the targets as seen from the package root.
pub open spec fn source_paths(root: Seq<char>, targets: Seq<TargetView>) -> Seq<Seq<char>> {
    targets.map_values(|t: TargetView| spec_join(root, t.src_path))
}

/// The source files of the targets are distinct, or else the first file that
/// an earlier target has too is returned.
pub fn unique_build_targets(targets: &Vec<Target>, layout: &Layout) -> (r: Result<(), String>)
    ensures
        match r {
            Ok(()) => first_duplicate(source_paths(layout@.root, targets.deep_view())) is None,
            Err(path) => first_duplicate(source_paths(layout@.root, targets.deep_view())) == Some(
                path@,
            ),
        },
        r is Ok <==> source_paths(layout@.root, targets.deep_view()).no_duplicates(),
{
    let mut paths: Vec<String> = Vec::new();
    let mut i: usize = 0;
    while i < targets.len()
        invariant
            i <= targets.len(),
            paths.len() == i,
            forall|k: int|
                0 <= k < i ==> paths[k]@ == spec_join(layout@.root, (#[trigger] targets[k])@.src_path),
        decreases targets.len() - i,
    {
        paths.push(join(layout.root.as_str(), targets[i].src_path.as_str()));
        i += 1;
    }
    assert(paths.deep_view() =~= source_paths(layout@.root, targets.deep_view()));
    proof {
        lemma_first_duplicate(paths.deep_view());
    }
    match find_duplicate(&paths) {
        Some(path) => Err(path),
        None => Ok(()),
    }
}

/// Where the source of a binary without a `path` is taken to be, relative
/// to the package root. With one binary only, the main entry file is taken
/// if it exists, then, in a package without a library, a file of the
/// binary's name directly in `src`, then a file of its name in `src/bin`,
/// and at last the main entry file again. Otherwise the binary lives in
/// `src/bin` under its name.
pub open spec fn spec_inferred_bin_path(
    bin: TomlTargetView,
    layout: LayoutView,
    lib: bool,
    bin_len: nat,
) -> Seq<char> {
    let file = bin.name.unwrap() + ".rs"@;
    let in_bin = spec_join(spec_join("src"@, "bin"@), file);
    let main = spec_join("src"@, "main.rs"@);
    if bin_len != 1 {
        in_bin
    } else if layout.src_entries.contains("main.rs"@) {
        main
    } else if !lib && layout.src_entries.contains(file) {
        spec_join("src"@, file)
    } else if layout.bin_entries.contains(file) {
        in_bin
    } else {
        main
    }
}

/// Where the source of a binary without a `path` is taken to be.
pub fn inferred_bin_path(bin: &TomlTarget, layout: &Layout, lib: bool, bin_len: usize) -> (r:
    String)
    requires
        bin.name is Some,
    ensures
        r@ == spec_inferred_bin_path(bin@, layout@, lib, bin_len as nat),
{
    let file = concat(bin.name().as_str(), ".rs");
    let in_bin = join(join("src", "bin").as_str(), file.as_str());
    if bin_len != 1 {
        return in_bin;
    }
    let main = join("src", "main.rs");
    if contains_text(&layout.src_entries, "main.rs") {
        return main;
    }
    if !lib && contains_text(&layout.src_entries, file.as_str()) {
        return join("src", file.as_str());
    }
    if contains_text(&layout.bin_entries, file.as_str()) {
        return in_bin;
    }
    main
}

/// `value` where it is set, else `default`.
pub open spec fn or_default(value: Option<bool>, default: bool) -> bool {
    match value {
        Some(b) => b,
        None => default,
    }
}

/// Whether a target is built for the host: so where `plugin` or
/// `proc-macro` is set to true, not so where neither is true and one is set
/// to false, and as the kind of the target has it where both are unset.
pub open spec fn spec_for_host(toml: TomlTargetView, default: bool) -> bool {
    if toml.plugin is None && toml.proc_macro() is None {
        default
    } else {
        toml.plugin == Some(true) || toml.proc_macro() == Some(true)
    }
}

/// The target with each flag that the declaration sets.
pub open spec fn spec_configure(toml: TomlTargetView, target: TargetView) -> TargetView {
    TargetView {
        tested: or_default(toml.test, target.tested),
        doc: or_default(toml.doc, target.doc),
        doctest: or_default(toml.doctest, target.doctest),
        benched: or_default(toml.bench, target.benched),
        harness: or_default(toml.harness, target.harness),
        for_host: spec_for_host(toml, target.for_host),
        ..target
    }
}

/// The output kinds of a library: those declared, or else one that follows
/// from `plugin` and `proc-macro`.
pub open spec fn spec_lib_kinds(lib: TomlTargetView) -> Seq<LibKindView> {
    match lib.crate_types() {
        Some(kinds) => lib_kinds_of(kinds),
        None => seq![
            if lib.plugin == Some(true) {
                LibKindView::Dylib
            } else if lib.proc_macro() == Some(true) {
                LibKindView::ProcMacro
            } else {
                LibKindView::Lib
            },
        ],
    }
}

/// The output kinds of an example: those declared, or none.
pub open spec fn spec_example_kinds(example: TomlTargetView) -> Seq<LibKindView> {
    match example.crate_types() {
        Some(kinds) => lib_kinds_of(kinds),
        None => Seq::empty(),
    }
}

/// The declared path of a target, or else the given default.
pub open spec fn path_or(toml: TomlTargetView, default: Seq<char>) -> Seq<char> {
    match toml.path {
        Some(p) => p,
        None => default,
    }
}

/// The library target of a declaration: its source is the declared path, or
/// else the file of its name in `src`.
pub open spec fn spec_lib_target(root: Seq<char>, lib: TomlTargetView) -> TargetView {
    let name = lib.name.unwrap();
    let path = path_or(lib, spec_join("src"@, name + ".rs"@));
    spec_configure(lib, TargetView::lib_target(name, spec_lib_kinds(lib), spec_join(root, path)))
}

/// The binary target of a declaration: its source is the declared path, or
/// else the inferred one.
pub open spec fn spec_bin_target(
    layout: LayoutView,
    bin: TomlTargetView,
    lib: bool,
    bin_len: nat,
) -> TargetView {
    let path = path_or(bin, spec_inferred_bin_path(bin, layout, lib, bin_len));
    spec_configure(
        bin,
        TargetView::bin_target(
            bin.name.unwrap(),
            spec_join(layout.root, path),
            bin.required_features,
        ),
    )
}

/// The target of the build script `cmd`, named after the script's stem.
pub open spec fn spec_custom_build_target(root: Seq<char>, cmd: Seq<char>) -> TargetView {
    let stem = match spec_file_stem(cmd) {
        Some(s) => s,
        None => Seq::empty(),
    };
    TargetView::custom_build_target("build-script-"@ + stem, spec_join(root, cmd))
}

/// The example target of a declaration: its source is the declared path, or
/// else the file of its name in `examples`.
pub open spec fn spec_example_target(root: Seq<char>, example: TomlTargetView) -> TargetView {
    let name = example.name.unwrap();
    let path = path_or(example, spec_join("examples"@, name + ".rs"@));
    spec_configure(
        example,
        TargetView::example_target(
            name,
            spec_example_kinds(example),
            spec_join(root, path),
            example.required_features,
        ),
    )
}

/// The default source of a test: `src/test.rs` for the test named `test`,
/// else a file of the test's name in `tests`.
pub open spec fn default_test_path(name: Seq<char>) -> Seq<char> {
    if name == "test"@ {
        spec_join("src"@, "test.rs"@)
    } else {
        spec_join("tests"@, name + ".rs"@)
    }
}

/// The default source of a benchmark: `src/bench.rs` for the benchmark
/// named `bench`, else a file of the benchmark's name in `benches`.
pub open spec fn default_bench_path(name: Seq<char>) -> Seq<char> {
    if name == "bench"@ {
        spec_join("src"@, "bench.rs"@)
    } else {
        spec_join("benches"@, name + ".rs"@)
    }
}

/// The test target of a declaration.
pub open spec fn spec_test_target(root: Seq<char>, test: TomlTargetView) -> TargetView {
    let name = test.name.unwrap();
    let path = path_or(test, default_test_path(name));
    spec_configure(
        test,
        TargetView::test_target(name, spec_join(root, path), test.required_features),
    )
}

/// The benchmark target of a declaration.
pub open spec fn spec_bench_target(root: Seq<char>, bench: TomlTargetView) -> TargetView {
    let name = bench.name.unwrap();
    let path = path_or(bench, default_bench_path(name));
    spec_configure(
        bench,
        TargetView::bench_target(name, spec_join(root, path), bench.required_features),
    )
}

/// The build targets of a package, in order: the library, the binaries, the
/// build script, the examples, the tests, the benchmarks.
pub open spec fn spec_normalize(
    layout: LayoutView,
    lib: Option<TomlTargetView>,
    bins: Seq<TomlTargetView>,
    custom_build: Option<Seq<char>>,
    examples: Seq<TomlTargetView>,
    tests: Seq<TomlTargetView>,
    benches: Seq<TomlTargetView>,
) -> Seq<TargetView> {
    let root = layout.root;
    (match lib {
        Some(l) => seq![spec_lib_target(root, l)],
        None => Seq::empty(),
    }) + bins.map_values(|b: TomlTargetView| spec_bin_target(layout, b, lib is Some, bins.len()))
        + (match custom_build {
        Some(cmd) => seq![spec_custom_build_target(root, cmd)],
        None => Seq::empty(),
    }) + examples.map_values(|e: TomlTargetView| spec_example_target(root, e)) + tests.map_values(
        |t: TomlTargetView| spec_test_target(root, t),
    ) + benches.map_values(|b: TomlTargetView| spec_bench_target(root, b))
}

fn configure(toml: &TomlTarget, target: Target) -> (r: Target)
    ensures
        r@ == spec_configure(toml@, target@),
{
    let mut t = target;
    if let Some(b) = toml.test {
        t.tested = b;
    }
    if let Some(b) = toml.doc {
        t.doc = b;
    }
    if let Some(b) = toml.doctest {
        t.doctest = b;
    }
    if let Some(b) = toml.bench {
        t.benched = b;
    }
    if let Some(b) = toml.harness {
        t.harness = b;
    }
    let proc_macro = toml.proc_macro();
    if toml.plugin.is_some() || proc_macro.is_some() {
        t.for_host = matches!(toml.plugin, Some(true)) || matches!(proc_macro, Some(true));
    }
    t
}

fn crate_types(toml: &TomlTarget) -> (r: &Option<Vec<String>>)
    ensures
        r.deep_view() == toml@.crate_types(),
{
    if toml.crate_type.is_some() {
        &toml.crate_type
    } else {
        &toml.crate_type2
    }
}

fn lib_target(root: &str, lib: &TomlTarget) -> (r: Target)
    requires
        lib.name is Some,
    ensures
        r@ == spec_lib_target(root@, lib@),
{
    let name = lib.name();
    let path = match &lib.path {
        Some(p) => p.clone(),
        None => join("src", concat(name.as_str(), ".rs").as_str()),
    };
    let kinds = match crate_types(lib) {
        Some(kinds) => LibKind::from_strs(kinds),
        None => {
            let kind = if matches!(lib.plugin, Some(true)) {
                LibKind::Dylib
            } else if matches!(lib.proc_macro(), Some(true)) {
                LibKind::ProcMacro
            } else {
                LibKind::Lib
            };
            let v = vec![kind];
            assert(v.deep_view() =~= spec_lib_kinds(lib@));
            v
        },
    };
    configure(lib, Target::lib_target(name, kinds, join(root, path.as_str())))
}

fn bin_target(layout: &Layout, bin: &TomlTarget, lib: bool, bin_len: usize) -> (r: Target)
    requires
        bin.name is Some,
    ensures
        r@ == spec_bin_target(layout@, bin@, lib, bin_len as nat),
{
    let path = match &bin.path {
        Some(p) => p.clone(),
        None => inferred_bin_path(bin, layout, lib, bin_len),
    };
    configure(
        bin,
        Target::bin_target(
            bin.name(),
            join(layout.root.as_str(), path.as_str()),
            clone_opt_texts(&bin.required_features),
        ),
    )
}

fn custom_build_target(root: &str, cmd: &str) -> (r: Target)
    ensures
        r@ == spec_custom_build_target(root@, cmd@),
{
    let name = match file_stem(cmd) {
        Some(stem) => concat("build-script-", stem.as_str()),
        None => {
            let s = String::from_str("build-script-");
            assert(s@ =~= "build-script-"@ + Seq::<char>::empty());
            s
        },
    };
    Target::custom_build_target(name, join(root, cmd))
}

fn example_target(root: &str, example: &TomlTarget) -> (r: Target)
    requires
        example.name is Some,
    ensures
        r@ == spec_example_target(root@, example@),
{
    let name = example.name();
    let path = match &example.path {
        Some(p) => p.clone(),
        None => join("examples", concat(name.as_str(), ".rs").as_str()),
    };
    let kinds = match crate_types(example) {
        Some(kinds) => LibKind::from_strs(kinds),
        None => {
            let v: Vec<LibKind> = Vec::new();
            assert(v.deep_view() =~= Seq::empty());
            v
        },
    };
    configure(
        example,
        Target::example_target(
            name,
            kinds,
            join(root, path.as_str()),
            clone_opt_texts(&example.required_features),
        ),
    )
}

fn test_target(root: &str, test: &TomlTarget) -> (r: Target)
    requires
        test.name is Some,
    ensures
        r@ == spec_test_target(root@, test@),
{
    let name = test.name();
    let path = match &test.path {
        Some(p) => p.clone(),
        None => if text_eq(name.as_str(), "test") {
            join("src", "test.rs")
        } else {
            join("tests", concat(name.as_str(), ".rs").as_str())
        },
    };
    configure(
        test,
        Target::test_target(name, join(root, path.as_str()), clone_opt_texts(&test.required_features)),
    )
}

fn bench_target(root: &str, bench: &TomlTarget) -> (r: Target)
    requires
        bench.name is Some,
    ensures
        r@ == spec_bench_target(root@, bench@),
{
    let name = bench.name();
    let path = match &bench.path {
        Some(p) => p.clone(),
        None => if text_eq(name.as_str(), "bench") {
            join("src", "bench.rs")
        } else {
            join("benches", concat(name.as_str(), ".rs").as_str())
        },
    };
    configure(
        bench,
        Target::bench_target(
            name,
            join(root, path.as_str()),
            clone_opt_texts(&bench.required_features),
        ),
    )
}

/// The final build targets of a package whose declared or inferred targets
/// all have names.
pub fn normalize(
    layout: &Layout,
    lib: &Option<TomlTarget>,
    bins: &Vec<TomlTarget>,
    custom_build: Option<String>,
    examples: &Vec<TomlTarget>,
    tests: &Vec<TomlTarget>,
    benches: &Vec<TomlTarget>,
) -> (r: Vec<Target>)
    requires
        lib matches Some(l) ==> l.name is Some,
        all_named(bins.deep_view()),
        all_named(examples.deep_view()),
        all_named(tests.deep_view()),
        all_named(benches.deep_view()),
    ensures
        r.deep_view() == spec_normalize(
            layout@,
            lib.deep_view(),
            bins.deep_view(),
            custom_build.deep_view(),
            examples.deep_view(),
            tests.deep_view(),
            benches.deep_view(),
        ),
{
    let root = layout.root.as_str();
    let mut ret: Vec<Target> = Vec::new();
    let has_lib = lib.is_some();
    if let Some(l) = lib {
        ret.push(lib_target(root, l));
    }
    let ghost part0 = ret.deep_view();
    assert(part0 =~= (match lib.deep_view() {
        Some(l) => seq![spec_lib_target(root@, l)],
        None => Seq::empty(),
    }));

    let ghost bs = bins.deep_view();
    let ghost bin_spec = |b: TomlTargetView| spec_bin_target(layout@, b, has_lib, bs.len());
    let mut i: usize = 0;
    while i < bins.len()
        invariant
            i <= bins.len(),
            bs == bins.deep_view(),
            all_named(bs),
            bin_spec == |b: TomlTargetView| spec_bin_target(layout@, b, has_lib, bs.len()),
            ret.deep_view() == part0 + bs.take(i as int).map_values(bin_spec),
        decreases bins.len() - i,
    {
        assert(bs[i as int].name is Some);
        let ghost prev = ret.deep_view();
        let t = bin_target(layout, &bins[i], has_lib, bins.len());
        ret.push(t);
        assert(ret.deep_view() =~= prev.push(t@));
        assert(ret.deep_view() =~= part0 + bs.take(i + 1).map_values(bin_spec));
        i += 1;
    }
    assert(bs.take(i as int) =~= bs);

    let ghost part1 = ret.deep_view();
    if let Some(cmd) = &custom_build {
        let t = custom_build_target(root, cmd.as_str());
        ret.push(t);
        assert(ret.deep_view() =~= part1.push(t@));
    }
    let ghost part2 = ret.deep_view();
    assert(part2 =~= part1 + (match custom_build.deep_view() {
        Some(cmd) => seq![spec_custom_build_target(root@, cmd)],
        None => Seq::empty(),
    }));

    let ghost es = examples.deep_view();
    let ghost example_spec = |e: TomlTargetView| spec_example_target(root@, e);
    let mut i: usize = 0;
    while i < examples.len()
        invariant
            i <= examples.len(),
            es == examples.deep_view(),
            all_named(es),
            root@ == layout@.root,
            example_spec == |e: TomlTargetView| spec_example_target(root@, e),
            ret.deep_view() == part2 + es.take(i as int).map_values(example_spec),
        decreases examples.len() - i,
    {
        assert(es[i as int].name is Some);
        let ghost prev = ret.deep_view();
        let t = example_target(root, &examples[i]);
        ret.push(t);
        assert(ret.deep_view() =~= prev.push(t@));
        assert(ret.deep_view() =~= part2 + es.take(i + 1).map_values(example_spec));
        i += 1;
    }
    assert(es.take(i as int) =~= es);

    let ghost part3 = ret.deep_view();
    let ghost ts = tests.deep_view();
    let ghost test_spec = |t: TomlTargetView| spec_test_target(root@, t);
    let mut i: usize = 0;
    while i < tests.len()
        invariant
            i <= tests.len(),
            ts == tests.deep_view(),
            all_named(ts),
            root@ == layout@.root,
            test_spec == |t: TomlTargetView| spec_test_target(root@, t),
            ret.deep_view() == part3 + ts.take(i as int).map_values(test_spec),
        decreases tests.len() - i,
    {
        assert(ts[i as int].name is Some);
        let ghost prev = ret.deep_view();
        let t = test_target(root, &tests[i]);
        ret.push(t);
        assert(ret.deep_view() =~= prev.push(t@));
        assert(ret.deep_view() =~= part3 + ts.take(i + 1).map_values(test_spec));
        i += 1;
    }
    assert(ts.take(i as int) =~= ts);

    let ghost part4 = ret.deep_view();
    let ghost hs = benches.deep_view();
    let ghost bench_spec = |b: TomlTargetView| spec_bench_target(root@, b);
    let mut i: usize = 0;
    while i < benches.len()
        invariant
            i <= benches.len(),
            hs == benches.deep_view(),
            all_named(hs),
            root@ == layout@.root,
            bench_spec == |b: TomlTargetView| spec_bench_target(root@, b),
            ret.deep_view() == part4 + hs.take(i as int).map_values(bench_spec),
        decreases benches.len() - i,
    {
        assert(hs[i as int].name is Some);
        let ghost prev = ret.deep_view();
        let t = bench_target(root, &benches[i]);
        ret.push(t);
        assert(ret.deep_view() =~= prev.push(t@));
        assert(ret.deep_view() =~= part4 + hs.take(i + 1).map_values(bench_spec));
        i += 1;
    }
    assert(hs.take(i as int) =~= hs);
    ret
}

} // verus!
