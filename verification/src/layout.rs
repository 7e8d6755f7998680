//! The conventional places of a package's source files.

use crate::path::{is_source_file, join, spec_is_source_file, spec_join};
use crate::text::{clone_texts, contains_text};
use vstd::prelude::*;
use vstd::string::*;

verus! {

/// What was found in the conventional directories of a package: the names
/// of the entries directly inside each, in the order they were listed.
pub struct DirListing {
    /// Entries of `src`.
    pub src: Vec<String>,
    /// Entries of `src/bin`.
    pub src_bin: Vec<String>,
    /// Entries of `examples`.
    pub examples: Vec<String>,
    /// Entries of `tests`.
    pub tests: Vec<String>,
    /// Entries of `benches`.
    pub benches: Vec<String>,
    /// Whether `build.rs` in the package root is a regular file.
    pub build_script: bool,
}

/// The files of a package that matter to its manifest.
pub struct Layout {
    /// The directory that holds the manifest.
    pub root: String,
    /// The library's entry file, where there is one.
    pub lib: Option<String>,
    /// Entry files of executables.
    pub bins: Vec<String>,
    pub examples: Vec<String>,
    pub tests: Vec<String>,
    pub benches: Vec<String>,
    /// Names of all entries of `src`.
    pub src_entries: Vec<String>,
    /// Names of all entries of `src/bin`.
    pub bin_entries: Vec<String>,
    /// Whether `build.rs` in the root is a regular file.
    pub build_script: bool,
}

/// The mathematical view of [`DirListing`].
pub struct DirListingView {
    pub src: Seq<Seq<char>>,
    pub src_bin: Seq<Seq<char>>,
    pub examples: Seq<Seq<char>>,
    pub tests: Seq<Seq<char>>,
    pub benches: Seq<Seq<char>>,
    pub build_script: bool,
}

/// The mathematical view of [`Layout`].
pub struct LayoutView {
    pub root: Seq<char>,
    pub lib: Option<Seq<char>>,
    pub bins: Seq<Seq<char>>,
    pub examples: Seq<Seq<char>>,
    pub tests: Seq<Seq<char>>,
    pub benches: Seq<Seq<char>>,
    pub src_entries: Seq<Seq<char>>,
    pub bin_entries: Seq<Seq<char>>,
    pub build_script: bool,
}

impl View for DirListing {
    type V = DirListingView;

    open spec fn view(&self) -> DirListingView {
        DirListingView {
            src: self.src.deep_view(),
            src_bin: self.src_bin.deep_view(),
            examples: self.examples.deep_view(),
            tests: self.tests.deep_view(),
            benches: self.benches.deep_view(),
            build_script: self.build_script,
        }
    }
}

impl View for Layout {
    type V = LayoutView;

    open spec fn view(&self) -> LayoutView {
        LayoutView {
            root: self.root@,
            lib: self.lib.deep_view(),
            bins: self.bins.deep_view(),
            examples: self.examples.deep_view(),
            tests: self.tests.deep_view(),
            benches: self.benches.deep_view(),
            src_entries: self.src_entries.deep_view(),
            bin_entries: self.bin_entries.deep_view(),
            build_script: self.build_script,
        }
    }
}

/// The candidate source files among the entries `names` of `dir`, as paths
/// below `dir`, in the order of `names`.
pub open spec fn source_files(dir: Seq<char>, names: Seq<Seq<char>>) -> Seq<Seq<char>>
    decreases names.len(),
{
    if names.len() == 0 {
        Seq::empty()
    } else {
        let before = source_files(dir, names.drop_last());
        let p = spec_join(dir, names.last());
        if spec_is_source_file(p) {
            before.push(p)
        } else {
            before
        }
    }
}

/// The layout that a listing of the package's directories gives.
pub open spec fn spec_layout(root: Seq<char>, listing: DirListingView) -> LayoutView {
    let src = spec_join(root, "src"@);
    LayoutView {
        root,
        lib: if listing.src.contains("lib.rs"@) {
            Some(spec_join(src, "lib.rs"@))
        } else {
            None
        },
        bins: (if listing.src.contains("main.rs"@) {
            seq![spec_join(src, "main.rs"@)]
        } else {
            Seq::empty()
        }) + source_files(spec_join(src, "bin"@), listing.src_bin),
        examples: source_files(spec_join(root, "examples"@), listing.examples),
        tests: source_files(spec_join(root, "tests"@), listing.tests),
        benches: source_files(spec_join(root, "benches"@), listing.benches),
        src_entries: listing.src,
        bin_entries: listing.src_bin,
        build_script: listing.build_script,
    }
}

/// Appends to `files` the candidate source files among the entries `names`
/// of the directory `dir`.
pub fn try_add_files(files: &mut Vec<String>, dir: &str, names: &Vec<String>)
    ensures
        final(files).deep_view() == old(files).deep_view() + source_files(
            dir@,
            names.deep_view(),
        ),
{
    let ghost before = files.deep_view();
    let ghost all = names.deep_view();
    let mut i: usize = 0;
    assert(all.take(0) =~= Seq::empty());
    assert(files.deep_view() =~= before + source_files(dir@, all.take(0)));
    while i < names.len()
        invariant
            i <= names.len(),
            all == names.deep_view(),
            files.deep_view() == before + source_files(dir@, all.take(i as int)),
        decreases names.len() - i,
    {
        let p = join(dir, names[i].as_str());
        let ghost prev = files.deep_view();
        proof {
            assert(all.take(i + 1).drop_last() =~= all.take(i as int));
            assert(all.take(i + 1).last() == names[i as int]@);
        }
        if is_source_file(p.as_str()) {
            files.push(p);
            assert(files.deep_view() =~= prev.push(p@));
            assert(files.deep_view() =~= before + source_files(dir@, all.take(i + 1)));
        }
        i += 1;
    }
    assert(all.take(i as int) =~= all);
}

impl Layout {
    /// The layout of the package in `root_path`, whose directories hold what
    /// `listing` says.
    pub fn from_project_path(root_path: &str, listing: &DirListing) -> (r: Layout)
        ensures
            r@ == spec_layout(root_path@, listing@),
    {
        let src = join(root_path, "src");
        let lib = if contains_text(&listing.src, "lib.rs") {
            Some(join(src.as_str(), "lib.rs"))
        } else {
            None
        };
        let mut bins: Vec<String> = Vec::new();
        if contains_text(&listing.src, "main.rs") {
            let m = join(src.as_str(), "main.rs");
            bins.push(m);
            assert(bins.deep_view() =~= seq![spec_join(src@, "main.rs"@)]);
        } else {
            assert(bins.deep_view() =~= Seq::empty());
        }
        try_add_files(&mut bins, join(src.as_str(), "bin").as_str(), &listing.src_bin);
        let mut examples: Vec<String> = Vec::new();
        let mut tests: Vec<String> = Vec::new();
        let mut benches: Vec<String> = Vec::new();
        assert(examples.deep_view() =~= Seq::empty());
        assert(tests.deep_view() =~= Seq::empty());
        assert(benches.deep_view() =~= Seq::empty());
        try_add_files(&mut examples, join(root_path, "examples").as_str(), &listing.examples);
        try_add_files(&mut tests, join(root_path, "tests").as_str(), &listing.tests);
        try_add_files(&mut benches, join(root_path, "benches").as_str(), &listing.benches);
        Layout {
            root: String::from_str(root_path),
            lib,
            bins,
            examples,
            tests,
            benches,
            src_entries: clone_texts(&listing.src),
            bin_entries: clone_texts(&listing.src_bin),
            build_script: listing.build_script,
        }
    }
}

} // verus!
