//! One compilable unit of a package.

use crate::text::text_eq;
use vstd::prelude::*;
use vstd::string::*;

verus! {

/// An output kind of a library or of an example.
#[derive(Debug)]
pub enum LibKind {
    Lib,
    Rlib,
    Dylib,
    ProcMacro,
    Other(String),
}

/// The mathematical view of [`LibKind`].
pub enum LibKindView {
    Lib,
    Rlib,
    Dylib,
    ProcMacro,
    Other(Seq<char>),
}

impl View for LibKind {
    type V = LibKindView;

    open spec fn view(&self) -> LibKindView {
        match self {
            LibKind::Lib => LibKindView::Lib,
            LibKind::Rlib => LibKindView::Rlib,
            LibKind::Dylib => LibKindView::Dylib,
            LibKind::ProcMacro => LibKindView::ProcMacro,
            LibKind::Other(s) => LibKindView::Other(s@),
        }
    }
}

impl DeepView for LibKind {
    type V = LibKindView;

    open spec fn deep_view(&self) -> LibKindView {
        self@
    }
}

/// The output kind that a `crate-type` entry names.
pub open spec fn lib_kind_of(s: Seq<char>) -> LibKindView {
    if s == "lib"@ {
        LibKindView::Lib
    } else if s == "rlib"@ {
        LibKindView::Rlib
    } else if s == "dylib"@ {
        LibKindView::Dylib
    } else if s == "proc-macro"@ || s == "proc_macro"@ {
        LibKindView::ProcMacro
    } else {
        LibKindView::Other(s)
    }
}

/// The output kinds that a list of `crate-type` entries names.
pub open spec fn lib_kinds_of(names: Seq<Seq<char>>) -> Seq<LibKindView> {
    names.map_values(|s: Seq<char>| lib_kind_of(s))
}

impl LibKind {
    /// The output kind that the name stands for.
    pub fn from_str(s: &str) -> (r: LibKind)
        ensures
            r@ == lib_kind_of(s@),
    {
        if text_eq(s, "lib") {
            LibKind::Lib
        } else if text_eq(s, "rlib") {
            LibKind::Rlib
        } else if text_eq(s, "dylib") {
            LibKind::Dylib
        } else if text_eq(s, "proc-macro") || text_eq(s, "proc_macro") {
            LibKind::ProcMacro
        } else {
            LibKind::Other(String::from_str(s))
        }
    }

    /// The output kinds named by `names`, in their order.
    pub fn from_strs(names: &Vec<String>) -> (r: Vec<LibKind>)
        ensures
            r.deep_view() == lib_kinds_of(names.deep_view()),
    {
        let mut out: Vec<LibKind> = Vec::new();
        let mut i: usize = 0;
        while i < names.len()
            invariant
                i <= names.len(),
                out.len() == i,
                forall|j: int| 0 <= j < i ==> out[j]@ == lib_kind_of(names[j]@),
            decreases names.len() - i,
        {
            out.push(LibKind::from_str(names[i].as_str()));
            i += 1;
        }
        assert(out.deep_view() =~= lib_kinds_of(names.deep_view()));
        out
    }
}

/// What a target is.
#[derive(Debug)]
pub enum TargetKind {
    Lib(Vec<LibKind>),
    Bin,
    Test,
    Bench,
    ExampleLib(Vec<LibKind>),
    ExampleBin,
    CustomBuild,
}

/// The mathematical view of [`TargetKind`].
pub enum TargetKindView {
    Lib(Seq<LibKindView>),
    Bin,
    Test,
    Bench,
    ExampleLib(Seq<LibKindView>),
    ExampleBin,
    CustomBuild,
}

impl View for TargetKind {
    type V = TargetKindView;

    open spec fn view(&self) -> TargetKindView {
        match self {
            TargetKind::Lib(kinds) => TargetKindView::Lib(kinds.deep_view()),
            TargetKind::Bin => TargetKindView::Bin,
            TargetKind::Test => TargetKindView::Test,
            TargetKind::Bench => TargetKindView::Bench,
            TargetKind::ExampleLib(kinds) => TargetKindView::ExampleLib(kinds.deep_view()),
            TargetKind::ExampleBin => TargetKindView::ExampleBin,
            TargetKind::CustomBuild => TargetKindView::CustomBuild,
        }
    }
}

/// A build target with its flags resolved.
#[derive(Debug)]
pub struct Target {
    pub kind: TargetKind,
    pub name: String,
    pub src_path: String,
    pub required_features: Option<Vec<String>>,
    pub tested: bool,
    pub benched: bool,
    pub doc: bool,
    pub doctest: bool,
    pub harness: bool,
    pub for_host: bool,
}

/// The mathematical view of [`Target`].
pub struct TargetView {
    pub kind: TargetKindView,
    pub name: Seq<char>,
    pub src_path: Seq<char>,
    pub required_features: Option<Seq<Seq<char>>>,
    pub tested: bool,
    pub benched: bool,
    pub doc: bool,
    pub doctest: bool,
    pub harness: bool,
    pub for_host: bool,
}

impl View for Target {
    type V = TargetView;

    open spec fn view(&self) -> TargetView {
        TargetView {
            kind: self.kind@,
            name: self.name@,
            src_path: self.src_path@,
            required_features: self.required_features.deep_view(),
            tested: self.tested,
            benched: self.benched,
            doc: self.doc,
            doctest: self.doctest,
            harness: self.harness,
            for_host: self.for_host,
        }
    }
}

impl DeepView for Target {
    type V = TargetView;

    open spec fn deep_view(&self) -> TargetView {
        self@
    }
}

impl TargetView {
    /// A binary without required features: tested and benched under the
    /// harness, not documented, built for the target platform.
    pub open spec fn blank(name: Seq<char>, src_path: Seq<char>) -> TargetView {
        TargetView {
            kind: TargetKindView::Bin,
            name,
            src_path,
            required_features: None,
            tested: true,
            benched: true,
            doc: false,
            doctest: false,
            harness: true,
            for_host: false,
        }
    }

    /// A library: documented and doctested.
    pub open spec fn lib_target(
        name: Seq<char>,
        kinds: Seq<LibKindView>,
        src_path: Seq<char>,
    ) -> TargetView {
        TargetView {
            kind: TargetKindView::Lib(kinds),
            doctest: true,
            doc: true,
            ..TargetView::blank(name, src_path)
        }
    }

    /// A binary: documented.
    pub open spec fn bin_target(
        name: Seq<char>,
        src_path: Seq<char>,
        required_features: Option<Seq<Seq<char>>>,
    ) -> TargetView {
        TargetView { required_features, doc: true, ..TargetView::blank(name, src_path) }
    }

    /// A build script: built for the host, neither tested nor benchmarked.
    pub open spec fn custom_build_target(name: Seq<char>, src_path: Seq<char>) -> TargetView {
        TargetView {
            kind: TargetKindView::CustomBuild,
            for_host: true,
            benched: false,
            tested: false,
            ..TargetView::blank(name, src_path)
        }
    }

    /// An example: a binary unless it declares output kinds, and not benchmarked.
    pub open spec fn example_target(
        name: Seq<char>,
        kinds: Seq<LibKindView>,
        src_path: Seq<char>,
        required_features: Option<Seq<Seq<char>>>,
    ) -> TargetView {
        TargetView {
            kind: if kinds.len() == 0 {
                TargetKindView::ExampleBin
            } else {
                TargetKindView::ExampleLib(kinds)
            },
            required_features,
            benched: false,
            ..TargetView::blank(name, src_path)
        }
    }

    /// A test: not benchmarked.
    pub open spec fn test_target(
        name: Seq<char>,
        src_path: Seq<char>,
        required_features: Option<Seq<Seq<char>>>,
    ) -> TargetView {
        TargetView {
            kind: TargetKindView::Test,
            required_features,
            benched: false,
            ..TargetView::blank(name, src_path)
        }
    }

    /// A benchmark: not tested.
    pub open spec fn bench_target(
        name: Seq<char>,
        src_path: Seq<char>,
        required_features: Option<Seq<Seq<char>>>,
    ) -> TargetView {
        TargetView {
            kind: TargetKindView::Bench,
            required_features,
            tested: false,
            ..TargetView::blank(name, src_path)
        }
    }

    /// Whether the target is a build script.
    pub open spec fn is_custom_build(self) -> bool {
        self.kind is CustomBuild
    }
}

impl Target {
    fn blank(name: String, src_path: String) -> (r: Target)
        ensures
            r@ == TargetView::blank(name@, src_path@),
    {
        Target {
            kind: TargetKind::Bin,
            name,
            src_path,
            required_features: None,
            tested: true,
            benched: true,
            doc: false,
            doctest: false,
            harness: true,
            for_host: false,
        }
    }

    /// A library: documented and doctested.
    pub fn lib_target(name: String, kinds: Vec<LibKind>, src_path: String) -> (r: Target)
        ensures
            r@ == TargetView::lib_target(name@, kinds.deep_view(), src_path@),
    {
        let mut t = Target::blank(name, src_path);
        t.kind = TargetKind::Lib(kinds);
        t.doctest = true;
        t.doc = true;
        t
    }

    /// A binary: documented.
    pub fn bin_target(name: String, src_path: String, required_features: Option<Vec<String>>) -> (r:
        Target)
        ensures
            r@ == TargetView::bin_target(name@, src_path@, required_features.deep_view()),
    {
        let mut t = Target::blank(name, src_path);
        t.required_features = required_features;
        t.doc = true;
        t
    }

    /// A build script: built for the host, neither tested nor benchmarked.
    pub fn custom_build_target(name: String, src_path: String) -> (r: Target)
        ensures
            r@ == TargetView::custom_build_target(name@, src_path@),
    {
        let mut t = Target::blank(name, src_path);
        t.kind = TargetKind::CustomBuild;
        t.for_host = true;
        t.benched = false;
        t.tested = false;
        t
    }

    /// An example: a binary unless it declares output kinds, and not benchmarked.
    pub fn example_target(
        name: String,
        kinds: Vec<LibKind>,
        src_path: String,
        required_features: Option<Vec<String>>,
    ) -> (r: Target)
        ensures
            r@ == TargetView::example_target(
                name@,
                kinds.deep_view(),
                src_path@,
                required_features.deep_view(),
            ),
    {
        let mut t = Target::blank(name, src_path);
        t.kind = if kinds.len() == 0 {
            TargetKind::ExampleBin
        } else {
            TargetKind::ExampleLib(kinds)
        };
        t.required_features = required_features;
        t.benched = false;
        t
    }

    /// A test: not benchmarked.
    pub fn test_target(name: String, src_path: String, required_features: Option<Vec<String>>) -> (r:
        Target)
        ensures
            r@ == TargetView::test_target(name@, src_path@, required_features.deep_view()),
    {
        let mut t = Target::blank(name, src_path);
        t.kind = TargetKind::Test;
        t.required_features = required_features;
        t.benched = false;
        t
    }

    /// A benchmark: not tested.
    pub fn bench_target(name: String, src_path: String, required_features: Option<Vec<String>>) -> (r:
        Target)
        ensures
            r@ == TargetView::bench_target(name@, src_path@, required_features.deep_view()),
    {
        let mut t = Target::blank(name, src_path);
        t.kind = TargetKind::Bench;
        t.required_features = required_features;
        t.tested = false;
        t
    }

    /// Whether the target is a build script.
    pub fn is_custom_build(&self) -> (r: bool)
        ensures
            r == self@.is_custom_build(),
    {
        match self.kind {
            TargetKind::CustomBuild => true,
            _ => false,
        }
    }
}

} // verus!
