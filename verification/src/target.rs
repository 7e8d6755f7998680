//! Build targets: what a manifest declares of them, and what is built.

use crate::error::{ManifestError, ManifestErrorView, Section};
use crate::text::{clone_opt_text, clone_opt_texts, contains_char, is_blank, str_is_blank};
use vstd::prelude::*;
use vstd::string::*;

verus! {

/// One `[lib]`, `[[bin]]`, `[[example]]`, `[[test]]` or `[[bench]]` entry,
/// every key optional.
#[derive(Debug, Default)]
pub struct TomlTarget {
    pub name: Option<String>,
    /// `crate-type`.
    pub crate_type: Option<Vec<String>>,
    /// `crate_type`, the older spelling.
    pub crate_type2: Option<Vec<String>>,
    pub path: Option<String>,
    pub test: Option<bool>,
    pub doctest: Option<bool>,
    pub bench: Option<bool>,
    pub doc: Option<bool>,
    pub plugin: Option<bool>,
    /// `proc-macro`.
    pub proc_macro: Option<bool>,
    /// `proc_macro`, the older spelling.
    pub proc_macro2: Option<bool>,
    pub harness: Option<bool>,
    pub required_features: Option<Vec<String>>,
}

/// The mathematical view of [`TomlTarget`].
pub struct TomlTargetView {
    pub name: Option<Seq<char>>,
    pub crate_type: Option<Seq<Seq<char>>>,
    pub crate_type2: Option<Seq<Seq<char>>>,
    pub path: Option<Seq<char>>,
    pub test: Option<bool>,
    pub doctest: Option<bool>,
    pub bench: Option<bool>,
    pub doc: Option<bool>,
    pub plugin: Option<bool>,
    pub proc_macro: Option<bool>,
    pub proc_macro2: Option<bool>,
    pub harness: Option<bool>,
    pub required_features: Option<Seq<Seq<char>>>,
}

impl View for TomlTarget {
    type V = TomlTargetView;

    open spec fn view(&self) -> TomlTargetView {
        TomlTargetView {
            name: self.name.deep_view(),
            crate_type: self.crate_type.deep_view(),
            crate_type2: self.crate_type2.deep_view(),
            path: self.path.deep_view(),
            test: self.test,
            doctest: self.doctest,
            bench: self.bench,
            doc: self.doc,
            plugin: self.plugin,
            proc_macro: self.proc_macro,
            proc_macro2: self.proc_macro2,
            harness: self.harness,
            required_features: self.required_features.deep_view(),
        }
    }
}

impl DeepView for TomlTarget {
    type V = TomlTargetView;

    open spec fn deep_view(&self) -> TomlTargetView {
        self@
    }
}

impl TomlTargetView {
    /// The target with no key set.
    pub open spec fn empty() -> TomlTargetView {
        TomlTargetView {
            name: None,
            crate_type: None,
            crate_type2: None,
            path: None,
            test: None,
            doctest: None,
            bench: None,
            doc: None,
            plugin: None,
            proc_macro: None,
            proc_macro2: None,
            harness: None,
            required_features: None,
        }
    }

    /// The target with a name and a path and no other key.
    pub open spec fn at(name: Seq<char>, path: Seq<char>) -> TomlTargetView {
        TomlTargetView { name: Some(name), path: Some(path), ..TomlTargetView::empty() }
    }

    /// `proc-macro`, or else `proc_macro`.
    pub open spec fn proc_macro(self) -> Option<bool> {
        if self.proc_macro is Some {
            self.proc_macro
        } else {
            self.proc_macro2
        }
    }

    /// `crate-type`, or else `crate_type`.
    pub open spec fn crate_types(self) -> Option<Seq<Seq<char>>> {
        if self.crate_type is Some {
            self.crate_type
        } else {
            self.crate_type2
        }
    }

    /// What is wrong with the name of a library, if anything: a missing name
    /// is in order, a blank one or one with a hyphen is not.
    pub open spec fn library_name_error(self) -> Option<ManifestErrorView> {
        match self.name {
            Some(name) => if is_blank(name) {
                Some(ManifestErrorView::EmptyTargetName { section: Section::Lib })
            } else if name.contains('-') {
                Some(ManifestErrorView::HyphenInLibraryName { name })
            } else {
                None
            },
            None => None,
        }
    }

    /// What is wrong with the name of a target of a section other than
    /// `[lib]`, if anything: the name must be there and not blank.
    pub open spec fn name_error(self, section: Section) -> Option<ManifestErrorView> {
        match self.name {
            Some(name) => if is_blank(name) {
                Some(ManifestErrorView::EmptyTargetName { section })
            } else {
                None
            },
            None => Some(ManifestErrorView::MissingTargetName { section }),
        }
    }

    /// A library cannot be a compiler plugin and a procedural macro at once.
    pub open spec fn crate_type_error(self) -> Option<ManifestErrorView> {
        if self.plugin == Some(true) && self.proc_macro() == Some(true) {
            Some(ManifestErrorView::PluginAndProcMacro)
        } else {
            None
        }
    }
}

/// The result of a validation whose failure is `e`, if any.
pub open spec fn check(e: Option<ManifestErrorView>) -> Result<(), ManifestErrorView> {
    match e {
        Some(e) => Err(e),
        None => Ok(()),
    }
}

/// The views of a validation's outcome.
pub open spec fn outcome(r: Result<(), ManifestError>) -> Result<(), ManifestErrorView> {
    match r {
        Ok(()) => Ok(()),
        Err(e) => Err(e@),
    }
}

impl Clone for TomlTarget {
    fn clone(&self) -> (r: TomlTarget)
        ensures
            r@ == self@,
    {
        TomlTarget {
            name: clone_opt_text(&self.name),
            crate_type: clone_opt_texts(&self.crate_type),
            crate_type2: clone_opt_texts(&self.crate_type2),
            path: clone_opt_text(&self.path),
            test: self.test,
            doctest: self.doctest,
            bench: self.bench,
            doc: self.doc,
            plugin: self.plugin,
            proc_macro: self.proc_macro,
            proc_macro2: self.proc_macro2,
            harness: self.harness,
            required_features: clone_opt_texts(&self.required_features),
        }
    }
}

impl TomlTarget {
    /// A target with no key set.
    pub fn new() -> (r: TomlTarget)
        ensures
            r@ == TomlTargetView::empty(),
    {
        TomlTarget {
            name: None,
            crate_type: None,
            crate_type2: None,
            path: None,
            test: None,
            doctest: None,
            bench: None,
            doc: None,
            plugin: None,
            proc_macro: None,
            proc_macro2: None,
            harness: None,
            required_features: None,
        }
    }

    /// A target with a name and a path and nothing else.
    pub fn at(name: &str, path: &str) -> (r: TomlTarget)
        ensures
            r@ == TomlTargetView::at(name@, path@),
    {
        let mut t = TomlTarget::new();
        t.name = Some(String::from_str(name));
        t.path = Some(String::from_str(path));
        t
    }

    /// The name of a target that has one.
    pub fn name(&self) -> (r: String)
        requires
            self.name is Some,
        ensures
            Some(r@) == self@.name,
    {
        match &self.name {
            Some(name) => name.clone(),
            None => String::new(),
        }
    }

    /// `proc-macro`, or else `proc_macro`.
    pub fn proc_macro(&self) -> (r: Option<bool>)
        ensures
            r == self@.proc_macro(),
    {
        if self.proc_macro.is_some() {
            self.proc_macro
        } else {
            self.proc_macro2
        }
    }

    /// Checks the name of a library.
    pub fn validate_library_name(&self) -> (r: Result<(), ManifestError>)
        ensures
            outcome(r) == check(self@.library_name_error()),
    {
        match &self.name {
            Some(name) => {
                if str_is_blank(name.as_str()) {
                    Err(ManifestError::EmptyTargetName { section: Section::Lib })
                } else if contains_char(name.as_str(), '-') {
                    Err(ManifestError::HyphenInLibraryName { name: name.clone() })
                } else {
                    Ok(())
                }
            },
            None => Ok(()),
        }
    }

    /// Checks the name of a target of a section other than `[lib]`.
    pub fn validate_name(&self, section: Section) -> (r: Result<(), ManifestError>)
        ensures
            outcome(r) == check(self@.name_error(section)),
    {
        match &self.name {
            Some(name) => {
                if str_is_blank(name.as_str()) {
                    Err(ManifestError::EmptyTargetName { section })
                } else {
                    Ok(())
                }
            },
            None => Err(ManifestError::MissingTargetName { section }),
        }
    }

    /// Checks the name of a binary.
    pub fn validate_binary_name(&self) -> (r: Result<(), ManifestError>)
        ensures
            outcome(r) == check(self@.name_error(Section::Bin)),
    {
        self.validate_name(Section::Bin)
    }

    /// Checks the name of an example.
    pub fn validate_example_name(&self) -> (r: Result<(), ManifestError>)
        ensures
            outcome(r) == check(self@.name_error(Section::Example)),
    {
        self.validate_name(Section::Example)
    }

    /// Checks the name of a test.
    pub fn validate_test_name(&self) -> (r: Result<(), ManifestError>)
        ensures
            outcome(r) == check(self@.name_error(Section::Test)),
    {
        self.validate_name(Section::Test)
    }

    /// Checks the name of a benchmark.
    pub fn validate_bench_name(&self) -> (r: Result<(), ManifestError>)
        ensures
            outcome(r) == check(self@.name_error(Section::Bench)),
    {
        self.validate_name(Section::Bench)
    }

    /// Checks that a library is not both a plugin and a procedural macro.
    pub fn validate_crate_type(&self) -> (r: Result<(), ManifestError>)
        ensures
            outcome(r) == check(self@.crate_type_error()),
    {
        let plugin = match self.plugin {
            Some(b) => b,
            None => false,
        };
        let proc_macro = match self.proc_macro() {
            Some(b) => b,
            None => false,
        };
        if plugin && proc_macro {
            Err(ManifestError::PluginAndProcMacro)
        } else {
            Ok(())
        }
    }
}

} // verus!
