//! Interpretation of package manifests.
//!
//! A manifest document, already decoded into optional fields
//! ([`document`]), is validated and turned into the canonical description
//! of a package or of a workspace root ([`manifest`]). The steps: the
//! conventional files of the package directory ([`layout`]), the declared
//! or inferred targets ([`target_sets`]) and their final form
//! ([`normalize`]), the dependencies and replacements ([`dependency`],
//! [`collect`]), the build profiles ([`profile`]), and the whole
//! ([`interpret`]).
//!
//! Every function states what it returns over a mathematical view of its
//! arguments, and is proved to meet that statement. What is stated of the
//! whole stands in [`laws`] and [`invariants`]. A few things are taken on
//! trust and named rather than described: what the `semver` crate makes of
//! a version and of a requirement, what the `url` crate makes of a URL, and
//! what the `toml` crate makes of a text, and which characters the standard
//! library counts as letters and numbers.
//!
//! Paths are strings with `/` between their components ([`path`]); nothing
//! in this crate touches the file system.

pub mod build_target;
pub mod cfg;
pub mod collect;
pub mod dependency;
pub mod document;
pub mod error;
pub mod interpret;
pub mod invariants;
pub mod laws;
pub mod layout;
pub mod manifest;
pub mod message;
pub mod nesting;
pub mod normalize;
pub mod package_id;
pub mod path;
pub mod profile;
pub mod source;
pub mod syntax;
pub mod target;
pub mod target_sets;
pub mod text;
pub mod version;
