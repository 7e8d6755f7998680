//! The identity of a package, and specifications that select packages.

use crate::path::{first_index_of, lemma_first_index_of};
use crate::source::{to_url, url_parse, ParsedUrl, ParsedUrlView, SourceId, SourceIdView};
use crate::text::{
    char_is_alphabetic, char_is_alphanumeric, chars_of, concat, contains_char, contains_str,
    has_substring, is_alphabetic, is_alphanumeric,
};
use crate::version::{semver_version, Version, VersionView};
use vstd::prelude::*;
use vstd::string::*;

verus! {

/// A package: its name, its version, and where it comes from.
#[derive(Debug)]
pub struct PackageId {
    pub name: String,
    pub version: Version,
    pub source_id: SourceId,
}

/// The mathematical view of [`PackageId`].
pub struct PackageIdView {
    pub name: Seq<char>,
    pub version: VersionView,
    pub source_id: SourceIdView,
}

impl View for PackageId {
    type V = PackageIdView;

    open spec fn view(&self) -> PackageIdView {
        PackageIdView { name: self.name@, version: self.version@, source_id: self.source_id@ }
    }
}

impl PackageId {
    /// The package of this name and version from this source.
    pub fn new(name: &str, version: Version, source_id: &SourceId) -> (r: PackageId)
        ensures
            r@ == (PackageIdView { name: name@, version: version@, source_id: source_id@ }),
    {
        PackageId { name: String::from_str(name), version, source_id: source_id.clone() }
    }
}

/// A specification of packages: a name, perhaps a version, perhaps the URL
/// of a source.
#[derive(Debug)]
pub struct PackageIdSpec {
    pub name: String,
    pub version: Option<Version>,
    pub url: Option<String>,
}

/// The mathematical view of [`PackageIdSpec`].
pub struct PackageIdSpecView {
    pub name: Seq<char>,
    pub version: Option<VersionView>,
    pub url: Option<Seq<char>>,
}

impl View for PackageIdSpec {
    type V = PackageIdSpecView;

    open spec fn view(&self) -> PackageIdSpecView {
        PackageIdSpecView {
            name: self.name@,
            version: self.version.deep_view(),
            url: self.url.deep_view(),
        }
    }
}

impl DeepView for PackageIdSpec {
    type V = PackageIdSpecView;

    open spec fn deep_view(&self) -> PackageIdSpecView {
        self@
    }
}

/// `s` up to its first `c`, and what follows that `c`, if there is one.
pub open spec fn split_once(s: Seq<char>, c: char) -> (Seq<char>, Option<Seq<char>>) {
    let i = first_index_of(s, c);
    if 0 <= i < s.len() {
        (s.take(i), Some(s.skip(i + 1)))
    } else {
        (s, None)
    }
}

/// A character that the name of a package may hold.
pub open spec fn is_name_char(c: char) -> bool {
    is_alphanumeric(c) || c == '_' || c == '-'
}

/// Every character may stand in the name of a package.
pub open spec fn is_package_name(name: Seq<char>) -> bool {
    forall|i: int| 0 <= i < name.len() ==> is_name_char(#[trigger] name[i])
}

/// The specification written as `name` or `name:version`.
pub open spec fn spec_plain(spec: Seq<char>) -> Option<PackageIdSpecView> {
    let (name, rest) = split_once(spec, ':');
    if !is_package_name(name) {
        None
    } else {
        match rest {
            None => Some(PackageIdSpecView { name, version: None, url: None }),
            Some(text) => match semver_version(text) {
                Some(v) => Some(PackageIdSpecView { name, version: Some(v), url: None }),
                None => None,
            },
        }
    }
}

/// The specification written as a URL. The URL must have no query and a
/// path of segments. Its fragment is `name:version`, a name (where it
/// starts with a letter) or a version; a name that the fragment does not
/// give is the last segment of the path. The URL without its fragment is
/// the source.
pub open spec fn spec_from_url(u: ParsedUrlView) -> Option<PackageIdSpecView> {
    if u.query is Some || u.path_segments is None || u.path_segments.unwrap().len() == 0 {
        None
    } else {
        let path_name = u.path_segments.unwrap().last();
        let url = Some(u.serialization.take(first_index_of(u.serialization, '#')));
        match u.fragment {
            None => Some(PackageIdSpecView { name: path_name, version: None, url }),
            Some(fragment) => {
                let (first, second) = split_once(fragment, ':');
                match second {
                    Some(part) => match semver_version(part) {
                        Some(v) => Some(PackageIdSpecView { name: first, version: Some(v), url }),
                        None => None,
                    },
                    None => if first.len() > 0 && is_alphabetic(first[0]) {
                        Some(PackageIdSpecView { name: first, version: None, url })
                    } else {
                        match semver_version(first) {
                            Some(v) => Some(
                                PackageIdSpecView { name: path_name, version: Some(v), url },
                            ),
                            None => None,
                        }
                    },
                }
            },
        }
    }
}

/// What a specification with a `/` in it is, once it is known what the URL
/// parser made of it (`direct`) and of it behind `cargo://` (`prefixed`).
/// The second reading is tried only where the first fails and the text has
/// no `://`; where neither gives a URL the text is read as `name:version`.
pub open spec fn spec_with_urls(
    spec: Seq<char>,
    direct: Option<ParsedUrlView>,
    prefixed: Option<ParsedUrlView>,
) -> Option<PackageIdSpecView> {
    match direct {
        Some(u) => spec_from_url(u),
        None => if !has_substring(spec, "://"@) && prefixed is Some {
            spec_from_url(prefixed.unwrap())
        } else {
            spec_plain(spec)
        },
    }
}

/// The package specification that a text denotes, if it denotes one.
pub open spec fn spec_package_id_spec(spec: Seq<char>) -> Option<PackageIdSpecView> {
    if spec.contains('/') {
        spec_with_urls(spec, url_parse(spec), url_parse("cargo://"@ + spec))
    } else {
        spec_plain(spec)
    }
}

fn split(s: &str, c: char) -> (r: (String, Option<String>))
    ensures
        (r.0@, r.1.deep_view()) == split_once(s@, c),
{
    let v = chars_of(s);
    let n = v.len();
    let mut i: usize = 0;
    assert(v@.skip(0) =~= v@);
    while i < n && v[i] != c
        invariant
            i <= n,
            n == v.len(),
            first_index_of(v@, c) == i + first_index_of(v@.skip(i as int), c),
        decreases n - i,
    {
        assert(v@.skip(i as int).drop_first() =~= v@.skip(i + 1));
        i += 1;
    }
    proof {
        lemma_first_index_of(v@.skip(i as int), c);
        if i < n {
            assert(v@.skip(i as int)[0] == c);
        }
    }
    if i < n {
        let head = s.substring_char(0, i);
        let tail = s.substring_char(i + 1, n);
        assert(head@ =~= s@.take(i as int));
        assert(tail@ =~= s@.skip(i + 1));
        (String::from_str(head), Some(String::from_str(tail)))
    } else {
        (String::from_str(s), None)
    }
}

fn package_name_ok(name: &str) -> (r: bool)
    ensures
        r == is_package_name(name@),
{
    let v = chars_of(name);
    let mut i: usize = 0;
    while i < v.len()
        invariant
            i <= v.len(),
            v@ == name@,
            forall|j: int| 0 <= j < i ==> is_name_char(#[trigger] name@[j]),
        decreases v.len() - i,
    {
        let c = v[i];
        if !(char_is_alphanumeric(c) || c == '_' || c == '-') {
            return false;
        }
        i += 1;
    }
    true
}

fn plain(spec: &str) -> (r: Option<PackageIdSpec>)
    ensures
        r.deep_view() == spec_plain(spec@),
{
    let (name, rest) = split(spec, ':');
    if !package_name_ok(name.as_str()) {
        return None;
    }
    match rest {
        None => Some(PackageIdSpec { name, version: None, url: None }),
        Some(text) => match Version::parse(text.as_str()) {
            Some(v) => Some(PackageIdSpec { name, version: Some(v), url: None }),
            None => None,
        },
    }
}

impl PackageIdSpec {
    /// The specification that a parsed URL denotes, if it denotes one.
    pub fn from_url(u: &ParsedUrl) -> (r: Option<PackageIdSpec>)
        ensures
            r.deep_view() == spec_from_url(u@),
    {
        if u.query.is_some() {
            return None;
        }
        let path_name = match &u.path_segments {
            None => {
                return None;
            },
            Some(segments) => {
                if segments.len() == 0 {
                    return None;
                }
                segments[segments.len() - 1].clone()
            },
        };
        let (base, _) = split(u.serialization.as_str(), '#');
        proof {
            lemma_first_index_of(u.serialization@, '#');
            assert(u.serialization@.take(u.serialization@.len() as int) =~= u.serialization@);
        }
        let url = Some(base);
        match &u.fragment {
            None => Some(PackageIdSpec { name: path_name, version: None, url }),
            Some(fragment) => {
                let (first, second) = split(fragment.as_str(), ':');
                match second {
                    Some(part) => match Version::parse(part.as_str()) {
                        Some(v) => Some(PackageIdSpec { name: first, version: Some(v), url }),
                        None => None,
                    },
                    None => {
                        let chars = chars_of(first.as_str());
                        if chars.len() > 0 && char_is_alphabetic(chars[0]) {
                            Some(PackageIdSpec { name: first, version: None, url })
                        } else {
                            match Version::parse(first.as_str()) {
                                Some(v) => Some(
                                    PackageIdSpec { name: path_name, version: Some(v), url },
                                ),
                                None => None,
                            }
                        }
                    },
                }
            },
        }
    }

    /// Reads a package specification: a URL, or `name` or `name:version`.
    pub fn parse(spec: &str) -> (r: Option<PackageIdSpec>)
        ensures
            r.deep_view() == spec_package_id_spec(spec@),
    {
        if contains_char(spec, '/') {
            match to_url(spec) {
                Some(u) => {
                    return PackageIdSpec::from_url(&u);
                },
                None => {},
            }
            if !contains_str(spec, "://") {
                match to_url(concat("cargo://", spec).as_str()) {
                    Some(u) => {
                        return PackageIdSpec::from_url(&u);
                    },
                    None => {},
                }
            }
        }
        plain(spec)
    }
}

} // verus!
