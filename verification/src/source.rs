//! Where the code of a package comes from.

use crate::text::chars_of;
use vstd::prelude::*;
use vstd::std_specs::cmp::PartialEqSpecImpl;
use vstd::string::*;

verus! {

/// What of a repository is checked out.
#[derive(Debug)]
pub enum GitReference {
    Branch(String),
    Tag(String),
    Rev(String),
}

/// The mathematical view of [`GitReference`].
pub enum GitReferenceView {
    Branch(Seq<char>),
    Tag(Seq<char>),
    Rev(Seq<char>),
}

impl View for GitReference {
    type V = GitReferenceView;

    open spec fn view(&self) -> GitReferenceView {
        match self {
            GitReference::Branch(s) => GitReferenceView::Branch(s@),
            GitReference::Tag(s) => GitReferenceView::Tag(s@),
            GitReference::Rev(s) => GitReferenceView::Rev(s@),
        }
    }
}

impl Clone for GitReference {
    fn clone(&self) -> (r: GitReference)
        ensures
            r@ == self@,
    {
        match self {
            GitReference::Branch(s) => GitReference::Branch(s.clone()),
            GitReference::Tag(s) => GitReference::Tag(s.clone()),
            GitReference::Rev(s) => GitReference::Rev(s.clone()),
        }
    }
}

impl PartialEq for GitReference {
    fn eq(&self, other: &GitReference) -> (r: bool) {
        match (self, other) {
            (GitReference::Branch(a), GitReference::Branch(b)) => *a == *b,
            (GitReference::Tag(a), GitReference::Tag(b)) => *a == *b,
            (GitReference::Rev(a), GitReference::Rev(b)) => *a == *b,
            _ => false,
        }
    }
}

impl PartialEqSpecImpl for GitReference {
    open spec fn obeys_eq_spec() -> bool {
        true
    }

    open spec fn eq_spec(&self, other: &GitReference) -> bool {
        self@ == other@
    }
}

/// The canonical identity of a source of packages.
#[derive(Debug)]
pub enum SourceId {
    /// A registry, by the URL of its index.
    Registry(String),
    /// A directory, by its absolute path without `.` and `..` components.
    Path(String),
    /// A repository, by its URL, and the reference to check out.
    Git { url: String, reference: GitReference },
}

/// The mathematical view of [`SourceId`].
pub enum SourceIdView {
    Registry(Seq<char>),
    Path(Seq<char>),
    Git { url: Seq<char>, reference: GitReferenceView },
}

impl View for SourceId {
    type V = SourceIdView;

    open spec fn view(&self) -> SourceIdView {
        match self {
            SourceId::Registry(s) => SourceIdView::Registry(s@),
            SourceId::Path(s) => SourceIdView::Path(s@),
            SourceId::Git { url, reference } => SourceIdView::Git {
                url: url@,
                reference: reference@,
            },
        }
    }
}

impl Clone for SourceId {
    fn clone(&self) -> (r: SourceId)
        ensures
            r@ == self@,
    {
        match self {
            SourceId::Registry(s) => SourceId::Registry(s.clone()),
            SourceId::Path(s) => SourceId::Path(s.clone()),
            SourceId::Git { url, reference } => SourceId::Git {
                url: url.clone(),
                reference: reference.clone(),
            },
        }
    }
}

impl PartialEq for SourceId {
    fn eq(&self, other: &SourceId) -> (r: bool) {
        match (self, other) {
            (SourceId::Registry(a), SourceId::Registry(b)) => *a == *b,
            (SourceId::Path(a), SourceId::Path(b)) => *a == *b,
            (
                SourceId::Git { url: a, reference: x },
                SourceId::Git { url: b, reference: y },
            ) => *a == *b && *x == *y,
            _ => false,
        }
    }
}

impl PartialEqSpecImpl for SourceId {
    open spec fn obeys_eq_spec() -> bool {
        true
    }

    open spec fn eq_spec(&self, other: &SourceId) -> bool {
        self@ == other@
    }
}

/// The index of the default registry.
pub open spec fn crates_io_index() -> Seq<char> {
    "https://github.com/rust-lang/crates.io-index"@
}

/// A path is absolute when it starts at the root directory.
pub open spec fn is_absolute(path: Seq<char>) -> bool {
    path.len() > 0 && path[0] == '/'
}

/// A URL taken apart.
#[derive(Debug)]
pub struct ParsedUrl {
    /// The whole URL in the parser's canonical form.
    pub serialization: String,
    pub query: Option<String>,
    pub fragment: Option<String>,
    /// The segments of the path, where the URL has a path of segments.
    pub path_segments: Option<Vec<String>>,
}

/// The mathematical view of [`ParsedUrl`].
pub struct ParsedUrlView {
    pub serialization: Seq<char>,
    pub query: Option<Seq<char>>,
    pub fragment: Option<Seq<char>>,
    pub path_segments: Option<Seq<Seq<char>>>,
}

impl View for ParsedUrl {
    type V = ParsedUrlView;

    open spec fn view(&self) -> ParsedUrlView {
        ParsedUrlView {
            serialization: self.serialization@,
            query: self.query.deep_view(),
            fragment: self.fragment.deep_view(),
            path_segments: self.path_segments.deep_view(),
        }
    }
}

impl DeepView for ParsedUrl {
    type V = ParsedUrlView;

    open spec fn deep_view(&self) -> ParsedUrlView {
        self@
    }
}

/// What `url::Url::parse` makes of a string: the URL it reads, or nothing
/// where it reports an error.
pub uninterp spec fn url_parse(text: Seq<char>) -> Option<ParsedUrlView>;

/// Calls `url::Url::parse` and copies from the URL what `query`,
/// `fragment`, `path_segments` and `into_string` give. The contract claims
/// only that the outcome is a function of the text, named `url_parse`.
#[verifier::external_body]
fn parse_url(text: &str) -> (r: Option<ParsedUrl>)
    ensures
        r.deep_view() == url_parse(text@),
{
    url::Url::parse(text).ok().map(|u| ParsedUrl {
        query: u.query().map(|s| s.to_owned()),
        fragment: u.fragment().map(|s| s.to_owned()),
        path_segments: u.path_segments().map(|p| p.map(|s| s.to_owned()).collect()),
        serialization: u.into_string(),
    })
}

/// The URL that the text denotes, if it denotes one.
pub fn to_url(text: &str) -> (r: Option<ParsedUrl>)
    ensures
        r.deep_view() == url_parse(text@),
{
    parse_url(text)
}

impl SourceId {
    /// The default registry.
    pub fn crates_io() -> (r: SourceId)
        ensures
            r@ == SourceIdView::Registry(crates_io_index()),
    {
        SourceId::Registry(String::from_str("https://github.com/rust-lang/crates.io-index"))
    }

    /// The directory `path`, which must be absolute.
    pub fn for_path(path: String) -> (r: Option<SourceId>)
        ensures
            r is Some <==> is_absolute(path@),
            r matches Some(id) ==> id@ == SourceIdView::Path(path@),
    {
        let v = chars_of(path.as_str());
        if v.len() > 0 && v[0] == '/' {
            Some(SourceId::Path(path))
        } else {
            None
        }
    }

    /// The repository at `url`, at `reference`.
    pub fn for_git(url: String, reference: GitReference) -> (r: SourceId)
        ensures
            r@ == (SourceIdView::Git { url: url@, reference: reference@ }),
    {
        SourceId::Git { url, reference }
    }

    /// Whether the source is a directory.
    pub fn is_path(&self) -> (r: bool)
        ensures
            r == (self@ is Path),
    {
        match self {
            SourceId::Path(_) => true,
            _ => false,
        }
    }
}

} // verus!
