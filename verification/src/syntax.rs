//! From the text of a manifest to its tree of keys and values.

use crate::error::{ManifestError, ManifestErrorView, Warning, WarningView};
use crate::nesting::{nesting, within_nesting, MAX_NESTING};
use crate::text::chars_of;
use vstd::prelude::*;
use vstd::string::*;

verus! {

/// `toml::Value`, the tree of keys and values of a parsed text. It is
/// handed on unread.
#[verifier::external_type_specification]
#[verifier::external_body]
pub struct ExTomlValue(toml::Value);

/// What the TOML parser objects to in a text: the words of its error, or
/// nothing where it accepts the text.
pub uninterp spec fn toml_error(text: Seq<char>) -> Option<Seq<char>>;

/// Whether the TOML parser accepts a text once it no longer asks for a
/// newline after a table header.
pub uninterp spec fn toml_lenient(text: Seq<char>) -> bool;

/// Calls `str::parse` for `toml::Value`, which is `toml::from_str`. The
/// parser calls itself once for each level of nesting, so it is only
/// given a text whose nesting is bounded. The contract claims only that
/// acceptance and the words of the error are a function of the text, named
/// `toml_error`.
#[verifier::external_body]
fn parse_strict(text: &str) -> (r: Result<toml::Value, String>)
    requires
        nesting(text@) <= MAX_NESTING,
    ensures
        match r {
            Ok(_) => toml_error(text@) is None,
            Err(reason) => toml_error(text@) == Some(reason@),
        },
{
    text.parse::<toml::Value>().map_err(|e| e.to_string())
}

/// Calls `toml::Value::deserialize` on a `toml::de::Deserializer` for which
/// `set_require_newline_after_table(false)` was called, on a text whose
/// nesting is bounded. The contract claims only that acceptance is a
/// function of the text, named `toml_lenient`.
#[verifier::external_body]
#[allow(deprecated)]
fn parse_lenient(text: &str) -> (r: Option<toml::Value>)
    requires
        nesting(text@) <= MAX_NESTING,
    ensures
        r is Some <==> toml_lenient(text@),
{
    let mut d = toml::de::Deserializer::new(text);
    d.set_require_newline_after_table(false);
    <toml::Value as serde::Deserialize>::deserialize(&mut d).ok()
}

/// What becomes of a text that the parser rejected for `reason`, given
/// what the lenient parser made of it: the lenient reading with a warning
/// that names `file`, or else the parser's rejection.
pub fn second_reading(lenient: Option<toml::Value>, reason: String, file: &str) -> (r: Result<
    (toml::Value, Option<Warning>),
    ManifestError,
>)
    ensures
        match r {
            Ok((value, warning)) => lenient == Some(value) && warning.deep_view() == Some(
                WarningView::MissingNewlineAfterTable { file: file@ },
            ),
            Err(e) => lenient is None && e@ == (ManifestErrorView::InvalidToml { reason: reason@ }),
        },
{
    match lenient {
        Some(value) => Ok(
            (value, Some(Warning::MissingNewlineAfterTable { file: String::from_str(file) })),
        ),
        None => Err(ManifestError::InvalidToml { reason }),
    }
}

/// Parses the text of the manifest `file`. A text that is nested too
/// deeply is not parsed; a text that only parses without a newline after a
/// table header is accepted with a warning.
pub fn parse(toml: &str, file: &str) -> (r: Result<(toml::Value, Option<Warning>), ManifestError>)
    ensures
        match r {
            Ok((_, warning)) => nesting(toml@) <= MAX_NESTING && if toml_error(toml@) is None {
                warning is None
            } else {
                toml_lenient(toml@) && warning.deep_view() == Some(
                    WarningView::MissingNewlineAfterTable { file: file@ },
                )
            },
            Err(e) => if nesting(toml@) > MAX_NESTING {
                e@ == ManifestErrorView::TooDeeplyNested
            } else {
                !toml_lenient(toml@) && toml_error(toml@) is Some && e@ == (
                ManifestErrorView::InvalidToml { reason: toml_error(toml@).unwrap() })
            },
        },
{
    if !within_nesting(toml) {
        return Err(ManifestError::TooDeeplyNested);
    }
    match parse_strict(toml) {
        Ok(value) => Ok((value, None)),
        Err(reason) => second_reading(parse_lenient(toml), reason, file),
    }
}

/// The segments of a key joined by dots; no dot follows an empty start.
pub open spec fn dotted(segments: Seq<Seq<char>>) -> Seq<char>
    decreases segments.len(),
{
    if segments.len() == 0 {
        Seq::empty()
    } else {
        let head = dotted(segments.drop_last());
        if head.len() > 0 {
            head + "."@ + segments.last()
        } else {
            segments.last()
        }
    }
}

/// `s` starts with `prefix`.
pub open spec fn starts_with(s: Seq<char>, prefix: Seq<char>) -> bool {
    s.len() >= prefix.len() && s.take(prefix.len() as int) == prefix
}

/// The key to warn about, for the path of a value that no field took:
/// the dotted path, unless it lies under `package.metadata`.
pub open spec fn spec_unused_key(segments: Seq<Seq<char>>) -> Option<Seq<char>> {
    let key = dotted(segments);
    if starts_with(key, "package.metadata"@) {
        None
    } else {
        Some(key)
    }
}

fn str_starts_with(s: &str, prefix: &str) -> (r: bool)
    ensures
        r == starts_with(s@, prefix@),
{
    let v = chars_of(s);
    let p = chars_of(prefix);
    if v.len() < p.len() {
        return false;
    }
    let mut i: usize = 0;
    while i < p.len()
        invariant
            i <= p.len() <= v.len(),
            v@ == s@,
            p@ == prefix@,
            forall|k: int| 0 <= k < i ==> v[k] == p[k],
        decreases p.len() - i,
    {
        if v[i] != p[i] {
            assert(s@.take(prefix@.len() as int)[i as int] != prefix@[i as int]);
            return false;
        }
        i += 1;
    }
    assert(s@.take(prefix@.len() as int) =~= prefix@);
    true
}

/// The key to warn about, for the path of a value that no field took.
pub fn unused_key(segments: &Vec<String>) -> (r: Option<String>)
    ensures
        r.deep_view() == spec_unused_key(segments.deep_view()),
{
    let ghost all = segments.deep_view();
    let mut key = String::new();
    let mut i: usize = 0;
    assert(all.take(0) =~= Seq::empty());
    while i < segments.len()
        invariant
            i <= segments.len(),
            all == segments.deep_view(),
            key@ == dotted(all.take(i as int)),
        decreases segments.len() - i,
    {
        proof {
            assert(all.take(i + 1).drop_last() =~= all.take(i as int));
            assert(all.take(i + 1).last() == segments[i as int]@);
        }
        let ghost head = key@;
        if key.as_str().unicode_len() > 0 {
            key.append(".");
        }
        key.append(segments[i].as_str());
        proof {
            if head.len() == 0 {
                assert(key@ =~= segments[i as int]@);
            }
        }
        i += 1;
    }
    assert(all.take(i as int) =~= all);
    if str_starts_with(key.as_str(), "package.metadata") {
        None
    } else {
        Some(key)
    }
}

} // verus!
