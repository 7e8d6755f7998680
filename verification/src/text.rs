//! Small operations on strings, stated over their sequences of characters.

use vstd::prelude::*;
use vstd::std_specs::iter::IteratorSpec;
use vstd::string::*;

verus! {

/// The characters that `char::is_whitespace` accepts: the code points with
/// the Unicode property `White_Space`.
pub open spec fn is_whitespace(c: char) -> bool {
    let n = c as u32;
    ||| 0x09 <= n <= 0x0d
    ||| n == 0x20
    ||| n == 0x85
    ||| n == 0xa0
    ||| n == 0x1680
    ||| 0x2000 <= n <= 0x200a
    ||| n == 0x2028
    ||| n == 0x2029
    ||| n == 0x202f
    ||| n == 0x205f
    ||| n == 0x3000
}

/// A string is blank when trimming it leaves nothing.
pub open spec fn is_blank(s: Seq<char>) -> bool {
    forall|i: int| 0 <= i < s.len() ==> is_whitespace(#[trigger] s[i])
}

/// Whether the character is white space.
pub fn char_is_whitespace(c: char) -> (b: bool)
    ensures
        b == is_whitespace(c),
{
    let n: u32 = c as u32;
    (0x09 <= n && n <= 0x0d) || n == 0x20 || n == 0x85 || n == 0xa0 || n == 0x1680 || (0x2000 <= n
        && n <= 0x200a) || n == 0x2028 || n == 0x2029 || n == 0x202f || n == 0x205f || n == 0x3000
}

/// The characters of a string, in order.
pub fn chars_of(s: &str) -> (v: Vec<char>)
    ensures
        v@ == s@,
{
    let mut v: Vec<char> = Vec::new();
    let it = s.chars();
    for c in iter: it
        invariant
            v@ == iter.seq().take(iter.index()),
            iter.seq() == s@,
    {
        v.push(c);
    }
    v
}

/// Whether trimming the string leaves nothing.
pub fn str_is_blank(s: &str) -> (b: bool)
    ensures
        b == is_blank(s@),
{
    let v = chars_of(s);
    let mut i: usize = 0;
    while i < v.len()
        invariant
            i <= v.len(),
            v@ == s@,
            forall|j: int| 0 <= j < i ==> is_whitespace(#[trigger] s@[j]),
        decreases v.len() - i,
    {
        if !char_is_whitespace(v[i]) {
            return false;
        }
        i += 1;
    }
    true
}

/// Whether two strings have the same characters.
pub fn text_eq(a: &str, b: &str) -> (r: bool)
    ensures
        r == (a@ == b@),
{
    let x = String::from_str(a);
    let y = String::from_str(b);
    x == y
}

/// Whether `c` occurs in `s`.
pub fn contains_char(s: &str, c: char) -> (r: bool)
    ensures
        r == s@.contains(c),
{
    let v = chars_of(s);
    let mut i: usize = 0;
    while i < v.len()
        invariant
            i <= v.len(),
            v@ == s@,
            forall|j: int| 0 <= j < i ==> s@[j] != c,
        decreases v.len() - i,
    {
        if v[i] == c {
            return true;
        }
        i += 1;
    }
    false
}

/// Whether one of the strings of `list` has the characters of `s`.
pub fn contains_text(list: &Vec<String>, s: &str) -> (r: bool)
    ensures
        r == list.deep_view().contains(s@),
{
    let mut i: usize = 0;
    while i < list.len()
        invariant
            i <= list.len(),
            forall|j: int| 0 <= j < i ==> list.deep_view()[j] != s@,
        decreases list.len() - i,
    {
        if text_eq(list[i].as_str(), s) {
            assert(list.deep_view()[i as int] == s@);
            return true;
        }
        i += 1;
    }
    false
}

/// A copy of a list of strings.
pub fn clone_texts(list: &Vec<String>) -> (r: Vec<String>)
    ensures
        r.deep_view() == list.deep_view(),
{
    let mut out: Vec<String> = Vec::new();
    let mut i: usize = 0;
    while i < list.len()
        invariant
            i <= list.len(),
            out.len() == i,
            forall|j: int| 0 <= j < i ==> out[j]@ == list[j]@,
        decreases list.len() - i,
    {
        out.push(list[i].clone());
        i += 1;
    }
    assert(out.deep_view() =~= list.deep_view());
    out
}

/// A copy of an optional string.
pub fn clone_opt_text(s: &Option<String>) -> (r: Option<String>)
    ensures
        r.deep_view() == s.deep_view(),
{
    match s {
        Some(t) => Some(t.clone()),
        None => None,
    }
}

/// A copy of an optional list of strings.
pub fn clone_opt_texts(list: &Option<Vec<String>>) -> (r: Option<Vec<String>>)
    ensures
        r.deep_view() == list.deep_view(),
{
    match list {
        Some(v) => Some(clone_texts(v)),
        None => None,
    }
}

/// `a` followed by `b`.
pub fn concat(a: &str, b: &str) -> (r: String)
    ensures
        r@ == a@ + b@,
{
    String::from_str(a).concat(b)
}

/// The character of a decimal digit.
pub open spec fn digit(d: nat) -> char {
    if d == 0 {
        '0'
    } else if d == 1 {
        '1'
    } else if d == 2 {
        '2'
    } else if d == 3 {
        '3'
    } else if d == 4 {
        '4'
    } else if d == 5 {
        '5'
    } else if d == 6 {
        '6'
    } else if d == 7 {
        '7'
    } else if d == 8 {
        '8'
    } else {
        '9'
    }
}

/// A natural number in decimal notation, without leading zeros.
pub open spec fn digits(n: nat) -> Seq<char>
    decreases n,
{
    if n < 10 {
        seq![digit(n)]
    } else {
        digits(n / 10).push(digit(n % 10))
    }
}

/// An integer in decimal notation, with a minus sign where it is negative.
pub open spec fn decimal(i: int) -> Seq<char> {
    if i < 0 {
        seq!['-'] + digits((-i) as nat)
    } else {
        digits(i as nat)
    }
}

fn digit_str(d: u64) -> (r: &'static str)
    requires
        d < 10,
    ensures
        r@ == seq![digit(d as nat)],
{
    proof {
        reveal_strlit("0");
        reveal_strlit("1");
        reveal_strlit("2");
        reveal_strlit("3");
        reveal_strlit("4");
        reveal_strlit("5");
        reveal_strlit("6");
        reveal_strlit("7");
        reveal_strlit("8");
        reveal_strlit("9");
    }
    let r = if d == 0 {
        "0"
    } else if d == 1 {
        "1"
    } else if d == 2 {
        "2"
    } else if d == 3 {
        "3"
    } else if d == 4 {
        "4"
    } else if d == 5 {
        "5"
    } else if d == 6 {
        "6"
    } else if d == 7 {
        "7"
    } else if d == 8 {
        "8"
    } else {
        "9"
    };
    assert(r@ =~= seq![digit(d as nat)]);
    r
}

fn push_digits(out: &mut String, n: u64)
    ensures
        final(out)@ == old(out)@ + digits(n as nat),
    decreases n,
{
    if n >= 10 {
        push_digits(out, n / 10);
    }
    out.append(digit_str(n % 10));
    assert(out@ =~= old(out)@ + digits(n as nat));
}

/// The decimal notation of `i`.
pub fn i64_to_string(i: i64) -> (r: String)
    ensures
        r@ == decimal(i as int),
{
    let mut out = String::new();
    if i < 0 {
        proof {
            reveal_strlit("-");
        }
        out.append("-");
        let m: u64 = (-(i + 1)) as u64 + 1;
        push_digits(&mut out, m);
        assert(out@ =~= seq!['-'] + digits((-i) as nat));
    } else {
        push_digits(&mut out, i as u64);
        assert(out@ =~= digits(i as nat));
    }
    out
}

/// `sub` occurs in `s` as a run of neighbouring characters.
pub open spec fn has_substring(s: Seq<char>, sub: Seq<char>) -> bool {
    exists|i: int| 0 <= i && i + sub.len() <= s.len() && #[trigger] s.subrange(i, i + sub.len()) == sub
}

/// Whether `sub` occurs in `s`.
pub fn contains_str(s: &str, sub: &str) -> (r: bool)
    ensures
        r == has_substring(s@, sub@),
{
    let v = chars_of(s);
    let w = chars_of(sub);
    if w.len() > v.len() {
        return false;
    }
    let limit = v.len() - w.len();
    let mut i: usize = 0;
    while i <= limit
        invariant
            v@ == s@,
            w@ == sub@,
            limit == v.len() - w.len(),
            i <= limit + 1,
            forall|j: int| 0 <= j < i ==> #[trigger] v@.subrange(j, j + w.len()) != w@,
        decreases limit + 1 - i,
    {
        let mut k: usize = 0;
        while k < w.len() && v[i + k] == w[k]
            invariant
                i <= limit,
                limit == v.len() - w.len(),
                k <= w.len(),
                forall|m: int| 0 <= m < k ==> v[i + m] == w[m],
            decreases w.len() - k,
        {
            k += 1;
        }
        if k == w.len() {
            assert(v@.subrange(i as int, i + w.len()) =~= w@);
            return true;
        }
        assert(v@.subrange(i as int, i + w.len())[k as int] != w@[k as int]);
        i += 1;
    }
    false
}

/// What `char::is_alphanumeric` answers: whether the character is a letter
/// or a number in the sense of Unicode.
pub uninterp spec fn is_alphanumeric(c: char) -> bool;

/// What `char::is_alphabetic` answers: whether the character is a letter
/// in the sense of Unicode.
pub uninterp spec fn is_alphabetic(c: char) -> bool;

/// Calls `char::is_alphanumeric`; the contract names its answer.
#[verifier::external_body]
pub(crate) fn char_is_alphanumeric(c: char) -> (r: bool)
    ensures
        r == is_alphanumeric(c),
{
    c.is_alphanumeric()
}

/// Calls `char::is_alphabetic`; the contract names its answer.
#[verifier::external_body]
pub(crate) fn char_is_alphabetic(c: char) -> (r: bool)
    ensures
        r == is_alphabetic(c),
{
    c.is_alphabetic()
}

/// A copy of a table of lists of strings.
pub fn clone_string_lists(table: &Vec<(String, Vec<String>)>) -> (r: Vec<(String, Vec<String>)>)
    ensures
        r.deep_view() == table.deep_view(),
{
    let mut out: Vec<(String, Vec<String>)> = Vec::new();
    let mut i: usize = 0;
    while i < table.len()
        invariant
            i <= table.len(),
            out.len() == i,
            forall|j: int| 0 <= j < i ==> out[j].deep_view() == table[j].deep_view(),
        decreases table.len() - i,
    {
        out.push((table[i].0.clone(), clone_texts(&table[i].1)));
        i += 1;
    }
    assert(out.deep_view() =~= table.deep_view());
    out
}

/// A copy of a list of pairs of strings.
pub fn clone_pairs(list: &Vec<(String, String)>) -> (r: Vec<(String, String)>)
    ensures
        r.deep_view() == list.deep_view(),
{
    let mut out: Vec<(String, String)> = Vec::new();
    let mut i: usize = 0;
    while i < list.len()
        invariant
            i <= list.len(),
            out.len() == i,
            forall|j: int| 0 <= j < i ==> out[j].deep_view() == list[j].deep_view(),
        decreases list.len() - i,
    {
        out.push((list[i].0.clone(), list[i].1.clone()));
        i += 1;
    }
    assert(out.deep_view() =~= list.deep_view());
    out
}

/// A copy of a table of lists of pairs of strings.
pub fn clone_pair_lists(table: &Vec<(String, Vec<(String, String)>)>) -> (r: Vec<
    (String, Vec<(String, String)>),
>)
    ensures
        r.deep_view() == table.deep_view(),
{
    let mut out: Vec<(String, Vec<(String, String)>)> = Vec::new();
    let mut i: usize = 0;
    while i < table.len()
        invariant
            i <= table.len(),
            out.len() == i,
            forall|j: int| 0 <= j < i ==> out[j].deep_view() == table[j].deep_view(),
        decreases table.len() - i,
    {
        out.push((table[i].0.clone(), clone_pairs(&table[i].1)));
        i += 1;
    }
    assert(out.deep_view() =~= table.deep_view());
    out
}

} // verus!
