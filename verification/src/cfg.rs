//! The grammar of `cfg(..)` expressions, as far as it decides whether the
//! key of a platform table is well formed.
//!
//! An expression is an identifier, an identifier `=` a quoted string,
//! `not(` expression `)`, or `all(` .. `)` or `any(` .. `)` around a list of
//! expressions separated by commas, the list perhaps empty and perhaps
//! ending in a comma. Spaces between tokens are skipped. Expressions may
//! be nested up to a fixed depth.

use crate::path::{first_index_of, lemma_first_index_of};
use crate::text::chars_of;
use vstd::prelude::*;

verus! {

/// What the tokens of an expression are, as far as the grammar tells them
/// apart.
#[derive(Clone, Copy, Debug, PartialEq, Eq, Structural)]
pub enum CfgToken {
    LeftParen,
    RightParen,
    Comma,
    Equals,
    /// The identifier `all` or `any`.
    Combinator,
    /// The identifier `not`.
    Not,
    /// Any other identifier.
    Ident,
    /// A quoted string.
    Text,
}

/// A character that may start an identifier: an ASCII letter or `_`.
pub open spec fn is_ident_start(c: char) -> bool {
    let n = c as u32;
    (0x61 <= n <= 0x7a) || (0x41 <= n <= 0x5a) || n == 0x5f
}

/// A character that may go on an identifier: also an ASCII digit.
pub open spec fn is_ident_rest(c: char) -> bool {
    let n = c as u32;
    is_ident_start(c) || (0x30 <= n <= 0x39)
}

/// Where the identifier characters that start at `pos` end.
pub open spec fn ident_end(s: Seq<char>, pos: int) -> int
    decreases s.len() - pos,
{
    if 0 <= pos < s.len() && is_ident_rest(s[pos]) {
        ident_end(s, pos + 1)
    } else {
        pos
    }
}

/// The token that an identifier is.
pub open spec fn word_token(word: Seq<char>) -> CfgToken {
    if word == "all"@ || word == "any"@ {
        CfgToken::Combinator
    } else if word == "not"@ {
        CfgToken::Not
    } else {
        CfgToken::Ident
    }
}

/// `first` before the tokens `rest`, where there are any.
pub open spec fn then_tokens(first: CfgToken, rest: Option<Seq<CfgToken>>) -> Option<
    Seq<CfgToken>,
> {
    match rest {
        Some(r) => Some(seq![first] + r),
        None => None,
    }
}

/// The tokens of `s` from `pos` on, or nothing where a character starts no
/// token or a string is not closed.
pub open spec fn tokens_from(s: Seq<char>, pos: int) -> Option<Seq<CfgToken>>
    decreases s.len() - pos,
{
    if pos < 0 || pos >= s.len() {
        Some(Seq::empty())
    } else {
        let c = s[pos];
        if c == ' ' {
            tokens_from(s, pos + 1)
        } else if c == '(' {
            then_tokens(CfgToken::LeftParen, tokens_from(s, pos + 1))
        } else if c == ')' {
            then_tokens(CfgToken::RightParen, tokens_from(s, pos + 1))
        } else if c == ',' {
            then_tokens(CfgToken::Comma, tokens_from(s, pos + 1))
        } else if c == '=' {
            then_tokens(CfgToken::Equals, tokens_from(s, pos + 1))
        } else if c == '"' {
            let close = pos + 1 + first_index_of(s.skip(pos + 1), '"');
            if pos < close < s.len() {
                then_tokens(CfgToken::Text, tokens_from(s, close + 1))
            } else {
                None
            }
        } else if is_ident_start(c) {
            let end = ident_end(s, pos + 1);
            if pos < end <= s.len() {
                then_tokens(word_token(s.subrange(pos, end)), tokens_from(s, end))
            } else {
                None
            }
        } else {
            None
        }
    }
}

/// How deeply `not`, `all` and `any` may be nested.
pub const MAX_DEPTH: usize = 64;

/// Where the expression that starts at `pos` ends, if one starts there
/// that nests `not`, `all` and `any` at most `depth` deep.
pub open spec fn expr_end(t: Seq<CfgToken>, pos: int, depth: nat) -> Option<int>
    decreases t.len() - pos, 0int,
{
    if pos < 0 || pos >= t.len() {
        None
    } else {
        match t[pos] {
            CfgToken::Combinator => if depth > 0 && pos + 1 < t.len() && t[pos + 1]
                == CfgToken::LeftParen {
                list_end(t, pos + 2, (depth - 1) as nat)
            } else {
                None
            },
            CfgToken::Not => if depth > 0 && pos + 1 < t.len() && t[pos + 1]
                == CfgToken::LeftParen {
                match expr_end(t, pos + 2, (depth - 1) as nat) {
                    Some(q) => if 0 <= q < t.len() && t[q] == CfgToken::RightParen {
                        Some(q + 1)
                    } else {
                        None
                    },
                    None => None,
                }
            } else {
                None
            },
            CfgToken::Ident => if pos + 1 < t.len() && t[pos + 1] == CfgToken::Equals {
                if pos + 2 < t.len() && t[pos + 2] == CfgToken::Text {
                    Some(pos + 3)
                } else {
                    None
                }
            } else {
                Some(pos + 1)
            },
            _ => None,
        }
    }
}

/// Where the list of expressions that goes on at `pos` ends, behind its
/// closing parenthesis.
pub open spec fn list_end(t: Seq<CfgToken>, pos: int, depth: nat) -> Option<int>
    decreases t.len() - pos, 1int,
{
    if pos < 0 || pos >= t.len() {
        None
    } else if t[pos] == CfgToken::RightParen {
        Some(pos + 1)
    } else {
        match expr_end(t, pos, depth) {
            Some(q) => if pos < q < t.len() {
                if t[q] == CfgToken::Comma {
                    list_end(t, q + 1, depth)
                } else if t[q] == CfgToken::RightParen {
                    Some(q + 1)
                } else {
                    None
                }
            } else {
                None
            },
            None => None,
        }
    }
}

/// The text is exactly one expression, nested at most `MAX_DEPTH` deep.
pub open spec fn is_cfg_expr(s: Seq<char>) -> bool {
    match tokens_from(s, 0) {
        Some(t) => expr_end(t, 0, MAX_DEPTH as nat) == Some(t.len() as int),
        None => false,
    }
}

fn ident_start(c: char) -> (r: bool)
    ensures
        r == is_ident_start(c),
{
    let n: u32 = c as u32;
    (0x61 <= n && n <= 0x7a) || (0x41 <= n && n <= 0x5a) || n == 0x5f
}

fn ident_rest(c: char) -> (r: bool)
    ensures
        r == is_ident_rest(c),
{
    let n: u32 = c as u32;
    ident_start(c) || (0x30 <= n && n <= 0x39)
}

fn word(v: &Vec<char>, from: usize, to: usize) -> (r: CfgToken)
    requires
        from <= to <= v.len(),
    ensures
        r == word_token(v@.subrange(from as int, to as int)),
{
    let ghost w = v@.subrange(from as int, to as int);
    proof {
        reveal_strlit("all");
        reveal_strlit("any");
        reveal_strlit("not");
        assert("all"@.len() == 3 && "all"@[0] == 'a' && "all"@[1] == 'l' && "all"@[2] == 'l');
        assert("any"@.len() == 3 && "any"@[0] == 'a' && "any"@[1] == 'n' && "any"@[2] == 'y');
        assert("not"@.len() == 3 && "not"@[0] == 'n' && "not"@[1] == 'o' && "not"@[2] == 't');
    }
    if to - from == 3 {
        let (a, b, c) = (v[from], v[from + 1], v[from + 2]);
        assert(w[0] == a && w[1] == b && w[2] == c);
        if (a == 'a' && b == 'l' && c == 'l') || (a == 'a' && b == 'n' && c == 'y') {
            assert(w =~= "all"@ || w =~= "any"@);
            CfgToken::Combinator
        } else if a == 'n' && b == 'o' && c == 't' {
            assert(w =~= "not"@);
            CfgToken::Not
        } else {
            CfgToken::Ident
        }
    } else {
        CfgToken::Ident
    }
}

/// The tokens of the characters, if they all belong to tokens.
fn tokenize(v: &Vec<char>) -> (r: Option<Vec<CfgToken>>)
    ensures
        match r {
            Some(t) => tokens_from(v@, 0) == Some(t@),
            None => tokens_from(v@, 0) is None,
        },
{
    let mut out: Vec<CfgToken> = Vec::new();
    let mut pos: usize = 0;
    let n = v.len();
    while pos < n
        invariant
            pos <= n,
            n == v.len(),
            tokens_from(v@, 0) == (match tokens_from(v@, pos as int) {
                Some(rest) => Some(out@ + rest),
                None => None,
            }),
        decreases n - pos,
    {
        let c = v[pos];
        let ghost before = out@;
        let ghost here = pos as int;
        if c == ' ' {
            pos += 1;
        } else if c == '(' || c == ')' || c == ',' || c == '=' {
            let t = if c == '(' {
                CfgToken::LeftParen
            } else if c == ')' {
                CfgToken::RightParen
            } else if c == ',' {
                CfgToken::Comma
            } else {
                CfgToken::Equals
            };
            out.push(t);
            pos += 1;
            proof {
                match tokens_from(v@, pos as int) {
                    Some(rest) => {
                        assert(before + (seq![t] + rest) =~= out@ + rest);
                    },
                    None => {},
                }
            }
        } else if c == '"' {
            let mut close: usize = pos + 1;
            while close < n && v[close] != '"'
                invariant
                    pos < close <= n,
                    n == v.len(),
                    pos + 1 + first_index_of(v@.skip(pos + 1), '"') == close + first_index_of(
                        v@.skip(close as int),
                        '"',
                    ),
                decreases n - close,
            {
                assert(v@.skip(close as int).drop_first() =~= v@.skip(close + 1));
                close += 1;
            }
            proof {
                lemma_first_index_of(v@.skip(close as int), '"');
                if close < n {
                    assert(v@.skip(close as int)[0] == '"');
                }
            }
            if close >= n {
                return None;
            }
            out.push(CfgToken::Text);
            pos = close + 1;
            proof {
                match tokens_from(v@, pos as int) {
                    Some(rest) => {
                        assert(before + (seq![CfgToken::Text] + rest) =~= out@ + rest);
                    },
                    None => {},
                }
            }
        } else if ident_start(c) {
            let mut end: usize = pos + 1;
            while end < n && ident_rest(v[end])
                invariant
                    pos < end <= n,
                    n == v.len(),
                    ident_end(v@, pos + 1) == ident_end(v@, end as int),
                decreases n - end,
            {
                end += 1;
            }
            let t = word(v, pos, end);
            out.push(t);
            pos = end;
            proof {
                match tokens_from(v@, pos as int) {
                    Some(rest) => {
                        assert(before + (seq![t] + rest) =~= out@ + rest);
                    },
                    None => {},
                }
            }
        } else {
            return None;
        }
    }
    assert(out@ + Seq::<CfgToken>::empty() =~= out@);
    Some(out)
}

fn parse_expr(t: &Vec<CfgToken>, pos: usize, depth: usize) -> (r: Option<usize>)
    ensures
        match r {
            Some(q) => expr_end(t@, pos as int, depth as nat) == Some(q as int) && pos < q
                <= t.len(),
            None => expr_end(t@, pos as int, depth as nat) is None,
        },
    decreases t.len() - pos, 0int,
{
    if pos >= t.len() {
        return None;
    }
    match t[pos] {
        CfgToken::Combinator => {
            if depth > 0 && pos + 1 < t.len() && t[pos + 1] == CfgToken::LeftParen {
                parse_list(t, pos + 2, depth - 1)
            } else {
                None
            }
        },
        CfgToken::Not => {
            if depth > 0 && pos + 1 < t.len() && t[pos + 1] == CfgToken::LeftParen {
                match parse_expr(t, pos + 2, depth - 1) {
                    Some(q) => if q < t.len() && t[q] == CfgToken::RightParen {
                        Some(q + 1)
                    } else {
                        None
                    },
                    None => None,
                }
            } else {
                None
            }
        },
        CfgToken::Ident => {
            if pos + 1 < t.len() && t[pos + 1] == CfgToken::Equals {
                if pos + 2 < t.len() && t[pos + 2] == CfgToken::Text {
                    Some(pos + 3)
                } else {
                    None
                }
            } else {
                Some(pos + 1)
            }
        },
        _ => None,
    }
}

fn parse_list(t: &Vec<CfgToken>, start: usize, depth: usize) -> (r: Option<usize>)
    ensures
        match r {
            Some(q) => list_end(t@, start as int, depth as nat) == Some(q as int) && start < q
                <= t.len(),
            None => list_end(t@, start as int, depth as nat) is None,
        },
    decreases t.len() - start, 1int,
{
    let mut pos = start;
    while pos < t.len()
        invariant
            start <= pos,
            list_end(t@, start as int, depth as nat) == list_end(t@, pos as int, depth as nat),
        decreases t.len() - pos,
    {
        if t[pos] == CfgToken::RightParen {
            return Some(pos + 1);
        }
        match parse_expr(t, pos, depth) {
            Some(q) => {
                if q < t.len() && t[q] == CfgToken::Comma {
                    pos = q + 1;
                } else if q < t.len() && t[q] == CfgToken::RightParen {
                    return Some(q + 1);
                } else {
                    return None;
                }
            },
            None => {
                return None;
            },
        }
    }
    None
}

/// Whether the text is exactly one `cfg` expression.
pub fn str_is_cfg_expr(s: &str) -> (r: bool)
    ensures
        r == is_cfg_expr(s@),
{
    let v = chars_of(s);
    match tokenize(&v) {
        Some(t) => {
            match parse_expr(&t, 0, MAX_DEPTH) {
                Some(q) => q == t.len(),
                None => false,
            }
        },
        None => false,
    }
}

} // verus!
