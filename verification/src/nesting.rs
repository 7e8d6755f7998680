//! How deeply the values and tables of a TOML text are nested.
//!
//! The text is walked once. Brackets and braces outside strings and
//! comments are counted as they open and close, and the dots of each line
//! are counted, since a dotted key stands for tables inside tables. The
//! walk tells strings and comments apart as TOML does: a comment runs from
//! `#` to the end of its line, a string between single or double quotes
//! ends on its line, a string between tripled quotes may span lines, and
//! a backslash between double quotes escapes what follows it.

use crate::text::chars_of;
use vstd::prelude::*;

verus! {

/// Where the walk is.
#[derive(Clone, Copy, Debug, PartialEq, Eq, Structural)]
pub enum Lexing {
    /// Between tokens.
    Plain,
    /// In a comment.
    Comment,
    /// In a string between single quotes (`basic` false) or double quotes.
    Quoted { basic: bool },
    /// Behind a backslash in a string between double quotes.
    Escaped,
    /// In a string between tripled quotes.
    Block { basic: bool },
    /// Behind a backslash in a string between tripled double quotes.
    BlockEscaped,
    /// Behind a line break inside a string that must end on its line.
    Broken,
}

/// The state of the walk: where it is, how many brackets are open, how
/// many dots the line has had, and the largest that either has been.
pub struct Scan {
    pub lexing: Lexing,
    pub depth: int,
    pub dots: int,
    pub deepest: int,
    pub widest: int,
}

/// The state before the first character.
pub open spec fn start() -> Scan {
    Scan { lexing: Lexing::Plain, depth: 0, dots: 0, deepest: 0, widest: 0 }
}

/// The quote that delimits a string.
pub open spec fn delimiter(basic: bool) -> char {
    if basic {
        '"'
    } else {
        '\''
    }
}

/// Whether `c` stands at `pos`.
pub open spec fn at(s: Seq<char>, pos: int, c: char) -> bool {
    0 <= pos < s.len() && s[pos] == c
}

/// The larger of two numbers.
pub open spec fn larger(a: int, b: int) -> int {
    if a >= b {
        a
    } else {
        b
    }
}

/// One step between tokens.
pub open spec fn plain_step(s: Seq<char>, pos: int, scan: Scan) -> (Scan, int) {
    let c = s[pos];
    if c == '#' {
        (Scan { lexing: Lexing::Comment, ..scan }, pos + 1)
    } else if c == '"' || c == '\'' {
        let basic = c == '"';
        if at(s, pos + 1, c) {
            if at(s, pos + 2, c) {
                (Scan { lexing: Lexing::Block { basic }, ..scan }, pos + 3)
            } else {
                (scan, pos + 2)
            }
        } else {
            (Scan { lexing: Lexing::Quoted { basic }, ..scan }, pos + 1)
        }
    } else if c == '[' || c == '{' {
        (
            Scan {
                depth: scan.depth + 1,
                deepest: larger(scan.deepest, scan.depth + 1),
                ..scan
            },
            pos + 1,
        )
    } else if c == ']' || c == '}' {
        (Scan { depth: larger(scan.depth - 1, 0), ..scan }, pos + 1)
    } else if c == '.' {
        (Scan { dots: scan.dots + 1, widest: larger(scan.widest, scan.dots + 1), ..scan }, pos + 1)
    } else if c == '\n' {
        (Scan { dots: 0, ..scan }, pos + 1)
    } else {
        (scan, pos + 1)
    }
}

/// One step inside a string between tripled quotes. The string ends with
/// three quotes, and up to two quotes that follow them belong to it.
pub open spec fn block_step(s: Seq<char>, pos: int, scan: Scan, basic: bool) -> (Scan, int) {
    let c = s[pos];
    let d = delimiter(basic);
    if c == d {
        if at(s, pos + 1, d) && at(s, pos + 2, d) {
            let end = if at(s, pos + 3, d) {
                if at(s, pos + 4, d) {
                    pos + 5
                } else {
                    pos + 4
                }
            } else {
                pos + 3
            };
            (Scan { lexing: Lexing::Plain, ..scan }, end)
        } else {
            (scan, pos + 1)
        }
    } else if basic && c == '\\' {
        (Scan { lexing: Lexing::BlockEscaped, ..scan }, pos + 1)
    } else {
        (scan, pos + 1)
    }
}

/// One step of the walk: the state behind the token part at `pos`, and
/// where the next part starts.
pub open spec fn step(s: Seq<char>, pos: int, scan: Scan) -> (Scan, int) {
    let c = s[pos];
    match scan.lexing {
        Lexing::Plain => plain_step(s, pos, scan),
        Lexing::Comment => if c == '\n' {
            (Scan { lexing: Lexing::Plain, dots: 0, ..scan }, pos + 1)
        } else {
            (scan, pos + 1)
        },
        Lexing::Quoted { basic } => if c == '\n' {
            (Scan { lexing: Lexing::Broken, ..scan }, pos + 1)
        } else if c == delimiter(basic) {
            (Scan { lexing: Lexing::Plain, ..scan }, pos + 1)
        } else if basic && c == '\\' {
            (Scan { lexing: Lexing::Escaped, ..scan }, pos + 1)
        } else {
            (scan, pos + 1)
        },
        Lexing::Escaped => (Scan { lexing: Lexing::Quoted { basic: true }, ..scan }, pos + 1),
        Lexing::Block { basic } => block_step(s, pos, scan, basic),
        Lexing::BlockEscaped => (Scan { lexing: Lexing::Block { basic: true }, ..scan }, pos + 1),
        Lexing::Broken => (scan, pos + 1),
    }
}

/// The state at the end of the text, for a walk that is at `pos` in state
/// `scan`. The walk stops where a string is broken by a line break: no
/// parser reads on from there.
pub open spec fn walk(s: Seq<char>, pos: int, scan: Scan) -> Scan
    decreases s.len() - pos,
{
    if pos < 0 || pos >= s.len() || scan.lexing is Broken {
        scan
    } else {
        let (next, then) = step(s, pos, scan);
        if then > pos {
            walk(s, then, next)
        } else {
            next
        }
    }
}

/// A bound on how deeply a parser of the text nests its calls: the most
/// brackets that were open at once, and twice the most dots of a line, for
/// the dotted header of a table and a dotted key in it.
pub open spec fn nesting(s: Seq<char>) -> int {
    let end = walk(s, 0, start());
    end.deepest + 2 * end.widest
}

/// The deepest nesting that is handed to a parser.
pub const MAX_NESTING: usize = 128;

struct Counts {
    depth: usize,
    dots: usize,
    deepest: usize,
    widest: usize,
}

/// Whether the nesting of the text is within `MAX_NESTING`.
pub fn within_nesting(text: &str) -> (r: bool)
    ensures
        r == (nesting(text@) <= MAX_NESTING),
{
    let v = chars_of(text);
    let n = v.len();
    let mut lexing = Lexing::Plain;
    let mut k = Counts { depth: 0, dots: 0, deepest: 0, widest: 0 };
    let mut pos: usize = 0;
    while pos < n && lexing != Lexing::Broken
        invariant
            v@ == text@,
            n == v.len(),
            pos <= n,
            k.depth <= pos,
            k.dots <= pos,
            k.deepest <= pos,
            k.widest <= pos,
            walk(text@, 0, start()) == walk(
                text@,
                pos as int,
                Scan {
                    lexing,
                    depth: k.depth as int,
                    dots: k.dots as int,
                    deepest: k.deepest as int,
                    widest: k.widest as int,
                },
            ),
        decreases n - pos,
    {
        let c = v[pos];
        let ghost scan = Scan {
            lexing,
            depth: k.depth as int,
            dots: k.dots as int,
            deepest: k.deepest as int,
            widest: k.widest as int,
        };
        let ghost here = pos as int;
        match lexing {
            Lexing::Plain => {
                if c == '#' {
                    lexing = Lexing::Comment;
                    pos += 1;
                } else if c == '"' || c == '\'' {
                    let basic = c == '"';
                    if pos + 1 < n && v[pos + 1] == c {
                        if pos + 2 < n && v[pos + 2] == c {
                            lexing = Lexing::Block { basic };
                            pos += 3;
                        } else {
                            pos += 2;
                        }
                    } else {
                        lexing = Lexing::Quoted { basic };
                        pos += 1;
                    }
                } else if c == '[' || c == '{' {
                    k.depth += 1;
                    if k.depth > k.deepest {
                        k.deepest = k.depth;
                    }
                    pos += 1;
                } else if c == ']' || c == '}' {
                    if k.depth > 0 {
                        k.depth -= 1;
                    }
                    pos += 1;
                } else if c == '.' {
                    k.dots += 1;
                    if k.dots > k.widest {
                        k.widest = k.dots;
                    }
                    pos += 1;
                } else if c == '\n' {
                    k.dots = 0;
                    pos += 1;
                } else {
                    pos += 1;
                }
            },
            Lexing::Comment => {
                if c == '\n' {
                    lexing = Lexing::Plain;
                    k.dots = 0;
                }
                pos += 1;
            },
            Lexing::Quoted { basic } => {
                let d = if basic {
                    '"'
                } else {
                    '\''
                };
                if c == '\n' {
                    lexing = Lexing::Broken;
                } else if c == d {
                    lexing = Lexing::Plain;
                } else if basic && c == '\\' {
                    lexing = Lexing::Escaped;
                }
                pos += 1;
            },
            Lexing::Escaped => {
                lexing = Lexing::Quoted { basic: true };
                pos += 1;
            },
            Lexing::Block { basic } => {
                let d = if basic {
                    '"'
                } else {
                    '\''
                };
                if c == d {
                    if n - pos > 2 && v[pos + 1] == d && v[pos + 2] == d {
                        let mut end = pos + 3;
                        if end < n && v[end] == d {
                            end += 1;
                            if end < n && v[end] == d {
                                end += 1;
                            }
                        }
                        lexing = Lexing::Plain;
                        pos = end;
                    } else {
                        pos += 1;
                    }
                } else if basic && c == '\\' {
                    lexing = Lexing::BlockEscaped;
                    pos += 1;
                } else {
                    pos += 1;
                }
            },
            Lexing::BlockEscaped => {
                lexing = Lexing::Block { basic: true };
                pos += 1;
            },
            Lexing::Broken => {
                pos += 1;
            },
        }
        proof {
            let after = Scan {
                lexing,
                depth: k.depth as int,
                dots: k.dots as int,
                deepest: k.deepest as int,
                widest: k.widest as int,
            };
            assert(step(text@, here, scan) == (after, pos as int));
        }
    }
    k.deepest <= MAX_NESTING && k.widest <= MAX_NESTING && k.deepest + 2 * k.widest <= MAX_NESTING
}

} // verus!
