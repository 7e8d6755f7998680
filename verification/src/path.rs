//! Paths as plain strings whose components are separated by `/`.
//!
//! A path is absolute when it starts with `/`. Nothing here touches the
//! file system: every function is a function of the characters alone.

use crate::text::chars_of;
use vstd::prelude::*;
use vstd::string::*;

verus! {

/// Index of the first `c` in `s`, or `s.len()` where there is none.
pub open spec fn first_index_of(s: Seq<char>, c: char) -> int
    decreases s.len(),
{
    if s.len() == 0 {
        0
    } else if s[0] == c {
        0
    } else {
        1 + first_index_of(s.drop_first(), c)
    }
}

/// Index of the last `c` in `s`, or `-1` where there is none.
pub open spec fn last_index_of(s: Seq<char>, c: char) -> int
    decreases s.len(),
{
    if s.len() == 0 {
        -1
    } else if s.last() == c {
        s.len() - 1
    } else {
        last_index_of(s.drop_last(), c)
    }
}

/// What `first_index_of` finds is the first occurrence.
pub proof fn lemma_first_index_of(s: Seq<char>, c: char)
    ensures
        0 <= first_index_of(s, c) <= s.len(),
        first_index_of(s, c) < s.len() ==> s[first_index_of(s, c)] == c,
        forall|j: int| 0 <= j < first_index_of(s, c) ==> s[j] != c,
    decreases s.len(),
{
    if s.len() > 0 && s[0] != c {
        let t = s.drop_first();
        lemma_first_index_of(t, c);
        assert forall|j: int| 0 <= j < first_index_of(s, c) implies s[j] != c by {
            if j > 0 {
                assert(s[j] == t[j - 1]);
            }
        }
    }
}

/// What `last_index_of` finds is the last occurrence.
pub proof fn lemma_last_index_of(s: Seq<char>, c: char)
    ensures
        -1 <= last_index_of(s, c) < s.len(),
        last_index_of(s, c) >= 0 ==> s[last_index_of(s, c)] == c,
        forall|j: int| last_index_of(s, c) < j < s.len() ==> s[j] != c,
    decreases s.len(),
{
    if s.len() > 0 && s.last() != c {
        let t = s.drop_last();
        lemma_last_index_of(t, c);
        assert forall|j: int| last_index_of(s, c) < j < s.len() implies s[j] != c by {
            if j < s.len() - 1 {
                assert(s[j] == t[j]);
            }
        }
    }
}

/// `base` extended by `rel`: an absolute `rel` replaces `base`, and a
/// separator is put between the two unless `base` is empty or ends in one.
pub open spec fn spec_join(base: Seq<char>, rel: Seq<char>) -> Seq<char> {
    if rel.len() > 0 && rel[0] == '/' {
        rel
    } else if base.len() == 0 {
        rel
    } else if base.last() == '/' {
        base + rel
    } else {
        base + seq!['/'] + rel
    }
}

/// The last component of a path: what follows the last separator, unless
/// that is empty, `.` or `..`.
pub open spec fn spec_file_name(p: Seq<char>) -> Option<Seq<char>> {
    let name = p.skip(last_index_of(p, '/') + 1);
    if name.len() == 0 || name == seq!['.'] || name == seq!['.', '.'] {
        None
    } else {
        Some(name)
    }
}

/// The file name without its extension. A name whose only dot is its first
/// character has no extension.
pub open spec fn spec_file_stem(p: Seq<char>) -> Option<Seq<char>> {
    match spec_file_name(p) {
        None => None,
        Some(name) => {
            let d = last_index_of(name, '.');
            if d <= 0 {
                Some(name)
            } else {
                Some(name.take(d))
            }
        },
    }
}

/// What follows the last dot of the file name, where that dot is not the
/// name's first character.
pub open spec fn spec_extension(p: Seq<char>) -> Option<Seq<char>> {
    match spec_file_name(p) {
        None => None,
        Some(name) => {
            let d = last_index_of(name, '.');
            if d <= 0 {
                None
            } else {
                Some(name.skip(d + 1))
            }
        },
    }
}

/// A candidate source file: extension `rs`, and a file name that does not
/// start with a dot.
pub open spec fn spec_is_source_file(p: Seq<char>) -> bool {
    &&& spec_extension(p) == Some(seq!['r', 's'])
    &&& spec_file_name(p) matches Some(name) && name[0] != '.'
}

/// The pieces of `p` between its separators.
pub open spec fn segments(p: Seq<char>) -> Seq<Seq<char>>
    decreases p.len(),
{
    let i = first_index_of(p, '/');
    if 0 <= i < p.len() {
        seq![p.take(i)] + segments(p.skip(i + 1))
    } else {
        seq![p]
    }
}

/// Walks `segs` from the left over the components kept so far: empty and
/// `.` segments are dropped, `..` removes the last kept component if there
/// is one, any other segment is kept.
pub open spec fn resolve(segs: Seq<Seq<char>>, kept: Seq<Seq<char>>) -> Seq<Seq<char>>
    decreases segs.len(),
{
    if segs.len() == 0 {
        kept
    } else {
        let s = segs[0];
        let rest = segs.drop_first();
        if s.len() == 0 || s == seq!['.'] {
            resolve(rest, kept)
        } else if s == seq!['.', '.'] {
            resolve(
                rest,
                if kept.len() > 0 {
                    kept.drop_last()
                } else {
                    kept
                },
            )
        } else {
            resolve(rest, kept.push(s))
        }
    }
}

/// The components written out with one separator between neighbours.
pub open spec fn join_segments(segs: Seq<Seq<char>>) -> Seq<char>
    decreases segs.len(),
{
    if segs.len() == 0 {
        Seq::empty()
    } else if segs.len() == 1 {
        segs[0]
    } else {
        join_segments(segs.drop_last()) + seq!['/'] + segs.last()
    }
}

/// The path without `.` components, empty components and `..` components,
/// each `..` having removed the component before it. Purely lexical.
pub open spec fn spec_normalize_path(p: Seq<char>) -> Seq<char> {
    let body = join_segments(resolve(segments(p), Seq::empty()));
    if p.len() > 0 && p[0] == '/' {
        seq!['/'] + body
    } else {
        body
    }
}

/// Position of the first `c` at or after `start`, or the length.
fn find_from(v: &Vec<char>, start: usize, c: char) -> (r: usize)
    requires
        start <= v.len(),
    ensures
        r == start + first_index_of(v@.skip(start as int), c),
        start <= r <= v.len(),
{
    let mut i: usize = start;
    while i < v.len()
        invariant
            start <= i <= v.len(),
            start + first_index_of(v@.skip(start as int), c) == i + first_index_of(
                v@.skip(i as int),
                c,
            ),
        decreases v.len() - i,
    {
        if v[i] == c {
            assert(v@.skip(i as int)[0] == c);
            return i;
        }
        assert(v@.skip(i as int).drop_first() =~= v@.skip(i + 1));
        i += 1;
    }
    assert(v@.skip(i as int).len() == 0);
    i
}

/// Position of the last `c`, if there is one.
fn find_last(v: &Vec<char>, c: char) -> (r: Option<usize>)
    ensures
        match r {
            Some(i) => i == last_index_of(v@, c) && i < v.len(),
            None => last_index_of(v@, c) == -1,
        },
{
    let mut i: usize = v.len();
    assert(v@.take(i as int) =~= v@);
    while i > 0
        invariant
            i <= v.len(),
            last_index_of(v@, c) == last_index_of(v@.take(i as int), c),
        decreases i,
    {
        if v[i - 1] == c {
            assert(v@.take(i as int).last() == c);
            return Some(i - 1);
        }
        assert(v@.take(i as int).drop_last() =~= v@.take(i - 1));
        i -= 1;
    }
    None
}

/// `base` extended by `rel`.
pub fn join(base: &str, rel: &str) -> (r: String)
    ensures
        r@ == spec_join(base@, rel@),
{
    let b = chars_of(base);
    let t = chars_of(rel);
    if t.len() > 0 && t[0] == '/' {
        String::from_str(rel)
    } else if b.len() == 0 {
        String::from_str(rel)
    } else if b[b.len() - 1] == '/' {
        String::from_str(base).concat(rel)
    } else {
        proof {
            reveal_strlit("/");
            assert("/"@ =~= seq!['/']);
        }
        String::from_str(base).concat("/").concat(rel)
    }
}

/// The last component of the path.
pub fn file_name(path: &str) -> (r: Option<String>)
    ensures
        r.deep_view() == spec_file_name(path@),
{
    let v = chars_of(path);
    let n = v.len();
    let start: usize = match find_last(&v, '/') {
        Some(i) => i + 1,
        None => 0,
    };
    proof {
        lemma_last_index_of(v@, '/');
    }
    let ghost name = path@.skip(start as int);
    let len = n - start;
    if len == 0 {
        return None;
    }
    if len == 1 && v[start] == '.' {
        assert(name =~= seq!['.']);
        return None;
    }
    if len == 2 && v[start] == '.' && v[start + 1] == '.' {
        assert(name =~= seq!['.', '.']);
        return None;
    }
    assert(name != seq!['.']) by {
        if name == seq!['.'] {
            assert(name.len() == 1 && name[0] == '.');
        }
    }
    assert(name != seq!['.', '.']) by {
        if name == seq!['.', '.'] {
            assert(name.len() == 2 && name[0] == '.' && name[1] == '.');
        }
    }
    let s = path.substring_char(start, n);
    assert(s@ =~= name);
    Some(String::from_str(s))
}

/// The file name without its extension.
pub fn file_stem(path: &str) -> (r: Option<String>)
    ensures
        r.deep_view() == spec_file_stem(path@),
{
    match file_name(path) {
        None => None,
        Some(name) => {
            let v = chars_of(name.as_str());
            match find_last(&v, '.') {
                None => Some(name),
                Some(d) => {
                    if d == 0 {
                        Some(name)
                    } else {
                        proof {
                            lemma_last_index_of(v@, '.');
                        }
                        let s = name.as_str().substring_char(0, d);
                        assert(s@ =~= name@.take(d as int));
                        Some(String::from_str(s))
                    }
                },
            }
        },
    }
}

/// Whether the path is a candidate source file.
pub fn is_source_file(path: &str) -> (r: bool)
    ensures
        r == spec_is_source_file(path@),
{
    match file_name(path) {
        None => false,
        Some(name) => {
            let v = chars_of(name.as_str());
            let n = v.len();
            if v[0] == '.' {
                return false;
            }
            match find_last(&v, '.') {
                None => false,
                Some(d) => {
                    proof {
                        lemma_last_index_of(v@, '.');
                    }
                    let ghost ext = name@.skip(d + 1);
                    if d > 0 && n - d == 3 && v[d + 1] == 'r' && v[d + 2] == 's' {
                        assert(ext =~= seq!['r', 's']);
                        true
                    } else {
                        assert(d > 0 ==> ext != seq!['r', 's']) by {
                            if ext == seq!['r', 's'] {
                                assert(ext.len() == 2 && ext[0] == 'r' && ext[1] == 's');
                            }
                        }
                        false
                    }
                },
            }
        },
    }
}

/// The components whose bounds in `p` are listed.
pub open spec fn pieces(p: Seq<char>, bounds: Seq<(usize, usize)>) -> Seq<Seq<char>> {
    Seq::new(bounds.len(), |k: int| p.subrange(bounds[k].0 as int, bounds[k].1 as int))
}

/// The path without `.`, `..` and empty components.
pub fn normalize_path(path: &str) -> (r: String)
    ensures
        r@ == spec_normalize_path(path@),
{
    let v = chars_of(path);
    let n = v.len();
    let mut kept: Vec<(usize, usize)> = Vec::new();
    let mut start: usize = 0;
    let mut done = false;
    assert(path@.skip(0) =~= path@);
    assert(pieces(path@, kept@) =~= Seq::empty());
    while !done
        invariant
            v@ == path@,
            n == v.len(),
            start <= n,
            forall|k: int| 0 <= k < kept.len() ==> (#[trigger] kept[k]).0 <= kept[k].1 <= n,
            !done ==> resolve(segments(path@), Seq::empty()) == resolve(
                segments(path@.skip(start as int)),
                pieces(path@, kept@),
            ),
            done ==> resolve(segments(path@), Seq::empty()) == pieces(path@, kept@),
        decreases n - start + (if done { 0int } else { 1int }),
    {
        let end = find_from(&v, start, '/');
        let ghost rest = path@.skip(start as int);
        let ghost seg = path@.subrange(start as int, end as int);
        let ghost before = pieces(path@, kept@);
        proof {
            lemma_first_index_of(rest, '/');
            assert(rest.take(end - start) =~= seg);
        }
        let len = end - start;
        if len == 0 || (len == 1 && v[start] == '.') {
            assert(seg.len() == 0 || seg =~= seq!['.']);
        } else if len == 2 && v[start] == '.' && v[start + 1] == '.' {
            assert(seg =~= seq!['.', '.']);
            if kept.len() > 0 {
                kept.pop();
                assert(pieces(path@, kept@) =~= before.drop_last());
            }
        } else {
            assert(seg != seq!['.']) by {
                if seg == seq!['.'] {
                    assert(seg.len() == 1 && seg[0] == '.');
                }
            }
            assert(seg != seq!['.', '.']) by {
                if seg == seq!['.', '.'] {
                    assert(seg.len() == 2 && seg[0] == '.' && seg[1] == '.');
                }
            }
            kept.push((start, end));
            assert(pieces(path@, kept@) =~= before.push(seg));
        }
        if end < n {
            proof {
                let tail = path@.skip(end + 1);
                assert(rest.skip(end - start + 1) =~= tail);
                assert(segments(rest) == seq![seg] + segments(tail));
                assert(segments(rest).drop_first() =~= segments(tail));
                assert(segments(rest)[0] == seg);
            }
            start = end + 1;
        } else {
            proof {
                assert(rest =~= seg);
                assert(segments(rest) == seq![rest]);
                assert(segments(rest).drop_first() =~= Seq::<Seq<char>>::empty());
                assert(segments(rest)[0] == seg);
                assert(resolve(segments(rest).drop_first(), pieces(path@, kept@)) == pieces(
                    path@,
                    kept@,
                ));
            }
            done = true;
        }
    }
    let mut out = String::new();
    if n > 0 && v[0] == '/' {
        proof {
            reveal_strlit("/");
        }
        out.append("/");
        assert(out@ =~= seq!['/']);
    }
    let ghost prefix = out@;
    let ghost all = pieces(path@, kept@);
    let mut k: usize = 0;
    while k < kept.len()
        invariant
            k <= kept.len(),
            path@.len() == n,
            all == pieces(path@, kept@),
            forall|j: int| 0 <= j < kept.len() ==> (#[trigger] kept[j]).0 <= kept[j].1 <= n,
            out@ == prefix + join_segments(all.take(k as int)),
        decreases kept.len() - k,
    {
        if k > 0 {
            proof {
                reveal_strlit("/");
            }
            out.append("/");
        }
        let (a, b) = kept[k];
        out.append(path.substring_char(a, b));
        proof {
            assert(all.take(k + 1).drop_last() =~= all.take(k as int));
            assert(all.take(k + 1).last() == all[k as int]);
            if k == 0 {
                assert(all.take(0).len() == 0);
                assert(out@ =~= prefix + all[0]);
            } else {
                assert("/"@ =~= seq!['/']);
                assert(out@ =~= prefix + (join_segments(all.take(k as int)) + seq!['/']
                    + all[k as int]));
            }
        }
        k += 1;
    }
    assert(all.take(k as int) =~= all);
    out
}

/// A component that normalization keeps: not empty, not `.`, not `..`, and
/// without a separator.
pub open spec fn is_clean(c: Seq<char>) -> bool {
    c.len() > 0 && c != seq!['.'] && c != seq!['.', '.'] && !c.contains('/')
}

/// Every component is one that normalization keeps.
pub open spec fn all_clean(cs: Seq<Seq<char>>) -> bool {
    forall|i: int| 0 <= i < cs.len() ==> is_clean(#[trigger] cs[i])
}

proof fn lemma_first_index_of_concat(x: Seq<char>, y: Seq<char>, c: char)
    ensures
        first_index_of(x + y, c) == if first_index_of(x, c) < x.len() {
            first_index_of(x, c)
        } else {
            x.len() + first_index_of(y, c)
        },
    decreases x.len(),
{
    if x.len() == 0 {
        assert(x + y =~= y);
    } else {
        assert((x + y)[0] == x[0]);
        if x[0] != c {
            assert((x + y).drop_first() =~= x.drop_first() + y);
            lemma_first_index_of_concat(x.drop_first(), y, c);
        }
    }
}

proof fn lemma_segments_no_slash(p: Seq<char>)
    ensures
        segments(p).len() >= 1,
        forall|k: int| 0 <= k < segments(p).len() ==> !(#[trigger] segments(p)[k]).contains('/'),
    decreases p.len(),
{
    lemma_first_index_of(p, '/');
    let i = first_index_of(p, '/');
    if 0 <= i < p.len() {
        let rest = segments(p.skip(i + 1));
        lemma_segments_no_slash(p.skip(i + 1));
        assert forall|k: int| 0 <= k < segments(p).len() implies !(#[trigger] segments(
            p,
        )[k]).contains('/') by {
            if k == 0 {
                assert(segments(p)[0] == p.take(i));
            } else {
                assert(segments(p)[k] == rest[k - 1]);
            }
        }
    } else {
        assert(segments(p)[0] == p);
    }
}

proof fn lemma_segments_of_plain(s: Seq<char>)
    requires
        !s.contains('/'),
    ensures
        segments(s) == seq![s],
{
    lemma_first_index_of(s, '/');
}

proof fn lemma_segments_concat(a: Seq<char>, b: Seq<char>)
    ensures
        segments(a + seq!['/'] + b) == segments(a) + segments(b),
    decreases a.len(),
{
    let whole = a + seq!['/'] + b;
    let tail = seq!['/'] + b;
    assert(whole =~= a + tail);
    lemma_first_index_of(a, '/');
    lemma_first_index_of_concat(a, tail, '/');
    let i = first_index_of(a, '/');
    if i < a.len() {
        assert(whole.take(i) =~= a.take(i));
        assert(whole.skip(i + 1) =~= a.skip(i + 1) + seq!['/'] + b);
        lemma_segments_concat(a.skip(i + 1), b);
        assert(segments(whole) =~= seq![a.take(i)] + (segments(a.skip(i + 1)) + segments(b)));
        assert(segments(a) =~= seq![a.take(i)] + segments(a.skip(i + 1)));
        assert(segments(whole) =~= segments(a) + segments(b));
    } else {
        assert(tail[0] == '/');
        assert(first_index_of(tail, '/') == 0);
        assert(whole.take(a.len() as int) =~= a);
        assert(whole.skip(a.len() as int + 1) =~= b);
        assert(segments(a) == seq![a]);
        assert(segments(whole) =~= seq![a] + segments(b));
    }
}

proof fn lemma_resolve_clean(cs: Seq<Seq<char>>, acc: Seq<Seq<char>>)
    requires
        all_clean(cs),
    ensures
        resolve(cs, acc) == acc + cs,
    decreases cs.len(),
{
    if cs.len() == 0 {
        assert(acc + cs =~= acc);
    } else {
        assert(is_clean(cs[0]));
        let rest = cs.drop_first();
        assert forall|i: int| 0 <= i < rest.len() implies is_clean(#[trigger] rest[i]) by {
            assert(rest[i] == cs[i + 1]);
        }
        lemma_resolve_clean(rest, acc.push(cs[0]));
        assert(acc.push(cs[0]) + rest =~= acc + cs);
    }
}

proof fn lemma_resolve_keeps_clean(segs: Seq<Seq<char>>, acc: Seq<Seq<char>>)
    requires
        all_clean(acc),
        forall|k: int| 0 <= k < segs.len() ==> !(#[trigger] segs[k]).contains('/'),
    ensures
        all_clean(resolve(segs, acc)),
    decreases segs.len(),
{
    if segs.len() > 0 {
        let s = segs[0];
        let rest = segs.drop_first();
        assert forall|k: int| 0 <= k < rest.len() implies !(#[trigger] rest[k]).contains('/') by {
            assert(rest[k] == segs[k + 1]);
        }
        if s.len() == 0 || s == seq!['.'] {
            lemma_resolve_keeps_clean(rest, acc);
        } else if s == seq!['.', '.'] {
            if acc.len() > 0 {
                let shorter = acc.drop_last();
                assert forall|i: int| 0 <= i < shorter.len() implies is_clean(
                    #[trigger] shorter[i],
                ) by {
                    assert(shorter[i] == acc[i]);
                }
                lemma_resolve_keeps_clean(rest, shorter);
            } else {
                lemma_resolve_keeps_clean(rest, acc);
            }
        } else {
            let longer = acc.push(s);
            assert forall|i: int| 0 <= i < longer.len() implies is_clean(#[trigger] longer[i]) by {
                if i < acc.len() {
                    assert(longer[i] == acc[i]);
                }
            }
            lemma_resolve_keeps_clean(rest, longer);
        }
    }
}

proof fn lemma_segments_of_join(cs: Seq<Seq<char>>)
    requires
        all_clean(cs),
        cs.len() > 0,
    ensures
        segments(join_segments(cs)) == cs,
        join_segments(cs).len() > 0,
        join_segments(cs)[0] != '/',
    decreases cs.len(),
{
    if cs.len() == 1 {
        assert(is_clean(cs[0]));
        lemma_segments_of_plain(cs[0]);
        assert(seq![cs[0]] =~= cs);
        assert(cs[0][0] != '/') by {
            if cs[0][0] == '/' {
                assert(cs[0].contains('/'));
            }
        }
    } else {
        let init = cs.drop_last();
        let last = cs.last();
        assert(is_clean(cs[cs.len() - 1]));
        assert forall|i: int| 0 <= i < init.len() implies is_clean(#[trigger] init[i]) by {
            assert(init[i] == cs[i]);
        }
        lemma_segments_of_join(init);
        lemma_segments_concat(join_segments(init), last);
        lemma_segments_of_plain(last);
        assert(init + seq![last] =~= cs);
        assert(join_segments(cs)[0] == join_segments(init)[0]);
    }
}

/// Normalizing a normalized path changes nothing.
pub proof fn lemma_normalize_idempotent(p: Seq<char>)
    ensures
        spec_normalize_path(spec_normalize_path(p)) == spec_normalize_path(p),
{
    let none = Seq::<Seq<char>>::empty();
    let blank = Seq::<char>::empty();
    let kept = resolve(segments(p), none);
    lemma_segments_no_slash(p);
    lemma_resolve_keeps_clean(segments(p), none);
    let body = join_segments(kept);
    let out = spec_normalize_path(p);
    assert(segments(blank) == seq![blank]);
    assert(seq![blank].drop_first() =~= none);
    assert(resolve(seq![blank].drop_first(), none) == none);
    assert(resolve(seq![blank], none) == none);
    if p.len() > 0 && p[0] == '/' {
        assert(out =~= seq!['/'] + body);
        assert(out[0] == '/');
        assert(first_index_of(out, '/') == 0);
        assert(out.take(0) =~= blank);
        assert(out.skip(1) =~= body);
        assert(segments(out) == seq![blank] + segments(body));
        assert((seq![blank] + segments(body))[0] == blank);
        assert((seq![blank] + segments(body)).drop_first() =~= segments(body));
        assert(resolve(segments(out), none) == resolve(segments(body), none));
        if kept.len() == 0 {
            assert(body =~= blank);
        } else {
            lemma_segments_of_join(kept);
            lemma_resolve_clean(kept, none);
            assert(none + kept =~= kept);
        }
    } else {
        assert(out == body);
        if kept.len() == 0 {
            assert(body =~= blank);
        } else {
            lemma_segments_of_join(kept);
            lemma_resolve_clean(kept, none);
            assert(none + kept =~= kept);
        }
    }
}

proof fn lemma_resolve_concat(a: Seq<Seq<char>>, b: Seq<Seq<char>>, kept: Seq<Seq<char>>)
    ensures
        resolve(a + b, kept) == resolve(b, resolve(a, kept)),
    decreases a.len(),
{
    if a.len() == 0 {
        assert(a + b =~= b);
    } else {
        let s = a[0];
        assert((a + b)[0] == s);
        assert((a + b).drop_first() =~= a.drop_first() + b);
        if s.len() == 0 || s == seq!['.'] {
            lemma_resolve_concat(a.drop_first(), b, kept);
        } else if s == seq!['.', '.'] {
            lemma_resolve_concat(
                a.drop_first(),
                b,
                if kept.len() > 0 {
                    kept.drop_last()
                } else {
                    kept
                },
            );
        } else {
            lemma_resolve_concat(a.drop_first(), b, kept.push(s));
        }
    }
}

/// Writing `./` before a relative path changes nothing of where it leads
/// from `base`.
pub proof fn lemma_dot_prefix(base: Seq<char>, rel: Seq<char>)
    requires
        rel.len() == 0 || rel[0] != '/',
    ensures
        spec_normalize_path(spec_join(base, seq!['.', '/'] + rel)) == spec_normalize_path(
            spec_join(base, rel),
        ),
{
    let none = Seq::<Seq<char>>::empty();
    let dot = seq!['.'];
    let slash = seq!['/'];
    let q = seq!['.', '/'] + rel;
    assert(q =~= dot + slash + rel);
    assert(q[0] == '.');
    lemma_segments_concat(dot, rel);
    assert(!dot.contains('/')) by {
        if dot.contains('/') {
            let i = choose|i: int| 0 <= i < dot.len() && dot[i] == '/';
            assert(dot[i] == '.');
        }
    }
    lemma_segments_of_plain(dot);
    assert(segments(q) == seq![dot] + segments(rel));
    let with_dot = spec_join(base, q);
    let without = spec_join(base, rel);
    if base.len() == 0 {
        assert(resolve(seq![dot] + segments(rel), none) == resolve(segments(rel), none)) by {
            lemma_resolve_concat(seq![dot], segments(rel), none);
            assert(seq![dot].drop_first() =~= none);
            assert(resolve(seq![dot].drop_first(), none) == none);
        }
    } else {
        let stem = if base.last() == '/' {
            base.drop_last()
        } else {
            base
        };
        assert(with_dot =~= stem + slash + q);
        assert(without =~= stem + slash + rel);
        assert(with_dot[0] == without[0]);
        lemma_segments_concat(stem, q);
        lemma_segments_concat(stem, rel);
        let front = resolve(segments(stem), none);
        lemma_resolve_concat(segments(stem), segments(q), none);
        lemma_resolve_concat(segments(stem), segments(rel), none);
        lemma_resolve_concat(seq![dot], segments(rel), front);
        assert(seq![dot].drop_first() =~= none);
        assert(resolve(seq![dot].drop_first(), front) == front);
        assert(resolve(seq![dot], front) == front);
    }
}

} // verus!
