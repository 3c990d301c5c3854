//! Character-level text helpers with mathematical specifications.
//!
//! Strings are modelled by their character sequences (`s@: Seq<char>`).
//! Executable helpers work on `Vec<char>` snapshots of a string and prove
//! their result against the spec functions below.

use vstd::prelude::*;
use vstd::string::*;

verus! {

/// `String::push` appends one character.
pub assume_specification[ String::push ](string: &mut String, ch: char)
    ensures
        final(string)@ == old(string)@.push(ch),
;

/// `String::pop` removes and returns the last character, if any.
pub assume_specification[ String::pop ](string: &mut String) -> (last: Option<char>)
    ensures
        old(string)@.len() == 0 ==> last is None && final(string)@ == old(string)@,
        old(string)@.len() > 0 ==> last == Some(old(string)@.last()) && final(string)@
            == old(string)@.drop_last(),
;

// ---------------------------------------------------------------------------
// Character classes
// ---------------------------------------------------------------------------

/// ASCII lowercase mapping of one character (non-ASCII-letters unchanged).
pub open spec fn ascii_lower(c: char) -> char {
    if 'A' <= c && c <= 'Z' {
        ((c as u32) + 32) as char
    } else {
        c
    }
}

/// ASCII lowercase of a whole character sequence.
pub open spec fn lower_seq(s: Seq<char>) -> Seq<char> {
    s.map_values(|c: char| ascii_lower(c))
}

/// Unicode `White_Space`, exactly the set `char::is_whitespace` accepts.
pub open spec fn is_ws(c: char) -> bool {
    let u = c as u32;
    (0x09 <= u && u <= 0x0d) || u == 0x20 || u == 0x85 || u == 0xa0 || u == 0x1680 || (0x2000
        <= u && u <= 0x200a) || u == 0x2028 || u == 0x2029 || u == 0x202f || u == 0x205f || u
        == 0x3000
}

pub fn lower_char(c: char) -> (r: char)
    ensures
        r == ascii_lower(c),
{
    if 'A' <= c && c <= 'Z' {
        let b: u8 = c as u8;
        assert(b == c as u32);
        ((b + 32) as u8) as char
    } else {
        c
    }
}

pub fn is_whitespace(c: char) -> (r: bool)
    ensures
        r == is_ws(c),
{
    let u: u32 = c as u32;
    (0x09 <= u && u <= 0x0d) || u == 0x20 || u == 0x85 || u == 0xa0 || u == 0x1680 || (0x2000
        <= u && u <= 0x200a) || u == 0x2028 || u == 0x2029 || u == 0x202f || u == 0x205f || u
        == 0x3000
}

// ---------------------------------------------------------------------------
// Conversions between strings and character vectors
// ---------------------------------------------------------------------------

/// The characters of `s`, in order.
pub fn chars_of(s: &str) -> (v: Vec<char>)
    ensures
        v@ == s@,
{
    let n = s.unicode_len();
    let mut v: Vec<char> = Vec::new();
    let mut i: usize = 0;
    while i < n
        invariant
            n == s@.len(),
            i <= n,
            v@ == s@.take(i as int),
        decreases n - i,
    {
        let c = s.get_char(i);
        v.push(c);
        i = i + 1;
        assert(v@ =~= s@.take(i as int));
    }
    assert(v@ =~= s@);
    v
}

/// A fresh string holding `v[from..to]`.
pub fn string_of(v: &[char], from: usize, to: usize) -> (s: String)
    requires
        from <= to <= v@.len(),
    ensures
        s@ == v@.subrange(from as int, to as int),
{
    let mut s = String::new();
    let mut i: usize = from;
    while i < to
        invariant
            from <= i <= to <= v@.len(),
            s@ == v@.subrange(from as int, i as int),
        decreases to - i,
    {
        s.push(v[i]);
        i = i + 1;
        assert(s@ =~= v@.subrange(from as int, i as int));
    }
    s
}

/// Append the characters of `v` to `s`.
pub fn push_chars(s: &mut String, v: &[char])
    ensures
        final(s)@ == old(s)@ + v@,
{
    let mut i: usize = 0;
    while i < v.len()
        invariant
            i <= v@.len(),
            s@ == old(s)@ + v@.take(i as int),
        decreases v@.len() - i,
    {
        s.push(v[i]);
        i = i + 1;
        assert(s@ =~= old(s)@ + v@.take(i as int));
    }
    assert(v@.take(v@.len() as int) =~= v@);
}

/// Append a string slice to `s`.
pub fn push_str(s: &mut String, t: &str)
    ensures
        final(s)@ == old(s)@ + t@,
{
    let v = chars_of(t);
    push_chars(s, v.as_slice());
}

/// ASCII-lowercased copy of `v`.
pub fn lowered(v: &[char]) -> (r: Vec<char>)
    ensures
        r@ == lower_seq(v@),
{
    let mut r: Vec<char> = Vec::new();
    let mut i: usize = 0;
    while i < v.len()
        invariant
            i <= v@.len(),
            r@ == lower_seq(v@.take(i as int)),
        decreases v@.len() - i,
    {
        let c = lower_char(v[i]);
        r.push(c);
        i = i + 1;
        assert(r@ =~= lower_seq(v@.take(i as int)));
    }
    assert(v@.take(v@.len() as int) =~= v@);
    r
}

// ---------------------------------------------------------------------------
// Comparisons
// ---------------------------------------------------------------------------

/// Two character vectors are equal.
pub fn chars_eq(a: &[char], b: &[char]) -> (r: bool)
    ensures
        r == (a@ == b@),
{
    if a.len() != b.len() {
        return false;
    }
    let mut i: usize = 0;
    while i < a.len()
        invariant
            a@.len() == b@.len(),
            i <= a@.len(),
            a@.take(i as int) == b@.take(i as int),
        decreases a@.len() - i,
    {
        if a[i] != b[i] {
            assert(a@[i as int] != b@[i as int]);
            return false;
        }
        i = i + 1;
        assert(a@.take(i as int) =~= b@.take(i as int)) by {
            assert(a@.take(i as int) =~= a@.take(i - 1).push(a@[i - 1]));
            assert(b@.take(i as int) =~= b@.take(i - 1).push(b@[i - 1]));
        }
    }
    assert(a@ =~= a@.take(a@.len() as int));
    assert(b@ =~= b@.take(b@.len() as int));
    true
}

/// Two strings are equal.
pub fn str_eq(a: &str, b: &str) -> (r: bool)
    ensures
        r == (a@ == b@),
{
    let va = chars_of(a);
    let vb = chars_of(b);
    chars_eq(va.as_slice(), vb.as_slice())
}

/// Case-insensitive (ASCII) equality.
pub fn eq_ignore_ascii_case(a: &str, b: &str) -> (r: bool)
    ensures
        r == (lower_seq(a@) == lower_seq(b@)),
{
    let va = chars_of(a);
    let vb = chars_of(b);
    let la = lowered(va.as_slice());
    let lb = lowered(vb.as_slice());
    chars_eq(la.as_slice(), lb.as_slice())
}

/// `needle` occurs in `hay` starting at position `i`.
pub open spec fn occurs_at(hay: Seq<char>, needle: Seq<char>, i: int) -> bool {
    0 <= i && i + needle.len() <= hay.len() && hay.subrange(i, i + needle.len()) == needle
}

/// `needle` is a substring of `hay`.
pub open spec fn contains_seq(hay: Seq<char>, needle: Seq<char>) -> bool {
    exists|i: int| occurs_at(hay, needle, i)
}

/// `v` has `p` as a prefix starting at `at`.
pub fn matches_at(v: &[char], at: usize, p: &[char]) -> (r: bool)
    ensures
        r == occurs_at(v@, p@, at as int),
{
    if at > v.len() || p.len() > v.len() - at {
        return false;
    }
    let mut j: usize = 0;
    while j < p.len()
        invariant
            at + p@.len() <= v@.len(),
            v@.len() == v.len(),
            j <= p@.len(),
            v@.subrange(at as int, at + j) == p@.take(j as int),
        decreases p@.len() - j,
    {
        if v[at + j] != p[j] {
            assert(v@.subrange(at as int, at + p@.len())[j as int] != p@[j as int]);
            return false;
        }
        j = j + 1;
        assert(v@.subrange(at as int, at + j) =~= p@.take(j as int)) by {
            assert(v@.subrange(at as int, at + j) =~= v@.subrange(at as int, at + j - 1).push(
                v@[at + j - 1],
            ));
            assert(p@.take(j as int) =~= p@.take(j - 1).push(p@[j - 1]));
        }
    }
    assert(p@.take(p@.len() as int) =~= p@);
    true
}

/// Substring search.
pub fn contains_chars(hay: &[char], needle: &[char]) -> (r: bool)
    ensures
        r == contains_seq(hay@, needle@),
{
    if needle.len() > hay.len() {
        assert forall|i: int| !occurs_at(hay@, needle@, i) by {}
        return false;
    }
    let last = hay.len() - needle.len();
    let mut i: usize = 0;
    while i <= last
        invariant
            last == hay@.len() - needle@.len(),
            i <= last,
            forall|k: int| 0 <= k < i ==> !occurs_at(hay@, needle@, k),
        ensures
            forall|k: int| 0 <= k <= last ==> !occurs_at(hay@, needle@, k),
        decreases last - i,
    {
        if matches_at(hay, i, needle) {
            return true;
        }
        if i == last {
            break;
        }
        i = i + 1;
    }
    assert forall|k: int| !occurs_at(hay@, needle@, k) by {
        if 0 <= k && k + needle@.len() <= hay@.len() {
            assert(k <= last);
        }
    }
    false
}

// ---------------------------------------------------------------------------
// Trimming, prefix/suffix stripping, searching and splitting
// ---------------------------------------------------------------------------

/// `s` without leading whitespace.
pub open spec fn trim_start_ws(s: Seq<char>) -> Seq<char>
    decreases s.len(),
{
    if s.len() > 0 && is_ws(s[0]) {
        trim_start_ws(s.drop_first())
    } else {
        s
    }
}

/// `s` without trailing whitespace.
pub open spec fn trim_end_ws(s: Seq<char>) -> Seq<char>
    decreases s.len(),
{
    if s.len() > 0 && is_ws(s.last()) {
        trim_end_ws(s.drop_last())
    } else {
        s
    }
}

/// `s` without leading and trailing whitespace (`str::trim`).
pub open spec fn trim_ws(s: Seq<char>) -> Seq<char> {
    trim_end_ws(trim_start_ws(s))
}

/// Remove every repetition of the prefix `p` (`str::trim_start_matches`).
pub open spec fn strip_prefix_all(s: Seq<char>, p: Seq<char>) -> Seq<char>
    decreases s.len(),
{
    if p.len() > 0 && s.len() >= p.len() && s.take(p.len() as int) == p {
        strip_prefix_all(s.skip(p.len() as int), p)
    } else {
        s
    }
}

/// Remove every repetition of the suffix `p` (`str::trim_end_matches`).
pub open spec fn strip_suffix_all(s: Seq<char>, p: Seq<char>) -> Seq<char>
    decreases s.len(),
{
    if p.len() > 0 && s.len() >= p.len() && s.skip(s.len() - p.len()) == p {
        strip_suffix_all(s.take(s.len() - p.len()), p)
    } else {
        s
    }
}

/// Index of the first occurrence of `c` in `s`, or `-1`.
pub open spec fn index_of_char(s: Seq<char>, c: char) -> int
    decreases s.len(),
{
    if s.len() == 0 {
        -1
    } else if s[0] == c {
        0
    } else {
        let r = index_of_char(s.drop_first(), c);
        if r < 0 {
            -1
        } else {
            r + 1
        }
    }
}

pub proof fn lemma_index_of_char(s: Seq<char>, c: char)
    ensures
        -1 <= index_of_char(s, c) < s.len(),
        index_of_char(s, c) >= 0 ==> s[index_of_char(s, c)] == c,
        forall|m: int| 0 <= m < s.len() && (index_of_char(s, c) < 0 || m < index_of_char(s, c))
            ==> s[m] != c,
    decreases s.len(),
{
    if s.len() > 0 && s[0] != c {
        lemma_index_of_char(s.drop_first(), c);
        assert forall|m: int|
            0 <= m < s.len() && (index_of_char(s, c) < 0 || m < index_of_char(s, c)) implies s[m]
            != c by {
            if m > 0 {
                assert(s[m] == s.drop_first()[m - 1]);
            }
        }
    }
}

/// Split `s` on `sep` into its non-empty pieces, in order, where `cur` is the
/// piece accumulated so far.
pub open spec fn pieces_from(s: Seq<char>, sep: char, cur: Seq<char>) -> Seq<Seq<char>>
    decreases s.len(),
{
    if s.len() == 0 {
        if cur.len() > 0 {
            seq![cur]
        } else {
            seq![]
        }
    } else if s[0] == sep {
        (if cur.len() > 0 {
            seq![cur]
        } else {
            seq![]
        }) + pieces_from(s.drop_first(), sep, seq![])
    } else {
        pieces_from(s.drop_first(), sep, cur.push(s[0]))
    }
}

/// The non-empty pieces of `s` split on `sep` (`s.split(sep).filter(|p| !p.is_empty())`).
pub open spec fn pieces(s: Seq<char>, sep: char) -> Seq<Seq<char>> {
    pieces_from(s, sep, seq![])
}

/// Bounds `[a, b)` of `trim_ws(v[from..to])` within `v`.
pub fn trim_range(v: &[char], from: usize, to: usize) -> (r: (usize, usize))
    requires
        from <= to <= v@.len(),
    ensures
        from <= r.0 <= r.1 <= to,
        v@.subrange(r.0 as int, r.1 as int) == trim_ws(v@.subrange(from as int, to as int)),
{
    let mut a = from;
    while a < to && is_whitespace(v[a])
        invariant
            from <= a <= to <= v@.len(),
            trim_start_ws(v@.subrange(from as int, to as int)) == trim_start_ws(
                v@.subrange(a as int, to as int),
            ),
        decreases to - a,
    {
        assert(v@.subrange(a as int, to as int).drop_first() =~= v@.subrange(a + 1, to as int));
        a = a + 1;
    }
    let ghost st = v@.subrange(a as int, to as int);
    assert(trim_start_ws(st) == st);
    let mut b = to;
    while b > a && is_whitespace(v[b - 1])
        invariant
            from <= a <= b <= to <= v@.len(),
            trim_end_ws(st) == trim_end_ws(v@.subrange(a as int, b as int)),
            st == v@.subrange(a as int, to as int),
        decreases b - a,
    {
        assert(v@.subrange(a as int, b as int).drop_last() =~= v@.subrange(a as int, b - 1));
        b = b - 1;
    }
    (a, b)
}

/// `v[a..b]` starts with `p`.
pub fn has_prefix_in(v: &[char], a: usize, b: usize, p: &[char]) -> (r: bool)
    requires
        a <= b <= v@.len(),
    ensures
        r == (p@.len() <= b - a && v@.subrange(a as int, b as int).take(p@.len() as int) == p@),
{
    if p.len() > b - a {
        return false;
    }
    let r = matches_at(v, a, p);
    assert(v@.subrange(a as int, b as int).take(p@.len() as int) =~= v@.subrange(
        a as int,
        a + p@.len(),
    ));
    r
}

/// `v[a..b]` ends with `p`.
pub fn has_suffix_in(v: &[char], a: usize, b: usize, p: &[char]) -> (r: bool)
    requires
        a <= b <= v@.len(),
    ensures
        r == (p@.len() <= b - a && v@.subrange(a as int, b as int).skip(b - a - p@.len()) == p@),
{
    if p.len() > b - a {
        return false;
    }
    let r = matches_at(v, b - p.len(), p);
    assert(v@.subrange(a as int, b as int).skip(b - a - p@.len()) =~= v@.subrange(
        b - p@.len(),
        b as int,
    ));
    r
}

/// Start of `strip_prefix_all(v[a..b], p)` within `v`.
pub fn strip_prefix_range(v: &[char], a: usize, b: usize, p: &[char]) -> (r: usize)
    requires
        a <= b <= v@.len(),
    ensures
        a <= r <= b,
        v@.subrange(r as int, b as int) == strip_prefix_all(v@.subrange(a as int, b as int), p@),
{
    let mut s = a;
    while p.len() > 0 && has_prefix_in(v, s, b, p)
        invariant
            a <= s <= b <= v@.len(),
            strip_prefix_all(v@.subrange(a as int, b as int), p@) == strip_prefix_all(
                v@.subrange(s as int, b as int),
                p@,
            ),
        decreases b - s,
    {
        assert(v@.subrange(s as int, b as int).skip(p@.len() as int) =~= v@.subrange(
            s + p@.len(),
            b as int,
        ));
        s = s + p.len();
    }
    s
}

/// End of `strip_suffix_all(v[a..b], p)` within `v`.
pub fn strip_suffix_range(v: &[char], a: usize, b: usize, p: &[char]) -> (r: usize)
    requires
        a <= b <= v@.len(),
    ensures
        a <= r <= b,
        v@.subrange(a as int, r as int) == strip_suffix_all(v@.subrange(a as int, b as int), p@),
{
    let mut e = b;
    while p.len() > 0 && has_suffix_in(v, a, e, p)
        invariant
            a <= e <= b <= v@.len(),
            strip_suffix_all(v@.subrange(a as int, b as int), p@) == strip_suffix_all(
                v@.subrange(a as int, e as int),
                p@,
            ),
        decreases e - a,
    {
        assert(v@.subrange(a as int, e as int).take(e - a - p@.len()) =~= v@.subrange(
            a as int,
            e - p@.len(),
        ));
        e = e - p.len();
    }
    e
}

/// Position of the first `c` in `v[a..b]` (absolute), or `b` when absent.
pub fn find_char(v: &[char], a: usize, b: usize, c: char) -> (r: usize)
    requires
        a <= b <= v@.len(),
    ensures
        a <= r <= b,
        r < b ==> index_of_char(v@.subrange(a as int, b as int), c) == r - a,
        r == b ==> index_of_char(v@.subrange(a as int, b as int), c) == -1,
{
    let ghost s = v@.subrange(a as int, b as int);
    proof {
        lemma_index_of_char(s, c);
    }
    let mut i = a;
    while i < b
        invariant
            a <= i <= b <= v@.len(),
            s == v@.subrange(a as int, b as int),
            forall|m: int| a <= m < i ==> v@[m] != c,
            -1 <= index_of_char(s, c) < s.len(),
            index_of_char(s, c) >= 0 ==> s[index_of_char(s, c)] == c,
            forall|m: int| 0 <= m < s.len() && (index_of_char(s, c) < 0 || m < index_of_char(s, c))
                ==> s[m] != c,
        decreases b - i,
    {
        if v[i] == c {
            proof {
                let k = index_of_char(s, c);
                assert(s[i - a] == c);
                if k >= 0 && k < i - a {
                    assert(v@[a + k] != c);
                }
            }
            return i;
        }
        i = i + 1;
    }
    proof {
        let k = index_of_char(s, c);
        if k >= 0 {
            assert(v@[a + k] != c);
        }
    }
    b
}

/// Ranges of the non-empty pieces of `v[a..b]` split on `sep`.
pub fn split_pieces(v: &[char], a: usize, b: usize, sep: char) -> (r: Vec<(usize, usize)>)
    requires
        a <= b <= v@.len(),
    ensures
        r@.len() == pieces(v@.subrange(a as int, b as int), sep).len(),
        forall|k: int|
            0 <= k < r@.len() ==> a <= (#[trigger] r@[k]).0 <= r@[k].1 <= b && v@.subrange(
                r@[k].0 as int,
                r@[k].1 as int,
            ) == pieces(v@.subrange(a as int, b as int), sep)[k],
{
    let ghost whole = pieces(v@.subrange(a as int, b as int), sep);
    let mut r: Vec<(usize, usize)> = Vec::new();
    let mut start = a;
    let mut pos = a;
    let ghost mut done: Seq<Seq<char>> = seq![];
    assert(v@.subrange(a as int, a as int) =~= Seq::<char>::empty());
    assert(whole =~= done + pieces_from(
        v@.subrange(pos as int, b as int),
        sep,
        v@.subrange(start as int, pos as int),
    ));
    while pos < b
        invariant
            a <= start <= pos <= b <= v@.len(),
            whole == pieces(v@.subrange(a as int, b as int), sep),
            whole == done + pieces_from(
                v@.subrange(pos as int, b as int),
                sep,
                v@.subrange(start as int, pos as int),
            ),
            r@.len() == done.len(),
            forall|k: int|
                0 <= k < r@.len() ==> a <= (#[trigger] r@[k]).0 <= r@[k].1 <= start && v@.subrange(
                    r@[k].0 as int,
                    r@[k].1 as int,
                ) == done[k],
        decreases b - pos,
    {
        let ghost rest = v@.subrange(pos as int, b as int);
        let ghost cur = v@.subrange(start as int, pos as int);
        assert(rest.drop_first() =~= v@.subrange(pos + 1, b as int));
        if v[pos] == sep {
            if pos > start {
                r.push((start, pos));
                proof {
                    done = done + seq![cur];
                }
            }
            proof {
                assert(v@.subrange(pos + 1, pos + 1) =~= Seq::<char>::empty());
                if cur.len() > 0 {
                    assert(whole =~= done + pieces_from(
                        v@.subrange(pos + 1, b as int),
                        sep,
                        seq![],
                    ));
                } else {
                    assert(whole =~= done + pieces_from(
                        v@.subrange(pos + 1, b as int),
                        sep,
                        seq![],
                    ));
                }
            }
            pos = pos + 1;
            start = pos;
        } else {
            assert(cur.push(v@[pos as int]) =~= v@.subrange(start as int, pos + 1));
            pos = pos + 1;
        }
    }
    let ghost cur = v@.subrange(start as int, pos as int);
    if pos > start {
        r.push((start, pos));
        proof {
            done = done + seq![cur];
        }
    }
    assert(whole =~= done);
    r
}

/// `s` starts with `p`.
pub open spec fn has_prefix(s: Seq<char>, p: Seq<char>) -> bool {
    p.len() <= s.len() && s.take(p.len() as int) == p
}

/// Least `i >= from` at which `needle` occurs in `hay`, or `-1`.
pub open spec fn first_occurrence_from(hay: Seq<char>, needle: Seq<char>, from: int) -> int
    decreases hay.len() + 1 - from,
{
    if from < 0 || from + needle.len() > hay.len() {
        -1
    } else if occurs_at(hay, needle, from) {
        from
    } else {
        first_occurrence_from(hay, needle, from + 1)
    }
}

/// Index of the first occurrence of `needle` in `hay` (`str::find`), or `-1`.
pub open spec fn first_occurrence(hay: Seq<char>, needle: Seq<char>) -> int {
    first_occurrence_from(hay, needle, 0)
}

/// A found occurrence is an occurrence.
pub proof fn lemma_first_occurrence_from_bound(hay: Seq<char>, needle: Seq<char>, from: int)
    ensures
        first_occurrence_from(hay, needle, from) >= 0 ==> occurs_at(
            hay,
            needle,
            first_occurrence_from(hay, needle, from),
        ),
    decreases hay.len() + 1 - from,
{
    if !(from < 0 || from + needle.len() > hay.len()) && !occurs_at(hay, needle, from) {
        lemma_first_occurrence_from_bound(hay, needle, from + 1);
    }
}

/// A found occurrence is an occurrence.
pub proof fn lemma_first_occurrence_bound(hay: Seq<char>, needle: Seq<char>)
    ensures
        first_occurrence(hay, needle) >= 0 ==> occurs_at(hay, needle, first_occurrence(hay, needle)),
{
    lemma_first_occurrence_from_bound(hay, needle, 0);
}

/// Position of the first occurrence of `p` in `v[a..b]` (absolute), if any.
pub fn find_seq_in(v: &[char], a: usize, b: usize, p: &[char]) -> (r: Option<usize>)
    requires
        a <= b <= v@.len(),
    ensures
        match r {
            Some(i) => a <= i <= b && first_occurrence(v@.subrange(a as int, b as int), p@) == i
                - a,
            None => first_occurrence(v@.subrange(a as int, b as int), p@) == -1,
        },
{
    let ghost s = v@.subrange(a as int, b as int);
    if p.len() > b - a {
        return None;
    }
    let last = b - p.len();
    let mut i = a;
    while i <= last
        invariant
            a <= i,
            last == b - p@.len(),
            a <= last + 1,
            b <= v@.len(),
            p@.len() <= b - a,
            s == v@.subrange(a as int, b as int),
            first_occurrence(s, p@) == first_occurrence_from(s, p@, i - a),
        decreases last + 1 - i,
    {
        let hit = matches_at(v, i, p);
        assert(occurs_at(v@, p@, i as int) == occurs_at(s, p@, i - a)) by {
            assert(v@.subrange(i as int, i + p@.len()) =~= s.subrange(i - a, i - a + p@.len()));
        }
        if hit {
            return Some(i);
        }
        if i == last {
            assert(first_occurrence_from(s, p@, i - a + 1) == -1);
            return None;
        }
        i = i + 1;
    }
    None
}

/// `s` with every ASCII space removed.
pub open spec fn drop_spaces(s: Seq<char>) -> Seq<char>
    decreases s.len(),
{
    if s.len() == 0 {
        s
    } else if s.last() == ' ' {
        drop_spaces(s.drop_last())
    } else {
        drop_spaces(s.drop_last()).push(s.last())
    }
}

/// The characters of `v[a..b]` other than ASCII spaces.
pub fn without_spaces(v: &[char], a: usize, b: usize) -> (r: Vec<char>)
    requires
        a <= b <= v@.len(),
    ensures
        r@ == drop_spaces(v@.subrange(a as int, b as int)),
{
    let mut r: Vec<char> = Vec::new();
    let mut i = a;
    assert(v@.subrange(a as int, a as int) =~= Seq::<char>::empty());
    while i < b
        invariant
            a <= i <= b <= v@.len(),
            r@ == drop_spaces(v@.subrange(a as int, i as int)),
        decreases b - i,
    {
        assert(v@.subrange(a as int, i + 1).drop_last() =~= v@.subrange(a as int, i as int));
        if v[i] != ' ' {
            r.push(v[i]);
        }
        i = i + 1;
    }
    r
}

// ---------------------------------------------------------------------------
// Decimal rendering of numbers
// ---------------------------------------------------------------------------

/// The ASCII digit for `d < 10`.
pub open spec fn digit_char(d: nat) -> char {
    (48 + d) as char
}

/// Decimal representation of `n`, without leading zeros.
pub open spec fn decimal(n: nat) -> Seq<char>
    decreases n,
{
    if n < 10 {
        seq![digit_char(n)]
    } else {
        decimal(n / 10).push(digit_char(n % 10))
    }
}

fn digit(d: u64) -> (c: char)
    requires
        d < 10,
    ensures
        c == digit_char(d as nat),
{
    let b: u8 = 48 + (d as u8);
    b as char
}

/// Append the decimal representation of `n` to `s`.
pub fn push_decimal(s: &mut String, n: u64)
    ensures
        final(s)@ == old(s)@ + decimal(n as nat),
    decreases n,
{
    if n >= 10 {
        push_decimal(s, n / 10);
    }
    let c = digit(n % 10);
    s.push(c);
    if n >= 10 {
        assert(s@ =~= old(s)@ + decimal(n as nat));
    } else {
        assert(s@ =~= old(s)@ + decimal(n as nat));
    }
}

/// Decimal representation of a signed integer (`-` before negatives).
pub open spec fn signed_decimal(n: int) -> Seq<char> {
    if n < 0 {
        "-"@ + decimal((-n) as nat)
    } else {
        decimal(n as nat)
    }
}

/// Append the decimal representation of `n` to `s`.
pub fn push_signed(s: &mut String, n: i64)
    ensures
        final(s)@ == old(s)@ + signed_decimal(n as int),
{
    if n < 0 {
        push_str(s, "-");
        let m: u64 = if n == i64::MIN {
            9_223_372_036_854_775_808
        } else {
            (-n) as u64
        };
        push_decimal(s, m);
        proof {
            reveal_strlit("-");
        }
        assert(s@ =~= old(s)@ + signed_decimal(n as int));
    } else {
        push_decimal(s, n as u64);
    }
}

/// `n` spaces.
pub open spec fn spaces(n: nat) -> Seq<char> {
    Seq::new(n, |i: int| ' ')
}

/// `s` followed by spaces up to `width` characters (never cut).
pub open spec fn pad_right(s: Seq<char>, width: nat) -> Seq<char> {
    if s.len() < width {
        s + spaces((width - s.len()) as nat)
    } else {
        s
    }
}

/// Append `v` to `s`, then spaces up to `width` characters in all.
pub fn push_padded(s: &mut String, t: &str, width: usize)
    ensures
        final(s)@ == old(s)@ + pad_right(t@, width as nat),
{
    let n = t.unicode_len();
    push_str(s, t);
    let mut k = n;
    while k < width
        invariant
            n == t@.len(),
            n <= k,
            k <= width || n >= width,
            n >= width ==> k == n,
            s@ == old(s)@ + t@ + spaces((k - n) as nat),
        decreases width - k,
    {
        s.push(' ');
        k = k + 1;
        assert(spaces((k - n) as nat) =~= spaces((k - 1 - n) as nat).push(' '));
    }
    if n < width {
        assert(k == width);
        assert(old(s)@ + t@ + spaces((k - n) as nat) =~= old(s)@ + (t@ + spaces((width - n) as nat)));
    } else {
        assert(k == n);
        assert(spaces(0) =~= Seq::<char>::empty());
        assert(old(s)@ + t@ + spaces(0) =~= old(s)@ + t@);
    }
}

} // verus!
