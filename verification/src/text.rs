//! Character-sequence utilities shared by the output classifiers: splitting
//! captured tool output into lines and whitespace-delimited tokens, prefix
//! and substring tests, trimming, and integer parsing.

use vstd::prelude::*;

verus! {

// ------------------------------------------------------------------
// Character classes
// ------------------------------------------------------------------

/// What `char::is_numeric` returns for a character; beyond the ASCII facts
/// stated where it is applied, it is left opaque.
pub uninterp spec fn char_is_numeric(c: char) -> bool;

/// What `char::is_whitespace` returns for a character.
pub uninterp spec fn char_is_whitespace(c: char) -> bool;

/// Relies on char::is_numeric (std): true exactly for characters of a
/// numeric Unicode general category; among ASCII characters these are
/// precisely the digits '0' to '9'.
pub assume_specification[ char::is_numeric ](c: char) -> (r: bool)
    ensures
        r == char_is_numeric(c),
        '0' <= c && c <= '9' ==> r,
        (c as u32) < 128 && !('0' <= c && c <= '9') ==> !r,
;

/// Relies on char::is_whitespace (std): true exactly for characters with the
/// Unicode `White_Space` property; space, tab, newline and carriage return
/// have it, and no ASCII character from '!' to '~' does.
pub assume_specification[ char::is_whitespace ](c: char) -> (r: bool)
    ensures
        r == char_is_whitespace(c),
        c == ' ' || c == '\t' || c == '\n' || c == '\r' ==> r,
        '!' <= c && c <= '~' ==> !r,
;

/// Relies on String::push (std): appends one character at the end.
pub assume_specification[ String::push ](s: &mut String, c: char)
    ensures
        final(s)@ == old(s)@.push(c),
;

/// The numeric characters of `s`, in order.
pub open spec fn spec_numeric_only(s: Seq<char>) -> Seq<char> {
    s.filter(|c: char| char_is_numeric(c))
}

/// The views of a vector of strings.
pub open spec fn spec_views(v: Seq<String>) -> Seq<Seq<char>> {
    v.map_values(|s: String| s@)
}

/// The views of a vector of string slices.
pub open spec fn spec_str_views(v: Seq<&str>) -> Seq<Seq<char>> {
    v.map_values(|s: &str| s@)
}

// ------------------------------------------------------------------
// Conversions between &str, String and Vec<char>
// ------------------------------------------------------------------

/// The characters of a string slice, as a vector.
pub fn to_chars(s: &str) -> (r: Vec<char>)
    ensures
        r@ == s@,
{
    let n = s.unicode_len();
    let mut r: Vec<char> = Vec::new();
    let mut i: usize = 0;
    while i < n
        invariant
            i <= n,
            n == s@.len(),
            r@ == s@.take(i as int),
        decreases n - i,
    {
        let c = s.get_char(i);
        r.push(c);
        proof {
            assert(s@.take(i + 1 as int) =~= s@.take(i as int).push(s@[i as int]));
        }
        i = i + 1;
    }
    proof {
        assert(s@.take(n as int) =~= s@);
    }
    r
}

/// A `String` holding exactly the given characters.
pub fn chars_to_string(v: &Vec<char>) -> (r: String)
    ensures
        r@ == v@,
{
    let mut r = String::new();
    let mut i: usize = 0;
    while i < v.len()
        invariant
            i <= v@.len(),
            r@ == v@.take(i as int),
        decreases v@.len() - i,
    {
        r.push(v[i]);
        proof {
            assert(v@.take(i + 1 as int) =~= v@.take(i as int).push(v@[i as int]));
        }
        i = i + 1;
    }
    proof {
        assert(v@.take(v@.len() as int) =~= v@);
    }
    r
}

// ------------------------------------------------------------------
// Splitting into pieces
// ------------------------------------------------------------------

/// The pieces of `s` delimited by `sep`: always at least one piece, with an
/// empty piece between, before and after adjacent separators, exactly as
/// `str::split` yields them.
pub open spec fn spec_split(s: Seq<char>, sep: char) -> Seq<Seq<char>>
    decreases s.len(),
{
    if s.len() == 0 {
        seq![Seq::<char>::empty()]
    } else if s.last() == sep {
        spec_split(s.drop_last(), sep).push(Seq::<char>::empty())
    } else {
        let prev = spec_split(s.drop_last(), sep);
        prev.update(prev.len() - 1, prev.last().push(s.last()))
    }
}

pub proof fn lemma_split_nonempty(s: Seq<char>, sep: char)
    ensures
        spec_split(s, sep).len() >= 1,
    decreases s.len(),
{
    if s.len() > 0 {
        lemma_split_nonempty(s.drop_last(), sep);
    }
}

/// The lines of captured output, split on newline characters.
pub open spec fn spec_lines(s: Seq<char>) -> Seq<Seq<char>> {
    spec_split(s, '\n')
}

/// Splits the characters on the given separator, keeping empty pieces.
pub fn split_on(v: &Vec<char>, sep: char) -> (r: Vec<Vec<char>>)
    ensures
        r@.len() == spec_split(v@, sep).len(),
        forall|j: int| 0 <= j < r@.len() ==> r@[j]@ == spec_split(v@, sep)[j],
{
    let mut out: Vec<Vec<char>> = Vec::new();
    let mut cur: Vec<char> = Vec::new();
    let mut i: usize = 0;
    proof {
        assert(v@.take(0) =~= Seq::<char>::empty());
    }
    while i < v.len()
        invariant
            i <= v@.len(),
            spec_split(v@.take(i as int), sep).len() == out@.len() + 1,
            forall|j: int| 0 <= j < out@.len() ==> out@[j]@ == spec_split(v@.take(i as int), sep)[j],
            spec_split(v@.take(i as int), sep).last() == cur@,
        decreases v@.len() - i,
    {
        proof {
            lemma_split_nonempty(v@.take(i as int), sep);
            assert(v@.take(i + 1 as int).drop_last() =~= v@.take(i as int));
            assert(v@.take(i + 1 as int).last() == v@[i as int]);
        }
        if v[i] == sep {
            out.push(cur);
            cur = Vec::new();
        } else {
            cur.push(v[i]);
        }
        i = i + 1;
    }
    proof {
        assert(v@.take(v@.len() as int) =~= v@);
        lemma_split_nonempty(v@, sep);
    }
    out.push(cur);
    out
}

// ------------------------------------------------------------------
// Whitespace-delimited tokens
// ------------------------------------------------------------------

/// The pieces of `s` delimited by whitespace, empty pieces kept.
pub open spec fn spec_ws_pieces(s: Seq<char>) -> Seq<Seq<char>>
    decreases s.len(),
{
    if s.len() == 0 {
        seq![Seq::<char>::empty()]
    } else if char_is_whitespace(s.last()) {
        spec_ws_pieces(s.drop_last()).push(Seq::<char>::empty())
    } else {
        let prev = spec_ws_pieces(s.drop_last());
        prev.update(prev.len() - 1, prev.last().push(s.last()))
    }
}

pub proof fn lemma_ws_pieces_nonempty(s: Seq<char>)
    ensures
        spec_ws_pieces(s).len() >= 1,
    decreases s.len(),
{
    if s.len() > 0 {
        lemma_ws_pieces_nonempty(s.drop_last());
    }
}

/// The non-empty pieces, in order.
pub open spec fn spec_keep_nonempty(pieces: Seq<Seq<char>>) -> Seq<Seq<char>> {
    pieces.filter(|t: Seq<char>| t.len() > 0)
}

/// The whitespace-delimited tokens of `s`, as `str::split_whitespace`
/// yields them: non-empty, in order.
pub open spec fn spec_ws_tokens(s: Seq<char>) -> Seq<Seq<char>> {
    spec_keep_nonempty(spec_ws_pieces(s))
}

/// Splits the characters into whitespace-delimited tokens.
pub fn ws_tokens(v: &Vec<char>) -> (r: Vec<Vec<char>>)
    ensures
        r@.len() == spec_ws_tokens(v@).len(),
        forall|j: int| 0 <= j < r@.len() ==> r@[j]@ == spec_ws_tokens(v@)[j],
{
    let mut out: Vec<Vec<char>> = Vec::new();
    let mut cur: Vec<char> = Vec::new();
    let mut i: usize = 0;
    proof {
        reveal(Seq::filter);
        assert(v@.take(0) =~= Seq::<char>::empty());
        let p0 = spec_ws_pieces(v@.take(0));
        assert(p0 =~= seq![Seq::<char>::empty()]);
        assert(p0.drop_last() =~= Seq::<Seq<char>>::empty());
        assert(p0.last() == Seq::<char>::empty());
        assert(spec_keep_nonempty(Seq::<Seq<char>>::empty()).len() == 0);
        assert(spec_keep_nonempty(p0).len() == 0);
    }
    while i < v.len()
        invariant
            i <= v@.len(),
            spec_ws_pieces(v@.take(i as int)).last() == cur@,
            cur@.len() > 0 ==> spec_ws_tokens(v@.take(i as int)).len() == out@.len() + 1
                && spec_ws_tokens(v@.take(i as int)).last() == cur@,
            cur@.len() == 0 ==> spec_ws_tokens(v@.take(i as int)).len() == out@.len(),
            forall|j: int| 0 <= j < out@.len() ==> out@[j]@ == spec_ws_tokens(v@.take(i as int))[j],
        decreases v@.len() - i,
    {
        proof {
            reveal(Seq::filter);
            let pieces = spec_ws_pieces(v@.take(i as int));
            lemma_ws_pieces_nonempty(v@.take(i as int));
            assert(v@.take(i + 1 as int).drop_last() =~= v@.take(i as int));
            assert(v@.take(i + 1 as int).last() == v@[i as int]);
            if char_is_whitespace(v@[i as int]) {
                let grown = pieces.push(Seq::<char>::empty());
                assert(grown.drop_last() =~= pieces);
                assert(spec_ws_pieces(v@.take(i + 1 as int)) == grown);
                assert(spec_keep_nonempty(grown) == spec_keep_nonempty(pieces));
            } else {
                let upd = pieces.update(pieces.len() - 1, cur@.push(v@[i as int]));
                assert(upd.drop_last() =~= pieces.drop_last());
                assert(upd.last() == cur@.push(v@[i as int]));
                assert(spec_ws_pieces(v@.take(i + 1 as int)) == upd);
                assert(spec_keep_nonempty(upd) == spec_keep_nonempty(pieces.drop_last()).push(
                    cur@.push(v@[i as int]),
                ));
                if cur@.len() > 0 {
                    assert(spec_keep_nonempty(pieces) == spec_keep_nonempty(
                        pieces.drop_last(),
                    ).push(cur@));
                } else {
                    assert(spec_keep_nonempty(pieces) == spec_keep_nonempty(pieces.drop_last()));
                }
            }
        }
        let ghost cur0 = cur@;
        let ghost curv = cur;
        let ghost out0 = out@;
        if v[i].is_whitespace() {
            if cur.len() > 0 {
                out.push(cur);
                cur = Vec::new();
            }
        } else {
            cur.push(v[i]);
        }
        proof {
            let toks2 = spec_ws_tokens(v@.take(i + 1 as int));
            let toks = spec_ws_tokens(v@.take(i as int));
            if char_is_whitespace(v@[i as int]) {
                assert(toks2 == toks);
                if cur0.len() > 0 {
                    assert(out@ == out0.push(curv) && cur@.len() == 0);
                    assert(toks2.len() == out@.len());
                    assert(out@[out0.len() as int]@ == cur0);
                    assert(toks2[out0.len() as int] == cur0);
                    assert(forall|j: int| 0 <= j < out@.len() ==> out@[j]@ == toks2[j]);
                } else {
                    assert(forall|j: int| 0 <= j < out@.len() ==> out@[j]@ == toks2[j]);
                }
            } else {
                let kept = spec_keep_nonempty(spec_ws_pieces(v@.take(i as int)).drop_last());
                assert(toks2 == kept.push(cur0.push(v@[i as int])));
                assert(out@ == out0 && cur@ == cur0.push(v@[i as int]));
                if cur0.len() > 0 {
                    assert(toks == kept.push(cur0));
                    assert(forall|j: int| 0 <= j < out@.len() ==> toks2[j] == toks[j]);
                } else {
                    assert(toks == kept);
                    assert(forall|j: int| 0 <= j < out@.len() ==> toks2[j] == toks[j]);
                }
                assert(forall|j: int| 0 <= j < out@.len() ==> out@[j]@ == toks2[j]);
                assert(toks2.len() == out@.len() + 1 && toks2.last() == cur@);
            }
        }
        i = i + 1;
    }
    proof {
        assert(v@.take(v@.len() as int) =~= v@);
    }
    if cur.len() > 0 {
        out.push(cur);
    }
    out
}

// ------------------------------------------------------------------
// Prefix, substring, trimming
// ------------------------------------------------------------------

/// Whether `s` begins with the characters of `p`.
pub open spec fn spec_starts_with(s: Seq<char>, p: Seq<char>) -> bool {
    p.len() <= s.len() && (forall|j: int| 0 <= j < p.len() ==> s[j] == p[j])
}

/// Whether the characters of `p` occur at position `k` of `s`.
pub open spec fn spec_match_at(s: Seq<char>, p: Seq<char>, k: int) -> bool {
    forall|j: int| 0 <= j < p.len() ==> s[k + j] == p[j]
}

/// Whether the characters of `p` occur contiguously anywhere in `s`.
pub open spec fn spec_contains(s: Seq<char>, p: Seq<char>) -> bool {
    exists|k: int| 0 <= k && k + p.len() <= s.len() && spec_match_at(s, p, k)
}

/// Whether the characters start with the given pattern.
pub fn starts_with_lit(v: &Vec<char>, p: &str) -> (r: bool)
    ensures
        r == spec_starts_with(v@, p@),
{
    let pc = to_chars(p);
    if pc.len() > v.len() {
        return false;
    }
    let mut j: usize = 0;
    while j < pc.len()
        invariant
            j <= pc@.len(),
            pc@.len() <= v@.len(),
            pc@ == p@,
            forall|k: int| 0 <= k < j ==> v@[k] == pc@[k],
        decreases pc@.len() - j,
    {
        if v[j] != pc[j] {
            return false;
        }
        j = j + 1;
    }
    true
}

/// Whether the characters contain the given pattern contiguously.
pub fn contains_lit(v: &Vec<char>, p: &str) -> (r: bool)
    ensures
        r == spec_contains(v@, p@),
{
    let pc = to_chars(p);
    if pc.len() == 0 {
        proof {
            assert(spec_match_at(v@, p@, 0));
        }
        return true;
    }
    if pc.len() > v.len() {
        return false;
    }
    let last = v.len() - pc.len();
    let mut k: usize = 0;
    while k <= last
        invariant
            pc@ == p@,
            1 <= pc@.len() <= v@.len(),
            v@.len() <= usize::MAX,
            last == v@.len() - pc@.len(),
            k <= last + 1,
            forall|k2: int| 0 <= k2 < k ==> !spec_match_at(v@, p@, k2),
        decreases last + 1 - k,
    {
        let mut j: usize = 0;
        let mut hit = true;
        while j < pc.len()
            invariant
                pc@ == p@,
                k + pc@.len() <= v@.len(),
                v@.len() <= usize::MAX,
                j <= pc@.len(),
                hit ==> forall|j2: int| 0 <= j2 < j ==> v@[k + j2] == pc@[j2],
                !hit ==> !spec_match_at(v@, p@, k as int),
            decreases pc@.len() - j,
        {
            proof {
                assert(j < pc@.len());
                assert(k + j < v@.len());
            }
            if v[k + j] != pc[j] {
                proof {
                    assert(v@[k + j as int] != p@[j as int]);
                }
                hit = false;
                j = pc.len();
            } else {
                j = j + 1;
            }
        }
        if hit {
            proof {
                assert(spec_match_at(v@, p@, k as int));
            }
            return true;
        }
        proof {
            assert(k < last + 1);
            assert(last + 1 <= v@.len());
        }
        k = k + 1;
    }
    false
}

/// Keeps the numeric characters, in order.
pub fn numeric_chars(v: &Vec<char>) -> (r: Vec<char>)
    ensures
        r@ == spec_numeric_only(v@),
{
    let mut keep: Vec<char> = Vec::new();
    let mut i: usize = 0;
    proof {
        reveal(Seq::filter);
        assert(v@.take(0) =~= Seq::<char>::empty());
    }
    while i < v.len()
        invariant
            i <= v@.len(),
            keep@ == spec_numeric_only(v@.take(i as int)),
        decreases v@.len() - i,
    {
        proof {
            reveal(Seq::filter);
            assert(v@.take(i + 1 as int).drop_last() =~= v@.take(i as int));
            assert(v@.take(i + 1 as int).last() == v@[i as int]);
        }
        if v[i].is_numeric() {
            keep.push(v[i]);
        }
        i = i + 1;
    }
    proof {
        assert(v@.take(v@.len() as int) =~= v@);
    }
    keep
}

/// Whether two character vectors hold the same characters.
pub fn chars_eq(a: &Vec<char>, b: &Vec<char>) -> (r: bool)
    ensures
        r == (a@ == b@),
{
    if a.len() != b.len() {
        return false;
    }
    let mut i: usize = 0;
    while i < a.len()
        invariant
            i <= a@.len(),
            a@.len() == b@.len(),
            forall|j: int| 0 <= j < i ==> a@[j] == b@[j],
        decreases a@.len() - i,
    {
        if a[i] != b[i] {
            return false;
        }
        i = i + 1;
    }
    proof {
        assert(a@ =~= b@);
    }
    true
}

/// Whether the characters of `p` occur at position `i` of `v`, within
/// bounds.
pub fn matches_at(v: &Vec<char>, pc: &Vec<char>, i: usize) -> (r: bool)
    ensures
        r == (i + pc@.len() <= v@.len() && spec_match_at(v@, pc@, i as int)),
{
    if i > v.len() || pc.len() > v.len() - i {
        return false;
    }
    let mut j: usize = 0;
    while j < pc.len()
        invariant
            j <= pc@.len(),
            i + pc@.len() <= v@.len(),
            v@.len() <= usize::MAX,
            forall|k: int| 0 <= k < j ==> v@[i + k] == pc@[k],
        decreases pc@.len() - j,
    {
        if v[i + j] != pc[j] {
            proof {
                assert(v@[i + j as int] != pc@[j as int]);
            }
            return false;
        }
        j = j + 1;
    }
    true
}

/// `s` from position `i` on, with every non-overlapping occurrence of `p`
/// removed left to right, as `str::replace(p, "")` removes them.
pub open spec fn spec_remove_from(s: Seq<char>, p: Seq<char>, i: int) -> Seq<char>
    decreases s.len() - i,
{
    if i < 0 || i >= s.len() {
        Seq::<char>::empty()
    } else if p.len() > 0 && i + p.len() <= s.len() && spec_match_at(s, p, i) {
        spec_remove_from(s, p, i + p.len())
    } else {
        seq![s[i]] + spec_remove_from(s, p, i + 1)
    }
}

/// `s` with every occurrence of `p` removed.
pub open spec fn spec_remove_all(s: Seq<char>, p: Seq<char>) -> Seq<char> {
    spec_remove_from(s, p, 0)
}

/// Removes every occurrence of the pattern, left to right without overlap.
pub fn remove_all(v: &Vec<char>, p: &str) -> (r: Vec<char>)
    ensures
        r@ == spec_remove_all(v@, p@),
{
    let pc = to_chars(p);
    let mut out: Vec<char> = Vec::new();
    if pc.len() == 0 {
        let mut i: usize = 0;
        while i < v.len()
            invariant
                i <= v@.len(),
                pc@ == p@,
                p@.len() == 0,
                out@ + spec_remove_from(v@, p@, i as int) == spec_remove_all(v@, p@),
            decreases v@.len() - i,
        {
            proof {
                assert(seq![v@[i as int]] + spec_remove_from(v@, p@, i + 1 as int)
                    == spec_remove_from(v@, p@, i as int));
                assert(out@.push(v@[i as int]) + spec_remove_from(v@, p@, i + 1 as int) =~= out@
                    + spec_remove_from(v@, p@, i as int));
            }
            out.push(v[i]);
            i = i + 1;
        }
        proof {
            assert(spec_remove_from(v@, p@, v@.len() as int) =~= Seq::<char>::empty());
            assert(out@ =~= out@ + spec_remove_from(v@, p@, v@.len() as int));
        }
        return out;
    }
    let mut i: usize = 0;
    while i < v.len()
        invariant
            i <= v@.len(),
            pc@ == p@,
            p@.len() > 0,
            out@ + spec_remove_from(v@, p@, i as int) == spec_remove_all(v@, p@),
        decreases v@.len() - i,
    {
        if matches_at(v, &pc, i) {
            proof {
                assert(spec_remove_from(v@, p@, i as int) == spec_remove_from(
                    v@,
                    p@,
                    i + p@.len(),
                ));
            }
            i = i + pc.len();
        } else {
            proof {
                assert(seq![v@[i as int]] + spec_remove_from(v@, p@, i + 1 as int)
                    == spec_remove_from(v@, p@, i as int));
                assert(out@.push(v@[i as int]) + spec_remove_from(v@, p@, i + 1 as int) =~= out@
                    + spec_remove_from(v@, p@, i as int));
            }
            out.push(v[i]);
            i = i + 1;
        }
    }
    proof {
        assert(spec_remove_from(v@, p@, i as int) =~= Seq::<char>::empty());
        assert(out@ =~= out@ + spec_remove_from(v@, p@, i as int));
    }
    out
}

/// `s` without leading whitespace.
pub open spec fn spec_trim_front(s: Seq<char>) -> Seq<char>
    decreases s.len(),
{
    if s.len() > 0 && char_is_whitespace(s[0]) {
        spec_trim_front(s.drop_first())
    } else {
        s
    }
}

/// `s` without trailing whitespace.
pub open spec fn spec_trim_back(s: Seq<char>) -> Seq<char>
    decreases s.len(),
{
    if s.len() > 0 && char_is_whitespace(s.last()) {
        spec_trim_back(s.drop_last())
    } else {
        s
    }
}

/// `s` without leading and trailing whitespace, as `str::trim` returns it.
pub open spec fn spec_trim(s: Seq<char>) -> Seq<char> {
    spec_trim_back(spec_trim_front(s))
}

/// Trims leading and trailing whitespace characters.
pub fn trim_chars(v: &Vec<char>) -> (r: Vec<char>)
    ensures
        r@ == spec_trim(v@),
{
    proof {
        assert(v@.skip(0) =~= v@);
    }
    let mut a: usize = 0;
    while a < v.len() && v[a].is_whitespace()
        invariant
            a <= v@.len(),
            spec_trim_front(v@) == spec_trim_front(v@.skip(a as int)),
        decreases v@.len() - a,
    {
        proof {
            assert(v@.skip(a as int)[0] == v@[a as int]);
            assert(v@.skip(a as int).drop_first() =~= v@.skip(a + 1 as int));
        }
        a = a + 1;
    }
    proof {
        if a < v@.len() {
            assert(v@.skip(a as int)[0] == v@[a as int]);
        } else {
            assert(v@.skip(a as int) =~= Seq::<char>::empty());
        }
        assert(spec_trim_front(v@) == v@.skip(a as int));
        assert(v@.skip(a as int) =~= v@.subrange(a as int, v@.len() as int));
    }
    let mut b: usize = v.len();
    while b > a && v[b - 1].is_whitespace()
        invariant
            a <= b <= v@.len(),
            spec_trim_front(v@) == v@.skip(a as int),
            spec_trim_back(v@.skip(a as int)) == spec_trim_back(v@.subrange(a as int, b as int)),
        decreases b,
    {
        proof {
            let piece = v@.subrange(a as int, b as int);
            assert(piece.last() == v@[b - 1 as int]);
            assert(piece.drop_last() =~= v@.subrange(a as int, b - 1 as int));
        }
        b = b - 1;
    }
    proof {
        let piece = v@.subrange(a as int, b as int);
        if b > a {
            assert(piece.last() == v@[b - 1 as int]);
        }
        assert(spec_trim_back(piece) == piece);
    }
    let mut r: Vec<char> = Vec::new();
    let mut i: usize = a;
    while i < b
        invariant
            a <= i <= b <= v@.len(),
            r@ == v@.subrange(a as int, i as int),
        decreases b - i,
    {
        r.push(v[i]);
        proof {
            assert(v@.subrange(a as int, i + 1 as int) =~= v@.subrange(a as int, i as int).push(
                v@[i as int],
            ));
        }
        i = i + 1;
    }
    r
}

// ------------------------------------------------------------------
// Decimal numbers
// ------------------------------------------------------------------

/// Whether `c` is an ASCII decimal digit.
pub open spec fn spec_is_digit(c: char) -> bool {
    '0' <= c && c <= '9'
}

/// Whether `s` is one or more ASCII decimal digits.
pub open spec fn spec_all_digits(s: Seq<char>) -> bool {
    s.len() > 0 && (forall|i: int| 0 <= i < s.len() ==> spec_is_digit(s[i]))
}

/// The value of a sequence of decimal digit characters.
pub open spec fn spec_digits_val(s: Seq<char>) -> int
    decreases s.len(),
{
    if s.len() == 0 {
        0
    } else {
        spec_digits_val(s.drop_last()) * 10 + (s.last() as int - 48)
    }
}

/// The value of the digit run `s`, if `s` is all digits and the value is at
/// most `cap`; `None` otherwise.
pub open spec fn spec_digits_capped(s: Seq<char>, cap: int) -> Option<u64> {
    if spec_all_digits(s) && spec_digits_val(s) <= cap {
        Some(spec_digits_val(s) as u64)
    } else {
        None
    }
}

/// Reads the digit run `v[from..]` as a decimal value of at most `cap`.
pub fn digits_value_capped(v: &Vec<char>, from: usize, cap: u64) -> (r: Option<u64>)
    requires
        from <= v@.len(),
        cap <= 0xffff_ffff,
    ensures
        r == spec_digits_capped(v@.skip(from as int), cap as int),
        r matches Some(x) ==> x <= cap,
{
    let ghost body = v@.skip(from as int);
    let mut acc: u64 = 0;
    let mut over = false;
    let mut i: usize = from;
    proof {
        assert(body.subrange(0, 0) =~= Seq::<char>::empty());
    }
    while i < v.len()
        invariant
            from <= i <= v@.len(),
            cap <= 0xffff_ffff,
            body == v@.skip(from as int),
            forall|j: int| 0 <= j < i - from ==> spec_is_digit(body[j]),
            !over ==> acc == spec_digits_val(body.subrange(0, i - from)) && acc <= cap,
            over ==> spec_digits_val(body.subrange(0, i - from)) > cap,
        decreases v@.len() - i,
    {
        let c = v[i];
        proof {
            assert(body[i - from] == v@[i as int]);
            assert(body.subrange(0, i + 1 - from).drop_last() =~= body.subrange(0, i - from));
            assert(body.subrange(0, i + 1 - from).last() == body[i - from]);
        }
        if c < '0' || c > '9' {
            proof {
                assert(!spec_is_digit(body[i - from]));
                assert(!spec_all_digits(body));
            }
            return None;
        }
        proof {
            assert('0' <= c && c <= '9');
            assert(48 <= c as u32 && c as u32 <= 57);
        }
        let d: u64 = (c as u32 as u64) - 48;
        if over {
            proof {
                let prev = spec_digits_val(body.subrange(0, i - from));
                assert(spec_digits_val(body.subrange(0, i + 1 - from)) == prev * 10 + (c as int
                    - 48));
                assert(prev * 10 >= prev) by (nonlinear_arith)
                    requires
                        prev > 0,
                ;
            }
        } else {
            let next = acc * 10 + d;
            if next > cap {
                over = true;
            } else {
                acc = next;
            }
        }
        i = i + 1;
    }
    proof {
        assert(body.subrange(0, body.len() as int) =~= body);
    }
    if i == from {
        proof {
            assert(body.len() == 0);
            assert(!spec_all_digits(body));
        }
        return None;
    }
    if over {
        None
    } else {
        Some(acc)
    }
}

/// `str::parse::<u32>` on `s`: an optional leading '+', then digits, value
/// at most `u32::MAX`.
pub open spec fn spec_parse_u32(s: Seq<char>) -> Option<u32> {
    let body = if s.len() > 0 && s[0] == '+' {
        s.drop_first()
    } else {
        s
    };
    match spec_digits_capped(body, 0xffff_ffff) {
        Some(x) => Some(x as u32),
        None => None,
    }
}

/// Parses an unsigned decimal number as `str::parse::<u32>` does.
pub fn parse_u32(v: &Vec<char>) -> (r: Option<u32>)
    ensures
        r == spec_parse_u32(v@),
{
    let from: usize = if v.len() > 0 && v[0] == '+' {
        1
    } else {
        0
    };
    proof {
        if v@.len() > 0 && v@[0] == '+' {
            assert(v@.skip(1) =~= v@.drop_first());
        } else {
            assert(v@.skip(0) =~= v@);
        }
    }
    match digits_value_capped(v, from, 0xffff_ffff) {
        Some(x) => Some(x as u32),
        None => None,
    }
}

/// `str::parse::<i32>` on `s`: an optional sign, then digits, value within
/// the range of `i32`.
pub open spec fn spec_parse_i32(s: Seq<char>) -> Option<i32> {
    if s.len() > 0 && s[0] == '-' {
        match spec_digits_capped(s.drop_first(), 0x8000_0000) {
            Some(x) => Some((-(x as int)) as i32),
            None => None,
        }
    } else {
        let body = if s.len() > 0 && s[0] == '+' {
            s.drop_first()
        } else {
            s
        };
        match spec_digits_capped(body, 0x7fff_ffff) {
            Some(x) => Some(x as i32),
            None => None,
        }
    }
}

/// Parses a signed decimal number as `str::parse::<i32>` does.
pub fn parse_i32(v: &Vec<char>) -> (r: Option<i32>)
    ensures
        r == spec_parse_i32(v@),
{
    if v.len() > 0 && v[0] == '-' {
        proof {
            assert(v@.skip(1) =~= v@.drop_first());
        }
        match digits_value_capped(v, 1, 0x8000_0000) {
            Some(x) => {
                if x == 0x8000_0000 {
                    proof {
                        assert((-(x as int)) as i32 == i32::MIN);
                    }
                    Some(i32::MIN)
                } else {
                    Some(-(x as i32))
                }
            },
            None => None,
        }
    } else {
        let from: usize = if v.len() > 0 && v[0] == '+' {
            1
        } else {
            0
        };
        proof {
            if v@.len() > 0 && v@[0] == '+' {
                assert(v@.skip(1) =~= v@.drop_first());
            } else {
                assert(v@.skip(0) =~= v@);
            }
        }
        match digits_value_capped(v, from, 0x7fff_ffff) {
            Some(x) => Some(x as i32),
            None => None,
        }
    }
}

} // verus!
