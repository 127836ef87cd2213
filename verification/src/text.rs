//! Character-level text handling used by the parsers and formatters.
//!
//! Everything here works on sequences of `char`, with the meaning that the
//! corresponding `str` methods of the standard library document.

use vstd::prelude::*;

verus! {

/// Unicode `White_Space` characters, which is what `char::is_whitespace` tests.
pub open spec fn is_unicode_whitespace(c: char) -> bool {
    ||| ('\u{9}' <= c && c <= '\u{d}')
    ||| c == ' '
    ||| c == '\u{85}'
    ||| c == '\u{a0}'
    ||| c == '\u{1680}'
    ||| ('\u{2000}' <= c && c <= '\u{200a}')
    ||| c == '\u{2028}'
    ||| c == '\u{2029}'
    ||| c == '\u{202f}'
    ||| c == '\u{205f}'
    ||| c == '\u{3000}'
}

/// The characters that `char::is_ascii_whitespace` accepts.
pub open spec fn is_ascii_ws(c: char) -> bool {
    c == ' ' || c == '\t' || c == '\n' || c == '\u{c}' || c == '\r'
}

/// Whether `c` is a Unicode white-space character.
pub fn is_whitespace(c: char) -> (r: bool)
    ensures
        r == is_unicode_whitespace(c),
{
    ('\u{9}' <= c && c <= '\u{d}') || c == ' ' || c == '\u{85}' || c == '\u{a0}' || c == '\u{1680}'
        || ('\u{2000}' <= c && c <= '\u{200a}') || c == '\u{2028}' || c == '\u{2029}' || c
        == '\u{202f}' || c == '\u{205f}' || c == '\u{3000}'
}

/// Whether `c` is ASCII white space.
pub fn is_ascii_whitespace(c: char) -> (r: bool)
    ensures
        r == is_ascii_ws(c),
{
    c == ' ' || c == '\t' || c == '\n' || c == '\u{c}' || c == '\r'
}

/// Appends `c` to `s` with `String::push`, which std documents as appending the
/// character to the end of the string: the contract states exactly that.
#[verifier::external_body]
fn push_char(s: &mut String, c: char)
    ensures
        final(s)@ == old(s)@.push(c),
{
    s.push(c);
}

/// The characters of `s`, in order.
pub fn chars_of(s: &str) -> (r: Vec<char>)
    ensures
        r@ == s@,
{
    let mut r: Vec<char> = Vec::new();
    for c in it: s.chars()
        invariant
            r@ == it.seq().take(it.index() as int),
            it.seq() == s@,
    {
        r.push(c);
    }
    r
}

/// A `String` holding exactly the characters of `v`.
pub fn string_of(v: &[char]) -> (r: String)
    ensures
        r@ == v@,
{
    let mut r = String::new();
    let mut i: usize = 0;
    while i < v.len()
        invariant
            i <= v.len(),
            r@ == v@.take(i as int),
        decreases v.len() - i,
    {
        push_char(&mut r, v[i]);
        i += 1;
    }
    r
}

/// The characters of `v` from index `from` up to (not including) `to`.
pub fn slice_chars(v: &[char], from: usize, to: usize) -> (r: Vec<char>)
    requires
        from <= to <= v.len(),
    ensures
        r@ == v@.subrange(from as int, to as int),
{
    let mut r: Vec<char> = Vec::new();
    let mut i = from;
    while i < to
        invariant
            from <= i <= to <= v.len(),
            r@ == v@.subrange(from as int, i as int),
        decreases to - i,
    {
        r.push(v[i]);
        i += 1;
    }
    r
}

// ---------------------------------------------------------------------------
// Trimming
// ---------------------------------------------------------------------------

/// `s` without its leading white space.
pub open spec fn trim_start_ws(s: Seq<char>) -> Seq<char>
    decreases s.len(),
{
    if s.len() > 0 && is_unicode_whitespace(s[0]) {
        trim_start_ws(s.drop_first())
    } else {
        s
    }
}

/// `s` without its trailing white space.
pub open spec fn trim_end_ws(s: Seq<char>) -> Seq<char>
    decreases s.len(),
{
    if s.len() > 0 && is_unicode_whitespace(s.last()) {
        trim_end_ws(s.drop_last())
    } else {
        s
    }
}

/// `s` without leading and trailing white space, as `str::trim` gives it.
pub open spec fn trim_ws(s: Seq<char>) -> Seq<char> {
    trim_end_ws(trim_start_ws(s))
}

proof fn lemma_trim_start_skip(s: Seq<char>, i: int)
    requires
        0 <= i <= s.len(),
        forall|j: int| 0 <= j < i ==> is_unicode_whitespace(#[trigger] s[j]),
    ensures
        trim_start_ws(s) == trim_start_ws(s.skip(i)),
    decreases i,
{
    if i > 0 {
        assert(s.drop_first().skip(i - 1) =~= s.skip(i));
        lemma_trim_start_skip(s.drop_first(), i - 1);
    } else {
        assert(s.skip(0) =~= s);
    }
}

proof fn lemma_trim_end_take(s: Seq<char>, i: int)
    requires
        0 <= i <= s.len(),
        forall|j: int| i <= j < s.len() ==> is_unicode_whitespace(#[trigger] s[j]),
    ensures
        trim_end_ws(s) == trim_end_ws(s.take(i)),
    decreases s.len() - i,
{
    if i < s.len() {
        assert(s.drop_last().take(i) =~= s.take(i));
        lemma_trim_end_take(s.drop_last(), i);
    } else {
        assert(s.take(i) =~= s);
    }
}

/// `s` without leading and trailing white space.
pub fn trim(s: &[char]) -> (r: Vec<char>)
    ensures
        r@ == trim_ws(s@),
{
    let mut start: usize = 0;
    while start < s.len() && is_whitespace(s[start])
        invariant
            start <= s.len(),
            forall|j: int| 0 <= j < start ==> is_unicode_whitespace(#[trigger] s@[j]),
        decreases s.len() - start,
    {
        start += 1;
    }
    proof {
        lemma_trim_start_skip(s@, start as int);
    }
    let ghost t = s@.skip(start as int);
    let mut end: usize = s.len();
    while end > start && is_whitespace(s[end - 1])
        invariant
            start <= end <= s.len(),
            t == s@.skip(start as int),
            forall|j: int| end - start <= j < t.len() ==> is_unicode_whitespace(#[trigger] t[j]),
        decreases end,
    {
        end -= 1;
    }
    proof {
        lemma_trim_end_take(t, end - start);
        assert(t.take(end - start) =~= s@.subrange(start as int, end as int));
    }
    slice_chars(s, start, end)
}

// ---------------------------------------------------------------------------
// Splitting
// ---------------------------------------------------------------------------

/// The character sequences that a list of character vectors holds.
pub open spec fn vviews(v: Seq<Vec<char>>) -> Seq<Seq<char>> {
    Seq::new(v.len(), |i: int| v[i]@)
}

/// What separates the pieces of a split.
#[derive(Clone, Copy, Debug, PartialEq, Eq)]
pub enum Sep {
    /// One given character.
    Char(char),
    /// Any ASCII white-space character.
    AsciiWhitespace,
}

/// Whether `c` separates pieces under `sep`.
pub open spec fn separates(sep: Sep, c: char) -> bool {
    match sep {
        Sep::Char(x) => c == x,
        Sep::AsciiWhitespace => is_ascii_ws(c),
    }
}

fn is_separator(sep: Sep, c: char) -> (r: bool)
    ensures
        r == separates(sep, c),
{
    match sep {
        Sep::Char(x) => c == x,
        Sep::AsciiWhitespace => is_ascii_whitespace(c),
    }
}

/// The pieces of `s` between separators, empty pieces included, as `str::split` yields them.
pub open spec fn split_by(s: Seq<char>, sep: Sep) -> Seq<Seq<char>>
    decreases s.len(),
{
    if s.len() == 0 {
        seq![Seq::<char>::empty()]
    } else {
        let r = split_by(s.drop_last(), sep);
        if separates(sep, s.last()) {
            r.push(Seq::<char>::empty())
        } else {
            r.update(r.len() - 1, r.last().push(s.last()))
        }
    }
}

/// A split always yields at least one piece.
pub proof fn lemma_split_by_nonempty(s: Seq<char>, sep: Sep)
    ensures
        split_by(s, sep).len() >= 1,
    decreases s.len(),
{
    if s.len() > 0 {
        lemma_split_by_nonempty(s.drop_last(), sep);
    }
}

/// The pieces of `s` between separators.
pub fn split(s: &[char], sep: Sep) -> (r: Vec<Vec<char>>)
    ensures
        vviews(r@) == split_by(s@, sep),
{
    let mut done: Vec<Vec<char>> = Vec::new();
    let mut cur: Vec<char> = Vec::new();
    let mut i: usize = 0;
    while i < s.len()
        invariant
            i <= s.len(),
            split_by(s@.take(i as int), sep) == vviews(done@).push(cur@),
        decreases s.len() - i,
    {
        let ghost prev = s@.take(i as int);
        assert(s@.take(i + 1).drop_last() =~= prev);
        proof {
            lemma_split_by_nonempty(prev, sep);
        }
        if is_separator(sep, s[i]) {
            done.push(cur);
            cur = Vec::new();
            assert(vviews(done@).push(cur@) =~= split_by(prev, sep).push(Seq::<char>::empty()));
        } else {
            let ghost old_cur = cur@;
            cur.push(s[i]);
            assert(vviews(done@).push(cur@) =~= split_by(prev, sep).update(
                split_by(prev, sep).len() - 1,
                old_cur.push(s[i as int]),
            ));
        }
        i += 1;
    }
    assert(s@.take(s.len() as int) =~= s@);
    done.push(cur);
    done
}

/// The pieces of `ws` that are not empty, in order.
pub open spec fn nonempty_only(ws: Seq<Seq<char>>) -> Seq<Seq<char>>
    decreases ws.len(),
{
    if ws.len() == 0 {
        ws
    } else {
        let r = nonempty_only(ws.drop_last());
        if ws.last().len() > 0 {
            r.push(ws.last())
        } else {
            r
        }
    }
}

/// The white-space separated words of `s`, as `str::split_ascii_whitespace` yields them.
pub open spec fn words_of(s: Seq<char>) -> Seq<Seq<char>> {
    nonempty_only(split_by(s, Sep::AsciiWhitespace))
}

/// The ASCII white-space separated words of `s`.
pub fn words(s: &[char]) -> (r: Vec<Vec<char>>)
    ensures
        vviews(r@) == words_of(s@),
{
    let pieces = split(s, Sep::AsciiWhitespace);
    let mut r: Vec<Vec<char>> = Vec::new();
    let mut i: usize = 0;
    while i < pieces.len()
        invariant
            i <= pieces.len(),
            vviews(pieces@) == split_by(s@, Sep::AsciiWhitespace),
            vviews(r@) == nonempty_only(vviews(pieces@).take(i as int)),
        decreases pieces.len() - i,
    {
        assert(vviews(pieces@).take(i + 1).drop_last() =~= vviews(pieces@).take(i as int));
        if pieces[i].len() > 0 {
            let w = slice_chars(pieces[i].as_slice(), 0, pieces[i].len());
            assert(w@ =~= vviews(pieces@)[i as int]);
            r.push(w);
            assert(vviews(r@) =~= nonempty_only(vviews(pieces@).take(i as int)).push(w@));
        }
        i += 1;
    }
    assert(vviews(pieces@).take(pieces.len() as int) =~= vviews(pieces@));
    r
}

/// A line without its trailing carriage return.
pub open spec fn strip_cr(l: Seq<char>) -> Seq<char> {
    if l.len() > 0 && l.last() == '\r' {
        l.drop_last()
    } else {
        l
    }
}

/// The lines of `s`, as `str::lines` yields them: split at `\n`, a `\r` right before
/// a `\n` dropped, and no empty line after a final `\n`.
pub open spec fn lines_of(s: Seq<char>) -> Seq<Seq<char>> {
    if s.len() == 0 {
        Seq::empty()
    } else {
        let p = split_by(s, Sep::Char('\n'));
        let q = Seq::new((p.len() - 1) as nat, |i: int| strip_cr(p[i]));
        if s.last() == '\n' {
            q
        } else {
            q.push(p.last())
        }
    }
}

fn strip_cr_copy(l: &Vec<char>) -> (r: Vec<char>)
    ensures
        r@ == strip_cr(l@),
{
    if l.len() > 0 && l[l.len() - 1] == '\r' {
        slice_chars(l.as_slice(), 0, l.len() - 1)
    } else {
        slice_chars(l.as_slice(), 0, l.len())
    }
}

/// The lines of `s`.
pub fn lines(s: &[char]) -> (r: Vec<Vec<char>>)
    ensures
        vviews(r@) == lines_of(s@),
{
    let mut r: Vec<Vec<char>> = Vec::new();
    if s.len() == 0 {
        assert(vviews(r@) =~= lines_of(s@));
        return r;
    }
    let pieces = split(s, Sep::Char('\n'));
    proof {
        lemma_split_by_nonempty(s@, Sep::Char('\n'));
    }
    let ghost p = vviews(pieces@);
    let n = pieces.len() - 1;
    let mut i: usize = 0;
    while i < n
        invariant
            n + 1 == pieces.len(),
            i <= n,
            p == vviews(pieces@),
            vviews(r@) =~= Seq::new(i as nat, |j: int| strip_cr(p[j])),
        decreases n - i,
    {
        let l = strip_cr_copy(&pieces[i]);
        assert(l@ == strip_cr(p[i as int]));
        let ghost before = vviews(r@);
        r.push(l);
        assert(vviews(r@) =~= before.push(l@));
        i += 1;
        assert(vviews(r@) =~= Seq::new(i as nat, |j: int| strip_cr(p[j])));
    }
    if s[s.len() - 1] != '\n' {
        let last = slice_chars(pieces[n].as_slice(), 0, pieces[n].len());
        assert(last@ == p.last());
        let ghost before = vviews(r@);
        r.push(last);
        assert(vviews(r@) =~= before.push(last@));
    }
    assert(vviews(r@) =~= lines_of(s@));
    r
}

/// `ws` joined with `c` between neighbours, as `join` on a list of strings gives it.
pub open spec fn join_with(ws: Seq<Seq<char>>, c: char) -> Seq<char>
    decreases ws.len(),
{
    if ws.len() == 0 {
        Seq::empty()
    } else if ws.len() == 1 {
        ws[0]
    } else {
        join_with(ws.drop_last(), c).push(c) + ws.last()
    }
}

/// `ws[from..]` joined with `c` between neighbours.
pub fn join_from(ws: &Vec<Vec<char>>, from: usize, c: char) -> (r: Vec<char>)
    requires
        from <= ws.len(),
    ensures
        r@ == join_with(vviews(ws@).skip(from as int), c),
{
    let mut r: Vec<char> = Vec::new();
    let mut i = from;
    while i < ws.len()
        invariant
            from <= i <= ws.len(),
            r@ == join_with(vviews(ws@).subrange(from as int, i as int), c),
        decreases ws.len() - i,
    {
        let ghost before = r@;
        if i > from {
            r.push(c);
        }
        let w = &ws[i];
        let mut k: usize = 0;
        while k < w.len()
            invariant
                k <= w.len(),
                r@ == (if i > from { before.push(c) } else { before }) + w@.take(k as int),
            decreases w.len() - k,
        {
            r.push(w[k]);
            k += 1;
            assert(w@.take(k as int) =~= w@.take(k - 1).push(w@[k - 1]));
        }
        assert(w@.take(w.len() as int) =~= w@);
        let ghost sub = vviews(ws@).subrange(from as int, i + 1);
        assert(sub.drop_last() =~= vviews(ws@).subrange(from as int, i as int));
        assert(sub.last() == w@);
        if i == from {
            assert(r@ =~= join_with(sub, c));
        } else {
            assert(r@ =~= join_with(sub, c));
        }
        i += 1;
    }
    assert(vviews(ws@).subrange(from as int, ws.len() as int) =~= vviews(ws@).skip(
        from as int,
    ));
    r
}

// ---------------------------------------------------------------------------
// Prefixes, suffixes and patterns
// ---------------------------------------------------------------------------

/// Whether `s` begins with `p`.
pub open spec fn has_prefix(s: Seq<char>, p: Seq<char>) -> bool {
    p.len() <= s.len() && s.take(p.len() as int) == p
}

/// Whether `s` ends with `p`.
pub open spec fn has_suffix(s: Seq<char>, p: Seq<char>) -> bool {
    p.len() <= s.len() && s.skip(s.len() - p.len()) == p
}

/// Whether `p` occurs in `s` starting at `i`.
pub fn occurs_at(s: &[char], p: &[char], i: usize) -> (r: bool)
    requires
        i <= s.len(),
    ensures
        r == has_prefix(s@.skip(i as int), p@),
{
    if p.len() > s.len() - i {
        return false;
    }
    let mut k: usize = 0;
    while k < p.len()
        invariant
            k <= p.len(),
            i + p.len() <= s.len(),
            forall|j: int| 0 <= j < k ==> s@[i + j] == p@[j],
        decreases p.len() - k,
    {
        if s[i + k] != p[k] {
            assert(s@.skip(i as int).take(p.len() as int)[k as int] != p@[k as int]);
            return false;
        }
        k += 1;
    }
    assert(s@.skip(i as int).take(p.len() as int) =~= p@);
    true
}

/// Whether `s` begins with `p`.
pub fn starts_with(s: &[char], p: &[char]) -> (r: bool)
    ensures
        r == has_prefix(s@, p@),
{
    assert(s@.skip(0) =~= s@);
    occurs_at(s, p, 0)
}

/// Whether `p` occurs anywhere in `s`.
pub open spec fn has_infix(s: Seq<char>, p: Seq<char>) -> bool {
    exists|i: int| 0 <= i <= s.len() && #[trigger] has_prefix(s.skip(i), p)
}

/// Whether `p` occurs anywhere in `s`, as `str::contains` tests.
pub fn contains(s: &[char], p: &[char]) -> (r: bool)
    ensures
        r == has_infix(s@, p@),
{
    let mut i: usize = 0;
    loop
        invariant
            i <= s.len(),
            forall|j: int| 0 <= j < i ==> !#[trigger] has_prefix(s@.skip(j), p@),
        decreases s.len() - i,
    {
        if occurs_at(s, p, i) {
            return true;
        }
        if i == s.len() {
            return false;
        }
        i += 1;
    }
}

/// `s` with every leading repetition of `p` removed, as `str::trim_start_matches` gives it.
pub open spec fn trim_start_matches(s: Seq<char>, p: Seq<char>) -> Seq<char>
    decreases s.len(),
{
    if p.len() > 0 && has_prefix(s, p) {
        trim_start_matches(s.skip(p.len() as int), p)
    } else {
        s
    }
}

/// `s` with every trailing repetition of `p` removed, as `str::trim_end_matches` gives it.
pub open spec fn trim_end_matches(s: Seq<char>, p: Seq<char>) -> Seq<char>
    decreases s.len(),
{
    if p.len() > 0 && has_suffix(s, p) {
        trim_end_matches(s.take(s.len() - p.len()), p)
    } else {
        s
    }
}

/// `s` with every leading repetition of `p` removed.
pub fn strip_leading(s: &[char], p: &[char]) -> (r: Vec<char>)
    ensures
        r@ == trim_start_matches(s@, p@),
{
    if p.len() == 0 {
        return slice_chars(s, 0, s.len());
    }
    let mut i: usize = 0;
    assert(s@.skip(0) =~= s@);
    while occurs_at(s, p, i)
        invariant
            i <= s.len(),
            p.len() > 0,
            trim_start_matches(s@, p@) == trim_start_matches(s@.skip(i as int), p@),
        decreases s.len() - i,
    {
        assert(s@.skip(i as int).skip(p.len() as int) =~= s@.skip(i + p.len()));
        i += p.len();
    }
    assert(s@.skip(i as int) =~= s@.subrange(i as int, s.len() as int));
    slice_chars(s, i, s.len())
}

/// Whether `p` occurs in `s` ending right at `end`.
fn occurs_ending_at(s: &[char], p: &[char], end: usize) -> (r: bool)
    requires
        end <= s.len(),
    ensures
        r == has_suffix(s@.take(end as int), p@),
{
    if p.len() > end {
        return false;
    }
    let start = end - p.len();
    let r = occurs_at(s, p, start);
    assert(s@.take(end as int).skip(start as int) =~= s@.skip(start as int).take(p.len() as int));
    assert(s@.skip(start as int).take(p.len() as int) =~= s@.skip(start as int).take(
        p.len() as int,
    ));
    r
}

/// `s` with every trailing repetition of `p` removed.
pub fn strip_trailing(s: &[char], p: &[char]) -> (r: Vec<char>)
    ensures
        r@ == trim_end_matches(s@, p@),
{
    if p.len() == 0 {
        return slice_chars(s, 0, s.len());
    }
    let mut end: usize = s.len();
    assert(s@.take(s.len() as int) =~= s@);
    while occurs_ending_at(s, p, end)
        invariant
            end <= s.len(),
            p.len() > 0,
            trim_end_matches(s@, p@) == trim_end_matches(s@.take(end as int), p@),
        decreases end,
    {
        assert(s@.take(end as int).take(end - p.len()) =~= s@.take(end - p.len()));
        end -= p.len();
    }
    assert(s@.take(end as int) =~= s@.subrange(0, end as int));
    slice_chars(s, 0, end)
}

/// The part of `s` before the first occurrence of `p`, or all of `s`:
/// the first item that `str::split` yields for a pattern string.
pub open spec fn before_pattern(s: Seq<char>, p: Seq<char>) -> Seq<char>
    decreases s.len(),
{
    if has_prefix(s, p) || s.len() == 0 {
        Seq::empty()
    } else {
        seq![s[0]] + before_pattern(s.drop_first(), p)
    }
}

/// The part of `s` before the first occurrence of `p`, for a non-empty `p`.
pub fn prefix_before(s: &[char], p: &[char]) -> (r: Vec<char>)
    ensures
        r@ == before_pattern(s@, p@),
{
    let mut i: usize = 0;
    assert(s@.skip(0) =~= s@);
    while i < s.len() && !occurs_at(s, p, i)
        invariant
            i <= s.len(),
            before_pattern(s@, p@) == s@.take(i as int) + before_pattern(s@.skip(i as int), p@),
        decreases s.len() - i,
    {
        assert(s@.skip(i as int).drop_first() =~= s@.skip(i + 1));
        assert(s@.take(i + 1) =~= s@.take(i as int) + seq![s@[i as int]]);
        i += 1;
    }
    assert(s@.take(i as int) =~= s@.subrange(0, i as int));
    slice_chars(s, 0, i)
}

} // verus!

verus! {

/// Whether `a` and `b` hold the same characters.
pub fn same_chars(a: &[char], b: &[char]) -> (r: bool)
    ensures
        r == (a@ == b@),
{
    if a.len() != b.len() {
        return false;
    }
    let r = starts_with(a, b);
    assert(a@.take(b.len() as int) =~= a@);
    r
}

} // verus!

verus! {

/// Appends the characters of `w` to `v`.
pub fn push_all(v: &mut Vec<char>, w: &[char])
    ensures
        final(v)@ == old(v)@ + w@,
{
    let mut i: usize = 0;
    while i < w.len()
        invariant
            i <= w.len(),
            v@ == old(v)@ + w@.take(i as int),
        decreases w.len() - i,
    {
        v.push(w[i]);
        i += 1;
        assert(w@.take(i as int) =~= w@.take(i - 1).push(w@[i - 1]));
    }
    assert(w@.take(w.len() as int) =~= w@);
}

/// Appends the characters of `w` to `v`.
pub fn push_str(v: &mut Vec<char>, w: &str)
    ensures
        final(v)@ == old(v)@ + w@,
{
    let c = chars_of(w);
    push_all(v, c.as_slice());
}

} // verus!
