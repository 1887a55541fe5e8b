//! Character-level helpers shared by the codec: conversion between strings
//! and character vectors, whitespace classification, trimming and splitting.
//!
//! Every function works on whole sequences of `char`, so that the contracts
//! can be stated over `Seq<char>`, the view of `str` and `String`.

use vstd::prelude::*;

verus! {

/// The characters of `s`, in order.
pub fn chars_of(s: &str) -> (v: Vec<char>)
    ensures
        v@ == s@,
{
    let mut v: Vec<char> = Vec::new();
    for c in it: s.chars()
        invariant
            it.seq() == s@,
            v@ == s@.take(it.index()),
    {
        v.push(c);
    }
    v
}

/// The string made of the characters of `v`, in order.
pub fn string_of(v: &Vec<char>) -> (s: String)
    ensures
        s@ == v@,
{
    let mut s = String::new();
    let mut i: usize = 0;
    while i < v.len()
        invariant
            i <= v.len(),
            s@ == v@.take(i as int),
        decreases v.len() - i,
    {
        s.push(v[i]);
        i += 1;
    }
    s
}

/// The views of a vector of character vectors, element by element.
pub open spec fn views(v: Seq<Vec<char>>) -> Seq<Seq<char>> {
    v.map_values(|x: Vec<char>| x@)
}

/// Whether `c` is a Unicode white space character: the space, the controls
/// U+0009 to U+000D, and the separators U+0085, U+00A0, U+1680, U+2000 to
/// U+200A, U+2028, U+2029, U+202F, U+205F and U+3000.
pub open spec fn whitespace(c: char) -> bool {
    let n: u32 = c as u32;
    ||| n == 0x20
    ||| 0x09 <= n <= 0x0d
    ||| n == 0x85
    ||| n == 0xa0
    ||| n == 0x1680
    ||| 0x2000 <= n <= 0x200a
    ||| n == 0x2028
    ||| n == 0x2029
    ||| n == 0x202f
    ||| n == 0x205f
    ||| n == 0x3000
}

/// Tells whether `c` is a white space character.
pub fn is_whitespace(c: char) -> (b: bool)
    ensures
        b == whitespace(c),
{
    let n: u32 = c as u32;
    n == 0x20 || (0x09 <= n && n <= 0x0d) || n == 0x85 || n == 0xa0 || n == 0x1680 || (0x2000 <= n
        && n <= 0x200a) || n == 0x2028 || n == 0x2029 || n == 0x202f || n == 0x205f || n == 0x3000
}

/// `s` without its leading white space.
pub open spec fn trimmed_start(s: Seq<char>) -> Seq<char>
    decreases s.len(),
{
    if s.len() > 0 && whitespace(s.first()) {
        trimmed_start(s.drop_first())
    } else {
        s
    }
}

/// `s` without its trailing white space.
pub open spec fn trimmed_end(s: Seq<char>) -> Seq<char>
    decreases s.len(),
{
    if s.len() > 0 && whitespace(s.last()) {
        trimmed_end(s.drop_last())
    } else {
        s
    }
}

/// `s` without its leading and trailing white space.
pub open spec fn trimmed(s: Seq<char>) -> Seq<char> {
    trimmed_end(trimmed_start(s))
}

/// Trimming takes characters away at the two ends only: what is left is the
/// part of `s` from `bounds.0` up to `bounds.1`.
pub proof fn lemma_trimmed_is_part(s: Seq<char>) -> (bounds: (int, int))
    ensures
        0 <= bounds.0 <= bounds.1 <= s.len(),
        trimmed(s) == s.subrange(bounds.0, bounds.1),
{
    let a = lemma_trimmed_start_is_suffix(s);
    let len = lemma_trimmed_end_is_prefix(s.skip(a));
    (a, a + len)
}

/// `trimmed_start(s)` is `s` without its first `a` characters.
proof fn lemma_trimmed_start_is_suffix(s: Seq<char>) -> (a: int)
    ensures
        0 <= a <= s.len(),
        trimmed_start(s) == s.skip(a),
    decreases s.len(),
{
    if s.len() > 0 && whitespace(s.first()) {
        lemma_trimmed_start_is_suffix(s.drop_first()) + 1
    } else {
        0
    }
}

/// `trimmed_end(s)` is made of the first `len` characters of `s`.
proof fn lemma_trimmed_end_is_prefix(s: Seq<char>) -> (len: int)
    ensures
        0 <= len <= s.len(),
        trimmed_end(s) == s.take(len),
    decreases s.len(),
{
    if s.len() > 0 && whitespace(s.last()) {
        lemma_trimmed_end_is_prefix(s.drop_last())
    } else {
        s.len() as int
    }
}

/// A sequence that neither begins nor ends with white space is left as it
/// is, and one white space character after it is taken away again.
pub proof fn lemma_trimmed_exact(s: Seq<char>, c: char)
    requires
        s.len() > 0,
        !whitespace(s.first()),
        !whitespace(s.last()),
        whitespace(c),
    ensures
        trimmed(s) == s,
        trimmed(s.push(c)) == s,
{
    assert(s.push(c).drop_last() == s);
}

/// What trimming leaves neither begins nor ends with white space.
pub proof fn lemma_trimmed_ends(s: Seq<char>)
    ensures
        trimmed(s).len() > 0 ==> !whitespace(trimmed(s).first()) && !whitespace(
            trimmed(s).last(),
        ),
{
    lemma_trimmed_start_stops(s);
    lemma_trimmed_end_is_prefix(trimmed_start(s));
    lemma_trimmed_end_stops(trimmed_start(s));
}

/// A single white space character is trimmed to nothing.
pub proof fn lemma_trimmed_blank(c: char)
    requires
        whitespace(c),
    ensures
        trimmed(seq![c]) == Seq::<char>::empty(),
{
    let rest = seq![c].drop_first();
    assert(trimmed_start(rest) == rest);
}

/// `trimmed_start(s)` is empty or begins with a character that is not white
/// space.
proof fn lemma_trimmed_start_stops(s: Seq<char>)
    ensures
        trimmed_start(s).len() > 0 ==> !whitespace(trimmed_start(s).first()),
    decreases s.len(),
{
    if s.len() > 0 && whitespace(s.first()) {
        lemma_trimmed_start_stops(s.drop_first());
    }
}

/// `trimmed_end(s)` is empty or ends with a character that is not white
/// space.
proof fn lemma_trimmed_end_stops(s: Seq<char>)
    ensures
        trimmed_end(s).len() > 0 ==> !whitespace(trimmed_end(s).last()),
    decreases s.len(),
{
    if s.len() > 0 && whitespace(s.last()) {
        lemma_trimmed_end_stops(s.drop_last());
    }
}

/// Removes the leading and trailing white space of `s`.
pub fn trim(s: &Vec<char>) -> (t: Vec<char>)
    ensures
        t@ == trimmed(s@),
{
    let mut a: usize = 0;
    assert(s@.skip(0) == s@);
    while a < s.len() && is_whitespace(s[a])
        invariant
            a <= s.len(),
            trimmed_start(s@) == trimmed_start(s@.skip(a as int)),
        decreases s.len() - a,
    {
        assert(s@.skip(a as int).drop_first() == s@.skip(a + 1));
        a += 1;
    }
    let mut b: usize = s.len();
    while b > a && is_whitespace(s[b - 1])
        invariant
            a <= b <= s.len(),
            trimmed(s@) == trimmed_end(s@.subrange(a as int, b as int)),
        decreases b,
    {
        assert(s@.subrange(a as int, b as int).drop_last() == s@.subrange(a as int, b - 1));
        b -= 1;
    }
    let mut t: Vec<char> = Vec::new();
    let mut i: usize = a;
    while i < b
        invariant
            a <= i <= b <= s.len(),
            t@ == s@.subrange(a as int, i as int),
        decreases b - i,
    {
        t.push(s[i]);
        i += 1;
    }
    t
}

/// The pieces of `s` between the occurrences of `sep`. There is one piece
/// more than there are separators: a separator at either end, or two in a
/// row, give an empty piece.
pub open spec fn pieces(s: Seq<char>, sep: char) -> Seq<Seq<char>>
    decreases s.len(),
{
    if s.len() == 0 {
        seq![Seq::<char>::empty()]
    } else {
        let before = pieces(s.drop_last(), sep);
        if s.last() == sep {
            before.push(Seq::<char>::empty())
        } else {
            before.drop_last().push(before.last().push(s.last()))
        }
    }
}

/// A sequence always splits into at least one piece.
pub proof fn lemma_pieces_nonempty(s: Seq<char>, sep: char)
    ensures
        pieces(s, sep).len() >= 1,
    decreases s.len(),
{
    if s.len() > 0 {
        lemma_pieces_nonempty(s.drop_last(), sep);
    }
}

/// Characters other than the separator, put after `s`, lengthen the last
/// piece of `s` and leave the pieces before it as they are.
pub proof fn lemma_pieces_extend(s: Seq<char>, more: Seq<char>, sep: char)
    requires
        forall|i: int| 0 <= i < more.len() ==> more[i] != sep,
    ensures
        pieces(s + more, sep) == pieces(s, sep).drop_last().push(pieces(s, sep).last() + more),
    decreases more.len(),
{
    let parts = pieces(s, sep);
    lemma_pieces_nonempty(s, sep);
    if more.len() > 0 {
        let shorter = more.drop_last();
        lemma_pieces_extend(s, shorter, sep);
        assert((s + more).drop_last() == s + shorter);
        assert((parts.last() + shorter).push(more.last()) == parts.last() + more);
    }
}

/// Splits `s` at every occurrence of `sep`.
pub fn split_on(s: &Vec<char>, sep: char) -> (parts: Vec<Vec<char>>)
    ensures
        views(parts@) == pieces(s@, sep),
{
    let mut parts: Vec<Vec<char>> = Vec::new();
    let mut current: Vec<char> = Vec::new();
    let mut i: usize = 0;
    while i < s.len()
        invariant
            i <= s.len(),
            views(parts@).push(current@) == pieces(s@.take(i as int), sep),
        decreases s.len() - i,
    {
        let c = s[i];
        assert(s@.take(i + 1).drop_last() == s@.take(i as int));
        if c == sep {
            parts.push(current);
            current = Vec::new();
        } else {
            current.push(c);
        }
        i += 1;
    }
    assert(s@.take(s@.len() as int) == s@);
    parts.push(current);
    parts
}

/// The maximal runs of characters of `s` that are not white space, in
/// order. None of them is empty.
pub open spec fn tokens(s: Seq<char>) -> Seq<Seq<char>>
    decreases s.len(),
{
    if s.len() == 0 {
        Seq::<Seq<char>>::empty()
    } else {
        let before = tokens(s.drop_last());
        if whitespace(s.last()) {
            before
        } else if s.len() >= 2 && !whitespace(s[s.len() - 2]) {
            before.drop_last().push(before.last().push(s.last()))
        } else {
            before.push(seq![s.last()])
        }
    }
}

/// A run of characters that are not white space, put after a sequence that
/// is empty or ends with white space, is one more token.
pub proof fn lemma_tokens_extend(s: Seq<char>, more: Seq<char>)
    requires
        s.len() == 0 || whitespace(s.last()),
        more.len() > 0,
        forall|i: int| 0 <= i < more.len() ==> !whitespace(more[i]),
    ensures
        tokens(s + more) == tokens(s).push(more),
    decreases more.len(),
{
    let whole = s + more;
    if more.len() == 1 {
        assert(whole.drop_last() == s);
        assert(seq![whole.last()] == more);
    } else {
        let shorter = more.drop_last();
        lemma_tokens_extend(s, shorter);
        assert(whole.drop_last() == s + shorter);
        assert(shorter.push(whole.last()) == more);
    }
}

/// Splits `s` at white space into its tokens.
pub fn split_whitespace(s: &Vec<char>) -> (parts: Vec<Vec<char>>)
    ensures
        views(parts@) == tokens(s@),
{
    let mut parts: Vec<Vec<char>> = Vec::new();
    let mut current: Vec<char> = Vec::new();
    let mut i: usize = 0;
    while i < s.len()
        invariant
            i <= s.len(),
            current@.len() > 0 ==> i > 0 && !whitespace(s@[i - 1]) && views(parts@).push(current@)
                == tokens(s@.take(i as int)),
            current@.len() == 0 ==> (i == 0 || whitespace(s@[i - 1])) && views(parts@) == tokens(
                s@.take(i as int),
            ),
        decreases s.len() - i,
    {
        let c = s[i];
        assert(s@.take(i + 1).drop_last() == s@.take(i as int));
        if is_whitespace(c) {
            if current.len() > 0 {
                parts.push(current);
                current = Vec::new();
            }
        } else {
            current.push(c);
            assert(current@.len() == 1 ==> current@ == seq![c]);
        }
        i += 1;
    }
    assert(s@.take(s@.len() as int) == s@);
    if current.len() > 0 {
        parts.push(current);
    }
    parts
}

/// Appends the characters of `more` to `out`.
pub fn append(out: &mut Vec<char>, more: &Vec<char>)
    ensures
        final(out)@ == old(out)@ + more@,
{
    let mut i: usize = 0;
    while i < more.len()
        invariant
            i <= more.len(),
            out@ == old(out)@ + more@.take(i as int),
        decreases more.len() - i,
    {
        out.push(more[i]);
        i += 1;
    }
}

} // verus!
