//! Contiguous containment of one character sequence in another, and the
//! facts about it that the prompt laws rest on.

use vstd::prelude::*;

verus! {

/// `needle` stands in `hay` at offset `at`.
pub open spec fn occurs_at(hay: Seq<char>, needle: Seq<char>, at: int) -> bool {
    &&& 0 <= at
    &&& at + needle.len() <= hay.len()
    &&& hay.subrange(at, at + needle.len()) == needle
}

/// `needle` is a contiguous part of `hay`.
pub open spec fn contains(hay: Seq<char>, needle: Seq<char>) -> bool {
    exists|at: int| occurs_at(hay, needle, at)
}

/// No element of `s` is `c`.
pub open spec fn free_of(s: Seq<char>, c: char) -> bool {
    forall|i: int| 0 <= i < s.len() ==> s[i] != c
}

/// The middle of a concatenation of three stands right after the first part.
pub proof fn lemma_occurs_between(left: Seq<char>, mid: Seq<char>, right: Seq<char>)
    ensures
        occurs_at(left + mid + right, mid, left.len() as int),
        contains(left + mid + right, mid),
{
    let whole = left + mid + right;
    assert(whole.subrange(left.len() as int, left.len() as int + mid.len()) =~= mid);
    assert(occurs_at(whole, mid, left.len() as int));
}

/// A sequence contains its own suffix.
pub proof fn lemma_contains_suffix(left: Seq<char>, tail: Seq<char>)
    ensures
        contains(left + tail, tail),
{
    let whole = left + tail;
    assert(whole.subrange(left.len() as int, left.len() as int + tail.len()) =~= tail);
    assert(occurs_at(whole, tail, left.len() as int));
}

/// Containment is transitive.
pub proof fn lemma_contains_transitive(outer: Seq<char>, middle: Seq<char>, inner: Seq<char>)
    requires
        contains(outer, middle),
        contains(middle, inner),
    ensures
        contains(outer, inner),
{
    let a = choose|at: int| occurs_at(outer, middle, at);
    let b = choose|at: int| occurs_at(middle, inner, at);
    assert(outer.subrange(a + b, a + b + inner.len()) =~= outer.subrange(
        a,
        a + middle.len(),
    ).subrange(b, b + inner.len()));
    assert(occurs_at(outer, inner, a + b));
}

/// What one part of a concatenation contains, the whole contains.
pub proof fn lemma_contains_in_part(
    left: Seq<char>,
    mid: Seq<char>,
    right: Seq<char>,
    needle: Seq<char>,
)
    requires
        contains(mid, needle),
    ensures
        contains(left + mid + right, needle),
{
    lemma_occurs_between(left, mid, right);
    lemma_contains_transitive(left + mid + right, mid, needle);
}

/// An occurrence of a sequence that is free of `c` covers no position that
/// holds `c`.
pub proof fn lemma_occurrence_avoids(
    hay: Seq<char>,
    needle: Seq<char>,
    at: int,
    pos: int,
    c: char,
)
    requires
        occurs_at(hay, needle, at),
        free_of(needle, c),
        0 <= pos < hay.len(),
        hay[pos] == c,
    ensures
        pos < at || at + needle.len() <= pos,
{
    if at <= pos < at + needle.len() {
        assert(hay.subrange(at, at + needle.len())[pos - at] == hay[pos]);
        assert(needle[pos - at] == c);
    }
}

/// An occurrence in a concatenation that lies within the bounds of the middle
/// part is an occurrence in that part.
pub proof fn lemma_occurrence_within(
    left: Seq<char>,
    mid: Seq<char>,
    right: Seq<char>,
    needle: Seq<char>,
    at: int,
)
    requires
        occurs_at(left + mid + right, needle, at),
        left.len() <= at,
        at + needle.len() <= left.len() + mid.len(),
    ensures
        occurs_at(mid, needle, at - left.len()),
        contains(mid, needle),
{
    let whole = left + mid + right;
    let off = at - left.len();
    assert(mid.subrange(off, off + needle.len()) =~= whole.subrange(at, at + needle.len()));
    assert(occurs_at(mid, needle, off));
}

} // verus!
