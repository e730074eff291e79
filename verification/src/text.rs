//! Substring containment over character sequences: the vocabulary for saying
//! which names and sources a rendered manifest block mentions.

use vstd::prelude::*;

verus! {

/// `needle` occurs contiguously somewhere in `hay`.
pub open spec fn contains_seq(hay: Seq<char>, needle: Seq<char>) -> bool {
    exists|k: int|
        0 <= k && k + needle.len() <= hay.len() && #[trigger] hay.subrange(k, k + needle.len())
            == needle
}

/// Every sequence contains itself.
pub proof fn lemma_contains_self(s: Seq<char>)
    ensures
        contains_seq(s, s),
{
    let k: int = 0;
    assert(s.subrange(k, k + s.len()) =~= s);
}

/// Containment survives appending on the right.
pub proof fn lemma_contains_concat_left(a: Seq<char>, b: Seq<char>, x: Seq<char>)
    requires
        contains_seq(a, x),
    ensures
        contains_seq(a + b, x),
{
    let k = choose|k: int| 0 <= k && k + x.len() <= a.len() && #[trigger] a.subrange(k, k + x.len()) == x;
    assert((a + b).subrange(k, k + x.len()) =~= a.subrange(k, k + x.len()));
}

/// Containment survives prepending on the left.
pub proof fn lemma_contains_concat_right(a: Seq<char>, b: Seq<char>, x: Seq<char>)
    requires
        contains_seq(b, x),
    ensures
        contains_seq(a + b, x),
{
    let k = choose|k: int| 0 <= k && k + x.len() <= b.len() && #[trigger] b.subrange(k, k + x.len()) == x;
    assert((a + b).subrange(a.len() + k, a.len() + k + x.len()) =~= b.subrange(k, k + x.len()));
}

/// Containment is transitive through an intermediate piece of text.
pub proof fn lemma_contains_trans(hay: Seq<char>, mid: Seq<char>, x: Seq<char>)
    requires
        contains_seq(hay, mid),
        contains_seq(mid, x),
    ensures
        contains_seq(hay, x),
{
    let k1 = choose|k: int|
        0 <= k && k + mid.len() <= hay.len() && #[trigger] hay.subrange(k, k + mid.len()) == mid;
    let k2 = choose|k: int| 0 <= k && k + x.len() <= mid.len() && #[trigger] mid.subrange(k, k + x.len()) == x;
    assert(hay.subrange(k1 + k2, k1 + k2 + x.len()) =~= mid.subrange(k2, k2 + x.len()));
}

} // verus!
