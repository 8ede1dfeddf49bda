//! Sequences built by concatenating what each item of a sequence contributes.
use vstd::prelude::*;

verus! {

/// What each item of `s` contributes, in order, one after another.
pub open spec fn flatten<A, B>(s: Seq<A>, f: spec_fn(A) -> Seq<B>) -> Seq<B>
    decreases s.len(),
{
    if s.len() == 0 {
        Seq::empty()
    } else {
        flatten(s.drop_last(), f) + f(s.last())
    }
}

/// Extending a prefix by one item appends that item's contribution.
pub proof fn lemma_flatten_prefix<A, B>(s: Seq<A>, i: int, f: spec_fn(A) -> Seq<B>)
    requires
        0 <= i < s.len(),
    ensures
        flatten(s.subrange(0, i + 1), f) == flatten(s.subrange(0, i), f) + f(s[i]),
{
    assert(s.subrange(0, i + 1).drop_last() =~= s.subrange(0, i));
}

pub proof fn lemma_flatten_all<A, B>(s: Seq<A>, f: spec_fn(A) -> Seq<B>)
    ensures
        flatten(s.subrange(0, s.len() as int), f) == flatten(s, f),
{
    assert(s.subrange(0, s.len() as int) =~= s);
}

/// Concatenating two sequences concatenates what their items contribute.
pub proof fn lemma_flatten_concat<A, B>(s: Seq<A>, t: Seq<A>, f: spec_fn(A) -> Seq<B>)
    ensures
        flatten(s + t, f) == flatten(s, f) + flatten(t, f),
    decreases t.len(),
{
    if t.len() == 0 {
        assert(s + t =~= s);
        assert(flatten(s, f) + flatten(t, f) =~= flatten(s, f));
    } else {
        assert((s + t).drop_last() =~= s + t.drop_last());
        assert((s + t).last() == t.last());
        lemma_flatten_concat(s, t.drop_last(), f);
        assert(flatten(s + t, f) =~= flatten(s, f) + flatten(t, f));
    }
}

} // verus!
