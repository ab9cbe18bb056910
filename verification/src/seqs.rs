//! Facts about sequences that grow by one element, for loops that build them.

use vstd::prelude::*;

verus! {

/// A prefix grown by one element.
pub proof fn lemma_take_push<A>(s: Seq<A>, i: int)
    requires
        0 <= i < s.len(),
    ensures
        s.take(i + 1) == s.take(i).push(s[i]),
{
}

/// Mapping a sequence that grew by one element.
pub proof fn lemma_map_push<A, B>(s: Seq<A>, x: A, f: spec_fn(A) -> B)
    ensures
        s.push(x).map_values(f) == s.map_values(f).push(f(x)),
{
    assert(s.push(x).map_values(f) == s.map_values(f).push(f(x)));
}

/// Filtering a sequence that grew by one element.
pub proof fn lemma_filter_push<A>(s: Seq<A>, x: A, keep: spec_fn(A) -> bool)
    ensures
        s.push(x).filter(keep) == if keep(x) {
            s.filter(keep).push(x)
        } else {
            s.filter(keep)
        },
{
    reveal(Seq::filter);
    assert(s.push(x).drop_last() == s);
}

/// Filtering and mapping a sequence that grew by one element.
pub proof fn lemma_filter_map_push<A, B>(
    s: Seq<A>,
    x: A,
    keep: spec_fn(A) -> bool,
    f: spec_fn(A) -> B,
)
    ensures
        s.push(x).filter(keep).map_values(f) == if keep(x) {
            s.filter(keep).map_values(f).push(f(x))
        } else {
            s.filter(keep).map_values(f)
        },
{
    lemma_filter_push(s, x, keep);
    if keep(x) {
        lemma_map_push(s.filter(keep), x, f);
    }
}

} // verus!
