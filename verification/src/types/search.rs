//! The first element of a sequence that passes a test.

use vstd::prelude::*;

verus! {

/// The index of the first element of `s` that passes `test`, if any does.
pub open spec fn first_where<A>(s: Seq<A>, test: spec_fn(A) -> bool) -> Option<int>
    decreases s.len(),
{
    if s.len() == 0 {
        None
    } else if let Some(i) = first_where(s.drop_last(), test) {
        Some(i)
    } else if test(s.last()) {
        Some(s.len() - 1)
    } else {
        None
    }
}

/// What `first_where` finds is an index of an element that passes the test,
/// and no element before it does; it finds nothing only where no element
/// passes.
pub proof fn lemma_first_where_is_least<A>(s: Seq<A>, test: spec_fn(A) -> bool)
    ensures
        match first_where(s, test) {
            Some(i) => {
                &&& 0 <= i < s.len()
                &&& test(s[i])
                &&& forall|k: int| 0 <= k < i ==> !test(#[trigger] s[k])
            },
            None => forall|k: int| 0 <= k < s.len() ==> !test(#[trigger] s[k]),
        },
    decreases s.len(),
{
    if s.len() > 0 {
        lemma_first_where_is_least(s.drop_last(), test);
        assert(forall|k: int| 0 <= k < s.len() - 1 ==> s.drop_last()[k] == s[k]);
    }
}

/// The index that passes the test and has none before it that does is the
/// one that `first_where` finds.
pub proof fn lemma_least_is_first_where<A>(s: Seq<A>, test: spec_fn(A) -> bool, i: int)
    requires
        0 <= i < s.len(),
        test(s[i]),
        forall|k: int| 0 <= k < i ==> !test(#[trigger] s[k]),
    ensures
        first_where(s, test) == Some(i),
{
    lemma_first_where_is_least(s, test);
}

/// Where one of the first `n` elements passes the test, the search among
/// them finds what the search among all finds.
pub proof fn lemma_first_where_extends<A>(s: Seq<A>, test: spec_fn(A) -> bool, n: int)
    requires
        0 <= n <= s.len(),
        first_where(s.take(n), test) is Some,
    ensures
        first_where(s, test) == first_where(s.take(n), test),
    decreases s.len() - n,
{
    if n < s.len() {
        assert(s.take(n + 1).drop_last() =~= s.take(n));
        lemma_first_where_extends(s, test, n + 1);
    } else {
        assert(s.take(n) =~= s);
    }
}

/// An element is among those of `s` that pass `test` exactly if it is in
/// `s` and passes.
pub proof fn lemma_filter_membership<A>(s: Seq<A>, test: spec_fn(A) -> bool, x: A)
    ensures
        s.filter(test).contains(x) <==> s.contains(x) && test(x),
{
    if s.filter(test).contains(x) {
        s.lemma_filter_contains_rev(test, x);
    }
}

} // verus!
