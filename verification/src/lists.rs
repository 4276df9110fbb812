//! What a filter finds in a list, part by part.

use vstd::prelude::*;

verus! {

/// One element more adds what is found in it.
pub(crate) proof fn filter_map_push<A, B>(s: Seq<A>, a: A, f: spec_fn(A) -> Option<B>)
    ensures
        s.push(a).filter_map(f) == (match f(a) {
            Some(b) => s.filter_map(f).push(b),
            None => s.filter_map(f),
        }),
{
    assert(s.push(a).drop_last() == s);
    if let Some(b) = f(a) {
        assert(s.filter_map(f) + seq![b] == s.filter_map(f).push(b));
    }
}

/// In two lists, one after the other, is found what is found in each.
pub(crate) proof fn filter_map_add<A, B>(s: Seq<A>, t: Seq<A>, f: spec_fn(A) -> Option<B>)
    ensures
        (s + t).filter_map(f) == s.filter_map(f) + t.filter_map(f),
    decreases t.len(),
{
    if t.len() == 0 {
        assert(s + t == s);
        assert(s.filter_map(f) + t.filter_map(f) == s.filter_map(f));
    } else {
        filter_map_add(s, t.drop_last(), f);
        assert((s + t).drop_last() == s + t.drop_last());
    }
}

/// What is found in one element, as a list.
pub(crate) open spec fn at_most_one<B>(b: Option<B>) -> Seq<B> {
    match b {
        Some(b) => seq![b],
        None => seq![],
    }
}

/// What is found in the elements up to the one at `i`, one after the other.
pub(crate) open spec fn found_up_to<A, B>(s: Seq<A>, i: int, f: spec_fn(A) -> Option<B>) -> Seq<B>
    decreases i,
{
    if i <= 0 {
        at_most_one(f(s[0]))
    } else {
        found_up_to(s, i - 1, f) + at_most_one(f(s[i]))
    }
}

/// In the first elements of a list is found what is found in each of them.
pub(crate) proof fn filter_map_by_element<A, B>(s: Seq<A>, n: int, f: spec_fn(A) -> Option<B>)
    requires
        0 < n <= s.len(),
    ensures
        s.take(n).filter_map(f) == found_up_to(s, n - 1, f),
        n == s.len() ==> s.filter_map(f) == found_up_to(s, n - 1, f),
    decreases n,
{
    filter_map_push(s.take(n - 1), s[n - 1], f);
    assert(s.take(n) == s.take(n - 1).push(s[n - 1]));
    if n > 1 {
        filter_map_by_element(s, n - 1, f);
    }
    if n == s.len() {
        assert(s.take(n) == s);
    }
}

/// Where nothing is found in any element, nothing is found at all.
pub(crate) proof fn filter_map_of_none<A, B>(s: Seq<A>, f: spec_fn(A) -> Option<B>)
    requires
        forall|i: int| 0 <= i < s.len() ==> f(#[trigger] s[i]) is None,
    ensures
        s.filter_map(f) == Seq::<B>::empty(),
    decreases s.len(),
{
    if s.len() > 0 {
        filter_map_of_none(s.drop_last(), f);
    }
}

/// What is found in the first elements comes first in what is found in all.
pub(crate) proof fn filter_map_grows<A, B>(s: Seq<A>, n: int, f: spec_fn(A) -> Option<B>)
    requires
        0 <= n <= s.len(),
    ensures
        s.take(n).filter_map(f).len() <= s.filter_map(f).len(),
        s.filter_map(f).take(s.take(n).filter_map(f).len() as int) == s.take(n).filter_map(f),
    decreases s.len(),
{
    if n == s.len() {
        assert(s.take(n) == s);
    } else {
        filter_map_grows(s.drop_last(), n, f);
        assert(s.drop_last().take(n) == s.take(n));
        let shorter = s.drop_last().filter_map(f);
        let k = s.take(n).filter_map(f).len() as int;
        assert(s.filter_map(f).take(k) == shorter.take(k));
    }
}

} // verus!
