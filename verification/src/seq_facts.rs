//! Facts about filtering a sequence that the proofs on the list draw on.

use vstd::prelude::*;

verus! {

/// Filtering a sequence with one more element at its end.
pub proof fn filter_of_push<A>(s: Seq<A>, last: A, p: spec_fn(A) -> bool)
    ensures
        s.push(last).filter(p) == if p(last) {
            s.filter(p).push(last)
        } else {
            s.filter(p)
        },
{
    reveal(Seq::filter);
    assert(s.push(last).drop_last() == s);
}

/// Two tests that agree on every element of a sequence filter it alike.
pub proof fn filter_by_agreeing_tests<A>(s: Seq<A>, p: spec_fn(A) -> bool, q: spec_fn(A) -> bool)
    requires
        forall|i: int| 0 <= i < s.len() ==> p(#[trigger] s[i]) == q(s[i]),
    ensures
        s.filter(p) == s.filter(q),
    decreases s.len(),
{
    if s.len() > 0 {
        let front = s.drop_last();
        assert(front.push(s.last()) == s);
        filter_by_agreeing_tests(front, p, q);
        filter_of_push(front, s.last(), p);
        filter_of_push(front, s.last(), q);
    }
}

/// A test that every element passes filters nothing out.
pub proof fn filter_keeps_all<A>(s: Seq<A>, p: spec_fn(A) -> bool)
    requires
        forall|i: int| 0 <= i < s.len() ==> p(#[trigger] s[i]),
    ensures
        s.filter(p) == s,
    decreases s.len(),
{
    if s.len() > 0 {
        let front = s.drop_last();
        assert(front.push(s.last()) == s);
        filter_keeps_all(front, p);
        filter_of_push(front, s.last(), p);
    }
}

/// Filtering twice is filtering once by both tests.
pub proof fn filter_twice<A>(s: Seq<A>, p: spec_fn(A) -> bool, q: spec_fn(A) -> bool)
    ensures
        s.filter(p).filter(q) == s.filter(|x: A| p(x) && q(x)),
    decreases s.len(),
{
    let both = |x: A| p(x) && q(x);
    if s.len() > 0 {
        let front = s.drop_last();
        assert(front.push(s.last()) == s);
        filter_twice(front, p, q);
        filter_of_push(front, s.last(), p);
        filter_of_push(front, s.last(), both);
        filter_of_push(front.filter(p), s.last(), q);
    }
}

/// Filtering after a map is mapping after filtering by the test on the
/// mapped value.
pub proof fn filter_of_map<A, B>(s: Seq<A>, f: spec_fn(A) -> B, q: spec_fn(B) -> bool)
    ensures
        s.map_values(f).filter(q) == s.filter(|x: A| q(f(x))).map_values(f),
    decreases s.len(),
{
    let through = |x: A| q(f(x));
    if s.len() > 0 {
        let front = s.drop_last();
        let last = s.last();
        assert(front.push(last) == s);
        filter_of_map(front, f, q);
        filter_of_push(front, last, through);
        assert(s.map_values(f) == front.map_values(f).push(f(last)));
        filter_of_push(front.map_values(f), f(last), q);
    }
}

} // verus!
