use vstd::prelude::*;

use crate::error::MockError;

verus! {

/// The views of the items of a sequence, in order.
pub open spec fn views<T: View>(s: Seq<T>) -> Seq<T::V> {
    Seq::new(s.len(), |i: int| s[i]@)
}

/// The view of what an option holds.
pub open spec fn opt_view<T: View>(o: Option<T>) -> Option<T::V> {
    match o {
        Some(x) => Some(x@),
        None => None,
    }
}

/// The view of what a result holds on success; the error as it is.
pub open spec fn res_view<T: View>(r: Result<T, MockError>) -> Result<T::V, MockError> {
    match r {
        Ok(x) => Ok(x@),
        Err(e) => Err(e),
    }
}

/// The views of the items that a result holds on success; the error as it
/// is.
pub open spec fn res_views<T: View>(r: Result<Vec<T>, MockError>) -> Result<Seq<T::V>, MockError> {
    match r {
        Ok(v) => Ok(views(v@)),
        Err(e) => Err(e),
    }
}

/// Applies `f` to every item of `s` in order. The first failure is the
/// result; without one, the results in order.
pub open spec fn try_map<A, B>(
    s: Seq<A>,
    f: spec_fn(A) -> Result<B, MockError>,
) -> Result<Seq<B>, MockError>
    decreases s.len(),
{
    if s.len() == 0 {
        Ok(Seq::empty())
    } else {
        match try_map(s.drop_last(), f) {
            Err(e) => Err(e),
            Ok(done) => match f(s.last()) {
                Err(e) => Err(e),
                Ok(b) => Ok(done.push(b)),
            },
        }
    }
}

/// The index of the first item of `s` that satisfies `p`, if there is one.
pub open spec fn first_where<A>(s: Seq<A>, p: spec_fn(A) -> bool) -> Option<int>
    decreases s.len(),
{
    if s.len() == 0 {
        None
    } else {
        match first_where(s.drop_last(), p) {
            Some(i) => Some(i),
            None => if p(s.last()) {
                Some(s.len() - 1)
            } else {
                None
            },
        }
    }
}

/// One more item behind a prefix: how `try_map` goes on.
pub proof fn lemma_try_map_step<A, B>(
    s: Seq<A>,
    f: spec_fn(A) -> Result<B, MockError>,
    i: int,
)
    requires
        0 <= i < s.len(),
    ensures
        try_map(s.take(i + 1), f) == match try_map(s.take(i), f) {
            Err(e) => Err(e),
            Ok(done) => match f(s[i]) {
                Err(e) => Err(e),
                Ok(b) => Ok(done.push(b)),
            },
        },
        s.take(s.len() as int) == s,
        try_map(s.take(0), f) == Ok::<Seq<B>, MockError>(Seq::empty()),
{
    assert(s.take(i + 1).drop_last() =~= s.take(i));
    assert(s.take(i + 1).last() == s[i]);
    assert(s.take(s.len() as int) =~= s);
}

/// What a successful `try_map` holds: one result for each item, in order.
pub proof fn lemma_try_map_ok<A, B>(s: Seq<A>, f: spec_fn(A) -> Result<B, MockError>)
    ensures
        try_map(s, f) matches Ok(out) ==> {
            &&& out.len() == s.len()
            &&& forall|i: int| 0 <= i < s.len() ==> f(#[trigger] s[i]) == Ok::<B, MockError>(out[i])
        },
        (forall|i: int| 0 <= i < s.len() ==> (#[trigger] f(s[i])) is Ok) ==> try_map(s, f) is Ok,
    decreases s.len(),
{
    if s.len() > 0 {
        lemma_try_map_ok(s.drop_last(), f);
        if forall|i: int| 0 <= i < s.len() ==> (#[trigger] f(s[i])) is Ok {
            assert forall|i: int| 0 <= i < s.drop_last().len() implies (#[trigger] f(
                s.drop_last()[i],
            )) is Ok by {
                assert(s.drop_last()[i] == s[i]);
            }
            assert(f(s[s.len() - 1]) is Ok);
        }
        if let Ok(out) = try_map(s, f) {
            let done = try_map(s.drop_last(), f)->Ok_0;
            assert forall|i: int| 0 <= i < s.len() implies f(#[trigger] s[i]) == Ok::<B, MockError>(
                out[i],
            ) by {
                if i < s.len() - 1 {
                    assert(s.drop_last()[i] == s[i]);
                }
            }
        }
    }
}

/// One more item behind a prefix: how `first_where` goes on.
pub proof fn lemma_first_where_step<A>(s: Seq<A>, p: spec_fn(A) -> bool, i: int)
    requires
        0 <= i < s.len(),
    ensures
        first_where(s.take(i + 1), p) == match first_where(s.take(i), p) {
            Some(k) => Some(k),
            None => if p(s[i]) {
                Some(i)
            } else {
                None
            },
        },
        s.take(s.len() as int) == s,
        first_where(s.take(0), p) == None::<int>,
{
    assert(s.take(i + 1).drop_last() =~= s.take(i));
    assert(s.take(i + 1).last() == s[i]);
    assert(s.take(s.len() as int) =~= s);
}

/// What `first_where` finds: an item that satisfies `p`, with none before it.
pub proof fn lemma_first_where<A>(s: Seq<A>, p: spec_fn(A) -> bool)
    ensures
        match first_where(s, p) {
            Some(k) => 0 <= k < s.len() && p(s[k]) && forall|j: int| 0 <= j < k ==> !p(#[trigger] s[j]),
            None => forall|j: int| 0 <= j < s.len() ==> !p(#[trigger] s[j]),
        },
    decreases s.len(),
{
    if s.len() > 0 {
        lemma_first_where(s.drop_last(), p);
        assert forall|j: int| 0 <= j < s.len() - 1 implies s.drop_last()[j] == s[j] by {}
        match first_where(s.drop_last(), p) {
            Some(k) => {
                assert(s.drop_last()[k] == s[k]);
                assert forall|j: int| 0 <= j < k implies !p(#[trigger] s[j]) by {
                    assert(s.drop_last()[j] == s[j]);
                }
            },
            None => {
                assert forall|j: int| 0 <= j < s.len() - 1 implies !p(#[trigger] s[j]) by {
                    assert(s.drop_last()[j] == s[j]);
                }
            },
        }
    }
}

/// A failure within a prefix is the failure of the whole.
pub proof fn lemma_try_map_fails<A, B>(s: Seq<A>, f: spec_fn(A) -> Result<B, MockError>, k: int)
    requires
        0 <= k <= s.len(),
        try_map(s.take(k), f) is Err,
    ensures
        try_map(s, f) == try_map(s.take(k), f),
    decreases s.len() - k,
{
    if k < s.len() {
        lemma_try_map_step(s, f, k);
        lemma_try_map_fails(s, f, k + 1);
    } else {
        assert(s.take(k) =~= s);
    }
}

/// What is found within a prefix is what is found in the whole.
pub proof fn lemma_first_where_found<A>(s: Seq<A>, p: spec_fn(A) -> bool, k: int)
    requires
        0 <= k <= s.len(),
        first_where(s.take(k), p) is Some,
    ensures
        first_where(s, p) == first_where(s.take(k), p),
    decreases s.len() - k,
{
    if k < s.len() {
        lemma_first_where_step(s, p, k);
        lemma_first_where_found(s, p, k + 1);
    } else {
        assert(s.take(k) =~= s);
    }
}

/// One more item behind a prefix: how a filter goes on.
pub proof fn lemma_filter_step<A>(s: Seq<A>, p: spec_fn(A) -> bool, i: int)
    requires
        0 <= i < s.len(),
    ensures
        s.take(i + 1).filter(p) == if p(s[i]) {
            s.take(i).filter(p).push(s[i])
        } else {
            s.take(i).filter(p)
        },
        s.take(s.len() as int) == s,
{
    reveal_with_fuel(Seq::filter, 2);
    assert(s.take(i + 1).drop_last() =~= s.take(i));
    assert(s.take(i + 1).last() == s[i]);
    assert(s.take(s.len() as int) =~= s);
}

/// Nothing is kept of an empty prefix.
pub proof fn lemma_filter_start<A>(s: Seq<A>, p: spec_fn(A) -> bool)
    ensures
        s.take(0).filter(p) == Seq::<A>::empty(),
{
    reveal_with_fuel(Seq::filter, 2);
    assert(s.take(0).filter(p) =~= Seq::<A>::empty());
}

/// The views of a sequence with one more item.
pub proof fn lemma_views_push<T: View>(s: Seq<T>, x: T)
    ensures
        views(s.push(x)) == views(s).push(x@),
{
    assert(views(s.push(x)) =~= views(s).push(x@));
}

/// An empty sequence has no views.
pub proof fn lemma_views_empty<T: View>()
    ensures
        views(Seq::<T>::empty()) == Seq::<T::V>::empty(),
{
    assert(views(Seq::<T>::empty()) =~= Seq::<T::V>::empty());
}

} // verus!
