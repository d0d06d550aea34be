//! The page of articles that a feed's answer gives.

use vstd::prelude::*;
use crate::paginated_list::PaginatedList;

verus! {

/// The items that converted, in order.
pub open spec fn converted<T, E>(results: Seq<Result<T, E>>) -> Seq<T>
    decreases results.len(),
{
    if results.len() == 0 {
        Seq::empty()
    } else {
        match results.last() {
            Ok(t) => converted(results.drop_last()).push(t),
            Err(_) => converted(results.drop_last()),
        }
    }
}

/// One answer keeps its item exactly when it converted.
pub proof fn lemma_converted_single<T, E>(x: Result<T, E>)
    ensures
        x matches Ok(t) ==> converted(seq![x]) == seq![t],
        x is Err ==> converted(seq![x]) == Seq::<T>::empty(),
{
    let s = seq![x];
    assert(s.drop_last() =~= Seq::<Result<T, E>>::empty());
    assert(converted(s.drop_last()) =~= Seq::<T>::empty());
    match x {
        Ok(t) => {
            assert(converted(s) =~= seq![t]);
        },
        Err(_) => {
            assert(converted(s) =~= Seq::<T>::empty());
        },
    }
}

/// What two runs of answers keep, one after the other, is what their
/// concatenation keeps: nothing is lost or reordered at the seam.
pub proof fn lemma_converted_concat<T, E>(a: Seq<Result<T, E>>, b: Seq<Result<T, E>>)
    ensures
        converted(a + b) == converted(a) + converted(b),
    decreases b.len(),
{
    if b.len() == 0 {
        assert(a + b =~= a);
        assert(converted(a) + converted(b) =~= converted(a));
    } else {
        assert((a + b).drop_last() =~= a + b.drop_last());
        assert((a + b).last() == b.last());
        lemma_converted_concat(a, b.drop_last());
        match b.last() {
            Ok(t) => {
                assert(converted(a) + converted(b.drop_last()).push(t) =~= (converted(a)
                    + converted(b.drop_last())).push(t));
            },
            Err(_) => {},
        }
    }
}

/// Where every answer converted, every one is kept, in order: the i-th
/// item is the payload of the i-th answer.
pub proof fn lemma_all_converted_kept<T, E>(results: Seq<Result<T, E>>)
    requires
        forall|i: int| 0 <= i < results.len() ==> #[trigger] results[i] is Ok,
    ensures
        converted(results).len() == results.len(),
        forall|i: int|
            0 <= i < results.len() ==> results[i] == Ok::<T, E>(#[trigger] converted(results)[i]),
    decreases results.len(),
{
    if results.len() > 0 {
        let d = results.drop_last();
        assert forall|i: int| 0 <= i < d.len() implies #[trigger] d[i] is Ok by {
            assert(d[i] == results[i]);
        }
        lemma_all_converted_kept(d);
        assert(results[results.len() - 1] is Ok);
        assert forall|i: int| 0 <= i < results.len() implies results[i] == Ok::<T, E>(
            #[trigger] converted(results)[i],
        ) by {
            if i < d.len() {
                assert(d[i] == results[i]);
            }
        }
    }
}

/// The items that converted, in order, dropping those that did not.
pub fn keep_converted<T, E>(results: Vec<Result<T, E>>) -> (r: Vec<T>)
    ensures
        r@ == converted(results@),
        r@.len() <= results@.len(),
        (forall|i: int| 0 <= i < results@.len() ==> #[trigger] results@[i] is Ok) ==> (r@.len()
            == results@.len() && forall|i: int|
            0 <= i < r@.len() ==> results@[i] == Ok::<T, E>(#[trigger] r@[i])),
{
    let mut values: Vec<T> = Vec::new();
    let ghost all = results@;
    for x in it: results.into_iter()
        invariant
            it.seq() == all,
            values@ == converted(all.take(it.index() as int)),
    {
        proof {
            let k = it.index() as int;
            assert(all.take(k + 1).drop_last() =~= all.take(k));
        }
        match x {
            Ok(t) => {
                values.push(t);
            },
            Err(_) => {},
        }
    }
    assert(all.take(all.len() as int) =~= all);
    proof {
        lemma_converted_len(all);
        if forall|i: int| 0 <= i < all.len() ==> #[trigger] all[i] is Ok {
            lemma_all_converted_kept(all);
        }
    }
    values
}

/// Nothing is kept that was not answered.
proof fn lemma_converted_len<T, E>(results: Seq<Result<T, E>>)
    ensures
        converted(results).len() <= results.len(),
    decreases results.len(),
{
    if results.len() > 0 {
        lemma_converted_len(results.drop_last());
    }
}

/// A page of the items that converted, in order, dropping those that did
/// not; `per_page` items a page and `total` items in all, as the server
/// counted them.
pub fn into_paginated_list<T, E>(results: Vec<Result<T, E>>, per_page: usize, total: usize) -> (r:
    PaginatedList<T>)
    ensures
        r.values@ == converted(results@),
        (forall|i: int| 0 <= i < results@.len() ==> #[trigger] results@[i] is Ok) ==> (
        r.values@.len() == results@.len() && forall|i: int|
            0 <= i < r.values@.len() ==> results@[i] == Ok::<T, E>(#[trigger] r.values@[i])),
        r.per_page == per_page,
        r.total == total,
{
    PaginatedList { values: keep_converted(results), per_page, total }
}

} // verus!
