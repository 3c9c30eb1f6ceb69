//! Mapping a step that can fail over a sequence.

use vstd::prelude::*;
use crate::error::GenErrorView;

verus! {

/// The results of a step on each item, in order; the error of the first item
/// on which the step fails.
pub open spec fn try_map<A, B>(items: Seq<A>, step: spec_fn(A) -> Result<B, GenErrorView>) -> Result<
    Seq<B>,
    GenErrorView,
>
    decreases items.len(),
{
    if items.len() == 0 {
        Ok(Seq::empty())
    } else {
        match try_map(items.drop_last(), step) {
            Err(error) => Err(error),
            Ok(done) => match step(items.last()) {
                Err(error) => Err(error),
                Ok(result) => Ok(done.push(result)),
            },
        }
    }
}

/// Mapping over no items gives no results.
pub proof fn lemma_try_map_start<A, B>(items: Seq<A>, step: spec_fn(A) -> Result<B, GenErrorView>)
    ensures
        try_map(items.take(0), step) == Ok::<Seq<B>, GenErrorView>(Seq::empty()),
{
    assert(items.take(0).len() == 0);
}

/// Mapping over one more item adds that item's result to those before, or
/// fails where it fails.
pub proof fn lemma_try_map_step<A, B>(
    items: Seq<A>,
    step: spec_fn(A) -> Result<B, GenErrorView>,
    i: int,
)
    requires
        0 <= i < items.len(),
    ensures
        try_map(items.take(i + 1), step) == (match try_map(items.take(i), step) {
            Err(error) => Err(error),
            Ok(done) => match step(items[i]) {
                Err(error) => Err(error),
                Ok(result) => Ok(done.push(result)),
            },
        }),
{
    assert(items.take(i + 1).drop_last() == items.take(i));
    assert(items.take(i + 1).last() == items[i]);
}

/// A failure among the first `n` items is the failure of the whole.
pub proof fn lemma_try_map_error<A, B>(
    items: Seq<A>,
    step: spec_fn(A) -> Result<B, GenErrorView>,
    n: int,
)
    requires
        0 <= n <= items.len(),
        try_map(items.take(n), step) is Err,
    ensures
        try_map(items, step) == try_map(items.take(n), step),
    decreases items.len() - n,
{
    if n < items.len() {
        lemma_try_map_step(items, step, n);
        lemma_try_map_error(items, step, n + 1);
    } else {
        assert(items.take(n) == items);
    }
}

/// Where the mapping succeeds, there is one result for each item, and it is
/// the step's result on that item.
pub proof fn lemma_try_map_ok<A, B>(items: Seq<A>, step: spec_fn(A) -> Result<B, GenErrorView>)
    requires
        try_map(items, step) is Ok,
    ensures
        try_map(items, step)->Ok_0.len() == items.len(),
        forall|i: int|
            0 <= i < items.len() ==> step(#[trigger] items[i]) == Ok::<B, GenErrorView>(
                try_map(items, step)->Ok_0[i],
            ),
    decreases items.len(),
{
    if items.len() > 0 {
        lemma_try_map_ok(items.drop_last(), step);
        let done = try_map(items.drop_last(), step)->Ok_0;
        assert forall|i: int| 0 <= i < items.len() implies step(#[trigger] items[i]) == Ok::<
            B,
            GenErrorView,
        >(try_map(items, step)->Ok_0[i]) by {
            if i < items.len() - 1 {
                assert(items.drop_last()[i] == items[i]);
            }
        }
    }
}

/// Where the step fails on an item, the mapping fails.
pub proof fn lemma_try_map_fails<A, B>(
    items: Seq<A>,
    step: spec_fn(A) -> Result<B, GenErrorView>,
    i: int,
)
    requires
        0 <= i < items.len(),
        step(items[i]) is Err,
    ensures
        try_map(items, step) is Err,
{
    if try_map(items, step) is Ok {
        lemma_try_map_ok(items, step);
    }
}

} // verus!
