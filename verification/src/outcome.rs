//! Results over sequences: mapping a fallible step over every item, first
//! failure first.

use crate::error::Error;
use vstd::prelude::*;

verus! {

/// The mathematical value of a result: that of what it holds, or the error.
pub open spec fn result_view<T: DeepView>(result: Result<T, Error>) -> Result<T::V, Error> {
    match result {
        Ok(value) => Ok(value.deep_view()),
        Err(error) => Err(error),
    }
}

/// `step` applied to each of `items` in order: all the results where every
/// step succeeds, else the error of the first step that fails.
pub open spec fn try_map<A, B>(items: Seq<A>, step: spec_fn(A) -> Result<B, Error>) -> Result<
    Seq<B>,
    Error,
>
    decreases items.len(),
{
    if items.len() == 0 {
        Ok(Seq::empty())
    } else {
        match try_map(items.drop_last(), step) {
            Err(error) => Err(error),
            Ok(done) => match step(items.last()) {
                Err(error) => Err(error),
                Ok(value) => Ok(done.push(value)),
            },
        }
    }
}

/// One more item: the results so far and the new one, or the first error.
pub proof fn lemma_try_map_step<A, B>(
    items: Seq<A>,
    step: spec_fn(A) -> Result<B, Error>,
    done: int,
)
    requires
        0 <= done < items.len(),
    ensures
        try_map(items.take(done + 1), step) == match try_map(items.take(done), step) {
            Err(error) => Err::<Seq<B>, Error>(error),
            Ok(values) => match step(items[done]) {
                Err(error) => Err(error),
                Ok(value) => Ok(values.push(value)),
            },
        },
{
    assert(items.take(done + 1).drop_last() =~= items.take(done));
}

/// A failure among the first items is the failure of the whole.
pub proof fn lemma_try_map_fails<A, B>(
    items: Seq<A>,
    step: spec_fn(A) -> Result<B, Error>,
    done: int,
)
    requires
        0 <= done <= items.len(),
        try_map(items.take(done), step) is Err,
    ensures
        try_map(items, step) == try_map(items.take(done), step),
    decreases items.len() - done,
{
    if done == items.len() {
        assert(items.take(done) =~= items);
    } else {
        lemma_try_map_step(items, step, done);
        lemma_try_map_fails(items, step, done + 1);
    }
}

/// Success means that every step succeeded, and the results stand in the
/// order of the items; failure means that the first failing step gave the error.
pub proof fn lemma_try_map_result<A, B>(items: Seq<A>, step: spec_fn(A) -> Result<B, Error>)
    ensures
        match try_map(items, step) {
            Ok(values) => {
                &&& values.len() == items.len()
                &&& forall|i: int|
                    0 <= i < items.len() ==> step(#[trigger] items[i]) == Ok::<B, Error>(values[i])
            },
            Err(error) => exists|first: int|
                {
                    &&& 0 <= first < items.len()
                    &&& step(#[trigger] items[first]) == Err::<B, Error>(error)
                    &&& forall|i: int| 0 <= i < first ==> step(#[trigger] items[i]) is Ok
                },
        },
    decreases items.len(),
{
    if items.len() > 0 {
        let front = items.drop_last();
        lemma_try_map_result(front, step);
        match try_map(front, step) {
            Ok(values) => {
                assert forall|i: int| 0 <= i < front.len() implies front[i] == items[i] by {}
                match step(items.last()) {
                    Ok(value) => {
                        let all = values.push(value);
                        assert forall|i: int| 0 <= i < items.len() implies step(
                            #[trigger] items[i],
                        ) == Ok::<B, Error>(all[i]) by {
                            if i < front.len() {
                                assert(front[i] == items[i]);
                            }
                        }
                    },
                    Err(error) => {
                        let first = items.len() - 1;
                        assert forall|i: int| 0 <= i < first implies step(
                            #[trigger] items[i],
                        ) is Ok by {
                            assert(front[i] == items[i]);
                        }
                        assert(step(items[first]) == Err::<B, Error>(error));
                    },
                }
            },
            Err(error) => {
                let first = choose|first: int|
                    {
                        &&& 0 <= first < front.len()
                        &&& step(#[trigger] front[first]) == Err::<B, Error>(error)
                        &&& forall|i: int| 0 <= i < first ==> step(#[trigger] front[i]) is Ok
                    };
                assert(front[first] == items[first]);
                assert forall|i: int| 0 <= i < first implies step(#[trigger] items[i]) is Ok by {
                    assert(front[i] == items[i]);
                }
            },
        }
    }
}

/// `step` applied to a state and each of `items` in order: the last state
/// where every step succeeds, else the error of the first step that fails.
pub open spec fn try_fold<A, S>(
    items: Seq<A>,
    start: S,
    step: spec_fn(S, A) -> Result<S, Error>,
) -> Result<S, Error>
    decreases items.len(),
{
    if items.len() == 0 {
        Ok(start)
    } else {
        match try_fold(items.drop_last(), start, step) {
            Err(error) => Err(error),
            Ok(state) => step(state, items.last()),
        }
    }
}

/// One more item: the step from the state so far, or the first error.
pub proof fn lemma_try_fold_step<A, S>(
    items: Seq<A>,
    start: S,
    step: spec_fn(S, A) -> Result<S, Error>,
    done: int,
)
    requires
        0 <= done < items.len(),
    ensures
        try_fold(items.take(done + 1), start, step) == match try_fold(
            items.take(done),
            start,
            step,
        ) {
            Err(error) => Err::<S, Error>(error),
            Ok(state) => step(state, items[done]),
        },
{
    assert(items.take(done + 1).drop_last() =~= items.take(done));
}

/// A failure among the first items is the failure of the whole.
pub proof fn lemma_try_fold_fails<A, S>(
    items: Seq<A>,
    start: S,
    step: spec_fn(S, A) -> Result<S, Error>,
    done: int,
)
    requires
        0 <= done <= items.len(),
        try_fold(items.take(done), start, step) is Err,
    ensures
        try_fold(items, start, step) == try_fold(items.take(done), start, step),
    decreases items.len() - done,
{
    if done == items.len() {
        assert(items.take(done) =~= items);
    } else {
        lemma_try_fold_step(items, start, step, done);
        lemma_try_fold_fails(items, start, step, done + 1);
    }
}

} // verus!
