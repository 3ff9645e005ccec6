//! Folding a sequence with a step that may fail: the first failure ends the
//! fold and is its result.

use vstd::prelude::*;

verus! {

/// The state after `step` has been applied to each of `items` in turn,
/// starting from `init`, or the first error that a step gave.
pub open spec fn try_fold<T, S, E>(
    items: Seq<T>,
    init: S,
    step: spec_fn(S, T) -> Result<S, E>,
) -> Result<S, E>
    decreases items.len(),
{
    if items.len() == 0 {
        Ok(init)
    } else {
        match try_fold(items.drop_last(), init, step) {
            Ok(state) => step(state, items.last()),
            Err(e) => Err(e),
        }
    }
}

/// Folding one item more applies the step to the state so far.
pub proof fn lemma_try_fold_next<T, S, E>(
    items: Seq<T>,
    init: S,
    step: spec_fn(S, T) -> Result<S, E>,
    n: int,
)
    requires
        0 <= n < items.len(),
    ensures
        try_fold(items.take(n + 1), init, step) == match try_fold(items.take(n), init, step) {
            Ok(state) => step(state, items[n]),
            Err(e) => Err(e),
        },
{
    assert(items.take(n + 1).drop_last() =~= items.take(n));
}

/// An error part of the way through is the result of the whole fold.
pub proof fn lemma_try_fold_error<T, S, E>(
    items: Seq<T>,
    init: S,
    step: spec_fn(S, T) -> Result<S, E>,
    n: int,
)
    requires
        0 <= n <= items.len(),
        try_fold(items.take(n), init, step) is Err,
    ensures
        try_fold(items, init, step) == try_fold(items.take(n), init, step),
    decreases items.len() - n,
{
    if n == items.len() {
        assert(items.take(n) =~= items);
    } else {
        lemma_try_fold_next(items, init, step, n);
        lemma_try_fold_error(items, init, step, n + 1);
    }
}

} // verus!
