//! What holds of duplication, stated over the views of the wrappers involved.
//!
//! Each law takes the wrappers and outcomes it speaks of as parameters, and
//! asks of them only what the duplication protocol gives: that one
//! `duplicates_to` another.

use vstd::prelude::*;
use crate::event::Event;
use crate::traced::{lemma_forgiving_goes_through, lemma_run_behind, permits, CloneError, TrView};

verus! {

/// Every outcome of a duplication is one of two: a duplicate that asks the
/// same hooks as the wrapper it came from and is not suspended, or the refusal, which
/// comes only to a wrapper that was not suspended and whose hook is not
/// known to permit.
pub proof fn law_outcome_shape<T: Clone>(this: TrView<T>, outcome: Result<TrView<T>, CloneError>)
    requires
        this.duplicates_to(outcome),
    ensures
        match outcome {
            Ok(duplicate) => {
                &&& !duplicate.suspended
                &&& duplicate.on_cloning == this.on_cloning
                &&& duplicate.on_cloned == this.on_cloned
            },
            Err(error) => {
                &&& error == CloneError::Unforgiven
                &&& !this.suspended
                &&& this.on_cloning.fixed_answer() != Some(true)
            },
        },
{
    let run = lemma_run_behind(this, outcome);
    assert(outcome == this.conclude(run.left, permits(run.asked)));
}

/// When both hooks are fixed answers, duplication is decided by the
/// wrapper alone: it goes through exactly when the answer permits or the
/// wrapper is suspended, and the duplicate then holds a copy of the payload.
pub proof fn law_fixed_hooks_decide<T: Clone>(
    this: TrView<T>,
    outcome: Result<TrView<T>, CloneError>,
)
    requires
        this.on_cloning.fixed_answer() is Some,
        this.on_cloned.fixed_answer() is Some,
        this.duplicates_to(outcome),
    ensures
        outcome is Ok <==> (this.on_cloning.fixed_answer() == Some(true) || this.suspended),
        outcome matches Ok(duplicate) ==> cloned(this.payload, duplicate.payload),
{
    let run = lemma_run_behind(this, outcome);
    assert(run.left == run.copy);
    assert(run.asked == this.on_cloning.fixed_answer());
}

/// A wrapper fresh from `new` can be duplicated: the first duplication is
/// forgiven, and the duplicate holds a copy of the value wrapped.
pub proof fn law_fresh_wrapper_duplicates<T: Clone>(
    value: T,
    this: TrView<T>,
    outcome: Result<TrView<T>, CloneError>,
)
    requires
        this == TrView::fresh(value),
        this.duplicates_to(outcome),
    ensures
        outcome is Ok,
        outcome matches Ok(duplicate) ==> cloned(value, duplicate.payload),
{
    Event::<T, bool>::lemma_fixed_answer(false);
    Event::<T, ()>::lemma_fixed_answer(());
    law_fixed_hooks_decide(this, outcome);
}

/// The duplicate of a fresh wrapper cannot itself be duplicated: nothing
/// forgave that second duplication, and the hook denies it.
pub proof fn law_unforgiven_duplication_refused<T: Clone>(
    value: T,
    this: TrView<T>,
    first: TrView<T>,
    second: Result<TrView<T>, CloneError>,
)
    requires
        this == TrView::fresh(value),
        this.duplicates_to(Ok(first)),
        first.duplicates_to(second),
    ensures
        second == Err::<TrView<T>, CloneError>(CloneError::Unforgiven),
{
    Event::<T, bool>::lemma_fixed_answer(false);
    Event::<T, ()>::lemma_fixed_answer(());
    law_outcome_shape(this, Ok(first));
    law_fixed_hooks_decide(first, second);
    law_outcome_shape(first, second);
}

/// A suspended wrapper is duplicated whatever its hook says, and the
/// duplicate is not suspended. Where the hook denies, what was forgiven is
/// that one duplication: the duplicate cannot be duplicated in turn.
pub proof fn law_suspension_forgives<T: Clone>(
    this: TrView<T>,
    outcome: Result<TrView<T>, CloneError>,
    next: Result<TrView<T>, CloneError>,
)
    requires
        this.suspend().duplicates_to(outcome),
        outcome matches Ok(duplicate) ==> duplicate.duplicates_to(next),
    ensures
        outcome is Ok,
        outcome matches Ok(duplicate) ==> !duplicate.suspended,
        this.on_cloning.fixed_answer() == Some(false) ==> next is Err,
{
    lemma_forgiving_goes_through(this.suspend(), outcome);
    law_outcome_shape(this.suspend(), outcome);
    let duplicate = outcome->Ok_0;
    if this.on_cloning.fixed_answer() == Some(false) {
        let run = lemma_run_behind(duplicate, next);
        assert(!permits(run.asked));
    }
}

/// Resuming takes the forgiveness back: after `suspend` and `resume`, a
/// wrapper whose hook denies is not duplicated.
pub proof fn law_resume_undoes_suspend<T: Clone>(
    this: TrView<T>,
    outcome: Result<TrView<T>, CloneError>,
)
    requires
        this.on_cloning.fixed_answer() == Some(false),
        this.suspend().resume().duplicates_to(outcome),
    ensures
        outcome == Err::<TrView<T>, CloneError>(CloneError::Unforgiven),
{
    let after = this.suspend().resume();
    let run = lemma_run_behind(after, outcome);
    assert(!permits(run.asked));
}

/// Silent duplication suspends, duplicates, and resumes a wrapper that was
/// not suspended before. It goes through whatever the hooks are, and the
/// wrapper is afterwards exactly what it was.
pub proof fn law_silent_duplication<T: Clone>(
    this: TrView<T>,
    outcome: Result<TrView<T>, CloneError>,
)
    requires
        this.suspend().duplicates_to(outcome),
    ensures
        outcome is Ok,
        this == if this.suspended {
            this.suspend()
        } else {
            this.suspend().resume()
        },
{
    lemma_forgiving_goes_through(this.suspend(), outcome);
}

/// Hooks are handed down, not copied: along a line of duplications every
/// descendant asks the very hooks of the first wrapper, so what a hook
/// remembers it remembers of the whole line.
pub proof fn law_lineage_shares_hooks<T: Clone>(
    this: TrView<T>,
    child: TrView<T>,
    grandchild: TrView<T>,
)
    requires
        this.duplicates_to(Ok(child)),
        child.duplicates_to(Ok(grandchild)) || this.duplicates_to(Ok(grandchild)),
    ensures
        child.on_cloning == this.on_cloning,
        child.on_cloned == this.on_cloned,
        grandchild.on_cloning == this.on_cloning,
        grandchild.on_cloned == this.on_cloned,
{
    law_outcome_shape(this, Ok(child));
    if child.duplicates_to(Ok(grandchild)) {
        law_outcome_shape(child, Ok(grandchild));
    } else {
        law_outcome_shape(this, Ok(grandchild));
    }
}

} // verus!
