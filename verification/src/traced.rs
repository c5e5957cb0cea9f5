//! A wrapper that watches every duplication of the value it holds.
//!
//! Reading and changing the payload goes straight through. Duplicating the
//! wrapper asks two hooks: `on_cloning` says whether the duplication is
//! permitted, `on_cloned` is told of every attempt. A duplication that was
//! neither permitted nor forgiven in advance, by suspending the wrapper, is
//! turned down.
//!
//! A hook that is asked while it is still running, because it duplicates the
//! very wrapper it watches, is busy: `on_cloning` then permits nothing, and
//! `on_cloned` is passed over.

use vstd::prelude::*;
use std::ops::{Deref, DerefMut};
use vstd::std_specs::cmp::{PartialEqSpec, PartialOrdSpec};
use std::fmt::Debug;
use crate::event::Event;
use crate::render::{debug_text, traced_text, write_traced};

verus! {

/// Why a duplication was turned down.
#[derive(Debug, Clone, Copy, PartialEq, Eq, Structural)]
pub enum CloneError {
    /// The hook denied the duplication and nothing had forgiven it.
    Unforgiven,
}

/// A value of type `T` whose duplications are watched.
#[verifier::reject_recursive_types(T)]
pub struct Tr<T> {
    value: T,
    on_cloning: Event<T, bool>,
    on_cloned: Event<T, ()>,
    suspended: bool,
}

/// What a `Tr` is: its payload, whether the next duplication is forgiven,
/// and the two hooks it asks.
#[verifier::reject_recursive_types(T)]
pub ghost struct TrView<T> {
    pub payload: T,
    pub suspended: bool,
    pub on_cloning: Event<T, bool>,
    pub on_cloned: Event<T, ()>,
}

/// The rule of the protocol: a duplication goes through when the hook
/// permitted it or the wrapper was suspended.
pub open spec fn allowed(permitted: bool, suspended: bool) -> bool {
    permitted || suspended
}

/// What an answer of `on_cloning` comes to: only a plain yes permits. A hook
/// too busy to answer permits nothing.
pub open spec fn permits(asked: Option<bool>) -> bool {
    asked == Some(true)
}

/// One run of the two hooks over a copy of the payload.
pub ghost struct Run<T> {
    /// The copy as the payload's own `clone` made it.
    pub copy: T,
    /// What `on_cloning` left of the copy.
    pub shown: T,
    /// What `on_cloned` left of that.
    pub left: T,
    /// What `on_cloning` answered, if it did.
    pub asked: Option<bool>,
    /// Whether `on_cloned` was told.
    pub told: Option<()>,
}

impl<T> TrView<T> {
    /// The same wrapper, suspended.
    pub open spec fn suspend(self) -> TrView<T> {
        TrView { suspended: true, ..self }
    }

    /// The same wrapper, not suspended.
    pub open spec fn resume(self) -> TrView<T> {
        TrView { suspended: false, ..self }
    }

    /// A wrapper as `Tr::new` makes it around `value`: suspended, with a hook
    /// that always denies and one that does nothing.
    pub open spec fn fresh(value: T) -> TrView<T> {
        TrView {
            payload: value,
            suspended: true,
            on_cloning: Event::fixed(false),
            on_cloned: Event::fixed(()),
        }
    }

    /// Whether a duplication is sure to go through, whatever the payload.
    pub open spec fn forgiving(self) -> bool {
        self.suspended || self.on_cloning.fixed_answer() == Some(true)
    }

    /// What a duplication comes to once both hooks have run: `value` is what
    /// they left of the copy, `permitted` what `on_cloning` answered. The
    /// duplicate asks the same hooks and is never suspended.
    pub open spec fn conclude(self, value: T, permitted: bool) -> Result<TrView<T>, CloneError> {
        if allowed(permitted, self.suspended) {
            Ok(
                TrView {
                    payload: value,
                    suspended: false,
                    on_cloning: self.on_cloning,
                    on_cloned: self.on_cloned,
                },
            )
        } else {
            Err(CloneError::Unforgiven)
        }
    }

    /// Whether `text` is a line that stands for this wrapper: the payload
    /// written in some way, the suspension, and a line for each hook.
    pub open spec fn described_by(self, text: Seq<char>) -> bool {
        exists|payload: Seq<char>, on_cloning: Seq<char>, on_cloned: Seq<char>|
            {
                &&& text == #[trigger] traced_text(
                    payload,
                    self.suspended,
                    on_cloning,
                    on_cloned,
                )
                &&& self.on_cloning.described_by(on_cloning)
                &&& self.on_cloned.described_by(on_cloned)
            }
    }
}

impl<T: Clone> TrView<T> {
    /// Whether `run` is a run of this wrapper's hooks: the copy is a copy of
    /// the payload, `on_cloning` is shown it first, and `on_cloned` is shown
    /// what `on_cloning` left.
    pub open spec fn runs(self, run: Run<T>) -> bool {
        &&& cloned(self.payload, run.copy)
        &&& self.on_cloning.admits(run.copy, run.shown, run.asked)
        &&& self.on_cloned.admits(run.shown, run.left, run.told)
    }

    /// Whether `outcome` is a possible result of duplicating `self`: some
    /// run of the hooks, concluded by the rule.
    pub open spec fn duplicates_to(self, outcome: Result<TrView<T>, CloneError>) -> bool {
        exists|run: Run<T>| #[trigger]
            self.runs(run) && outcome == self.conclude(run.left, permits(run.asked))
    }
}

/// The views of what a duplication gave.
pub open spec fn outcome_view<T>(outcome: Result<Tr<T>, CloneError>) -> Result<
    TrView<T>,
    CloneError,
> {
    match outcome {
        Ok(duplicate) => Ok(duplicate@),
        Err(error) => Err(error),
    }
}

impl<T> View for Tr<T> {
    type V = TrView<T>;

    closed spec fn view(&self) -> TrView<T> {
        TrView {
            payload: self.value,
            suspended: self.suspended,
            on_cloning: self.on_cloning,
            on_cloned: self.on_cloned,
        }
    }
}

impl CloneError {
    /// The diagnostic that goes with the error.
    pub fn message(&self) -> (text: &'static str)
        ensures
            text@ == "Unknown clone not forgiven."@,
    {
        "Unknown clone not forgiven."
    }
}

impl<T> Tr<T> {
    /// Wraps `value` with the two hooks given; not suspended.
    pub fn with_events(value: T, on_cloning: Event<T, bool>, on_cloned: Event<T, ()>) -> (this: Self)
        ensures
            this@ == (TrView { payload: value, suspended: false, on_cloning, on_cloned }),
    {
        Tr { value, on_cloning, on_cloned, suspended: false }
    }

    /// Forgives the next duplication, whatever the hook will say.
    pub fn suspend(this: &mut Self)
        ensures
            final(this)@ == old(this)@.suspend(),
    {
        this.suspended = true;
    }

    /// Takes back what `suspend` forgave.
    pub fn resume(this: &mut Self)
        ensures
            final(this)@ == old(this)@.resume(),
    {
        this.suspended = false;
    }

    /// Whether the next duplication is forgiven.
    pub fn is_suspended(this: &Self) -> (suspended: bool)
        ensures
            suspended == this@.suspended,
    {
        this.suspended
    }

    /// Gives up the wrapper and keeps the payload.
    pub fn into_inner(self) -> (value: T)
        ensures
            value == self@.payload,
    {
        self.value
    }

    /// Concludes a duplication after the hooks have run on `value` and
    /// `on_cloning` has answered `permitted`.
    pub fn conclude(&self, value: T, permitted: bool) -> (outcome: Result<Self, CloneError>)
        ensures
            outcome_view(outcome) == self@.conclude(value, permitted),
    {
        if permitted || self.suspended {
            Ok(
                Tr {
                    value,
                    on_cloning: self.on_cloning.clone(),
                    on_cloned: self.on_cloned.clone(),
                    suspended: false,
                },
            )
        } else {
            Err(CloneError::Unforgiven)
        }
    }
}

impl<T> Tr<T> {
    /// Wraps `value` with two closures for hooks; not suspended. Each
    /// closure has to take every value: it is shown whatever the payload's
    /// `clone` and the hook before it made.
    pub fn with_closure<F, G>(value: T, on_cloning: F, on_cloned: G) -> (this: Self) where
        F: FnMut(&mut T) -> bool + 'static,
        G: FnMut(&mut T) + 'static,

        requires
            forall|arg: &mut T| call_requires(on_cloning, (arg,)),
            forall|arg: &mut T| call_requires(on_cloned, (arg,)),
        ensures
            this@.payload == value,
            !this@.suspended,
            this@.on_cloning.fixed_answer() is None,
            this@.on_cloned.fixed_answer() is None,
    {
        Tr::with_events(value, Event::new(on_cloning), Event::new(on_cloned))
    }

    /// Wraps `value` so that no duplication is permitted, and forgives the
    /// next one, as `new` does, but tells `on_cloned` of every attempt.
    pub fn with_notice<G>(value: T, on_cloned: G) -> (this: Self) where
        G: FnMut(&mut T) + 'static,

        requires
            forall|arg: &mut T| call_requires(on_cloned, (arg,)),
        ensures
            this@.payload == value,
            this@.suspended,
            this@.on_cloning == Event::<T, bool>::fixed(false),
            this@.on_cloned.fixed_answer() is None,
    {
        let mut this = Tr::with_events(value, Event::always(false), Event::new(on_cloned));
        Tr::suspend(&mut this);
        this
    }

    /// Wraps `value` so that no duplication is permitted, and forgives the
    /// next one: making the wrapper is not itself held against the caller.
    pub fn new(value: T) -> (this: Self)
        ensures
            this@ == TrView::fresh(value),
    {
        let mut this = Tr::with_events(value, Event::always(false), Event::always(()));
        Tr::suspend(&mut this);
        this
    }
}

impl<T: Debug> Tr<T> {
    /// A line that stands for this wrapper in diagnostics, with the payload
    /// written by its own `Debug`; none where that `Debug` reports an error.
    /// No hook is asked.
    pub fn describe(&self) -> (text: Option<String>)
        ensures
            text matches Some(line) ==> self@.described_by(line@),
    {
        match debug_text(&self.value) {
            Some(payload) => {
                let on_cloning = self.on_cloning.describe();
                let on_cloned = self.on_cloned.describe();
                let line = write_traced(
                    payload.as_str(),
                    self.suspended,
                    on_cloning.as_str(),
                    on_cloned.as_str(),
                );
                assert(line@ == traced_text(payload@, self@.suspended, on_cloning@, on_cloned@));
                Some(line)
            },
            None => None,
        }
    }
}

impl<T: Clone> Tr<T> {
    /// Duplicates the wrapper by the protocol: copy the payload, ask
    /// `on_cloning`, tell `on_cloned`, then conclude. A busy `on_cloning`
    /// counts as a denial.
    pub fn try_clone(&self) -> (outcome: Result<Self, CloneError>)
        ensures
            self@.duplicates_to(outcome_view(outcome)),
            self@.forgiving() ==> outcome is Ok,
    {
        let mut value = self.value.clone();
        let ghost copy = value;
        let asked = self.on_cloning.fire(&mut value);
        let ghost shown = value;
        let told = self.on_cloned.fire(&mut value);
        let permitted = match asked {
            Some(answer) => answer,
            None => false,
        };
        let outcome = self.conclude(value, permitted);
        proof {
            let run = Run { copy, shown, left: value, asked, told };
            assert(self@.runs(run));
            assert(permitted == permits(run.asked));
            if self@.forgiving() {
                lemma_forgiving_goes_through(self@, outcome_view(outcome));
            }
        }
        outcome
    }

    /// Duplicates a wrapper whose duplication is sure to go through.
    pub fn clone(&self) -> (duplicate: Self)
        requires
            self@.forgiving(),
        ensures
            self@.duplicates_to(Ok(duplicate@)),
    {
        self.try_clone().expect("Unknown clone not forgiven.")
    }
}

impl<T> Deref for Tr<T> {
    type Target = T;

    /// The payload, read without asking any hook.
    fn deref(&self) -> (payload: &T)
        ensures
            *payload == self@.payload,
    {
        &self.value
    }
}

impl<T> DerefMut for Tr<T> {
    /// The payload, open to change without asking any hook.
    fn deref_mut(&mut self) -> (payload: &mut T)
        ensures
            *payload == old(self)@.payload,
            final(self)@ == (TrView { payload: *final(payload), ..old(self)@ }),
    {
        &mut self.value
    }
}

impl<T> From<T> for Tr<T> {
    /// Wraps `value` as `Tr::new` does.
    fn from(value: T) -> (this: Self)
        ensures
            this@ == TrView::fresh(value),
    {
        Tr::new(value)
    }
}

impl<T> vstd::std_specs::convert::FromSpecImpl<T> for Tr<T> {
    open spec fn obeys_from_spec() -> bool {
        true
    }

    closed spec fn from_spec(value: T) -> Self {
        Tr { value, on_cloning: Event::fixed(false), on_cloned: Event::fixed(()), suspended: true }
    }
}

impl<T: Default> Default for Tr<T> {
    /// Wraps the default payload as `Tr::new` does.
    fn default() -> (this: Self)
        ensures
            T::default.ensures((), this@.payload),
            this@ == TrView::fresh(this@.payload),
    {
        Tr::new(T::default())
    }
}

impl<T: PartialEq> PartialEq for Tr<T> {
    /// Two wrappers are equal when their payloads are; hooks and suspension
    /// do not count.
    fn eq(&self, other: &Self) -> (equal: bool) {
        self.value == other.value
    }
}

impl<T: PartialEq> vstd::std_specs::cmp::PartialEqSpecImpl for Tr<T> {
    open spec fn obeys_eq_spec() -> bool {
        T::obeys_eq_spec()
    }

    open spec fn eq_spec(&self, other: &Self) -> bool {
        self@.payload.eq_spec(&other@.payload)
    }
}

impl<T: Eq> Eq for Tr<T> {
}

impl<T: PartialOrd> PartialOrd for Tr<T> {
    /// Wrappers are ordered as their payloads are.
    fn partial_cmp(&self, other: &Self) -> (order: Option<std::cmp::Ordering>) {
        self.value.partial_cmp(&other.value)
    }
}

impl<T: PartialOrd> vstd::std_specs::cmp::PartialOrdSpecImpl for Tr<T> {
    open spec fn obeys_partial_cmp_spec() -> bool {
        T::obeys_partial_cmp_spec()
    }

    open spec fn partial_cmp_spec(&self, other: &Self) -> Option<std::cmp::Ordering> {
        self@.payload.partial_cmp_spec(&other@.payload)
    }
}

/// Wrapping is available on every value that can be duplicated.
pub trait Traced: Clone {
    /// Wraps `self` as `Tr::new` does.
    fn traced(self) -> (this: Tr<Self>)
        ensures
            this@ == TrView::fresh(self),
    {
        Tr::new(self)
    }
}

impl<T: Clone> Traced for T {
}

/// Duplication that is forgiven in advance.
pub trait CloneSilent: Sized {
    /// A duplicate of `self`, made without asking leave.
    fn clone_silent(&mut self) -> Self;
}

impl<T: Clone> CloneSilent for Tr<T> {
    /// Suspends the wrapper, duplicates it, and resumes it unless it was
    /// suspended before. The hooks still run, but their answer cannot turn
    /// the duplication down. The wrapper is left as it was found.
    fn clone_silent(&mut self) -> (duplicate: Self)
        ensures
            old(self)@.suspend().duplicates_to(Ok(duplicate@)),
            final(self)@ == old(self)@,
    {
        let was_suspended = self.suspended;
        Tr::suspend(self);
        let duplicate = self.clone();
        if !was_suspended {
            Tr::resume(self);
        }
        duplicate
    }
}

/// The run behind an outcome: every result of a duplication comes of some
/// run of the hooks, concluded by the rule.
pub proof fn lemma_run_behind<T: Clone>(
    this: TrView<T>,
    outcome: Result<TrView<T>, CloneError>,
) -> (run: Run<T>)
    requires
        this.duplicates_to(outcome),
    ensures
        this.runs(run),
        outcome == this.conclude(run.left, permits(run.asked)),
{
    choose|run: Run<T>| #[trigger]
        this.runs(run) && outcome == this.conclude(run.left, permits(run.asked))
}

/// A forgiving wrapper is never turned down.
pub proof fn lemma_forgiving_goes_through<T: Clone>(
    this: TrView<T>,
    outcome: Result<TrView<T>, CloneError>,
)
    requires
        this.forgiving(),
        this.duplicates_to(outcome),
    ensures
        outcome is Ok,
{
    let run = lemma_run_behind(this, outcome);
    assert(allowed(permits(run.asked), this.suspended));
}

} // verus!
