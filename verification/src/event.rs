//! Hooks: what a traced value asks when it is duplicated.
//!
//! An `Event` is either a fixed answer or a caller's closure. A closure may
//! keep state between firings and may change the value it is shown, so of
//! such an event nothing is known in advance; a fixed answer is known
//! completely. Copies of one event stand for the same hook: a closure is held
//! once and shared, never duplicated.
//!
//! A closure runs one firing at a time. Fired again while it is still
//! running, which only the closure itself can bring about, the event is busy:
//! it gives no answer and touches nothing.

use vstd::prelude::*;
use std::cell::RefCell;
use std::rc::Rc;
use crate::render::{event_text, write_event};

verus! {

/// `std::cell::RefCell`, carried as an opaque value: the library never looks
/// inside one, it only hands it to `run`.
#[verifier::external_type_specification]
#[verifier::external_body]
#[verifier::reject_recursive_types(C)]
pub struct ExRefCell<C: ?Sized>(RefCell<C>);

/// `RefCell::new` puts a value into a fresh cell. Nothing is claimed of the
/// cell but that there is one.
pub assume_specification<C>[ RefCell::<C>::new ](value: C) -> (cell: RefCell<C>);

/// Asks the cell for its closure with `RefCell::try_borrow_mut` and, where
/// the cell lends it, calls it on `arg`. Where the cell refuses, because the
/// closure is running already, nothing is called and `arg` stays as it was.
/// Of a call nothing is promised: the closure is the caller's, and may leave
/// anything in `arg` and answer anything. The closures that get here are
/// those `Event::new` took, which accept every argument.
#[verifier::external_body]
fn run<T, R, F: FnMut(&mut T) -> R>(cell: &RefCell<F>, arg: &mut T) -> (answer: Option<R>)
    ensures
        answer is None ==> *final(arg) == *old(arg),
{
    match cell.try_borrow_mut() {
        Ok(mut callback) => Some(callback(arg)),
        Err(_) => None,
    }
}

/// Writes where a shared closure lives, with the `{:p}` of `format!`. An
/// address differs from run to run, so nothing is said of the text.
#[verifier::external_body]
fn address<T, R>(callback: &Rc<Box<dyn Callback<T, R>>>) -> (text: String) {
    format!("{:p}", *callback)
}

/// Something that can be called on a value in the making, unless it is busy.
trait Callback<T, R> {
    fn call(&self, arg: &mut T) -> (answer: Option<R>)
        ensures
            answer is None ==> *final(arg) == *old(arg),
    ;
}

/// A closure behind a cell, so that it can run through a shared reference.
#[verifier::reject_recursive_types(F)]
struct Guarded<F> {
    cell: RefCell<F>,
}

impl<T, R, F: FnMut(&mut T) -> R> Callback<T, R> for Guarded<F> {
    fn call(&self, arg: &mut T) -> (answer: Option<R>) {
        run(&self.cell, arg)
    }
}

#[verifier::reject_recursive_types(T)]
#[verifier::reject_recursive_types(R)]
enum Handler<T, R> {
    /// Answers the same every time and leaves the value alone.
    Fixed(R),
    /// A caller's closure, held once and shared by every copy.
    Shared(Rc<Box<dyn Callback<T, R>>>),
}

/// A hook over values of type `T` that answers with an `R`.
#[verifier::reject_recursive_types(T)]
#[verifier::reject_recursive_types(R)]
pub struct Event<T, R> {
    handler: Handler<T, R>,
}

impl<T, R> Event<T, R> {
    /// The answer this event always gives, if it is a fixed one.
    pub closed spec fn fixed_answer(&self) -> Option<R> {
        match self.handler {
            Handler::Fixed(answer) => Some(answer),
            Handler::Shared(_) => None,
        }
    }

    /// The event that always answers `answer`.
    pub closed spec fn fixed(answer: R) -> Self {
        Event { handler: Handler::Fixed(answer) }
    }

    /// The fixed event answers what it was made with.
    pub broadcast proof fn lemma_fixed_answer(answer: R)
        ensures
            (#[trigger] Self::fixed(answer)).fixed_answer() == Some(answer),
    {
    }

    /// Whether one firing may turn `before` into `after` and answer `answer`.
    /// A fixed event leaves the value as it was and gives its answer. A
    /// closure that is busy gives none and leaves the value as it was; of a
    /// closure that runs every outcome is possible.
    pub open spec fn admits(&self, before: T, after: T, answer: Option<R>) -> bool {
        match self.fixed_answer() {
            Some(fixed) => after == before && answer == Some(fixed),
            None => answer is None ==> after == before,
        }
    }

    /// An event that runs `callback` each time it fires. The callback has to
    /// take every value: the events decide what it is shown, not the caller.
    pub fn new<F: FnMut(&mut T) -> R + 'static>(callback: F) -> (event: Self)
        requires
            forall|arg: &mut T| call_requires(callback, (arg,)),
        ensures
            event.fixed_answer() is None,
    {
        let boxed: Box<dyn Callback<T, R>> = Box::new(Guarded { cell: RefCell::new(callback) });
        Event { handler: Handler::Shared(Rc::new(boxed)) }
    }

    /// An event that answers `answer` each time and touches nothing.
    pub fn always(answer: R) -> (event: Self)
        ensures
            event == Self::fixed(answer),
            event.fixed_answer() == Some(answer),
    {
        Event { handler: Handler::Fixed(answer) }
    }

    /// Whether `text` is a line that stands for this event. It names the
    /// hook and shows nothing of what the hook holds: a fixed event is
    /// called `fixed`, a closure goes by some identifier of its own.
    pub open spec fn described_by(&self, text: Seq<char>) -> bool {
        if self.fixed_answer() is Some {
            text == event_text("fixed"@)
        } else {
            exists|id: Seq<char>| text == #[trigger] event_text(id)
        }
    }

    /// A line that stands for this event in diagnostics. Copies of one event
    /// are written alike.
    pub fn describe(&self) -> (text: String)
        ensures
            self.described_by(text@),
    {
        match &self.handler {
            Handler::Fixed(_) => write_event("fixed"),
            Handler::Shared(callback) => {
                let id = address(callback);
                write_event(id.as_str())
            },
        }
    }
}

impl<T, R: Copy> Event<T, R> {
    /// Fires the event on `arg` and gives its answer, or none where the
    /// event is busy.
    pub fn fire(&self, arg: &mut T) -> (answer: Option<R>)
        ensures
            self.admits(*old(arg), *final(arg), answer),
    {
        match &self.handler {
            Handler::Fixed(answer) => Some(*answer),
            Handler::Shared(callback) => callback.call(arg),
        }
    }
}

impl<T, R: Copy> Clone for Event<T, R> {
    /// Another handle on the same hook.
    fn clone(&self) -> (other: Self)
        ensures
            other == *self,
    {
        match &self.handler {
            Handler::Fixed(answer) => Event { handler: Handler::Fixed(*answer) },
            Handler::Shared(callback) => Event { handler: Handler::Shared(callback.clone()) },
        }
    }
}

} // verus!
