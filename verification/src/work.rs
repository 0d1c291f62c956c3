//! The deferred, single-use computation type and its sequential
//! composition.  A computation is a value implementing [`Step`]; wrapping it
//! in a [`Work`] defers it until `call`, which consumes the `Work`, so a
//! second invocation is impossible by ownership alone.

use vstd::prelude::*;
use crate::behavior::{
    Behavior, Outcome, fail_behavior, message_behavior, noop_behavior, outcome_of, then_behavior,
};
use crate::handle::Handle;

verus! {

/// One deferred computation.  Given the progress handle it may emit status
/// messages and must terminate with an outcome; `behavior` is its
/// specification, relating the messages it emitted to the outcome it
/// returned.
///
/// By convention a single computation sends its description once, or not at
/// all, before finishing; a composed chain sends at most one message per
/// stage.  Nothing enforces the convention on an implementation that states
/// no behavior, but every behavior this crate defines obeys it.
pub trait Step: Sized {
    /// The specification of this computation.  A computation that states
    /// nothing admits every message sequence and every outcome.
    open spec fn behavior(self) -> Behavior {
        |emitted: Seq<Seq<char>>, r: Outcome| true
    }

    /// Performs the computation, reporting progress through `h`.
    fn run(self, h: &mut Handle) -> (r: Result<(), String>)
        ensures
            old(h)@.is_prefix_of(final(h)@),
            self.behavior()(final(h)@.skip(old(h)@.len() as int), outcome_of(r)),
    ;
}

/// The computation that sends nothing and immediately succeeds.
pub struct NoopStep {}

impl Step for NoopStep {
    open spec fn behavior(self) -> Behavior {
        noop_behavior()
    }

    fn run(self, h: &mut Handle) -> (r: Result<(), String>) {
        proof {
            assert(h@ =~= h@.subrange(0, h@.len() as int));
        }
        Ok(())
    }
}

/// The computation that emits exactly one fixed status message and then
/// succeeds.
pub struct MessageStep {
    pub message: String,
}

impl Step for MessageStep {
    open spec fn behavior(self) -> Behavior {
        message_behavior(self.message@)
    }

    fn run(self, h: &mut Handle) -> (r: Result<(), String>) {
        let ghost h0 = h@;
        let ghost m = self.message@;
        h.send(self.message);
        proof {
            assert(h0 =~= h@.subrange(0, h0.len() as int));
            assert(h@.skip(h0.len() as int) =~= seq![m]);
        }
        Ok(())
    }
}

/// The computation that emits nothing and fails with a fixed cause.
pub struct FailStep {
    pub cause: String,
}

impl Step for FailStep {
    open spec fn behavior(self) -> Behavior {
        fail_behavior(self.cause@)
    }

    fn run(self, h: &mut Handle) -> (r: Result<(), String>) {
        proof {
            assert(h@ =~= h@.subrange(0, h@.len() as int));
        }
        Err(self.cause)
    }
}

/// Two computations in sequence: the first runs to completion; only if it
/// succeeded does the second run.
pub struct ThenStep<S, T> {
    pub first: S,
    pub second: T,
}

impl<S: Step, T: Step> Step for ThenStep<S, T> {
    open spec fn behavior(self) -> Behavior {
        then_behavior(self.first.behavior(), self.second.behavior())
    }

    fn run(self, h: &mut Handle) -> (r: Result<(), String>) {
        let ThenStep { first, second } = self;
        let ghost a = first.behavior();
        let ghost b = second.behavior();
        let ghost h0 = h@;
        let r1 = first.run(h);
        match r1 {
            Err(cause) => Err(cause),
            Ok(()) => {
                let ghost h1 = h@;
                let r2 = second.run(h);
                proof {
                    let h2 = h@;
                    let i = h1.len() - h0.len();
                    assert(h0 =~= h2.subrange(0, h0.len() as int));
                    let emitted = h2.skip(h0.len() as int);
                    assert(emitted.take(i) =~= h1.skip(h0.len() as int));
                    assert(emitted.skip(i) =~= h2.skip(h1.len() as int));
                    assert(a(emitted.take(i), Ok(())));
                    assert(b(emitted.skip(i), outcome_of(r2)));
                }
                r2
            },
        }
    }
}

/// A deferred, single-invocation unit of computation.  Created by wrapping
/// a [`Step`]; consumed exactly once by [`Work::call`].
pub struct Work<S> {
    inner: S,
}

impl<S: Step> Work<S> {
    /// The specification of the wrapped computation.
    pub closed spec fn behavior(self) -> Behavior {
        self.inner.behavior()
    }

    /// Wraps a computation into a unit of work.  Nothing runs until `call`.
    pub fn new(inner: S) -> (w: Work<S>)
        ensures
            w.behavior() == inner.behavior(),
    {
        Work { inner }
    }

    /// Consumes the work and performs its computation, reporting progress
    /// through `h`.  The messages it emitted and the result it returned are
    /// together an instance of the work's behavior.
    pub fn call(self, h: &mut Handle) -> (r: Result<(), String>)
        ensures
            old(h)@.is_prefix_of(final(h)@),
            self.behavior()(final(h)@.skip(old(h)@.len() as int), outcome_of(r)),
    {
        self.inner.run(h)
    }

    /// Sequential composition: a new, not-yet-run work that will run `self`
    /// first and `next` only if `self` succeeded, failing fast with the
    /// first failure.
    pub fn then<T: Step>(self, next: Work<T>) -> (w: Work<ThenStep<S, T>>)
        ensures
            w.behavior() == then_behavior(self.behavior(), next.behavior()),
    {
        Work { inner: ThenStep { first: self.inner, second: next.inner } }
    }
}

impl Work<NoopStep> {
    /// The unit of composition: a work that sends no message and
    /// immediately succeeds.
    pub fn noop() -> (w: Work<NoopStep>)
        ensures
            w.behavior() == noop_behavior(),
    {
        Work { inner: NoopStep {} }
    }
}

impl Work<MessageStep> {
    /// A work that emits the given status message and succeeds.
    pub fn message(message: String) -> (w: Work<MessageStep>)
        ensures
            w.behavior() == message_behavior(message@),
    {
        Work { inner: MessageStep { message } }
    }
}

impl Work<FailStep> {
    /// A work that emits nothing and fails with the given cause.
    pub fn fail(cause: String) -> (w: Work<FailStep>)
        ensures
            w.behavior() == fail_behavior(cause@),
    {
        Work { inner: FailStep { cause } }
    }
}

} // verus!
