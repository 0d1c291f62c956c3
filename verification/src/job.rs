//! The two-path dispatch wrapper: a pair of alternative works for one build
//! unit, of which a freshness verdict computed elsewhere selects exactly
//! one to run.

use vstd::prelude::*;
use crate::behavior::outcome_of;
use crate::behavior::Behavior;
use crate::handle::Handle;
use crate::work::{Step, Work};

verus! {

/// The externally computed verdict on one build unit: its cached result is
/// still valid (`Fresh`) or must be rebuilt (`Dirty`).
#[derive(Clone, Copy, Debug, PartialEq, Eq, Structural)]
pub enum Freshness {
    Fresh,
    Dirty,
}

/// A pair of alternative works for one build unit.  Neither runs before
/// dispatch; at dispatch exactly one is consumed and run, and the other is
/// dropped without ever being invoked.
pub struct Job<D, F> {
    dirty: Work<D>,
    fresh: Work<F>,
}

impl<D: Step, F: Step> Job<D, F> {
    /// The specification of the dirty-path work.
    pub closed spec fn dirty_behavior(self) -> Behavior {
        self.dirty.behavior()
    }

    /// The specification of the fresh-path work.
    pub closed spec fn fresh_behavior(self) -> Behavior {
        self.fresh.behavior()
    }

    /// Creates a new job representing a unit of work.  No side effects:
    /// neither work runs until `run`.
    pub fn new(dirty: Work<D>, fresh: Work<F>) -> (j: Job<D, F>)
        ensures
            j.dirty_behavior() == dirty.behavior(),
            j.fresh_behavior() == fresh.behavior(),
    {
        Job { dirty, fresh }
    }

    /// Consumes this job by running the path the verdict selects, returning
    /// that computation's result.  The messages emitted and the result are
    /// an instance of the selected path's behavior alone; the other path is
    /// discarded unrun and leaves no trace.
    pub fn run(self, fresh: Freshness, h: &mut Handle) -> (r: Result<(), String>)
        ensures
            old(h)@.is_prefix_of(final(h)@),
            fresh == Freshness::Fresh ==> self.fresh_behavior()(
                final(h)@.skip(old(h)@.len() as int),
                outcome_of(r),
            ),
            fresh == Freshness::Dirty ==> self.dirty_behavior()(
                final(h)@.skip(old(h)@.len() as int),
                outcome_of(r),
            ),
    {
        match fresh {
            Freshness::Fresh => self.fresh.call(h),
            Freshness::Dirty => self.dirty.call(h),
        }
    }

    /// An opaque rendering for logs and debugging; deliberately says
    /// nothing about the computations inside, which may be unprintable.
    pub fn describe(&self) -> (s: String)
        ensures
            s@ == "Job { .. }"@,
    {
        "Job { .. }".to_owned()
    }
}

} // verus!
