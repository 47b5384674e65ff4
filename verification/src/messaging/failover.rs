//! The capability a terminal failure handler offers: a recovery action
//! invoked with an item once processing it has definitively failed.

use vstd::prelude::*;

verus! {

/// Capability interface of a failure handler.
///
/// The spec functions model the handler by the invocations made on it: the
/// inputs it was handed and the verdict it returned each time.
pub trait Failover {
    /// The unit of work that failed.
    type Item;

    /// The processing error the handler is invoked with.
    type InputError;

    /// The handler's own error.
    type Error;

    // The default models let an implementation the verifier never sees
    // stay silent about its model; verified implementations override them.
    /// Every invocation's inputs: the failed item and its error, in order.
    open spec fn handled(&self) -> Seq<(Self::Item, Self::InputError)> {
        Seq::empty()
    }

    /// Every invocation's outcome, in order.
    open spec fn verdicts(&self) -> Seq<Result<(), Self::Error>> {
        Seq::empty()
    }

    /// Performs the recovery action for `item`, which failed with `ie`.
    fn failover(&mut self, item: &Self::Item, ie: &Self::InputError) -> (r: Result<
        (),
        Self::Error,
    >)
        ensures
            final(self).handled() == old(self).handled().push((*item, *ie)),
            final(self).verdicts() == old(self).verdicts().push(r),
    ;
}

} // verus!
