//! End-to-end consequences of composing the runner with the decorators.
//!
//! When [`Runner::run`](crate::messaging::runner::Runner::run) polled
//! exactly one item, its contract hands the caller the processor's
//! [`step`](crate::messaging::processor::Processor::step) transition for
//! that single call. The proof functions here unfold what that transition
//! says when the processor is a decorator, turning the runner's outcome
//! into facts about the wrapped processor and the failure handler. The
//! commit side needs no unfolding: `run` itself ties commit calls to the
//! successful processor calls, so a lone failed call commits nothing.

use vstd::prelude::*;

use crate::messaging::failover::Failover;
use crate::messaging::processor::FailoverError;
use crate::messaging::processor::FailoverProcessor;
use crate::messaging::processor::Processor;
use crate::messaging::processor::RetriableProcessor;
use crate::messaging::processor::RetriableProcessorError;
use crate::messaging::processor::Suspend;

verus! {

/// A retry-decorated call that succeeded on the second attempt: the wrapped
/// processor ran exactly twice on the item, failing first and succeeding
/// second, and the first configured delay — and only it — was waited out
/// between the attempts.
pub proof fn lemma_run_retry_then_success<P: Processor, S: Suspend>(
    pre: RetriableProcessor<P, S>,
    post: RetriableProcessor<P, S>,
    item: P::Item,
    v: P::Output,
)
    requires
        RetriableProcessor::<P, S>::step(pre, post, item, Ok(v)),
        post.inner().calls().len() == pre.inner().calls().len() + 2,
        pre.delays().len() >= 1,
    ensures
        post.inner().calls()[pre.inner().calls().len() as int].0 == item,
        post.inner().calls()[pre.inner().calls().len() as int].1 is Err,
        post.inner().calls().last().0 == item,
        post.inner().calls().last().1 == Ok::<P::Output, P::Error>(v),
        post.slept() == pre.slept() + pre.delays().take(1),
{
}

/// A retry-decorated call whose budget ran out: the wrapped processor ran
/// exactly once per configured delay plus once, every time on the item and
/// every time failing, the last time with the surfaced error, and all the
/// delays were waited out in order.
pub proof fn lemma_run_exhausted_retries<P: Processor, S: Suspend>(
    pre: RetriableProcessor<P, S>,
    post: RetriableProcessor<P, S>,
    item: P::Item,
    e: P::Error,
)
    requires
        RetriableProcessor::<P, S>::step(
            pre,
            post,
            item,
            Err(RetriableProcessorError::Retry(e)),
        ),
    ensures
        post.inner().calls().len() == pre.inner().calls().len() + pre.delays().len() + 1,
        forall|j: int|
            pre.inner().calls().len() <= j < post.inner().calls().len() ==> (
            #[trigger] post.inner().calls()[j]).0 == item && post.inner().calls()[j].1 is Err,
        post.inner().calls().last().1 == Err::<P::Output, P::Error>(e),
        post.slept() == pre.slept() + pre.delays(),
{
    assert forall|j: int|
        pre.inner().calls().len() <= j < post.inner().calls().len() implies (
    #[trigger] post.inner().calls()[j]).0 == item && post.inner().calls()[j].1 is Err by {
        if j == post.inner().calls().len() - 1 {
            assert(post.inner().calls()[j] == post.inner().calls().last());
        }
    }
}

/// A failover-decorated call whose handler dealt with the item: the wrapped
/// processor ran exactly once on the item and failed with the surfaced
/// error, and the handler was invoked exactly once, with that item and that
/// error, and succeeded.
pub proof fn lemma_run_failover_handled<
    P: Processor,
    F: Failover<Item = P::Item, InputError = P::Error>,
>(
    pre: FailoverProcessor<P, F>,
    post: FailoverProcessor<P, F>,
    item: P::Item,
    e: P::Error,
)
    requires
        FailoverProcessor::<P, F>::step(pre, post, item, Err(FailoverError::Process(e))),
    ensures
        post.inner().calls() == pre.inner().calls().push((item, Err::<P::Output, P::Error>(e))),
        post.handler().handled() == pre.handler().handled().push((item, e)),
        post.handler().verdicts() == pre.handler().verdicts().push(Ok::<(), F::Error>(())),
{
}

} // verus!
