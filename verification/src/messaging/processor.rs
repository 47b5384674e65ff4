//! The capability a message handler offers, and two composable decorators:
//! bounded, delay-scheduled retry and failover-on-failure.

use vstd::prelude::*;

use crate::messaging::failover::Failover;

verus! {

/// Capability interface of a message handler; the base unit of work.
///
/// The model of a processor is the log of its invocations: the item each
/// call was given and the result it returned. Nothing constrains what a call
/// returns; decorators and the runner are verified for every behaviour.
pub trait Processor: Sized {
    /// The unit of work handed in.
    type Item;

    /// The success value produced.
    type Output;

    /// The handler's error.
    type Error;

    // The default models let an implementation the verifier never sees
    // stay silent about its model; verified implementations override them.
    /// Every invocation: the item it was given and the result it returned.
    open spec fn calls(&self) -> Seq<(Self::Item, Result<Self::Output, Self::Error>)> {
        Seq::empty()
    }

    /// How one invocation with `item` returning `r` moves the processor
    /// from `pre` to `post`. The default places no constraint; a decorator
    /// overrides it with its per-call transition, which generic callers
    /// then see without knowing the concrete type.
    open spec fn step(
        pre: Self,
        post: Self,
        item: Self::Item,
        r: Result<Self::Output, Self::Error>,
    ) -> bool {
        true
    }

    /// Handles one item. Implementations must tolerate being invoked
    /// repeatedly with the same item: retries replay the same input.
    fn process(&mut self, item: &Self::Item) -> (r: Result<Self::Output, Self::Error>)
        ensures
            final(self).calls() == old(self).calls().push((*item, r)),
            Self::step(*old(self), *final(self), *item, r),
    ;
}

/// Capability to wait a delay out. Retry suspension is a pure delay, not an
/// I/O operation, so it cannot fail; the model records what was waited.
pub trait Suspend {
    // The default models let an implementation the verifier never sees
    // stay silent about its model; verified implementations override them.
    /// The delays waited out so far, in waiting order, in milliseconds.
    open spec fn slept(&self) -> Seq<u64> {
        Seq::empty()
    }

    /// Waits `millis` milliseconds.
    fn suspend(&mut self, millis: u64)
        ensures
            final(self).slept() == old(self).slept().push(millis),
    ;
}

/// Error of a processor whose retries were used up: the last failure.
#[derive(Debug)]
pub enum RetriableProcessorError<E> {
    /// The wrapped processor failed on every attempt; this is the last error.
    Retry(E),
}

/// Decorates a processor with a bounded, delay-scheduled retry policy.
///
/// The delay sequence is the retry budget: an item is attempted once, then
/// once more per delay, each retry after waiting that delay out. Every item
/// starts from the full sequence.
pub struct RetriableProcessor<P: Processor, S> {
    processor: P,
    delays: Vec<u64>,
    suspend: S,
    call_log: Ghost<Seq<(P::Item, Result<P::Output, RetriableProcessorError<P::Error>>)>>,
}

impl<P: Processor, S: Suspend> RetriableProcessor<P, S> {
    /// The wrapped processor.
    pub closed spec fn inner(&self) -> P {
        self.processor
    }

    /// The configured delay sequence, in milliseconds.
    pub closed spec fn delays(&self) -> Seq<u64> {
        self.delays@
    }

    /// The suspension capability the delays are waited out on.
    pub closed spec fn pauser(&self) -> S {
        self.suspend
    }

    /// The delays waited out so far.
    pub open spec fn slept(&self) -> Seq<u64> {
        self.pauser().slept()
    }

    /// Wraps `processor` with the retry budget `delays`, waiting the delays
    /// out on `suspend`.
    pub fn new(processor: P, delays: Vec<u64>, suspend: S) -> (r: RetriableProcessor<P, S>)
        ensures
            r.inner() == processor,
            r.delays() == delays@,
            r.pauser() == suspend,
            r.calls() == Seq::<
                (P::Item, Result<P::Output, RetriableProcessorError<P::Error>>),
            >::empty(),
    {
        RetriableProcessor { processor, delays, suspend, call_log: Ghost(Seq::empty()) }
    }

    /// A read-only view of the suspension capability.
    pub fn suspender(&self) -> (r: &S)
        ensures
            *r == self.pauser(),
    {
        &self.suspend
    }

    /// A read-only view of the wrapped processor.
    pub fn processor_ref(&self) -> (r: &P)
        ensures
            *r == self.inner(),
    {
        &self.processor
    }
}

impl<P: Processor, S: Suspend> Processor for RetriableProcessor<P, S> {
    type Item = P::Item;

    type Output = P::Output;

    type Error = RetriableProcessorError<P::Error>;

    closed spec fn calls(&self) -> Seq<
        (P::Item, Result<P::Output, RetriableProcessorError<P::Error>>),
    > {
        self.call_log@
    }

    /// One retry-decorated invocation: the wrapped processor was attempted
    /// on `item` until it succeeded or the budget ran out, waiting the
    /// delays out in between.
    open spec fn step(
        pre: RetriableProcessor<P, S>,
        post: RetriableProcessor<P, S>,
        item: P::Item,
        r: Result<P::Output, RetriableProcessorError<P::Error>>,
    ) -> bool {
        &&& post.delays() == pre.delays()
        &&& pre.inner().calls().is_prefix_of(post.inner().calls())
        &&& post.inner().calls().len() > pre.inner().calls().len()
        &&& post.inner().calls().len() <= pre.inner().calls().len() + pre.delays().len() + 1
        &&& forall|j: int|
            pre.inner().calls().len() <= j < post.inner().calls().len() ==> (
            #[trigger] post.inner().calls()[j]).0 == item
        &&& forall|j: int|
            pre.inner().calls().len() <= j < post.inner().calls().len() - 1 ==> (
            #[trigger] post.inner().calls()[j]).1 is Err
        &&& (r matches Ok(v) ==> post.inner().calls().last().1 == Ok::<P::Output, P::Error>(v))
        &&& (r is Ok ==> post.slept() == pre.slept() + pre.delays().take(
            post.inner().calls().len() - pre.inner().calls().len() - 1,
        ))
        &&& (r is Err ==> post.inner().calls().len() == pre.inner().calls().len()
            + pre.delays().len() + 1)
        &&& (r is Err ==> post.slept() == pre.slept() + pre.delays())
        &&& (r matches Err(RetriableProcessorError::Retry(e)) ==> post.inner().calls().last().1
            == Err::<P::Output, P::Error>(e))
    }

    /// Attempts the item until the wrapped processor succeeds or the delay
    /// sequence runs out; between attempts, waits the next delay out.
    ///
    /// For a budget of `k` delays: on overall failure the wrapped processor
    /// was invoked exactly `k + 1` times and all `k` delays were waited out
    /// in order; on success after `j` failed attempts it was invoked exactly
    /// `j + 1` times and only the first `j` delays were waited out.
    fn process(&mut self, item: &P::Item) -> (r: Result<
        P::Output,
        RetriableProcessorError<P::Error>,
    >)
        ensures
            final(self).delays() == old(self).delays(),
            old(self).inner().calls().is_prefix_of(final(self).inner().calls()),
            final(self).inner().calls().len() > old(self).inner().calls().len(),
            final(self).inner().calls().len() <= old(self).inner().calls().len() + old(self).delays().len() + 1,
            forall|j: int|
                old(self).inner().calls().len() <= j < final(self).inner().calls().len() ==> (
                #[trigger] final(self).inner().calls()[j]).0 == *item,
            forall|j: int|
                old(self).inner().calls().len() <= j < final(self).inner().calls().len() - 1 ==> (
                #[trigger] final(self).inner().calls()[j]).1 is Err,
            r matches Ok(v) ==> final(self).inner().calls().last().1 == Ok::<
                P::Output,
                P::Error,
            >(v),
            r is Ok ==> final(self).slept() == old(self).slept() + old(self).delays().take(
                final(self).inner().calls().len() - old(self).inner().calls().len() - 1,
            ),
            r is Err ==> final(self).inner().calls().len() == old(self).inner().calls().len() + old(self).delays().len() + 1,
            r is Err ==> final(self).slept() == old(self).slept() + old(self).delays(),
            r matches Err(RetriableProcessorError::Retry(e)) ==> final(self).inner().calls().last().1 == Err::<P::Output, P::Error>(e),
    {
        let mut attempt: usize = 0;
        loop
            invariant
                attempt <= self.delays@.len(),
                self.delays@ == old(self).delays@,
                self.suspend.slept() == old(self).suspend.slept() + self.delays@.take(
                    attempt as int,
                ),
                self.processor.calls().len() == old(self).processor.calls().len() + attempt,
                old(self).processor.calls().is_prefix_of(self.processor.calls()),
                forall|j: int|
                    old(self).processor.calls().len() <= j < self.processor.calls().len() ==> (
                    #[trigger] self.processor.calls()[j]).0 == *item && self.processor.calls()[j].1
                        is Err,
                self.call_log@ == old(self).call_log@,
            decreases self.delays@.len() - attempt,
        {
            let ghost before = self.processor.calls();
            match self.processor.process(item) {
                Ok(v) => {
                    let res: Result<P::Output, RetriableProcessorError<P::Error>> = Ok(v);
                    self.call_log = Ghost(self.call_log@.push((*item, res)));
                    proof {
                        assert(before.take(old(self).processor.calls().len() as int) =~= before.take(
                            before.len() as int,
                        ).take(old(self).processor.calls().len() as int)) by {
                            assert(before.take(before.len() as int) =~= before);
                        }
                        assert(old(self).processor.calls().is_prefix_of(self.processor.calls()));
                        assert(self.delays@.take(attempt as int) =~= old(self).delays@.take(
                            self.processor.calls().len() - old(self).processor.calls().len() - 1,
                        ));
                    }
                    return res;
                },
                Err(e) => {
                    if attempt < self.delays.len() {
                        let d = self.delays[attempt];
                        self.suspend.suspend(d);
                        proof {
                            assert(self.delays@.take(attempt + 1) =~= self.delays@.take(
                                attempt as int,
                            ).push(d));
                            assert(old(self).suspend.slept() + self.delays@.take(attempt as int)
                                + seq![d] =~= old(self).suspend.slept() + self.delays@.take(
                                attempt + 1,
                            ));
                        }
                        attempt = attempt + 1;
                    } else {
                        let res: Result<P::Output, RetriableProcessorError<P::Error>> = Err(
                            RetriableProcessorError::Retry(e),
                        );
                        self.call_log = Ghost(self.call_log@.push((*item, res)));
                        proof {
                            assert(self.delays@.take(self.delays@.len() as int) =~= self.delays@);
                        }
                        return res;
                    }
                },
            }
        }
    }
}

/// Error of a failover-decorated processor: the processing failure, and the
/// handler's failure when that failed too.
#[derive(Debug)]
pub enum FailoverError<PE, FE> {
    /// The processor failed; the failover handler dealt with the item.
    Process(PE),
    /// The processor failed and so did the failover handler.
    Failover(PE, FE),
}

/// Decorates a processor with a terminal failure handler.
///
/// On failure the handler is invoked with the item and the error; either way
/// the outcome stays a failure carrying the original error, so a caller
/// never commits an item the processor did not handle itself.
///
/// Compose it around a [`RetriableProcessor`] to get "retry, then hand off"
/// semantics. The reverse nesting is legal but makes the retry decorator
/// invoke the failure handler on every attempt, which is rarely wanted.
pub struct FailoverProcessor<P: Processor, F: Failover<Item = P::Item, InputError = P::Error>> {
    processor: P,
    failover: F,
    call_log: Ghost<Seq<(P::Item, Result<P::Output, FailoverError<P::Error, F::Error>>)>>,
}

impl<P: Processor, F: Failover<Item = P::Item, InputError = P::Error>> FailoverProcessor<P, F> {
    /// The wrapped processor.
    pub closed spec fn inner(&self) -> P {
        self.processor
    }

    /// The failure handler.
    pub closed spec fn handler(&self) -> F {
        self.failover
    }

    /// Wraps `processor` so that `failover` is invoked whenever it fails.
    pub fn new(processor: P, failover: F) -> (r: FailoverProcessor<P, F>)
        ensures
            r.inner() == processor,
            r.handler() == failover,
            r.calls() == Seq::<
                (P::Item, Result<P::Output, FailoverError<P::Error, F::Error>>),
            >::empty(),
    {
        FailoverProcessor { processor, failover, call_log: Ghost(Seq::empty()) }
    }

    /// A read-only view of the wrapped processor.
    pub fn processor_ref(&self) -> (r: &P)
        ensures
            *r == self.inner(),
    {
        &self.processor
    }

    /// A read-only view of the failure handler.
    pub fn handler_ref(&self) -> (r: &F)
        ensures
            *r == self.handler(),
    {
        &self.failover
    }
}

impl<P: Processor, F: Failover<Item = P::Item, InputError = P::Error>> Processor
    for FailoverProcessor<P, F> {
    type Item = P::Item;

    type Output = P::Output;

    type Error = FailoverError<P::Error, F::Error>;

    closed spec fn calls(&self) -> Seq<
        (P::Item, Result<P::Output, FailoverError<P::Error, F::Error>>),
    > {
        self.call_log@
    }

    /// One failover-decorated invocation: the wrapped processor ran once on
    /// `item`, and the handler ran exactly when that failed, deciding the
    /// error variant.
    open spec fn step(
        pre: FailoverProcessor<P, F>,
        post: FailoverProcessor<P, F>,
        item: P::Item,
        r: Result<P::Output, FailoverError<P::Error, F::Error>>,
    ) -> bool {
        &&& (r matches Ok(v) ==> post.inner().calls() == pre.inner().calls().push(
            (item, Ok::<P::Output, P::Error>(v)),
        ))
        &&& (r is Ok ==> post.handler() == pre.handler())
        &&& (r matches Err(FailoverError::Process(e)) ==> {
            &&& post.inner().calls() == pre.inner().calls().push(
                (item, Err::<P::Output, P::Error>(e)),
            )
            &&& post.handler().handled() == pre.handler().handled().push((item, e))
            &&& post.handler().verdicts() == pre.handler().verdicts().push(Ok::<(), F::Error>(()))
        })
        &&& (r matches Err(FailoverError::Failover(e, fe)) ==> {
            &&& post.inner().calls() == pre.inner().calls().push(
                (item, Err::<P::Output, P::Error>(e)),
            )
            &&& post.handler().handled() == pre.handler().handled().push((item, e))
            &&& post.handler().verdicts() == pre.handler().verdicts().push(Err::<(), F::Error>(fe))
        })
    }

    /// Invokes the wrapped processor once; the handler is invoked if and
    /// only if that failed. On handler success the outcome is `Process` with
    /// the original error; on handler failure it is `Failover` with both.
    fn process(&mut self, item: &P::Item) -> (r: Result<
        P::Output,
        FailoverError<P::Error, F::Error>,
    >)
        ensures
            r matches Ok(v) ==> final(self).inner().calls() == old(self).inner().calls().push(
                (*item, Ok::<P::Output, P::Error>(v)),
            ),
            r is Ok ==> final(self).handler() == old(self).handler(),
            r matches Err(FailoverError::Process(e)) ==> {
                &&& final(self).inner().calls() == old(self).inner().calls().push(
                    (*item, Err::<P::Output, P::Error>(e)),
                )
                &&& final(self).handler().handled() == old(self).handler().handled().push(
                    (*item, e),
                )
                &&& final(self).handler().verdicts() == old(self).handler().verdicts().push(
                    Ok::<(), F::Error>(()),
                )
            },
            r matches Err(FailoverError::Failover(e, fe)) ==> {
                &&& final(self).inner().calls() == old(self).inner().calls().push(
                    (*item, Err::<P::Output, P::Error>(e)),
                )
                &&& final(self).handler().handled() == old(self).handler().handled().push(
                    (*item, e),
                )
                &&& final(self).handler().verdicts() == old(self).handler().verdicts().push(
                    Err::<(), F::Error>(fe),
                )
            },
    {
        match self.processor.process(item) {
            Ok(v) => {
                let res: Result<P::Output, FailoverError<P::Error, F::Error>> = Ok(v);
                self.call_log = Ghost(self.call_log@.push((*item, res)));
                res
            },
            Err(e) => {
                let verdict = self.failover.failover(item, &e);
                let res: Result<P::Output, FailoverError<P::Error, F::Error>> = match verdict {
                    Ok(()) => {
                        proof {
                            assert(verdict is Ok);
                            assert(verdict->Ok_0 == ());
                            assert(verdict == Ok::<(), F::Error>(()));
                        }
                        Err(FailoverError::Process(e))
                    },
                    Err(fe) => Err(FailoverError::Failover(e, fe)),
                };
                self.call_log = Ghost(self.call_log@.push((*item, res)));
                res
            },
        }
    }
}

} // verus!
