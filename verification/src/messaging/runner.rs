//! The runner: subscribes, then repeatedly polls the consumer, hands each
//! item to the processor, and commits it on success, under cooperative
//! cancellation; the subscription is released on every exit path.

use vstd::prelude::*;

use crate::messaging::consumer::spec_topic_views;
use crate::messaging::consumer::Consumer;
use crate::messaging::processor::Processor;

verus! {

/// Error of a runner, split by origin.
#[derive(Debug)]
pub enum Error<C, P> {
    /// A broker-layer failure: subscribing or committing failed.
    Consumer(C),
    /// Processing an item failed.
    Processor(P),
}

/// Capability of a one-shot cancellation signal the runner observes once per
/// loop turn.
///
/// The patience bound commits every conforming signal to firing after
/// finitely many observations; a signal meant to stay silent indefinitely
/// has no honest model here, which is the price of a terminating runner.
pub trait CancelSignal {
    // The default models let an implementation the verifier never sees
    // stay silent about its model; verified implementations override them.
    /// What every observation so far came back with, in order.
    open spec fn observations(&self) -> Seq<bool> {
        Seq::empty()
    }

    /// A bound on how many further observations can come back unfired; it
    /// gives the runner's loop its termination measure.
    open spec fn patience(&self) -> nat {
        0
    }

    /// Observes the signal without blocking.
    fn observe(&mut self) -> (fired: bool)
        ensures
            final(self).observations() == old(self).observations().push(fired),
            final(self).patience() <= old(self).patience(),
            !fired ==> final(self).patience() < old(self).patience(),
    ;
}

/// The item of each call, in call order.
pub open spec fn spec_call_items<I, O, E>(calls: Seq<(I, Result<O, E>)>) -> Seq<I> {
    calls.map_values(|c: (I, Result<O, E>)| c.0)
}

/// The items of the calls that returned success, in call order.
pub open spec fn spec_successes<I, O, E>(calls: Seq<(I, Result<O, E>)>) -> Seq<I>
    decreases calls.len(),
{
    if calls.len() == 0 {
        Seq::empty()
    } else if calls.last().1 is Ok {
        spec_successes(calls.drop_last()).push(calls.last().0)
    } else {
        spec_successes(calls.drop_last())
    }
}

proof fn lemma_items_push<I, O, E>(calls: Seq<(I, Result<O, E>)>, c: (I, Result<O, E>))
    ensures
        spec_call_items(calls.push(c)) =~= spec_call_items(calls).push(c.0),
{
}

proof fn lemma_successes_push<I, O, E>(calls: Seq<(I, Result<O, E>)>, c: (I, Result<O, E>))
    ensures
        c.1 is Ok ==> spec_successes(calls.push(c)) == spec_successes(calls).push(c.0),
        c.1 is Err ==> spec_successes(calls.push(c)) == spec_successes(calls),
{
    assert(calls.push(c).drop_last() =~= calls);
    assert(calls.push(c).last() == c);
}

/// Drives a consumer and a processor: poll, process, commit, repeat.
pub struct Runner<C, P> {
    consumer: C,
    processor: P,
}

impl<C, P> Runner<C, P> {
    /// The broker consumer the runner drives.
    pub closed spec fn consumer(&self) -> C {
        self.consumer
    }

    /// The processor each polled item is handed to.
    pub closed spec fn processor(&self) -> P {
        self.processor
    }

    /// Pairs `consumer` with `processor`.
    pub fn new(consumer: C, processor: P) -> (r: Runner<C, P>)
        ensures
            r.consumer() == consumer,
            r.processor() == processor,
    {
        Runner { consumer, processor }
    }

    /// A read-only view of the consumer.
    pub fn consumer_ref(&self) -> (r: &C)
        ensures
            *r == self.consumer(),
    {
        &self.consumer
    }

    /// A read-only view of the processor.
    pub fn processor_ref(&self) -> (r: &P)
        ensures
            *r == self.processor(),
    {
        &self.processor
    }
}

impl<C, P> Runner<C, P> where C: Consumer, P: Processor<Item = C::Item> {
    /// Subscribes to `topics`, then loops: observe the cancellation signal,
    /// poll, process the polled item, commit it on processing success.
    ///
    /// A subscribe failure aborts before the loop with a consumer error. A
    /// processing failure surfaces as a processor error and the item is not
    /// committed; a commit failure surfaces as a consumer error; an empty
    /// poll is a no-op and a poll error is treated as transient, both leave
    /// the loop running. A fired signal ends the loop with success before
    /// any further poll or commit. Whenever the subscription was made,
    /// exactly one unsubscribe call is issued, on every exit path.
    ///
    /// The contract ties commits to processing: an item is committed exactly
    /// when processing that item returned success, and the number of commit
    /// calls equals the number of successful processor calls.
    pub fn run<S: CancelSignal>(&mut self, topics: &[&str], signal: &mut S) -> (r: Result<
        (),
        Error<C::Error, P::Error>,
    >)
        ensures
            final(self).consumer().subscriptions().len() == old(self).consumer().subscriptions().len() + 1,
            final(self).consumer().subscriptions().drop_last() == old(self).consumer().subscriptions(),
            final(self).consumer().subscriptions().last() is Err ==> {
                &&& (final(self).consumer().subscriptions().last() matches Err(e) ==> r == Err::<
                    (),
                    Error<C::Error, P::Error>,
                >(Error::Consumer(e)))
                &&& final(self).consumer().polls() == old(self).consumer().polls()
                &&& final(self).consumer().delivered() == old(self).consumer().delivered()
                &&& final(self).consumer().commit_calls() == old(self).consumer().commit_calls()
                &&& final(self).consumer().committed() == old(self).consumer().committed()
                &&& final(self).consumer().commit_errors() == old(self).consumer().commit_errors()
                &&& final(self).consumer().topics() == old(self).consumer().topics()
                &&& final(self).consumer().unsubscribes() == old(self).consumer().unsubscribes()
                &&& final(self).processor() == old(self).processor()
                &&& final(signal).observations() == old(signal).observations()
            },
            final(self).consumer().subscriptions().last() is Ok ==> {
                let delta = final(self).processor().calls().skip(
                    old(self).processor().calls().len() as int,
                );
                let succ = spec_successes(delta);
                &&& final(self).consumer().unsubscribes() == old(self).consumer().unsubscribes()
                    + 1
                &&& final(self).consumer().topics() == Seq::<Seq<char>>::empty()
                &&& old(self).processor().calls().is_prefix_of(final(self).processor().calls())
                &&& old(self).consumer().delivered().is_prefix_of(
                    final(self).consumer().delivered(),
                )
                &&& spec_call_items(delta) == final(self).consumer().delivered().skip(
                    old(self).consumer().delivered().len() as int,
                )
                &&& (forall|j: int| 0 <= j < delta.len() - 1 ==> (#[trigger] delta[j]).1 is Ok)
                &&& final(self).consumer().commit_calls() == old(self).consumer().commit_calls()
                    + succ.len()
                &&& !(r matches Err(Error::Consumer(_))) ==> final(self).consumer().committed()
                    == old(self).consumer().committed() + succ
                &&& r matches Err(Error::Consumer(_)) ==> succ.len() > 0 && final(self).consumer().committed() == old(self).consumer().committed() + succ.drop_last()
                &&& !(r matches Err(Error::Consumer(_))) ==> final(self).consumer().commit_errors()
                    == old(self).consumer().commit_errors()
                &&& r matches Err(Error::Consumer(e)) ==> final(self).consumer().commit_errors()
                    == old(self).consumer().commit_errors().push(e)
                &&& old(signal).observations().is_prefix_of(final(signal).observations())
                &&& final(signal).observations().len() >= old(signal).observations().len() + 1
                &&& (forall|j: int|
                    old(signal).observations().len() <= j < final(signal).observations().len() - 1
                        ==> !(#[trigger] final(signal).observations()[j]))
                &&& r is Ok ==> {
                    &&& final(signal).observations().last()
                    &&& final(self).consumer().polls() - old(self).consumer().polls() == final(signal).observations().len() - old(signal).observations().len() - 1
                    &&& (delta.len() == 0 || delta.last().1 is Ok)
                    &&& final(self).consumer().committed() == old(self).consumer().committed()
                        + succ
                }
                &&& r is Err ==> {
                    &&& !final(signal).observations().last()
                    &&& final(self).consumer().polls() - old(self).consumer().polls() == final(signal).observations().len() - old(signal).observations().len()
                }
                &&& r matches Err(Error::Processor(e)) ==> delta.len() >= 1 && delta.last().1
                    == Err::<P::Output, P::Error>(e)
                &&& r matches Err(Error::Consumer(_)) ==> delta.len() >= 1 && delta.last().1 is Ok
                &&& delta.len() == 0 ==> final(self).processor() == old(self).processor()
                &&& delta.len() == 1 ==> P::step(
                    old(self).processor(),
                    final(self).processor(),
                    delta[0].0,
                    delta[0].1,
                )
            },
    {
        match self.consumer.subscribe(topics) {
            Err(e) => {
                proof {
                    assert(self.consumer.subscriptions().drop_last() =~= old(self).consumer.subscriptions());
                }
                return Err(Error::Consumer(e));
            },
            Ok(()) => {},
        }
        proof {
            assert(self.consumer.subscriptions().drop_last() =~= old(self).consumer.subscriptions());
        }
        let mut outcome: Result<(), Error<C::Error, P::Error>> = Ok(());
        loop
            invariant_except_break
                outcome is Ok,
                ({
                    let delta = self.processor.calls().skip(
                        old(self).processor.calls().len() as int,
                    );
                    &&& (forall|j: int| 0 <= j < delta.len() ==> (#[trigger] delta[j]).1 is Ok)
                    &&& self.consumer.commit_calls() == old(self).consumer.commit_calls()
                        + spec_successes(delta).len()
                    &&& self.consumer.committed() == old(self).consumer.committed()
                        + spec_successes(delta)
                }),
                self.consumer.commit_errors() == old(self).consumer.commit_errors(),
                self.consumer.polls() - old(self).consumer.polls() == signal.observations().len()
                    - old(signal).observations().len(),
                forall|j: int|
                    old(signal).observations().len() <= j < signal.observations().len() ==> !(
                    #[trigger] signal.observations()[j]),
            invariant
                self.consumer.subscriptions() == old(self).consumer.subscriptions().push(
                    Ok::<(), C::Error>(()),
                ),
                self.consumer.topics() == spec_topic_views(topics@),
                self.consumer.unsubscribes() == old(self).consumer.unsubscribes(),
                old(self).processor.calls().is_prefix_of(self.processor.calls()),
                old(self).consumer.delivered().is_prefix_of(self.consumer.delivered()),
                spec_call_items(
                    self.processor.calls().skip(old(self).processor.calls().len() as int),
                ) == self.consumer.delivered().skip(old(self).consumer.delivered().len() as int),
                old(signal).observations().is_prefix_of(signal.observations()),
                self.processor.calls().len() == old(self).processor.calls().len()
                    ==> self.processor == old(self).processor,
                ({
                    let delta = self.processor.calls().skip(
                        old(self).processor.calls().len() as int,
                    );
                    delta.len() == 1 ==> P::step(
                        old(self).processor,
                        self.processor,
                        delta[0].0,
                        delta[0].1,
                    )
                }),
            ensures
                ({
                    let delta = self.processor.calls().skip(
                        old(self).processor.calls().len() as int,
                    );
                    let succ = spec_successes(delta);
                    &&& (forall|j: int| 0 <= j < delta.len() - 1 ==> (#[trigger] delta[j]).1
                        is Ok)
                    &&& self.consumer.commit_calls() == old(self).consumer.commit_calls()
                        + succ.len()
                    &&& !(outcome matches Err(Error::Consumer(_))) ==> self.consumer.committed()
                        == old(self).consumer.committed() + succ
                    &&& outcome matches Err(Error::Consumer(_)) ==> succ.len() > 0
                        && self.consumer.committed() == old(self).consumer.committed()
                        + succ.drop_last()
                    &&& !(outcome matches Err(Error::Consumer(_))) ==> self.consumer.commit_errors()
                        == old(self).consumer.commit_errors()
                    &&& outcome matches Err(Error::Consumer(e2)) ==> self.consumer.commit_errors()
                        == old(self).consumer.commit_errors().push(e2)
                    &&& old(signal).observations().is_prefix_of(signal.observations())
                    &&& signal.observations().len() >= old(signal).observations().len() + 1
                    &&& (forall|j: int|
                        old(signal).observations().len() <= j < signal.observations().len() - 1
                            ==> !(#[trigger] signal.observations()[j]))
                    &&& outcome is Ok ==> {
                        &&& signal.observations().last()
                        &&& self.consumer.polls() - old(self).consumer.polls()
                            == signal.observations().len() - old(signal).observations().len() - 1
                        &&& (delta.len() == 0 || delta.last().1 is Ok)
                        &&& self.consumer.committed() == old(self).consumer.committed() + succ
                    }
                    &&& outcome is Err ==> {
                        &&& !signal.observations().last()
                        &&& self.consumer.polls() - old(self).consumer.polls()
                            == signal.observations().len() - old(signal).observations().len()
                    }
                    &&& outcome matches Err(Error::Processor(e)) ==> delta.len() >= 1
                        && delta.last().1 == Err::<P::Output, P::Error>(e)
                    &&& outcome matches Err(Error::Consumer(_)) ==> delta.len() >= 1
                        && delta.last().1 is Ok
                    &&& delta.len() == 0 ==> self.processor == old(self).processor
                    &&& delta.len() == 1 ==> P::step(
                        old(self).processor,
                        self.processor,
                        delta[0].0,
                        delta[0].1,
                    )
                }),
            decreases signal.patience(),
        {
            let ghost calls_pre = self.processor.calls();
            let ghost delta_pre = calls_pre.skip(old(self).processor.calls().len() as int);
            if signal.observe() {
                break ;
            }
            match self.consumer.poll() {
                Ok(Some(item)) => {
                    match self.processor.process(&item) {
                        Ok(_output) => {
                            proof {
                                lemma_skip_push(
                                    calls_pre,
                                    old(self).processor.calls().len() as int,
                                    self.processor.calls().last(),
                                );
                                lemma_items_push(delta_pre, self.processor.calls().last());
                                lemma_successes_push(delta_pre, self.processor.calls().last());
                                lemma_prefix_push(
                                    old(self).processor.calls(),
                                    calls_pre,
                                    self.processor.calls().last(),
                                );
                            }
                            match self.consumer.commit(item) {
                                Ok(()) => {},
                                Err(e) => {
                                    outcome = Err(Error::Consumer(e));
                                    break ;
                                },
                            }
                        },
                        Err(e) => {
                            proof {
                                lemma_skip_push(
                                    calls_pre,
                                    old(self).processor.calls().len() as int,
                                    self.processor.calls().last(),
                                );
                                lemma_items_push(delta_pre, self.processor.calls().last());
                                lemma_successes_push(delta_pre, self.processor.calls().last());
                                lemma_prefix_push(
                                    old(self).processor.calls(),
                                    calls_pre,
                                    self.processor.calls().last(),
                                );
                            }
                            outcome = Err(Error::Processor(e));
                            break ;
                        },
                    }
                },
                Ok(None) => {},
                Err(_transient) => {},
            }
        }
        self.consumer.unsubscribe();
        outcome
    }
}

proof fn lemma_skip_push<T>(s: Seq<T>, n: int, x: T)
    requires
        0 <= n <= s.len(),
    ensures
        s.push(x).skip(n) =~= s.skip(n).push(x),
{
}

proof fn lemma_prefix_push<T>(pre: Seq<T>, s: Seq<T>, x: T)
    requires
        pre.is_prefix_of(s),
    ensures
        pre.is_prefix_of(s.push(x)),
{
    assert(s.push(x).take(pre.len() as int) =~= s.take(pre.len() as int));
}

} // verus!
