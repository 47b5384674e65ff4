//! The capability a pull-based broker consumer offers to the pipeline, and a
//! scoped guard that ties an active subscription to unsubscription.

use vstd::prelude::*;

verus! {

/// The views of a topic list, in the given order.
pub open spec fn spec_topic_views(topics: Seq<&str>) -> Seq<Seq<char>> {
    topics.map_values(|t: &str| t@)
}

/// Capability interface a broker client satisfies.
///
/// The spec functions form the model of a consumer that the contracts speak
/// of: counts and logs of the calls made on it, and the topic set of the
/// active subscription. An implementation decides freely what each call
/// returns; the contracts only pin how the model moves with every call.
pub trait Consumer {
    /// One unit of work pulled from the broker.
    type Item;

    /// Broker-layer error.
    type Error;

    // The default models let an implementation the verifier never sees
    // stay silent about its model; verified implementations override them.
    /// How many poll calls were made.
    open spec fn polls(&self) -> nat {
        0
    }

    /// The items handed out by polls, in delivery order.
    open spec fn delivered(&self) -> Seq<Self::Item> {
        Seq::empty()
    }

    /// How many commit calls were made, counting failed ones.
    open spec fn commit_calls(&self) -> nat {
        0
    }

    /// The items whose commit succeeded, in commit order.
    open spec fn committed(&self) -> Seq<Self::Item> {
        Seq::empty()
    }

    /// The errors of the commit calls that failed, in call order.
    open spec fn commit_errors(&self) -> Seq<Self::Error> {
        Seq::empty()
    }

    /// The outcome of every subscribe call, in call order.
    open spec fn subscriptions(&self) -> Seq<Result<(), Self::Error>> {
        Seq::empty()
    }

    /// The views of the topics of the active subscription, empty when none
    /// stands.
    open spec fn topics(&self) -> Seq<Seq<char>> {
        Seq::empty()
    }

    /// How many unsubscribe calls were made.
    open spec fn unsubscribes(&self) -> nat {
        0
    }

    /// A bounded-wait fetch; `Ok(None)` means no message arrived within the
    /// wait, not an error.
    fn poll(&mut self) -> (r: Result<Option<Self::Item>, Self::Error>)
        ensures
            final(self).polls() == old(self).polls() + 1,
            r matches Ok(Some(item)) ==> final(self).delivered() == old(self).delivered().push(
                item,
            ),
            !(r matches Ok(Some(_))) ==> final(self).delivered() == old(self).delivered(),
            final(self).commit_calls() == old(self).commit_calls(),
            final(self).committed() == old(self).committed(),
            final(self).commit_errors() == old(self).commit_errors(),
            final(self).subscriptions() == old(self).subscriptions(),
            final(self).topics() == old(self).topics(),
            final(self).unsubscribes() == old(self).unsubscribes(),
    ;

    /// Acknowledges that `item` was fully processed.
    fn commit(&mut self, item: Self::Item) -> (r: Result<(), Self::Error>)
        ensures
            final(self).commit_calls() == old(self).commit_calls() + 1,
            r is Ok ==> final(self).committed() == old(self).committed().push(item),
            r is Ok ==> final(self).commit_errors() == old(self).commit_errors(),
            r matches Err(e) ==> final(self).commit_errors() == old(self).commit_errors().push(e),
            r is Err ==> final(self).committed() == old(self).committed(),
            final(self).polls() == old(self).polls(),
            final(self).delivered() == old(self).delivered(),
            final(self).subscriptions() == old(self).subscriptions(),
            final(self).topics() == old(self).topics(),
            final(self).unsubscribes() == old(self).unsubscribes(),
    ;

    /// Activates consumption of the given topic set.
    fn subscribe(&mut self, topics: &[&str]) -> (r: Result<(), Self::Error>)
        ensures
            r is Ok ==> final(self).subscriptions() == old(self).subscriptions().push(
                Ok::<(), Self::Error>(()),
            ),
            r is Ok ==> final(self).topics() == spec_topic_views(topics@),
            r matches Err(e) ==> final(self).subscriptions() == old(self).subscriptions().push(
                Err::<(), Self::Error>(e),
            ),
            r is Err ==> final(self).topics() == old(self).topics(),
            final(self).polls() == old(self).polls(),
            final(self).delivered() == old(self).delivered(),
            final(self).commit_calls() == old(self).commit_calls(),
            final(self).committed() == old(self).committed(),
            final(self).commit_errors() == old(self).commit_errors(),
            final(self).unsubscribes() == old(self).unsubscribes(),
    ;

    /// Best-effort deactivation; infallible from the caller's view and safe
    /// to call more than once.
    fn unsubscribe(&mut self)
        ensures
            final(self).unsubscribes() == old(self).unsubscribes() + 1,
            final(self).topics() == Seq::<Seq<char>>::empty(),
            final(self).polls() == old(self).polls(),
            final(self).delivered() == old(self).delivered(),
            final(self).commit_calls() == old(self).commit_calls(),
            final(self).committed() == old(self).committed(),
            final(self).commit_errors() == old(self).commit_errors(),
            final(self).subscriptions() == old(self).subscriptions(),
    ;

    /// Whether commits only record a local high-water mark that the client
    /// pushes to the broker on its own schedule.
    fn auto_commit(&self) -> bool;
}

/// Scoped ownership of an active subscription: while the guard holds the
/// consumer, the consumer is subscribed to exactly the topics passed at
/// acquisition — polls and commits keep `topics()` untouched, and nothing
/// else can reach the consumer — and releasing the guard triggers exactly
/// one unsubscribe call.
pub struct SubscribeGuard<C: Consumer> {
    /// The subscribed consumer; polls and commits go through it.
    pub consumer: C,
}

impl<C: Consumer> SubscribeGuard<C> {
    /// Subscribes `consumer` to `topics`. On success the consumer moves into
    /// the guard, subscribed to exactly `topics`; on failure it is handed
    /// back with the broker's error and its subscription state unchanged.
    pub fn acquire(consumer: C, topics: &[&str]) -> (r: Result<SubscribeGuard<C>, (C, C::Error)>)
        ensures
            r matches Ok(g) ==> {
                &&& g.consumer.subscriptions() == consumer.subscriptions().push(
                    Ok::<(), C::Error>(()),
                )
                &&& g.consumer.topics() == spec_topic_views(topics@)
            },
            r matches Err((c, e)) ==> {
                &&& c.subscriptions() == consumer.subscriptions().push(Err::<(), C::Error>(e))
                &&& c.topics() == consumer.topics()
            },
            ({
                let c = match r {
                    Ok(g) => g.consumer,
                    Err((c, _)) => c,
                };
                &&& c.polls() == consumer.polls()
                &&& c.delivered() == consumer.delivered()
                &&& c.commit_calls() == consumer.commit_calls()
                &&& c.committed() == consumer.committed()
                &&& c.commit_errors() == consumer.commit_errors()
                &&& c.unsubscribes() == consumer.unsubscribes()
            }),
    {
        let mut consumer = consumer;
        match consumer.subscribe(topics) {
            Ok(()) => Ok(SubscribeGuard { consumer }),
            Err(e) => Err((consumer, e)),
        }
    }

    /// Ends the subscription's scope: issues exactly one unsubscribe call and
    /// hands the consumer back, subscribed to nothing.
    pub fn release(self) -> (c: C)
        ensures
            c.unsubscribes() == self.consumer.unsubscribes() + 1,
            c.topics() == Seq::<Seq<char>>::empty(),
            c.polls() == self.consumer.polls(),
            c.delivered() == self.consumer.delivered(),
            c.commit_calls() == self.consumer.commit_calls(),
            c.committed() == self.consumer.committed(),
            c.commit_errors() == self.consumer.commit_errors(),
            c.subscriptions() == self.consumer.subscriptions(),
    {
        let mut consumer = self.consumer;
        consumer.unsubscribe();
        consumer
    }
}

} // verus!
