//! In-memory implementations of the pipeline capabilities, driven by fixed
//! scripts; they exercise the pipeline without a broker and record every
//! call made on them.

use vstd::prelude::*;

use crate::messaging::consumer::spec_topic_views;
use crate::messaging::consumer::Consumer;
use crate::messaging::failover::Failover;
use crate::messaging::processor::Processor;
use crate::messaging::processor::Suspend;
use crate::messaging::runner::CancelSignal;

verus! {

/// A suspension capability that records each requested delay instead of
/// waiting it out; waiting for real is outside work that a caller supplies.
pub struct RecordingSuspend {
    log: Vec<u64>,
}

impl RecordingSuspend {
    /// A recorder with nothing recorded yet.
    pub fn new() -> (r: RecordingSuspend)
        ensures
            r.slept() == Seq::<u64>::empty(),
    {
        RecordingSuspend { log: Vec::new() }
    }

    /// The delays requested so far, in request order, in milliseconds.
    pub fn recorded(&self) -> (r: &Vec<u64>)
        ensures
            r@ == self.slept(),
    {
        &self.log
    }
}

impl Suspend for RecordingSuspend {
    closed spec fn slept(&self) -> Seq<u64> {
        self.log@
    }

    fn suspend(&mut self, millis: u64) {
        self.log.push(millis);
    }
}

/// A processor over `u64` items that fails a configured number of leading
/// calls, or every call, and echoes the item back once it succeeds.
pub struct ScriptedProcessor {
    failures_left: usize,
    fail_forever: bool,
    error_code: u64,
    log: Vec<(u64, Result<u64, u64>)>,
}

impl ScriptedProcessor {
    /// How many further calls will fail before one succeeds.
    pub closed spec fn remaining_failures(&self) -> nat {
        self.failures_left as nat
    }

    /// Whether every call fails.
    pub closed spec fn fails_forever(&self) -> bool {
        self.fail_forever
    }

    /// The error code failed calls return.
    pub closed spec fn fault(&self) -> u64 {
        self.error_code
    }

    /// A processor whose first `failures` calls fail with `error_code` and
    /// whose later calls succeed, echoing the item.
    pub fn succeed_after(failures: usize, error_code: u64) -> (r: ScriptedProcessor)
        ensures
            r.remaining_failures() == failures,
            !r.fails_forever(),
            r.fault() == error_code,
            r.calls() == Seq::<(u64, Result<u64, u64>)>::empty(),
    {
        ScriptedProcessor { failures_left: failures, fail_forever: false, error_code, log: Vec::new() }
    }

    /// A processor whose every call fails with `error_code`.
    pub fn always_failing(error_code: u64) -> (r: ScriptedProcessor)
        ensures
            r.fails_forever(),
            r.fault() == error_code,
            r.calls() == Seq::<(u64, Result<u64, u64>)>::empty(),
    {
        ScriptedProcessor { failures_left: 0, fail_forever: true, error_code, log: Vec::new() }
    }

    /// How many times the processor was invoked.
    pub fn times_called(&self) -> (n: usize)
        ensures
            n == self.calls().len(),
    {
        self.log.len()
    }
}

impl Processor for ScriptedProcessor {
    type Item = u64;

    type Output = u64;

    type Error = u64;

    closed spec fn calls(&self) -> Seq<(u64, Result<u64, u64>)> {
        self.log@
    }

    fn process(&mut self, item: &u64) -> (r: Result<u64, u64>)
        ensures
            r == (if old(self).fails_forever() || old(self).remaining_failures() > 0 {
                Err::<u64, u64>(old(self).fault())
            } else {
                Ok::<u64, u64>(*item)
            }),
            final(self).remaining_failures() == (if old(self).remaining_failures() > 0 {
                old(self).remaining_failures() - 1
            } else {
                0
            }),
            final(self).fails_forever() == old(self).fails_forever(),
            final(self).fault() == old(self).fault(),
    {
        let failing = self.fail_forever || self.failures_left > 0;
        if self.failures_left > 0 {
            self.failures_left = self.failures_left - 1;
        }
        let r: Result<u64, u64> = if failing {
            Err(self.error_code)
        } else {
            Ok(*item)
        };
        self.log.push((*item, r));
        r
    }
}

/// A failure handler over `u64` items that always succeeds or always fails,
/// recording what it was invoked with.
pub struct ScriptedFailover {
    succeed: bool,
    error_code: u64,
    inputs: Vec<(u64, u64)>,
    outcomes: Vec<Result<(), u64>>,
}

impl ScriptedFailover {
    /// Whether invocations succeed.
    pub closed spec fn succeeds(&self) -> bool {
        self.succeed
    }

    /// The error code failed invocations return.
    pub closed spec fn fault(&self) -> u64 {
        self.error_code
    }

    /// A handler whose every invocation succeeds.
    pub fn succeeding() -> (r: ScriptedFailover)
        ensures
            r.succeeds(),
            r.handled() == Seq::<(u64, u64)>::empty(),
            r.verdicts() == Seq::<Result<(), u64>>::empty(),
    {
        ScriptedFailover { succeed: true, error_code: 0, inputs: Vec::new(), outcomes: Vec::new() }
    }

    /// A handler whose every invocation fails with `error_code`.
    pub fn failing(error_code: u64) -> (r: ScriptedFailover)
        ensures
            !r.succeeds(),
            r.fault() == error_code,
            r.handled() == Seq::<(u64, u64)>::empty(),
            r.verdicts() == Seq::<Result<(), u64>>::empty(),
    {
        ScriptedFailover { succeed: false, error_code, inputs: Vec::new(), outcomes: Vec::new() }
    }

    /// How many times the handler was invoked.
    pub fn times_called(&self) -> (n: usize)
        ensures
            n == self.handled().len(),
    {
        self.inputs.len()
    }

    /// The item and error of each invocation, in order.
    pub fn inputs_seen(&self) -> (r: &Vec<(u64, u64)>)
        ensures
            r@ == self.handled(),
    {
        &self.inputs
    }
}

impl Failover for ScriptedFailover {
    type Item = u64;

    type InputError = u64;

    type Error = u64;

    closed spec fn handled(&self) -> Seq<(u64, u64)> {
        self.inputs@
    }

    closed spec fn verdicts(&self) -> Seq<Result<(), u64>> {
        self.outcomes@
    }

    fn failover(&mut self, item: &u64, ie: &u64) -> (r: Result<(), u64>)
        ensures
            r == (if old(self).succeeds() {
                Ok::<(), u64>(())
            } else {
                Err::<(), u64>(old(self).fault())
            }),
            final(self).succeeds() == old(self).succeeds(),
            final(self).fault() == old(self).fault(),
    {
        let r: Result<(), u64> = if self.succeed {
            Ok(())
        } else {
            Err(self.error_code)
        };
        self.inputs.push((*item, *ie));
        self.outcomes.push(r);
        r
    }
}

/// What one scripted poll yields.
#[derive(Clone, Copy, Debug)]
pub enum PollStep {
    /// The poll hands this item out.
    Deliver(u64),
    /// The poll comes back empty.
    Empty,
    /// The poll fails with this broker error code.
    Fail(u64),
}

/// A consumer over `u64` items that answers polls from a fixed script, then
/// keeps answering empty; it records every call made on it.
pub struct ScriptedConsumer {
    script: Vec<PollStep>,
    pos: usize,
    accept_subscribe: bool,
    accept_commit: bool,
    error_code: u64,
    auto: bool,
    poll_answers: Vec<PollStep>,
    delivered_log: Vec<u64>,
    committed_log: Vec<u64>,
    commit_results: Vec<bool>,
    commit_error_log: Vec<u64>,
    subscribe_results: Vec<Result<(), u64>>,
    subscribed: Vec<String>,
    unsubscribe_ticks: Vec<u8>,
}

impl ScriptedConsumer {
    /// The poll script; entries past `script_pos` are still to come.
    pub closed spec fn script(&self) -> Seq<PollStep> {
        self.script@
    }

    /// How far into the script polling has come.
    pub closed spec fn script_pos(&self) -> nat {
        self.pos as nat
    }

    /// Whether subscribe calls are accepted.
    pub closed spec fn accepts_subscribe(&self) -> bool {
        self.accept_subscribe
    }

    /// Whether commit calls are accepted.
    pub closed spec fn accepts_commit(&self) -> bool {
        self.accept_commit
    }

    /// The error code rejected subscribes and commits return.
    pub closed spec fn fault(&self) -> u64 {
        self.error_code
    }

    /// A consumer that answers its polls from `script`, accepts subscribes
    /// and commits, and reports `auto_commit` as asked.
    pub fn new(script: Vec<PollStep>, auto_commit: bool) -> (r: ScriptedConsumer)
        ensures
            r.script() == script@,
            r.script_pos() == 0,
            r.accepts_subscribe(),
            r.accepts_commit(),
            r.polls() == 0,
            r.delivered() == Seq::<u64>::empty(),
            r.commit_calls() == 0,
            r.committed() == Seq::<u64>::empty(),
            r.commit_errors() == Seq::<u64>::empty(),
            r.subscriptions() == Seq::<Result<(), u64>>::empty(),
            r.topics() == Seq::<Seq<char>>::empty(),
            r.unsubscribes() == 0,
    {
        ScriptedConsumer {
            script,
            pos: 0,
            accept_subscribe: true,
            accept_commit: true,
            error_code: 0,
            auto: auto_commit,
            poll_answers: Vec::new(),
            delivered_log: Vec::new(),
            committed_log: Vec::new(),
            commit_results: Vec::new(),
            commit_error_log: Vec::new(),
            subscribe_results: Vec::new(),
            subscribed: Vec::new(),
            unsubscribe_ticks: Vec::new(),
        }
    }

    /// The same consumer, rejecting every subscribe with `code`.
    pub fn rejecting_subscribe(self, code: u64) -> (r: ScriptedConsumer)
        ensures
            !r.accepts_subscribe(),
            r.fault() == code,
            r.accepts_commit() == self.accepts_commit(),
            r.script() == self.script(),
            r.script_pos() == self.script_pos(),
            r.polls() == self.polls(),
            r.delivered() == self.delivered(),
            r.commit_calls() == self.commit_calls(),
            r.committed() == self.committed(),
            r.commit_errors() == self.commit_errors(),
            r.subscriptions() == self.subscriptions(),
            r.topics() == self.topics(),
            r.unsubscribes() == self.unsubscribes(),
    {
        ScriptedConsumer { accept_subscribe: false, error_code: code, ..self }
    }

    /// The same consumer, failing every commit with `code`.
    pub fn failing_commits(self, code: u64) -> (r: ScriptedConsumer)
        ensures
            !r.accepts_commit(),
            r.fault() == code,
            r.accepts_subscribe() == self.accepts_subscribe(),
            r.script() == self.script(),
            r.script_pos() == self.script_pos(),
            r.polls() == self.polls(),
            r.delivered() == self.delivered(),
            r.commit_calls() == self.commit_calls(),
            r.committed() == self.committed(),
            r.commit_errors() == self.commit_errors(),
            r.subscriptions() == self.subscriptions(),
            r.topics() == self.topics(),
            r.unsubscribes() == self.unsubscribes(),
    {
        ScriptedConsumer { accept_commit: false, error_code: code, ..self }
    }

    /// How many polls were made.
    pub fn poll_count(&self) -> (n: usize)
        ensures
            n == self.polls(),
    {
        self.poll_answers.len()
    }

    /// The items handed out by polls, in delivery order.
    pub fn delivered_items(&self) -> (r: &Vec<u64>)
        ensures
            r@ == self.delivered(),
    {
        &self.delivered_log
    }

    /// How many commit calls were made, counting failed ones.
    pub fn commit_count(&self) -> (n: usize)
        ensures
            n == self.commit_calls(),
    {
        self.commit_results.len()
    }

    /// The items whose commit succeeded, in commit order.
    pub fn committed_items(&self) -> (r: &Vec<u64>)
        ensures
            r@ == self.committed(),
    {
        &self.committed_log
    }

    /// The errors of the commit calls that failed, in call order.
    pub fn commit_error_codes(&self) -> (r: &Vec<u64>)
        ensures
            r@ == self.commit_errors(),
    {
        &self.commit_error_log
    }

    /// The outcome of every subscribe call, in call order.
    pub fn subscription_results(&self) -> (r: &Vec<Result<(), u64>>)
        ensures
            r@ == self.subscriptions(),
    {
        &self.subscribe_results
    }

    /// The topics of the active subscription, empty when none stands.
    pub fn subscribed_topics(&self) -> (r: &Vec<String>)
        ensures
            r@.map_values(|s: String| s@) == self.topics(),
    {
        &self.subscribed
    }

    /// How many unsubscribe calls were made.
    pub fn unsubscribe_count(&self) -> (n: usize)
        ensures
            n == self.unsubscribes(),
    {
        self.unsubscribe_ticks.len()
    }
}

impl Consumer for ScriptedConsumer {
    type Item = u64;

    type Error = u64;

    closed spec fn polls(&self) -> nat {
        self.poll_answers@.len()
    }

    closed spec fn delivered(&self) -> Seq<u64> {
        self.delivered_log@
    }

    closed spec fn commit_calls(&self) -> nat {
        self.commit_results@.len()
    }

    closed spec fn committed(&self) -> Seq<u64> {
        self.committed_log@
    }

    closed spec fn commit_errors(&self) -> Seq<u64> {
        self.commit_error_log@
    }

    closed spec fn topics(&self) -> Seq<Seq<char>> {
        self.subscribed@.map_values(|s: String| s@)
    }

    closed spec fn subscriptions(&self) -> Seq<Result<(), u64>> {
        self.subscribe_results@
    }

    closed spec fn unsubscribes(&self) -> nat {
        self.unsubscribe_ticks@.len()
    }

    fn poll(&mut self) -> (r: Result<Option<u64>, u64>)
        ensures
            r == (if old(self).script_pos() < old(self).script().len() {
                match old(self).script()[old(self).script_pos() as int] {
                    PollStep::Deliver(v) => Ok::<Option<u64>, u64>(Some(v)),
                    PollStep::Empty => Ok::<Option<u64>, u64>(None),
                    PollStep::Fail(e) => Err::<Option<u64>, u64>(e),
                }
            } else {
                Ok::<Option<u64>, u64>(None)
            }),
            final(self).script() == old(self).script(),
            final(self).script_pos() == (if old(self).script_pos() < old(self).script().len() {
                old(self).script_pos() + 1
            } else {
                old(self).script_pos()
            }),
    {
        let step: PollStep = if self.pos < self.script.len() {
            let s = self.script[self.pos];
            self.pos = self.pos + 1;
            s
        } else {
            PollStep::Empty
        };
        self.poll_answers.push(step);
        match step {
            PollStep::Deliver(v) => {
                self.delivered_log.push(v);
                Ok(Some(v))
            },
            PollStep::Empty => Ok(None),
            PollStep::Fail(e) => Err(e),
        }
    }

    fn commit(&mut self, item: u64) -> (r: Result<(), u64>)
        ensures
            r == (if old(self).accepts_commit() {
                Ok::<(), u64>(())
            } else {
                Err::<(), u64>(old(self).fault())
            }),
    {
        if self.accept_commit {
            self.commit_results.push(true);
            self.committed_log.push(item);
            Ok(())
        } else {
            self.commit_results.push(false);
            self.commit_error_log.push(self.error_code);
            Err(self.error_code)
        }
    }

    fn subscribe(&mut self, topics: &[&str]) -> (r: Result<(), u64>)
        ensures
            r == (if old(self).accepts_subscribe() {
                Ok::<(), u64>(())
            } else {
                Err::<(), u64>(old(self).fault())
            }),
    {
        if self.accept_subscribe {
            let mut taken: Vec<String> = Vec::new();
            let mut i: usize = 0;
            while i < topics.len()
                invariant
                    0 <= i <= topics@.len(),
                    taken@.len() == i,
                    forall|j: int| 0 <= j < i ==> (#[trigger] taken@[j])@ == topics@[j]@,
                decreases topics@.len() - i,
            {
                taken.push(topics[i].to_owned());
                i = i + 1;
            }
            proof {
                assert(taken@.map_values(|s: String| s@) =~= spec_topic_views(topics@));
            }
            self.subscribed = taken;
            self.subscribe_results.push(Ok(()));
            Ok(())
        } else {
            self.subscribe_results.push(Err(self.error_code));
            Err(self.error_code)
        }
    }

    fn unsubscribe(&mut self) {
        self.subscribed = Vec::new();
        self.unsubscribe_ticks.push(1);
        proof {
            assert(self.subscribed@.map_values(|s: String| s@) =~= Seq::<Seq<char>>::empty());
        }
    }

    fn auto_commit(&self) -> bool {
        self.auto
    }
}

/// A one-shot cancellation signal that fires after a fixed number of
/// unfired observations.
pub struct CountdownSignal {
    remaining: usize,
    seen: Vec<bool>,
}

impl CountdownSignal {
    /// A signal whose first `unfired` observations come back unfired and
    /// which reports itself fired from then on.
    pub fn after(unfired: usize) -> (r: CountdownSignal)
        ensures
            r.patience() == unfired,
            r.observations() == Seq::<bool>::empty(),
    {
        CountdownSignal { remaining: unfired, seen: Vec::new() }
    }

    /// What every observation so far came back with, in order.
    pub fn observation_results(&self) -> (r: &Vec<bool>)
        ensures
            r@ == self.observations(),
    {
        &self.seen
    }
}

impl CancelSignal for CountdownSignal {
    closed spec fn observations(&self) -> Seq<bool> {
        self.seen@
    }

    closed spec fn patience(&self) -> nat {
        self.remaining as nat
    }

    fn observe(&mut self) -> (fired: bool)
        ensures
            fired == (old(self).patience() == 0),
            final(self).patience() == (if old(self).patience() == 0 {
                0
            } else {
                old(self).patience() - 1
            }),
    {
        let fired = if self.remaining == 0 {
            true
        } else {
            self.remaining = self.remaining - 1;
            false
        };
        self.seen.push(fired);
        fired
    }
}

} // verus!
