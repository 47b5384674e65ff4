use mqkit::messaging::Consumer;
use mqkit::messaging::Error;
use mqkit::messaging::FailoverError;
use mqkit::messaging::FailoverProcessor;
use mqkit::messaging::Processor;
use mqkit::messaging::RetriableProcessor;
use mqkit::messaging::RetriableProcessorError;
use mqkit::messaging::Runner;
use mqkit::messaging::SubscribeGuard;
use mqkit::messaging::script::CountdownSignal;
use mqkit::messaging::script::PollStep;
use mqkit::messaging::script::RecordingSuspend;
use mqkit::messaging::script::ScriptedConsumer;
use mqkit::messaging::script::ScriptedFailover;
use mqkit::messaging::script::ScriptedProcessor;

#[test]
fn test_retry_exhausts_budget() {
    let mut rp = RetriableProcessor::new(
        ScriptedProcessor::always_failing(7),
        vec![5, 10, 15],
        RecordingSuspend::new(),
    );
    let r = rp.process(&42);
    assert!(matches!(r, Err(RetriableProcessorError::Retry(7))));
    assert_eq!(rp.processor_ref().times_called(), 4);
    assert_eq!(rp.suspender().recorded(), &vec![5, 10, 15]);
}

#[test]
fn test_retry_succeeds_midway() {
    let mut rp = RetriableProcessor::new(
        ScriptedProcessor::succeed_after(2, 9),
        vec![1, 2, 3],
        RecordingSuspend::new(),
    );
    let r = rp.process(&42);
    assert!(matches!(r, Ok(42)));
    assert_eq!(rp.processor_ref().times_called(), 3);
    assert_eq!(rp.suspender().recorded(), &vec![1, 2]);
}

#[test]
fn test_retry_empty_budget_means_one_try() {
    let mut rp = RetriableProcessor::new(
        ScriptedProcessor::always_failing(3),
        Vec::new(),
        RecordingSuspend::new(),
    );
    let r = rp.process(&1);
    assert!(matches!(r, Err(RetriableProcessorError::Retry(3))));
    assert_eq!(rp.processor_ref().times_called(), 1);
    assert_eq!(rp.suspender().recorded().len(), 0);
}

#[test]
fn test_retry_fresh_budget_per_item() {
    let mut rp = RetriableProcessor::new(
        ScriptedProcessor::succeed_after(1, 9),
        vec![8],
        RecordingSuspend::new(),
    );
    assert!(matches!(rp.process(&1), Ok(1)));
    assert!(matches!(rp.process(&2), Ok(2)));
    assert_eq!(rp.processor_ref().times_called(), 3);
    assert_eq!(rp.suspender().recorded(), &vec![8]);
}

#[test]
fn test_failover_not_invoked_on_success() {
    let mut fp = FailoverProcessor::new(
        ScriptedProcessor::succeed_after(0, 0),
        ScriptedFailover::succeeding(),
    );
    assert!(matches!(fp.process(&5), Ok(5)));
    assert_eq!(fp.handler_ref().times_called(), 0);
}

#[test]
fn test_failover_process_variant() {
    let mut fp = FailoverProcessor::new(
        ScriptedProcessor::always_failing(7),
        ScriptedFailover::succeeding(),
    );
    let r = fp.process(&42);
    assert!(matches!(r, Err(FailoverError::Process(7))));
    assert_eq!(fp.handler_ref().times_called(), 1);
    assert_eq!(fp.handler_ref().inputs_seen(), &vec![(42, 7)]);
}

#[test]
fn test_failover_failover_variant() {
    let mut fp = FailoverProcessor::new(
        ScriptedProcessor::always_failing(7),
        ScriptedFailover::failing(13),
    );
    let r = fp.process(&42);
    assert!(matches!(r, Err(FailoverError::Failover(7, 13))));
    assert_eq!(fp.handler_ref().inputs_seen(), &vec![(42, 7)]);
}

#[test]
fn test_runner_commits_each_success() {
    let consumer = ScriptedConsumer::new(
        vec![
            PollStep::Deliver(1),
            PollStep::Empty,
            PollStep::Deliver(2),
            PollStep::Fail(99),
            PollStep::Deliver(3),
        ],
        true,
    );
    let mut runner = Runner::new(consumer, ScriptedProcessor::succeed_after(0, 0));
    let mut signal = CountdownSignal::after(5);
    let r = runner.run(&["topic"], &mut signal);
    assert!(matches!(r, Ok(())));
    assert_eq!(runner.consumer_ref().poll_count(), 5);
    assert_eq!(runner.consumer_ref().commit_count(), 3);
    assert_eq!(runner.consumer_ref().committed_items(), &vec![1, 2, 3]);
    assert_eq!(runner.consumer_ref().unsubscribe_count(), 1);
    assert_eq!(runner.processor_ref().times_called(), 3);
}

#[test]
fn test_runner_processor_error_stops_loop() {
    let consumer = ScriptedConsumer::new(
        vec![PollStep::Deliver(1), PollStep::Deliver(2)],
        true,
    );
    let mut runner = Runner::new(consumer, ScriptedProcessor::always_failing(7));
    let mut signal = CountdownSignal::after(100);
    let r = runner.run(&["topic"], &mut signal);
    assert!(matches!(r, Err(Error::Processor(7))));
    assert_eq!(runner.consumer_ref().poll_count(), 1);
    assert_eq!(runner.consumer_ref().commit_count(), 0);
    assert_eq!(runner.consumer_ref().committed_items().len(), 0);
    assert_eq!(runner.consumer_ref().unsubscribe_count(), 1);
}

#[test]
fn test_runner_commit_failure_is_fatal() {
    let consumer = ScriptedConsumer::new(vec![PollStep::Deliver(1)], true).failing_commits(55);
    let mut runner = Runner::new(consumer, ScriptedProcessor::succeed_after(0, 0));
    let mut signal = CountdownSignal::after(100);
    let r = runner.run(&["topic"], &mut signal);
    assert!(matches!(r, Err(Error::Consumer(55))));
    assert_eq!(runner.consumer_ref().commit_count(), 1);
    assert_eq!(runner.consumer_ref().commit_error_codes(), &vec![55]);
    assert_eq!(runner.consumer_ref().committed_items().len(), 0);
    assert_eq!(runner.consumer_ref().unsubscribe_count(), 1);
}

#[test]
fn test_runner_subscribe_failure_aborts() {
    let consumer = ScriptedConsumer::new(vec![PollStep::Deliver(1)], true).rejecting_subscribe(44);
    let mut runner = Runner::new(consumer, ScriptedProcessor::succeed_after(0, 0));
    let mut signal = CountdownSignal::after(100);
    let r = runner.run(&["topic"], &mut signal);
    assert!(matches!(r, Err(Error::Consumer(44))));
    assert_eq!(runner.consumer_ref().poll_count(), 0);
    assert_eq!(runner.consumer_ref().unsubscribe_count(), 0);
}

#[test]
fn test_cancellation_before_any_poll() {
    let consumer = ScriptedConsumer::new(vec![PollStep::Deliver(1)], true);
    let mut runner = Runner::new(consumer, ScriptedProcessor::succeed_after(0, 0));
    let mut signal = CountdownSignal::after(0);
    let r = runner.run(&["topic"], &mut signal);
    assert!(matches!(r, Ok(())));
    assert_eq!(runner.consumer_ref().poll_count(), 0);
    assert_eq!(runner.consumer_ref().commit_count(), 0);
    assert_eq!(runner.consumer_ref().unsubscribe_count(), 1);
}

#[test]
fn test_guard_releases_exactly_once() {
    let consumer = ScriptedConsumer::new(Vec::new(), true);
    let guard = match SubscribeGuard::acquire(consumer, &["topic"]) {
        Ok(g) => g,
        Err(_) => panic!("subscribe accepted, guard expected"),
    };
    assert_eq!(guard.consumer.subscribed_topics(), &vec!["topic".to_string()]);
    let consumer = guard.release();
    assert_eq!(consumer.unsubscribe_count(), 1);
    assert_eq!(consumer.subscription_results(), &vec![Ok(())]);
    assert!(consumer.subscribed_topics().is_empty());
}

#[test]
fn test_guard_not_acquired_on_rejection() {
    let consumer = ScriptedConsumer::new(Vec::new(), true).rejecting_subscribe(44);
    match SubscribeGuard::acquire(consumer, &["topic"]) {
        Ok(_) => panic!("subscribe rejected, no guard expected"),
        Err((consumer, e)) => {
            assert_eq!(e, 44);
            assert_eq!(consumer.unsubscribe_count(), 0);
            assert_eq!(consumer.subscription_results(), &vec![Err(44)]);
            assert!(consumer.subscribed_topics().is_empty());
        },
    }
}

#[test]
fn test_retry_then_commit_end_to_end() {
    let consumer = ScriptedConsumer::new(vec![PollStep::Deliver(10)], true);
    let processor = RetriableProcessor::new(
        ScriptedProcessor::succeed_after(1, 7),
        vec![1000],
        RecordingSuspend::new(),
    );
    let mut runner = Runner::new(consumer, processor);
    let mut signal = CountdownSignal::after(1);
    let r = runner.run(&["topic"], &mut signal);
    assert!(matches!(r, Ok(())));
    assert_eq!(runner.consumer_ref().committed_items(), &vec![10]);
    assert_eq!(runner.processor_ref().processor_ref().times_called(), 2);
    let waited: u64 = runner.processor_ref().suspender().recorded().iter().sum();
    assert!(waited >= 1000);
}

#[test]
fn test_exhausted_retries_end_to_end() {
    let consumer = ScriptedConsumer::new(vec![PollStep::Deliver(10)], true);
    let processor = RetriableProcessor::new(
        ScriptedProcessor::always_failing(7),
        vec![1, 1],
        RecordingSuspend::new(),
    );
    let mut runner = Runner::new(consumer, processor);
    let mut signal = CountdownSignal::after(100);
    let r = runner.run(&["topic"], &mut signal);
    assert!(matches!(
        r,
        Err(Error::Processor(RetriableProcessorError::Retry(7)))
    ));
    assert_eq!(runner.consumer_ref().commit_count(), 0);
    assert_eq!(runner.consumer_ref().unsubscribe_count(), 1);
    assert_eq!(runner.processor_ref().processor_ref().times_called(), 3);
}

#[test]
fn test_failover_success_end_to_end() {
    let consumer = ScriptedConsumer::new(vec![PollStep::Deliver(10)], true);
    let processor = FailoverProcessor::new(
        ScriptedProcessor::always_failing(7),
        ScriptedFailover::succeeding(),
    );
    let mut runner = Runner::new(consumer, processor);
    let mut signal = CountdownSignal::after(100);
    let r = runner.run(&["topic"], &mut signal);
    assert!(matches!(r, Err(Error::Processor(FailoverError::Process(7)))));
    assert_eq!(runner.consumer_ref().commit_count(), 0);
    assert_eq!(runner.consumer_ref().unsubscribe_count(), 1);
    assert_eq!(runner.processor_ref().handler_ref().times_called(), 1);
    assert_eq!(runner.processor_ref().handler_ref().inputs_seen(), &vec![(10, 7)]);
}

#[test]
fn test_auto_commit_is_reported() {
    let on = ScriptedConsumer::new(Vec::new(), true);
    let off = ScriptedConsumer::new(Vec::new(), false);
    assert!(on.auto_commit());
    assert!(!off.auto_commit());
}
