//! The message-consumption pipeline: capability interfaces for a broker
//! consumer, a message processor and a failure handler; decorators adding
//! bounded retry and failover to a processor; and a runner that drives
//! subscribe, poll, process and commit under cooperative cancellation.

pub mod composition;
pub mod consumer;
pub mod failover;
pub mod processor;
pub mod runner;
pub mod script;

pub use consumer::Consumer;
pub use consumer::SubscribeGuard;
pub use failover::Failover;
pub use processor::FailoverError;
pub use processor::FailoverProcessor;
pub use processor::Processor;
pub use processor::RetriableProcessor;
pub use processor::RetriableProcessorError;
pub use processor::Suspend;
pub use runner::CancelSignal;
pub use runner::Runner;
pub use runner::Error;
