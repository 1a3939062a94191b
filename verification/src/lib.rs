//! A fixed-rate record pipeline: a paced producer, a bounded hand-off channel and
//! a consumer that persists every record and reports its latency.
//!
//! The crate holds the decisions of the pipeline as verified state machines. The
//! caller owns the threads, the clock, the channel and the storage sink: it feeds
//! each machine the events it observes and performs the actions it is handed.
//!
//! - `record`, `clock`, `report`, `error`: the values that travel through the
//!   pipeline and come out of it.
//! - `shutdown`: the flag that asks the producer to stop.
//! - `producer`, `consumer`: the two workers, each as a machine from state and
//!   event to next state and action.
//! - `channel`: what the bounded channel between them does.
//! - `pipeline`: the workers, the channel and the sink as one machine that is
//!   driven by a schedule of turns.
//! - `consistency`, `laws`: what holds of every run, and why.

pub mod channel;
pub mod clock;
pub mod consistency;
pub mod consumer;
pub mod error;
pub mod laws;
pub mod pipeline;
pub mod producer;
pub mod record;
pub mod report;
pub mod shutdown;
