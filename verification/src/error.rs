//! The failures that end a run, and how the consumer's fate becomes the run's outcome.

use vstd::prelude::*;

verus! {

/// A fatal condition. Each one ends the run; none is retried.
#[derive(Clone, Copy, Debug, PartialEq, Eq, Structural)]
pub enum PipelineError {
    /// The shutdown handler could not be installed; no loop ever ran.
    SignalRegistration,
    /// The sink could not be created; the consumer never received a record.
    SinkCreation,
    /// The sink refused a record mid-stream.
    SinkWrite,
    /// The consumer ended abnormally instead of returning a result.
    ConsumerCrashed,
}

/// Makes `ctrlc::Error`, the report of why no interrupt handler could be
/// installed, known to the verifier as a value that is carried along and never
/// looked into.
#[verifier::external_type_specification]
#[verifier::external_body]
pub struct ExInterruptError(ctrlc::Error);

/// A run that could not start: what went wrong, and the platform's report of it.
#[derive(Debug)]
pub struct StartupFailure {
    pub kind: PipelineError,
    pub cause: ctrlc::Error,
}

/// How the consumer's thread of execution ended, as seen by whoever joins it.
#[derive(Clone, Copy, Debug, PartialEq, Eq)]
pub enum ConsumerExit {
    /// The consumer ran to its end and returned this result.
    Returned(Result<(), PipelineError>),
    /// The consumer was torn down without returning.
    Crashed,
}

/// The text that describes `error` to a person.
pub open spec fn message_of(error: PipelineError) -> Seq<char> {
    match error {
        PipelineError::SignalRegistration => "Couldn't register the shutdown handler"@,
        PipelineError::SinkCreation => "Couldn't create output file"@,
        PipelineError::SinkWrite => "Couldn't write output"@,
        PipelineError::ConsumerCrashed => "Couldn't join writer"@,
    }
}

/// The outcome of a run whose consumer ended as `exit`: the consumer's own result,
/// or `ConsumerCrashed` when it returned none.
pub open spec fn outcome_of(exit: ConsumerExit) -> Result<(), PipelineError> {
    match exit {
        ConsumerExit::Returned(result) => result,
        ConsumerExit::Crashed => Err(PipelineError::ConsumerCrashed),
    }
}

impl PipelineError {
    /// A short description of the failure.
    pub fn message(&self) -> (text: &'static str)
        ensures
            text@ == message_of(*self),
    {
        match self {
            PipelineError::SignalRegistration => "Couldn't register the shutdown handler",
            PipelineError::SinkCreation => "Couldn't create output file",
            PipelineError::SinkWrite => "Couldn't write output",
            PipelineError::ConsumerCrashed => "Couldn't join writer",
        }
    }
}

/// Turns the way the consumer ended into the outcome of the whole run.
pub fn run_outcome(exit: ConsumerExit) -> (outcome: Result<(), PipelineError>)
    ensures
        outcome == outcome_of(exit),
{
    match exit {
        ConsumerExit::Returned(result) => result,
        ConsumerExit::Crashed => Err(PipelineError::ConsumerCrashed),
    }
}

} // verus!
