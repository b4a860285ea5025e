//! Models for local and remote messaging.

use vstd::prelude::*;

verus! {

/// A message to an actor.
#[derive(Debug, Clone)]
pub enum Message<Input> {
    /// Task request with known input; handled by the read-only handler.
    Task(Input),
    /// Task request requiring mutation; handled by the mutating handler.
    TaskMut(Input),
    /// Ping this actor for liveness.
    Ping,
    /// Stop this actor.
    Stop,
}

/// A reply from an actor on success.
#[derive(Debug, Clone)]
pub enum Reply<Output> {
    /// Message processed, no output returned.
    Accepted,
    /// Task output.
    Task(Output),
}

/// Errors that can arise from actor messaging.
#[derive(Debug, Clone)]
pub enum MsgError<Error> {
    /// The message could not be enqueued or written.
    Send,
    /// No reply could be observed.
    Recv,
    /// The handler returned its typed error.
    Task(Error),
    /// A policy flag forbade this message kind.
    NotAllowed,
}

/// The outcome of a send operation.
pub type MsgResult<Output, Error> = Result<Reply<Output>, MsgError<Error>>;

} // verus!
