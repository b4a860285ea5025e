//! Common models of the messaging surface that predates the untyped
//! bridge, kept for callers still speaking it.

use vstd::prelude::*;
use vstd::string::StringSliceAdditionalSpecFns;

verus! {

/// A message to an actor.
#[derive(Debug)]
pub struct Message<T> {
    /// The kind of message carried.
    pub message_type: MessageType<T>,
}

/// The kinds of messages an actor handles.
#[derive(Debug, Clone)]
pub enum MessageType<T> {
    /// A liveness ping.
    Ping,
    /// Signal the actor to stop itself.
    Stop,
    /// Carry out a task and send the result back.
    TaskRequest(T),
    /// Carry out a task; only acceptance is reported.
    Task(T),
}

/// The result of a successful message.
#[derive(Debug)]
pub enum TaskResult<T> {
    /// The message was accepted; no concrete value is returned.
    Accepted,
    /// The task finished and returned a value.
    Finished(T),
}

/// Errors at any stage of communication with an actor.
#[derive(Debug)]
pub enum MessagingError<E> {
    /// The message was accepted, but the task itself returned an error.
    Task(E),
    /// Communication with the authorizer failed.
    AuthHandle,
    /// The remote actor could not be reached.
    Dial,
    /// A message could not be sent.
    Send,
    /// A message was sent, but no response could be observed.
    Receive,
    /// An internal, unrecoverable error arose.
    Internal,
    /// The requester is unauthorized to perform the task solicited.
    Unauthorized,
    /// The requester has been marked as abusive and banned.
    Banned,
    /// A value had the wrong shape for encoding or decoding.
    Serialize,
}

/// The response of an actor.
pub type MessageResult<T, E> = Result<TaskResult<T>, MessagingError<E>>;

/// The protocol tag identifying actor messaging streams.
#[derive(Debug, Clone, PartialEq, Eq, Structural)]
pub enum ActorProtocol {
    /// Version 1.
    V1,
}

impl ActorProtocol {
    /// The on-wire name of this protocol version.
    pub fn protocol_name(&self) -> (r: &[u8])
        ensures
            r@ == "/myriam/v1".spec_bytes(),
    {
        match self {
            ActorProtocol::V1 => "/myriam/v1".as_bytes(),
        }
    }
}

/// The access a message type requires: `Ping` and `Stop` map to their own
/// descriptions, both task kinds to `Task`.
pub open spec fn access_of_spec<T>(m: MessageType<T>) -> crate::auth::AccessDescription {
    match m {
        MessageType::Ping => crate::auth::AccessDescription::Ping,
        MessageType::Stop => crate::auth::AccessDescription::Stop,
        _ => crate::auth::AccessDescription::Task,
    }
}

impl crate::auth::AccessDescription {
    /// The access this message type requires.
    pub fn of_message_type<T>(m: &MessageType<T>) -> (r: Self)
        ensures
            r == access_of_spec(*m),
    {
        match m {
            MessageType::Ping => crate::auth::AccessDescription::Ping,
            MessageType::Stop => crate::auth::AccessDescription::Stop,
            _ => crate::auth::AccessDescription::Task,
        }
    }
}

} // verus!
