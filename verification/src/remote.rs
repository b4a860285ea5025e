//! The untyped bridge: the policy and dispatch core standing between wire
//! bytes and a typed actor.
//!
//! A bridge worker decodes inbound bytes with its codec, validates the
//! decoded message against a policy snapshot, forwards it to the actor,
//! and encodes the result.  Decoding and encoding serialise arbitrary
//! values and live with the codec; everything the bridge decides about a
//! decoded message is `bridge_step` below.

use vstd::prelude::*;

use crate::actors::Actor;
use crate::local::{step, step_spec, Status};
use crate::messaging::{Message, MsgError, MsgResult};

verus! {

/// Policy flags of one bridge.
///
/// The snapshot travels with each request so that flag toggles never race
/// a validation step.
#[derive(Debug, Clone, Copy, PartialEq, Eq, Structural)]
pub struct HandleOpts {
    /// Whether this bridge relays messages requiring mutation.
    pub allow_mut: bool,
    /// Whether this bridge relays `Stop` messages.
    pub allow_stop: bool,
}

impl HandleOpts {
    /// New option set with defaults: mutation and stopping both
    /// disallowed.
    pub fn new() -> (r: Self)
        ensures
            r.allow_mut == false,
            r.allow_stop == false,
    {
        HandleOpts { allow_mut: false, allow_stop: false }
    }

    /// Whether this option set admits the message: a `TaskMut` needs
    /// `allow_mut`, a `Stop` needs `allow_stop`, everything else passes.
    pub open spec fn validate_spec<I>(self, m: Message<I>) -> bool {
        match m {
            Message::TaskMut(_) => self.allow_mut,
            Message::Stop => self.allow_stop,
            _ => true,
        }
    }

    /// Validate a message against this option set; a rejected message
    /// yields `MsgError::NotAllowed`.
    pub fn validate<I, E>(&self, msg: &Message<I>) -> (r: Result<(), MsgError<E>>)
        ensures
            r matches Ok(u) <==> self.validate_spec(*msg),
            r is Err ==> r == Err::<(), MsgError<E>>(MsgError::NotAllowed),
    {
        match msg {
            Message::TaskMut(_) => if self.allow_mut {
                Ok(())
            } else {
                Err(MsgError::NotAllowed)
            },
            Message::Stop => if self.allow_stop {
                Ok(())
            } else {
                Err(MsgError::NotAllowed)
            },
            _ => Ok(()),
        }
    }

    /// Whether this option set relays messages requiring mutation.
    pub fn allow_mut(&self) -> (r: bool)
        ensures
            r == self.allow_mut,
    {
        self.allow_mut
    }

    /// Whether this option set relays `Stop` messages.
    pub fn allow_stop(&self) -> (r: bool)
        ensures
            r == self.allow_stop,
    {
        self.allow_stop
    }
}

/// What the bridge does with one decoded message: the actor state, status
/// and reply afterwards, and whether the worker exits after replying.
///
/// A message the policy rejects is answered `NotAllowed` without touching
/// the actor; an admitted message is dispatched exactly like a local
/// send, and an admitted `Stop` ends the worker after this cycle.
pub open spec fn bridge_step_spec<A: Actor<I, O, E>, I, O, E>(
    a: A,
    st: Status,
    opts: HandleOpts,
    m: Message<I>,
) -> (A, Status, MsgResult<O, E>, bool) {
    if !opts.validate_spec(m) {
        (a, st, Err(MsgError::NotAllowed), false)
    } else {
        let (a2, st2, r) = step_spec(a, st, m);
        (a2, st2, r, m is Stop)
    }
}

/// Process one decoded message through the bridge: validate against the
/// policy snapshot, then dispatch.  Returns the reply and whether the
/// worker exits after replying, exactly as `bridge_step_spec` says.
pub fn bridge_step<A: Actor<I, O, E>, I, O, E>(
    actor: &mut A,
    status: &mut Status,
    opts: &HandleOpts,
    msg: Message<I>,
) -> (r: (MsgResult<O, E>, bool))
    ensures
        (*final(actor), *final(status), r.0, r.1) == bridge_step_spec(
            *old(actor),
            *old(status),
            *opts,
            msg,
        ),
{
    let is_stop = matches!(msg, Message::<I>::Stop);
    match opts.validate::<I, E>(&msg) {
        Err(e) => (Err(e), false),
        Ok(_) => {
            let reply = step(actor, status, msg);
            (reply, is_stop)
        },
    }
}

/// On a freshly constructed bridge the default policy denies mutation: a
/// `TaskMut` is answered `NotAllowed` and the actor's handler is not
/// invoked, whatever the actor and its state.
pub proof fn lemma_default_policy_denies_mut<A: Actor<I, O, E>, I, O, E>(
    a: A,
    st: Status,
    input: I,
)
    ensures
        bridge_step_spec(a, st, (HandleOpts { allow_mut: false, allow_stop: false }), Message::TaskMut(input))
            == (a, st, Err::<crate::messaging::Reply<O>, MsgError<E>>(MsgError::NotAllowed), false),
{
}

/// Errors when spawning a bridged actor or messaging through its untyped
/// handle.
#[derive(Debug, Clone)]
pub enum Error {
    /// Spawning the underlying local actor failed.
    Local(crate::local::Error),
    /// Spawning the bridge worker failed.
    Spawn(String),
    /// The request could not be handed to the worker.
    Send(String),
    /// No reply came back from the worker.
    Recv(String),
    /// The inbound bytes could not be decoded as a message.
    Decode(String),
    /// The reply could not be encoded.
    Encode(String),
}

} // verus!
