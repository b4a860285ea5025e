//! The local actor runtime's state machine.
//!
//! A spawned actor is a worker that drains a FIFO mailbox.  Everything the
//! worker decides — which handler a message invokes, what reply it
//! produces, when the worker stops — is the pure state machine below; the
//! surrounding task and channel plumbing merely feeds it messages in
//! mailbox order.

use vstd::prelude::*;

use crate::actors::Actor;
use crate::messaging::{Message, MsgError, MsgResult, Reply};

verus! {

/// Whether an actor's mailbox is still open.
///
/// A running actor is `Ready` between messages; processing `Stop` moves it
/// to `Stopped`, after which every send fails.
#[derive(Debug, Clone, Copy, PartialEq, Eq, Structural)]
pub enum Status {
    /// The worker is waiting for the next message.
    Ready,
    /// The worker has processed a `Stop` and its mailbox is closed.
    Stopped,
}

/// What one dispatch step does: the actor state, status and reply after
/// processing `m` from state `(a, st)`.
///
/// * In `Stopped`, the mailbox is closed and the send fails with `Send`.
/// * `Task(i)` invokes the read-only handler; `Ok(o)` maps to
///   `Reply::Task(o)`, `Err(e)` to `MsgError::Task(e)`.
/// * `TaskMut(i)` invokes the mutating handler; a returned value maps to
///   `Reply::Task(o)`, absence of a value to `Reply::Accepted`, an error
///   to `MsgError::Task(e)`.
/// * `Ping` is answered `Reply::Accepted` without invoking a handler.
/// * `Stop` is answered `Reply::Accepted` and moves the actor to
///   `Stopped`.
pub open spec fn step_spec<A: Actor<I, O, E>, I, O, E>(
    a: A,
    st: Status,
    m: Message<I>,
) -> (A, Status, MsgResult<O, E>) {
    if st is Stopped {
        (a, st, Err(MsgError::Send))
    } else {
        match m {
            Message::Task(i) => (
                a,
                Status::Ready,
                match a.handler_spec(i) {
                    Ok(o) => Ok(Reply::Task(o)),
                    Err(e) => Err(MsgError::Task(e)),
                },
            ),
            Message::TaskMut(i) => (
                a.handler_mut_state_spec(i),
                Status::Ready,
                match a.handler_mut_result_spec(i) {
                    Ok(Some(o)) => Ok(Reply::Task(o)),
                    Ok(None) => Ok(Reply::Accepted),
                    Err(e) => Err(MsgError::Task(e)),
                },
            ),
            Message::Ping => (a, Status::Ready, Ok(Reply::Accepted)),
            Message::Stop => (a, Status::Stopped, Ok(Reply::Accepted)),
        }
    }
}

/// Process one message, exactly as `step_spec` says.
pub fn step<A: Actor<I, O, E>, I, O, E>(
    actor: &mut A,
    status: &mut Status,
    msg: Message<I>,
) -> (r: MsgResult<O, E>)
    ensures
        (*final(actor), *final(status), r) == step_spec(*old(actor), *old(status), msg),
{
    match *status {
        Status::Stopped => Err(MsgError::Send),
        Status::Ready => match msg {
            Message::Task(i) => match actor.handler(i) {
                Ok(o) => Ok(Reply::Task(o)),
                Err(e) => Err(MsgError::Task(e)),
            },
            Message::TaskMut(i) => match actor.handler_mut(i) {
                Ok(Some(o)) => Ok(Reply::Task(o)),
                Ok(None) => Ok(Reply::Accepted),
                Err(e) => Err(MsgError::Task(e)),
            },
            Message::Ping => Ok(Reply::Accepted),
            Message::Stop => {
                *status = Status::Stopped;
                Ok(Reply::Accepted)
            },
        },
    }
}

/// The effect of draining a whole mailbox front to back: the final actor
/// state and status, and one reply per message, in mailbox order.
pub open spec fn run_spec<A: Actor<I, O, E>, I, O, E>(
    a: A,
    st: Status,
    msgs: Seq<Message<I>>,
) -> (A, Status, Seq<MsgResult<O, E>>)
    decreases msgs.len(),
{
    if msgs.len() == 0 {
        (a, st, Seq::empty())
    } else {
        let (a1, st1, r) = step_spec(a, st, msgs[0]);
        let (a2, st2, rs) = run_spec(a1, st1, msgs.skip(1));
        (a2, st2, seq![r] + rs)
    }
}

/// Drain a mailbox in FIFO order.
///
/// Handler invocations happen in the order the messages stand in `msgs`,
/// and `replies[k]` is the reply to `msgs[k]`, exactly as `run_spec` says.
pub fn run_mailbox<A: Actor<I, O, E>, I, O, E>(
    actor: &mut A,
    status: &mut Status,
    msgs: Vec<Message<I>>,
) -> (replies: Vec<MsgResult<O, E>>)
    ensures
        (*final(actor), *final(status), replies@) == run_spec(
            *old(actor),
            *old(status),
            msgs@,
        ),
{
    let ghost a0 = *actor;
    let ghost st0 = *status;
    let ghost all = msgs@;
    let mut pending = msgs;
    let mut replies: Vec<MsgResult<O, E>> = Vec::new();
    while pending.len() > 0
        invariant
            run_spec(a0, st0, all) == {
                let (a2, st2, rs) = run_spec(*actor, *status, pending@);
                (a2, st2, replies@ + rs)
            },
        decreases pending.len(),
    {
        let ghost pend0 = pending@;
        let ghost rep0 = replies@;
        let m = pending.remove(0);
        let r = step(actor, status, m);
        replies.push(r);
        proof {
            assert(pending@ =~= pend0.skip(1));
            let (a1, st1, rr) = step_spec(a0, st0, m);
            let (a2, st2, rs) = run_spec(*actor, *status, pending@);
            assert(rep0 + (seq![r] + rs) =~= replies@ + rs);
        }
    }
    replies
}

/// Draining a mailbox produces exactly one reply per message.
pub proof fn lemma_run_spec_len<A: Actor<I, O, E>, I, O, E>(
    a: A,
    st: Status,
    msgs: Seq<Message<I>>,
)
    ensures
        run_spec(a, st, msgs).2.len() == msgs.len(),
    decreases msgs.len(),
{
    if msgs.len() > 0 {
        let (a1, st1, r) = step_spec(a, st, msgs[0]);
        lemma_run_spec_len::<A, I, O, E>(a1, st1, msgs.skip(1));
    }
}

/// Once an actor is `Stopped`, every further send fails with `Send` and
/// the actor never changes again.
pub proof fn lemma_stopped_stays<A: Actor<I, O, E>, I, O, E>(
    a: A,
    msgs: Seq<Message<I>>,
    j: int,
)
    requires
        0 <= j < msgs.len(),
    ensures
        run_spec(a, Status::Stopped, msgs).0 == a,
        run_spec(a, Status::Stopped, msgs).1 == Status::Stopped,
        run_spec(a, Status::Stopped, msgs).2[j] == Err::<Reply<O>, MsgError<E>>(MsgError::Send),
    decreases msgs.len(),
{
    let tail = msgs.skip(1);
    let whole = run_spec(a, Status::Stopped, msgs);
    let rest = run_spec(a, Status::Stopped, tail);
    lemma_run_spec_len::<A, I, O, E>(a, Status::Stopped, tail);
    if msgs.len() == 1 {
        assert(tail.len() == 0);
        assert(rest == (a, Status::Stopped, Seq::<MsgResult<O, E>>::empty()));
    } else {
        lemma_stopped_stays::<A, I, O, E>(a, tail, if j > 0 { j - 1 } else { 0 });
    }
    assert(whole.2 == seq![Err::<Reply<O>, MsgError<E>>(MsgError::Send)] + rest.2);
    if j > 0 {
        assert(whole.2[j] == rest.2[j - 1]);
    }
}

/// Stop is terminal: once a `Stop` message was answered `Accepted`, every
/// later message in the same mailbox is answered `Err(Send)`.
pub proof fn lemma_stop_is_terminal<A: Actor<I, O, E>, I, O, E>(
    a: A,
    st: Status,
    msgs: Seq<Message<I>>,
    i: int,
    j: int,
)
    requires
        0 <= i < j < msgs.len(),
        msgs[i] is Stop,
        run_spec(a, st, msgs).2[i] == Ok::<Reply<O>, MsgError<E>>(Reply::Accepted),
    ensures
        run_spec(a, st, msgs).2[j] == Err::<Reply<O>, MsgError<E>>(MsgError::Send),
    decreases i,
{
    let (a1, st1, r) = step_spec(a, st, msgs[0]);
    let tail = msgs.skip(1);
    let whole = run_spec(a, st, msgs);
    let rest = run_spec(a1, st1, tail);
    lemma_run_spec_len::<A, I, O, E>(a1, st1, tail);
    assert(whole.2 == seq![r] + rest.2);
    assert(whole.2[0] == r);
    if i == 0 {
        assert(r == Ok::<Reply<O>, MsgError<E>>(Reply::Accepted));
        assert(st1 == Status::Stopped && a1 == a);
        lemma_stopped_stays::<A, I, O, E>(a1, tail, j - 1);
        assert(whole.2[j] == rest.2[j - 1]);
    } else {
        assert(whole.2[i] == rest.2[i - 1]);
        lemma_stop_is_terminal::<A, I, O, E>(a1, st1, tail, i - 1, j - 1);
        assert(whole.2[j] == rest.2[j - 1]);
    }
}

/// Errors when spawning an actor.
#[derive(Debug, Clone, PartialEq, Eq, Structural)]
pub enum Error {
    /// The worker could not be created or never confirmed readiness.
    Spawn,
}

} // verus!
