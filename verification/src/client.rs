//! The transport client run on behalf of a suspended coroutine.
//!
//! When a coroutine suspends while a bridge task is in flight, the overridden
//! yield primitive performs one notification round trip: take a pooled
//! connection (validating it with the keep-alive probe) or dial a fresh one,
//! send the awaited task id, wait for `READY`, and return the connection to
//! the pool. Any transport failure discards the connection and ends the
//! attempt with a short cooldown — the host scheduler simply retries on a
//! later tick, and a suspension with no progress is never escalated to a
//! script-visible error.
//!
//! The decisions live here as a verified state machine; the host side
//! performs one transport operation per phase and feeds the outcome back.

use vstd::prelude::*;

use crate::protocol::Reply;

verus! {

/// Phase of one yield round trip; each phase has one pending operation.
#[derive(Debug, Clone, Copy, PartialEq, Eq, Structural)]
pub enum YieldPhase {
    /// Ask the pool for a connection.
    Acquire,
    /// Send the keep-alive probe on the pooled connection.
    Validate,
    /// Wait for the probe's reply.
    AwaitPong,
    /// Close a pooled connection that failed validation.
    DiscardStale,
    /// Open a fresh loopback connection.
    Dial,
    /// Send the awaited task id.
    Subscribe,
    /// Wait for the subscription's reply.
    AwaitReady,
    /// Pause briefly before pooling: the reply was not `READY`.
    SlowRequeue,
    /// Return the connection to the pool.
    Requeue,
    /// Close the connection: the pool is at capacity.
    CloseExtra,
    /// Close the connection after a failed send or receive.
    DiscardFailed,
    /// Pause briefly with no connection; the next tick retries.
    Backoff,
    /// The attempt is over; control goes back to the host scheduler.
    Done,
}

/// Outcome of the transport operation a phase asked for.
#[derive(Debug, Clone, Copy, PartialEq, Eq, Structural)]
pub enum ClientEvent {
    /// The pool handed out a connection.
    PoolHit,
    /// The pool was empty.
    PoolMiss,
    /// The operation (connect, send, close, pause) succeeded.
    Succeeded,
    /// The operation failed with an I/O error.
    Failed,
    /// A reply line arrived and was classified.
    GotReply(Reply),
    /// The pool accepted the connection back.
    Accepted,
    /// The pool was full and refused the connection.
    Rejected,
}

/// The single operation the host side must perform for a phase.
#[derive(Debug, Clone, Copy, PartialEq, Eq, Structural)]
pub enum ClientAction {
    /// Take a connection from the pool.
    Checkout,
    /// Open a fresh loopback connection.
    Connect,
    /// Send the `PING` probe line.
    SendPing,
    /// Receive and classify one reply line.
    ReceiveReply,
    /// Send the subscription line for the awaited task id.
    SendTaskId(u16),
    /// Return the connection to the pool.
    Checkin,
    /// Close the connection in hand.
    Close,
    /// Pause for the short cooldown (about a millisecond).
    Cooldown,
    /// Hand control back to the host scheduler.
    ReturnControl,
}

/// The transition relation of the round trip: the meaning of
/// `YieldClient::on_event`. It is total — no phase/outcome pair aborts, and
/// every unexpected outcome is treated like a transport failure.
pub open spec fn spec_step(p: YieldPhase, ev: ClientEvent) -> YieldPhase {
    match p {
        YieldPhase::Acquire => match ev {
            ClientEvent::PoolHit => YieldPhase::Validate,
            ClientEvent::PoolMiss => YieldPhase::Dial,
            _ => YieldPhase::Backoff,
        },
        YieldPhase::Validate => match ev {
            ClientEvent::Succeeded => YieldPhase::AwaitPong,
            _ => YieldPhase::DiscardStale,
        },
        YieldPhase::AwaitPong => match ev {
            ClientEvent::GotReply(Reply::Pong) => YieldPhase::Subscribe,
            _ => YieldPhase::DiscardStale,
        },
        YieldPhase::DiscardStale => YieldPhase::Dial,
        YieldPhase::Dial => match ev {
            ClientEvent::Succeeded => YieldPhase::Subscribe,
            _ => YieldPhase::Backoff,
        },
        YieldPhase::Subscribe => match ev {
            ClientEvent::Succeeded => YieldPhase::AwaitReady,
            _ => YieldPhase::DiscardFailed,
        },
        YieldPhase::AwaitReady => match ev {
            ClientEvent::GotReply(Reply::Ready) => YieldPhase::Requeue,
            ClientEvent::GotReply(_) => YieldPhase::SlowRequeue,
            _ => YieldPhase::DiscardFailed,
        },
        YieldPhase::SlowRequeue => YieldPhase::Requeue,
        YieldPhase::Requeue => match ev {
            ClientEvent::Accepted => YieldPhase::Done,
            _ => YieldPhase::CloseExtra,
        },
        YieldPhase::CloseExtra => YieldPhase::Done,
        YieldPhase::DiscardFailed => YieldPhase::Backoff,
        YieldPhase::Backoff => YieldPhase::Done,
        YieldPhase::Done => YieldPhase::Done,
    }
}

/// The operation pending in a phase: the meaning of `YieldClient::action`.
pub open spec fn spec_action(p: YieldPhase, task_id: u16) -> ClientAction {
    match p {
        YieldPhase::Acquire => ClientAction::Checkout,
        YieldPhase::Validate => ClientAction::SendPing,
        YieldPhase::AwaitPong => ClientAction::ReceiveReply,
        YieldPhase::DiscardStale => ClientAction::Close,
        YieldPhase::Dial => ClientAction::Connect,
        YieldPhase::Subscribe => ClientAction::SendTaskId(task_id),
        YieldPhase::AwaitReady => ClientAction::ReceiveReply,
        YieldPhase::SlowRequeue => ClientAction::Cooldown,
        YieldPhase::Requeue => ClientAction::Checkin,
        YieldPhase::CloseExtra => ClientAction::Close,
        YieldPhase::DiscardFailed => ClientAction::Close,
        YieldPhase::Backoff => ClientAction::Cooldown,
        YieldPhase::Done => ClientAction::ReturnControl,
    }
}

/// How many transitions a phase can still take before the attempt is over.
pub open spec fn rank(p: YieldPhase) -> nat {
    match p {
        YieldPhase::Acquire => 11,
        YieldPhase::Validate => 10,
        YieldPhase::AwaitPong => 9,
        YieldPhase::DiscardStale => 8,
        YieldPhase::Dial => 7,
        YieldPhase::Subscribe => 6,
        YieldPhase::AwaitReady => 5,
        YieldPhase::SlowRequeue => 4,
        YieldPhase::DiscardFailed => 4,
        YieldPhase::Requeue => 3,
        YieldPhase::CloseExtra => 2,
        YieldPhase::Backoff => 1,
        YieldPhase::Done => 0,
    }
}

/// One coroutine's yield round trip, keyed to the task it is waiting on.
pub struct YieldClient {
    phase: YieldPhase,
    task_id: u16,
}

impl YieldClient {
    /// The current phase.
    pub closed spec fn phase(self) -> YieldPhase {
        self.phase
    }

    /// The id of the task this coroutine is waiting on, cached before the
    /// first suspension point and fixed for the whole attempt.
    pub closed spec fn task(self) -> u16 {
        self.task_id
    }

    /// Starts a round trip for the task the coroutine is awaiting.
    pub fn new(task_id: u16) -> (c: YieldClient)
        ensures
            c.phase() == YieldPhase::Acquire,
            c.task() == task_id,
    {
        YieldClient { phase: YieldPhase::Acquire, task_id }
    }

    /// The transport operation to perform next.
    pub fn action(&self) -> (a: ClientAction)
        ensures
            a == spec_action(self.phase(), self.task()),
    {
        match self.phase {
            YieldPhase::Acquire => ClientAction::Checkout,
            YieldPhase::Validate => ClientAction::SendPing,
            YieldPhase::AwaitPong => ClientAction::ReceiveReply,
            YieldPhase::DiscardStale => ClientAction::Close,
            YieldPhase::Dial => ClientAction::Connect,
            YieldPhase::Subscribe => ClientAction::SendTaskId(self.task_id),
            YieldPhase::AwaitReady => ClientAction::ReceiveReply,
            YieldPhase::SlowRequeue => ClientAction::Cooldown,
            YieldPhase::Requeue => ClientAction::Checkin,
            YieldPhase::CloseExtra => ClientAction::Close,
            YieldPhase::DiscardFailed => ClientAction::Close,
            YieldPhase::Backoff => ClientAction::Cooldown,
            YieldPhase::Done => ClientAction::ReturnControl,
        }
    }

    /// Feeds back the outcome of the pending operation and moves to the
    /// next phase, exactly as `spec_step` describes.
    pub fn on_event(&mut self, ev: ClientEvent)
        ensures
            final(self).phase() == spec_step(old(self).phase(), ev),
            final(self).task() == old(self).task(),
    {
        let next = match self.phase {
            YieldPhase::Acquire => match ev {
                ClientEvent::PoolHit => YieldPhase::Validate,
                ClientEvent::PoolMiss => YieldPhase::Dial,
                _ => YieldPhase::Backoff,
            },
            YieldPhase::Validate => match ev {
                ClientEvent::Succeeded => YieldPhase::AwaitPong,
                _ => YieldPhase::DiscardStale,
            },
            YieldPhase::AwaitPong => match ev {
                ClientEvent::GotReply(Reply::Pong) => YieldPhase::Subscribe,
                _ => YieldPhase::DiscardStale,
            },
            YieldPhase::DiscardStale => YieldPhase::Dial,
            YieldPhase::Dial => match ev {
                ClientEvent::Succeeded => YieldPhase::Subscribe,
                _ => YieldPhase::Backoff,
            },
            YieldPhase::Subscribe => match ev {
                ClientEvent::Succeeded => YieldPhase::AwaitReady,
                _ => YieldPhase::DiscardFailed,
            },
            YieldPhase::AwaitReady => match ev {
                ClientEvent::GotReply(Reply::Ready) => YieldPhase::Requeue,
                ClientEvent::GotReply(_) => YieldPhase::SlowRequeue,
                _ => YieldPhase::DiscardFailed,
            },
            YieldPhase::SlowRequeue => YieldPhase::Requeue,
            YieldPhase::Requeue => match ev {
                ClientEvent::Accepted => YieldPhase::Done,
                _ => YieldPhase::CloseExtra,
            },
            YieldPhase::CloseExtra => YieldPhase::Done,
            YieldPhase::DiscardFailed => YieldPhase::Backoff,
            YieldPhase::Backoff => YieldPhase::Done,
            YieldPhase::Done => YieldPhase::Done,
        };
        self.phase = next;
    }

    /// True once control is to be handed back to the host scheduler.
    pub fn is_done(&self) -> (d: bool)
        ensures
            d == (self.phase() == YieldPhase::Done),
    {
        match self.phase {
            YieldPhase::Done => true,
            _ => false,
        }
    }
}

/// One yield attempt always hands control back to the host scheduler after
/// a bounded number of transport operations: every transition from a
/// non-final phase strictly decreases the phase rank, on the error path as
/// on the happy path. No outcome — an I/O failure included — escalates out
/// of the state machine, terminates the host scheduler thread, or panics;
/// failures only discard the connection and end the attempt with a short
/// cooldown so a later scheduler tick retries.
pub proof fn lemma_attempt_terminates(p: YieldPhase, ev: ClientEvent)
    requires
        p != YieldPhase::Done,
    ensures
        rank(spec_step(p, ev)) < rank(p),
{
}

/// A pooled connection carries a real task id only after it has answered
/// the keep-alive probe: the sole transition from the validation phases
/// into `Subscribe` is a `PONG` reply. A stale pooled connection — send
/// failed, peer closed, or any other reply — is closed and a fresh
/// connection dialed instead of reusing it.
pub proof fn lemma_stale_connection_never_reused(p: YieldPhase, ev: ClientEvent)
    requires
        p == YieldPhase::Validate || p == YieldPhase::AwaitPong,
        spec_step(p, ev) == YieldPhase::Subscribe,
    ensures
        p == YieldPhase::AwaitPong,
        ev == ClientEvent::GotReply(Reply::Pong),
{
}

} // verus!
