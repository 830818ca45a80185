//! The task registry: id allocation plus, per in-flight task, a one-shot
//! completion signal.
//!
//! The worker side holds the sender half of the signal and fires it when the
//! user operation resolves; the notification server claims the receiver half
//! with `consume` and waits on it before replying `READY`. The map from task
//! id to receiver is a concurrent map, so worker-completion callbacks and
//! the host-scheduler thread never serialize on a single registry lock.

use vstd::prelude::*;

use dashmap::DashMap;
use rustc_hash::FxBuildHasher;
use tokio::sync::oneshot::{Receiver, Sender};

use crate::ids::TaskIdGen;

verus! {

/// Declares dashmap's concurrent map so it can stand in fields and
/// signatures; its contents are tracked through `signal_ids`.
#[verifier::external_type_specification]
#[verifier::external_body]
#[verifier::reject_recursive_types(K)]
#[verifier::reject_recursive_types(V)]
#[verifier::reject_recursive_types(S)]
pub struct ExDashMap<K, V, S>(DashMap<K, V, S>);

/// Declares the sender half of tokio's one-shot channel.
#[verifier::external_type_specification]
#[verifier::external_body]
#[verifier::reject_recursive_types(T)]
pub struct ExSender<T>(Sender<T>);

/// Declares the receiver half of tokio's one-shot channel.
#[verifier::external_type_specification]
#[verifier::external_body]
#[verifier::reject_recursive_types(T)]
pub struct ExReceiver<T>(Receiver<T>);

/// Declares the receiver's error type, which its trait impls mention.
#[verifier::external_type_specification]
#[verifier::external_body]
pub struct ExRecvError(tokio::sync::oneshot::error::RecvError);

/// Declares rustc-hash's hasher, the map's third type parameter.
#[verifier::external_type_specification]
#[verifier::external_body]
pub struct ExFxBuildHasher(FxBuildHasher);

/// The ids that currently have a stored completion receiver.
pub uninterp spec fn signal_ids(m: DashMap<u16, Receiver<()>, FxBuildHasher>) -> Set<u16>;

/// Relies on dashmap::DashMap::with_capacity_and_hasher: creates an empty map.
#[verifier::external_body]
fn signal_map_new() -> (m: DashMap<u16, Receiver<()>, FxBuildHasher>)
    ensures
        signal_ids(m) == Set::<u16>::empty(),
{
    DashMap::with_capacity_and_hasher(256, FxBuildHasher)
}

/// Relies on dashmap::DashMap::insert: stores the receiver under the id,
/// silently overwriting a stale entry with the same id.
#[verifier::external_body]
fn signal_map_insert(m: &mut DashMap<u16, Receiver<()>, FxBuildHasher>, id: u16, rx: Receiver<()>)
    ensures
        signal_ids(*final(m)) == signal_ids(*old(m)).insert(id),
{
    m.insert(id, rx);
}

/// Relies on dashmap::DashMap::remove: takes the entry out, returning its
/// receiver exactly when the id was present.
#[verifier::external_body]
fn signal_map_remove(m: &mut DashMap<u16, Receiver<()>, FxBuildHasher>, id: u16) -> (rx: Option<
    Receiver<()>,
>)
    ensures
        rx is Some <==> signal_ids(*old(m)).contains(id),
        signal_ids(*final(m)) == signal_ids(*old(m)).remove(id),
{
    m.remove(&id).map(|(_, rx)| rx)
}

/// Relies on tokio::sync::oneshot::channel: creates a connected
/// sender/receiver pair for the one-shot completion signal.
#[verifier::external_body]
fn signal_channel() -> (pair: (Sender<()>, Receiver<()>)) {
    tokio::sync::oneshot::channel()
}

/// Relies on tokio::sync::oneshot::Sender::send: fires the one-shot
/// completion signal, waking a waiting receiver; returns false when the
/// receiver half is already gone (the entry was dropped uncollected), in
/// which case delivery is a no-op rather than an error.
#[verifier::external_body]
fn signal_send(tx: Sender<()>) -> (delivered: bool) {
    tx.send(()).is_ok()
}

/// Allocates task ids and holds one completion receiver per in-flight task.
pub struct TaskRegistry {
    slots: DashMap<u16, Receiver<()>, FxBuildHasher>,
    ids: TaskIdGen,
}

impl TaskRegistry {
    /// The ids whose completion receiver is currently held: the in-flight
    /// tasks, from the consumer's point of view.
    pub closed spec fn in_flight(self) -> Set<u16> {
        signal_ids(self.slots)
    }

    /// The id the next allocation will return.
    pub closed spec fn counter(self) -> u16 {
        self.ids.counter()
    }

    /// Creates an empty registry whose first allocated id is 1.
    pub fn new() -> (r: TaskRegistry)
        ensures
            r.in_flight() == Set::<u16>::empty(),
            r.counter() == 1u16,
    {
        TaskRegistry { slots: signal_map_new(), ids: TaskIdGen::new() }
    }

    /// Hands out the next task id; the counter wraps around at the end of
    /// the id space, so an id may be reused once its prior task has been
    /// fully collected.
    pub fn allocate(&mut self) -> (id: u16)
        ensures
            id == old(self).counter(),
            final(self).counter() == (old(self).counter() + 1) % 0x10000,
            final(self).in_flight() == old(self).in_flight(),
    {
        self.ids.allocate()
    }

    /// Creates the completion signal for a task and stores its receiver
    /// under the task's id, overwriting a stale entry if the id space has
    /// wrapped around onto an uncollected task. Returns the sender half,
    /// which the worker fires when the user operation resolves.
    pub fn register(&mut self, id: u16) -> (tx: Sender<()>)
        ensures
            final(self).in_flight() == old(self).in_flight().insert(id),
            final(self).counter() == old(self).counter(),
    {
        let pair = signal_channel();
        signal_map_insert(&mut self.slots, id, pair.1);
        pair.0
    }

    /// Atomically claims the completion receiver of an id: returns it
    /// exactly when the id is in flight, and removes the entry, so a second
    /// claim of the same id finds nothing.
    pub fn consume(&mut self, id: u16) -> (rx: Option<Receiver<()>>)
        ensures
            rx is Some <==> old(self).in_flight().contains(id),
            final(self).in_flight() == old(self).in_flight().remove(id),
            final(self).counter() == old(self).counter(),
    {
        signal_map_remove(&mut self.slots, id)
    }
}

/// Fires a task's completion signal. Completion never touches the registry
/// map itself: a live entry stays claimable until the waiting side consumes
/// it, and delivery to an already-collected entry (the receiver is gone)
/// returns false and is a harmless no-op.
pub fn complete(tx: Sender<()>) -> (delivered: bool) {
    signal_send(tx)
}

/// A task id is consumed at most once: a successful `consume` removes the
/// id from the in-flight set, so a second `consume` of the same id — with
/// no re-registration in between — returns nothing.
pub proof fn lemma_consume_at_most_once(in_flight: Set<u16>, id: u16)
    ensures
        !in_flight.remove(id).contains(id),
{
}

/// A registered id is always claimable, whatever else is in flight — in
/// particular an id re-registered after its prior task was fully collected,
/// so a completion delivered to the live entry is never lost.
pub proof fn lemma_registered_is_claimable(in_flight: Set<u16>, id: u16)
    ensures
        in_flight.insert(id).contains(id),
{
}

} // verus!
