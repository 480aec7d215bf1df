//! The gateway supervisor: the table of connections that await a decision and
//! the registry of live connections.
//!
//! The supervisor performs no I/O. It owns the handles, decides, and hands
//! back what has to be sent on which handle; the caller sends it.

use std::collections::BTreeMap;
use vstd::prelude::*;
use vstd::std_specs::iter::IteratorSpec;
use crate::error::GatewayError;
use crate::event::WSConnectResponse;
use crate::frame::{
    closing_frame, closing_frame_spec, CloseFrame, CloseFrameView, Frame, FrameView, GOING_AWAY,
    PROTOCOL_VIOLATION,
};
use crate::id::ConnectionId;
use crate::order::lemma_increasing;

verus! {

/// Reason given to a pending connection whose identifier was allocated again.
pub const ID_COLLISION: &'static str = "id collision";

/// Reason given to the holder of a live connection whose identifier was
/// allocated again.
pub const CONNECTION_COLLISION: &'static str = "new incoming connection collided with yours";

/// Reason given to everyone when the gateway stops.
pub const SHUTTING_DOWN: &'static str = "server shutting down";

/// A pending slot taken out of the table, to be resolved with a denial.
#[derive(Debug)]
pub struct Denial<P> {
    pub id: ConnectionId,
    pub slot: P,
    pub reason: Option<String>,
}

/// A send handle taken out of the registry, with the close frame to send on
/// it before it is dropped.
#[derive(Debug)]
pub struct CloseOrder<S> {
    pub id: ConnectionId,
    pub handle: S,
    pub frame: Frame,
}

/// A pending slot taken out of the table, with the decision to deliver
/// through it.
#[derive(Debug)]
pub struct Delivery<P, C> {
    pub slot: P,
    pub response: WSConnectResponse<C>,
}

/// What stopping the gateway asks of the caller, in this order: resolve every
/// denial, then send every close frame.
#[derive(Debug)]
pub struct ShutdownPlan<P, S> {
    pub denials: Vec<Denial<P>>,
    pub closures: Vec<CloseOrder<S>>,
}

/// The close frame sent to the holder of a live connection that loses its
/// identifier to a new one.
pub open spec fn collision_frame() -> FrameView {
    FrameView::Close(
        Some(CloseFrameView { code: PROTOCOL_VIOLATION, reason: CONNECTION_COLLISION@ }),
    )
}

/// The close frame sent to every live connection when the gateway stops.
pub open spec fn shutdown_frame() -> FrameView {
    FrameView::Close(Some(CloseFrameView { code: GOING_AWAY, reason: SHUTTING_DOWN@ }))
}

/// `ids` lists the keys of `table`, each once, in increasing order.
pub open spec fn lists_keys<V>(ids: Seq<ConnectionId>, table: Map<u128, V>) -> bool {
    &&& forall|i: int, j: int| 0 <= i < j < ids.len() ==> ids[i]@ < ids[j]@
    &&& forall|i: int| 0 <= i < ids.len() ==> table.contains_key(#[trigger] ids[i]@)
    &&& forall|k: u128|
        table.contains_key(k) ==> exists|i: int| 0 <= i < ids.len() && #[trigger] ids[i]@ == k
}

/// `denials` holds every slot of `table` once, in increasing order of
/// identifier, each with `reason`.
pub open spec fn denies_all<P>(denials: Seq<Denial<P>>, table: Map<u128, P>, reason: Seq<char>) -> bool {
    &&& forall|i: int, j: int|
        0 <= i < j < denials.len() ==> (#[trigger] denials[i]).id@ < (#[trigger] denials[j]).id@
    &&& forall|i: int|
        0 <= i < denials.len() ==> {
            &&& table.contains_key((#[trigger] denials[i]).id@)
            &&& denials[i].slot == table[denials[i].id@]
            &&& denials[i].reason.deep_view() == Some(reason)
        }
    &&& forall|k: u128|
        table.contains_key(k) ==> exists|i: int|
            0 <= i < denials.len() && (#[trigger] denials[i]).id@ == k
}

/// `closures` holds every handle of `table` once, in increasing order of
/// identifier, each with the frame `frame`.
pub open spec fn closes_all<S>(closures: Seq<CloseOrder<S>>, table: Map<u128, S>, frame: FrameView) -> bool {
    &&& forall|i: int, j: int|
        0 <= i < j < closures.len() ==> (#[trigger] closures[i]).id@ < (#[trigger] closures[j]).id@
    &&& forall|i: int|
        0 <= i < closures.len() ==> {
            &&& table.contains_key((#[trigger] closures[i]).id@)
            &&& closures[i].handle == table[closures[i].id@]
            &&& closures[i].frame@ == frame
        }
    &&& forall|k: u128|
        table.contains_key(k) ==> exists|i: int|
            0 <= i < closures.len() && (#[trigger] closures[i]).id@ == k
}

/// The slot that a resolution of `id` finds in the table `pending`.
pub open spec fn waiting_slot<P>(pending: Map<u128, P>, id: u128) -> Option<P> {
    if pending.contains_key(id) {
        Some(pending[id])
    } else {
        None
    }
}

/// The table `pending` after a resolution of `id`.
pub open spec fn without_slot<P>(pending: Map<u128, P>, id: u128) -> Map<u128, P> {
    pending.remove(id)
}

/// A pending connection is resolved once: after a resolution of `id`,
/// whether it found a slot or not, another one finds none and so fails.
pub proof fn lemma_resolved_once<P>(pending: Map<u128, P>, id: u128)
    ensures
        waiting_slot(without_slot(pending, id), id) is None,
        without_slot(without_slot(pending, id), id) == without_slot(pending, id),
{
    assert(without_slot(without_slot(pending, id), id) =~= without_slot(pending, id));
}

/// Close code that `tungstenite` gives for a protocol violation:
/// `u16::from(CloseCode::Protocol)`, which is 1002.
#[verifier::external_body]
fn protocol_violation_code() -> (code: u16)
    ensures
        code == PROTOCOL_VIOLATION,
{
    u16::from(tokio_tungstenite::tungstenite::protocol::frame::coding::CloseCode::Protocol)
}

/// `BTreeMap::get_mut`: a mutable reference to the value stored under `id`,
/// if there is one. Only that value can change through the reference.
#[verifier::external_body]
fn handle_mut<'a, S>(table: &'a mut BTreeMap<u128, S>, id: u128) -> (handle: Option<&'a mut S>)
    ensures
        old(table)@.contains_key(id) ==> handle.is_some() && *handle.unwrap() == old(table)@[id]
            && final(table)@ == old(table)@.insert(id, *final(handle.unwrap())),
        !old(table)@.contains_key(id) ==> handle.is_none() && final(table)@ == old(table)@,
{
    table.get_mut(&id)
}

/// The keys of a table, in increasing order.
fn sorted_ids<V>(table: &BTreeMap<u128, V>) -> (ids: Vec<ConnectionId>)
    ensures
        lists_keys(ids@, table@),
{
    let mut ids: Vec<ConnectionId> = Vec::new();
    let keys = table.keys();
    proof {
        vstd::std_specs::btree::axiom_spec_keys_iter(table);
    }
    let ghost all = keys.remaining();
    for key in it: keys
        invariant
            it.seq() == all,
            ids@.len() == it.index(),
            forall|i: int| 0 <= i < ids@.len() ==> (#[trigger] ids@[i])@ == *all[i],
    {
        ids.push(ConnectionId(*key));
    }
    proof {
        assert forall|i: int, j: int| 0 <= i < j < ids@.len() implies ids@[i]@ < ids@[j]@ by {
            lemma_increasing::<&u128>(all, i, j);
        }
        assert forall|i: int| 0 <= i < ids@.len() implies table@.contains_key(
            #[trigger] ids@[i]@,
        ) by {
            assert(all.unref()[i] == ids@[i]@);
            assert(all.unref().to_set().contains(all.unref()[i]));
        }
        assert forall|k: u128| table@.contains_key(k) implies exists|i: int|
            0 <= i < ids@.len() && #[trigger] ids@[i]@ == k by {
            assert(all.unref().to_set().contains(k));
            let i = choose|i: int| 0 <= i < all.unref().len() && all.unref()[i] == k;
            assert(ids@[i]@ == k);
        }
    }
    ids
}

/// `entries` holds every entry of `table` once, in increasing order of
/// identifier.
spec fn holds_all<V>(entries: Seq<(ConnectionId, V)>, table: Map<u128, V>) -> bool {
    &&& forall|i: int, j: int|
        0 <= i < j < entries.len() ==> (#[trigger] entries[i]).0@ < (#[trigger] entries[j]).0@
    &&& forall|i: int|
        0 <= i < entries.len() ==> {
            &&& table.contains_key((#[trigger] entries[i]).0@)
            &&& entries[i].1 == table[entries[i].0@]
        }
    &&& forall|k: u128|
        table.contains_key(k) ==> exists|i: int|
            0 <= i < entries.len() && (#[trigger] entries[i]).0@ == k
}

/// Empties a table into the list of its entries, in increasing order of
/// identifier.
fn drain<V>(table: &mut BTreeMap<u128, V>) -> (entries: Vec<(ConnectionId, V)>)
    ensures
        final(table)@ == Map::<u128, V>::empty(),
        holds_all(entries@, old(table)@),
{
    let ghost before = table@;
    let ids = sorted_ids(table);
    let mut entries: Vec<(ConnectionId, V)> = Vec::new();
    let mut i: usize = 0;
    while i < ids.len()
        invariant
            i <= ids.len(),
            lists_keys(ids@, before),
            entries@.len() == i,
            forall|j: int|
                0 <= j < i ==> (#[trigger] entries@[j]).0 == ids@[j] && entries@[j].1
                    == before[ids@[j]@],
            forall|k: u128| #[trigger]
                table@.contains_key(k) ==> before.contains_key(k) && table@[k] == before[k],
            forall|j: int| i <= j < ids.len() ==> table@.contains_key(#[trigger] ids@[j]@),
            forall|j: int| 0 <= j < i ==> !table@.contains_key(#[trigger] ids@[j]@),
        decreases ids.len() - i,
    {
        let id = ids[i];
        let ghost kept = table@;
        assert(kept.contains_key(ids@[i as int]@));
        let removed = table.remove(&id.0);
        assert(table@ == kept.remove(id@));
        assert(removed == Some(kept[id@]));
        assert forall|k: u128| #[trigger] table@.contains_key(k) implies before.contains_key(k)
            && table@[k] == before[k] by {
            assert(kept.contains_key(k));
        }
        assert forall|j: int| i < j < ids.len() implies table@.contains_key(
            #[trigger] ids@[j]@,
        ) by {
            assert(ids@[i as int]@ < ids@[j]@);
        }
        if let Some(value) = removed {
            entries.push((id, value));
        }
        i += 1;
    }
    proof {
        assert(table@ =~= Map::<u128, V>::empty()) by {
            assert forall|k: u128| !table@.contains_key(k) by {
                if table@.contains_key(k) {
                    assert(before.contains_key(k));
                    let j = choose|j: int| 0 <= j < ids@.len() && #[trigger] ids@[j]@ == k;
                    assert(!table@.contains_key(ids@[j]@));
                }
            }
        }
        assert forall|k: u128| before.contains_key(k) implies exists|j: int|
            0 <= j < entries@.len() && (#[trigger] entries@[j]).0@ == k by {
            let j = choose|j: int| 0 <= j < ids@.len() && #[trigger] ids@[j]@ == k;
            assert(entries@[j].0@ == k);
        }
        assert forall|a: int, b: int| 0 <= a < b < entries@.len() implies (
        #[trigger] entries@[a]).0@ < (#[trigger] entries@[b]).0@ by {
            assert(ids@[a]@ < ids@[b]@);
        }
        assert forall|j: int| 0 <= j < entries@.len() implies before.contains_key(
            (#[trigger] entries@[j]).0@,
        ) && entries@[j].1 == before[entries@[j].0@] by {
            assert(before.contains_key(ids@[j]@));
        }
    }
    entries
}

/// The supervisor of a running gateway.
///
/// `L` is the handle of the listening task, `P` the slot through which a
/// pending connection receives the application's decision, and `S` the
/// handle through which frames are sent to a live connection.
pub struct WSServer<L, P, S> {
    abort_handle: L,
    pending_connections: BTreeMap<u128, P>,
    connections: BTreeMap<u128, S>,
}

impl<L, P, S> WSServer<L, P, S> {
    /// The handle of the listening task.
    pub closed spec fn listener(&self) -> L {
        self.abort_handle
    }

    /// The connections that await a decision, by identifier.
    pub closed spec fn pending(&self) -> Map<u128, P> {
        self.pending_connections@
    }

    /// The live connections, by identifier.
    pub closed spec fn active(&self) -> Map<u128, S> {
        self.connections@
    }

    /// A supervisor with both tables empty.
    pub fn new(abort_handle: L) -> (server: Self)
        ensures
            server.listener() == abort_handle,
            server.pending() == Map::<u128, P>::empty(),
            server.active() == Map::<u128, S>::empty(),
    {
        WSServer { abort_handle, pending_connections: BTreeMap::new(), connections: BTreeMap::new() }
    }

    /// Registers `slot` as the pending slot of `id`.
    ///
    /// If a slot was already waiting under `id`, the new one takes its place
    /// and the earlier one is handed back to be denied, so that no two
    /// parties wait on one slot.
    pub fn add_pending(&mut self, id: ConnectionId, slot: P) -> (displaced: Option<Denial<P>>)
        ensures
            final(self).pending() == old(self).pending().insert(id@, slot),
            final(self).active() == old(self).active(),
            final(self).listener() == old(self).listener(),
            match displaced {
                Some(denial) => {
                    &&& old(self).pending().contains_key(id@)
                    &&& denial.id == id
                    &&& denial.slot == old(self).pending()[id@]
                    &&& denial.reason.deep_view() == Some(ID_COLLISION@)
                },
                None => !old(self).pending().contains_key(id@),
            },
    {
        match self.pending_connections.insert(id.0, slot) {
            Some(existing) => Some(
                Denial { id, slot: existing, reason: Some(ID_COLLISION.to_owned()) },
            ),
            None => None,
        }
    }

    /// Takes the pending slot of `id` out of the table.
    pub fn take_pending(&mut self, id: ConnectionId) -> (slot: Option<P>)
        ensures
            final(self).pending() == old(self).pending().remove(id@),
            final(self).active() == old(self).active(),
            final(self).listener() == old(self).listener(),
            match slot {
                Some(p) => old(self).pending().contains_key(id@) && p == old(self).pending()[id@],
                None => !old(self).pending().contains_key(id@),
            },
    {
        self.pending_connections.remove(&id.0)
    }

    /// Resolves the pending connection `id` with the application's decision.
    ///
    /// The slot leaves the table and comes back with the decision to deliver
    /// through it. A slot is resolved once: when no slot waits under `id`, the
    /// call fails and changes nothing. The registry of live connections is
    /// never touched, whatever the decision.
    pub fn resolve_pending<C>(&mut self, id: ConnectionId, response: WSConnectResponse<C>) -> (outcome:
        Result<Delivery<P, C>, GatewayError>)
        ensures
            final(self).pending() == without_slot(old(self).pending(), id@),
            final(self).active() == old(self).active(),
            final(self).listener() == old(self).listener(),
            match outcome {
                Ok(delivery) => {
                    &&& waiting_slot(old(self).pending(), id@) == Some(delivery.slot)
                    &&& delivery.response == response
                },
                Err(e) => waiting_slot(old(self).pending(), id@) is None && e
                    == GatewayError::NotPending(id),
            },
    {
        match self.take_pending(id) {
            Some(slot) => Ok(Delivery { slot, response }),
            None => Err(GatewayError::NotPending(id)),
        }
    }

    /// Registers `tx` as the send handle of the live connection `id`.
    ///
    /// If a connection was already live under `id`, the new handle takes its
    /// place and the earlier one is handed back with the close frame owed to
    /// it: a protocol-violation code and an explanation of the collision.
    pub fn insert(&mut self, id: ConnectionId, tx: S) -> (evicted: Option<CloseOrder<S>>)
        ensures
            final(self).active() == old(self).active().insert(id@, tx),
            final(self).pending() == old(self).pending(),
            final(self).listener() == old(self).listener(),
            match evicted {
                Some(order) => {
                    &&& old(self).active().contains_key(id@)
                    &&& order.id == id
                    &&& order.handle == old(self).active()[id@]
                    &&& order.frame@ == collision_frame()
                },
                None => !old(self).active().contains_key(id@),
            },
    {
        match self.connections.insert(id.0, tx) {
            Some(existing) => Some(
                CloseOrder {
                    id,
                    handle: existing,
                    frame: Frame::Close(
                        Some(
                            CloseFrame {
                                code: protocol_violation_code(),
                                reason: CONNECTION_COLLISION.to_owned(),
                            },
                        ),
                    ),
                },
            ),
            None => None,
        }
    }

    /// Deletes the live connection `id` and hands back its send handle.
    /// Removing an identifier that is not there changes nothing.
    pub fn remove(&mut self, id: ConnectionId) -> (handle: Option<S>)
        ensures
            final(self).active() == old(self).active().remove(id@),
            final(self).pending() == old(self).pending(),
            final(self).listener() == old(self).listener(),
            match handle {
                Some(h) => old(self).active().contains_key(id@) && h == old(self).active()[id@],
                None => !old(self).active().contains_key(id@),
            },
    {
        self.connections.remove(&id.0)
    }

    /// Closes the live connection `id`: its handle leaves the registry and
    /// comes back with the close frame to send on it.
    pub fn close(&mut self, id: ConnectionId, code: Option<u16>, reason: Option<String>) -> (outcome:
        Result<CloseOrder<S>, GatewayError>)
        ensures
            final(self).active() == old(self).active().remove(id@),
            final(self).pending() == old(self).pending(),
            final(self).listener() == old(self).listener(),
            match outcome {
                Ok(order) => {
                    &&& old(self).active().contains_key(id@)
                    &&& order.id == id
                    &&& order.handle == old(self).active()[id@]
                    &&& order.frame@ == closing_frame_spec(code, reason.deep_view())
                },
                Err(e) => !old(self).active().contains_key(id@) && e == GatewayError::NotFound(id),
            },
    {
        match self.connections.remove(&id.0) {
            Some(handle) => Ok(CloseOrder { id, handle, frame: closing_frame(code, reason) }),
            None => Err(GatewayError::NotFound(id)),
        }
    }

    /// Looks up the live connection `id` for sending `msg` to it: lends its
    /// send handle together with the text frame to send. The registry keeps
    /// the entry.
    pub fn send(&mut self, id: ConnectionId, msg: String) -> (outcome: Result<
        (&mut S, Frame),
        GatewayError,
    >)
        ensures
            final(self).pending() == old(self).pending(),
            final(self).listener() == old(self).listener(),
            match outcome {
                Ok(lent) => {
                    &&& old(self).active().contains_key(id@)
                    &&& *lent.0 == old(self).active()[id@]
                    &&& lent.1@ == FrameView::Text(msg@)
                    &&& final(self).active() == old(self).active().insert(id@, *final(lent.0))
                },
                Err(e) => {
                    &&& !old(self).active().contains_key(id@)
                    &&& e == GatewayError::NotFound(id)
                    &&& final(self).active() == old(self).active()
                },
            },
    {
        match handle_mut(&mut self.connections, id.0) {
            Some(handle) => Ok((handle, Frame::Text(msg))),
            None => Err(GatewayError::NotFound(id)),
        }
    }

    /// The identifiers of the live connections, in increasing order.
    pub fn connections(&self) -> (ids: Vec<ConnectionId>)
        ensures
            lists_keys(ids@, self.active()),
    {
        sorted_ids(&self.connections)
    }

    /// Empties both tables for a shutdown.
    ///
    /// Every pending slot comes back to be denied and every send handle comes
    /// back with a close frame of code 1001, each with the shutdown reason.
    /// Nothing is sent here, so nothing can fail half-way: the caller works
    /// through the plan and goes on when a send fails.
    pub fn shutdown_all(&mut self) -> (plan: ShutdownPlan<P, S>)
        ensures
            final(self).pending() == Map::<u128, P>::empty(),
            final(self).active() == Map::<u128, S>::empty(),
            final(self).listener() == old(self).listener(),
            denies_all(plan.denials@, old(self).pending(), SHUTTING_DOWN@),
            closes_all(plan.closures@, old(self).active(), shutdown_frame()),
    {
        let ghost pending = self.pending_connections@;
        let ghost active = self.connections@;
        let waiting = drain(&mut self.pending_connections);
        let ghost slots = waiting@;
        let mut denials: Vec<Denial<P>> = Vec::new();
        for entry in it: waiting
            invariant
                it.seq() == slots,
                denials@.len() == it.index(),
                forall|j: int|
                    0 <= j < denials@.len() ==> {
                        &&& (#[trigger] denials@[j]).id == slots[j].0
                        &&& denials@[j].slot == slots[j].1
                        &&& denials@[j].reason.deep_view() == Some(SHUTTING_DOWN@)
                    },
        {
            let (id, slot) = entry;
            denials.push(Denial { id, slot, reason: Some(SHUTTING_DOWN.to_owned()) });
        }
        let live = drain(&mut self.connections);
        let ghost handles = live@;
        let mut closures: Vec<CloseOrder<S>> = Vec::new();
        for entry in it: live
            invariant
                it.seq() == handles,
                closures@.len() == it.index(),
                forall|j: int|
                    0 <= j < closures@.len() ==> {
                        &&& (#[trigger] closures@[j]).id == handles[j].0
                        &&& closures@[j].handle == handles[j].1
                        &&& closures@[j].frame@ == shutdown_frame()
                    },
        {
            let (id, handle) = entry;
            closures.push(
                CloseOrder {
                    id,
                    handle,
                    frame: Frame::Close(
                        Some(CloseFrame { code: GOING_AWAY, reason: SHUTTING_DOWN.to_owned() }),
                    ),
                },
            );
        }
        proof {
            assert forall|k: u128| pending.contains_key(k) implies exists|j: int|
                0 <= j < denials@.len() && (#[trigger] denials@[j]).id@ == k by {
                let j = choose|j: int| 0 <= j < slots.len() && (#[trigger] slots[j]).0@ == k;
                assert(denials@[j].id@ == k);
            }
            assert forall|k: u128| active.contains_key(k) implies exists|j: int|
                0 <= j < closures@.len() && (#[trigger] closures@[j]).id@ == k by {
                let j = choose|j: int| 0 <= j < handles.len() && (#[trigger] handles[j]).0@ == k;
                assert(closures@[j].id@ == k);
            }
        }
        ShutdownPlan { denials, closures }
    }

    /// Stops the gateway: empties both tables as [`WSServer::shutdown_all`]
    /// does and releases the handle of the listening task, which the caller
    /// aborts once the plan is carried out.
    pub fn stop(self) -> (parts: (ShutdownPlan<P, S>, L))
        ensures
            denies_all(parts.0.denials@, self.pending(), SHUTTING_DOWN@),
            closes_all(parts.0.closures@, self.active(), shutdown_frame()),
            parts.1 == self.listener(),
    {
        let mut server = self;
        let plan = server.shutdown_all();
        (plan, server.abort_handle)
    }

    /// The identifiers of the connections that await a decision, in
    /// increasing order.
    pub fn pending_connections(&self) -> (ids: Vec<ConnectionId>)
        ensures
            lists_keys(ids@, self.pending()),
    {
        sorted_ids(&self.pending_connections)
    }
}

} // verus!
