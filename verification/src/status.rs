//! The record of packets that are waiting for an answer from the server.
//!
//! Each exchange keeps one such record, keyed by packet identifier. The
//! connect record uses identifier 0 for "connecting" and 1 for "connected";
//! the ping record uses 0 for the ping in flight.

use std::collections::HashMap;
use vstd::prelude::*;

use crate::disconnect::PacketSendStatus;

verus! {

broadcast use vstd::std_specs::hash::group_hash_axioms;

/// The status of a packet that waits for an answer.
#[derive(Clone, Copy, Debug, PartialEq)]
pub struct PacketStatus<T> {
    pub id: u16,
    pub retry_count: u16,
    pub payload: T,
}

/// An operation on a status record; each answers with an optional status.
#[derive(Debug, PartialEq)]
pub enum StatusOperationMessage<T> {
    /// Records the status of packet `id` (answers `None`).
    SetPacketStatus(u16, PacketStatus<T>),
    /// Answers the status of packet `id`, leaving it in place.
    GetPacketStatus(u16),
    /// Answers the status of packet `id` and removes it.
    GetAndRemovePacketStatus(u16),
    /// Removes the status of packet `id` (answers `None`).
    RemovePacketStatus(u16),
}

/// Asks whether a status record holds packet `.0`.
#[derive(Debug, PartialEq)]
pub struct StatusExistenceMessage(pub u16);

/// The status of `id` in `m`, if any.
pub open spec fn status_of<T>(m: Map<u16, PacketStatus<T>>, id: u16) -> Option<PacketStatus<T>> {
    if m.contains_key(id) {
        Some(m[id])
    } else {
        None
    }
}

/// The record after `op`.
pub open spec fn apply_operation<T>(
    m: Map<u16, PacketStatus<T>>,
    op: StatusOperationMessage<T>,
) -> Map<u16, PacketStatus<T>> {
    match op {
        StatusOperationMessage::SetPacketStatus(id, s) => m.insert(id, s),
        StatusOperationMessage::GetPacketStatus(_) => m,
        StatusOperationMessage::GetAndRemovePacketStatus(id) => m.remove(id),
        StatusOperationMessage::RemovePacketStatus(id) => m.remove(id),
    }
}

/// The answer to `op` on record `m`.
pub open spec fn operation_answer<T>(
    m: Map<u16, PacketStatus<T>>,
    op: StatusOperationMessage<T>,
) -> Option<PacketStatus<T>> {
    match op {
        StatusOperationMessage::SetPacketStatus(_, _) => None,
        StatusOperationMessage::GetPacketStatus(id) => status_of(m, id),
        StatusOperationMessage::GetAndRemovePacketStatus(id) => status_of(m, id),
        StatusOperationMessage::RemovePacketStatus(_) => None,
    }
}

/// A status record: packet identifier to status.
pub struct PacketStatusStore<T> {
    map: HashMap<u16, PacketStatus<T>>,
}

impl<T> View for PacketStatusStore<T> {
    type V = Map<u16, PacketStatus<T>>;

    closed spec fn view(&self) -> Map<u16, PacketStatus<T>> {
        self.map@
    }
}

impl<T: Copy> PacketStatusStore<T> {
    /// An empty record.
    pub fn new() -> (s: Self)
        ensures
            s@ == Map::<u16, PacketStatus<T>>::empty(),
    {
        PacketStatusStore { map: HashMap::new() }
    }

    /// Whether the record holds packet `msg.0`.
    pub fn handle_existence(&self, msg: &StatusExistenceMessage) -> (r: bool)
        ensures
            r == self@.contains_key(msg.0),
    {
        self.map.contains_key(&msg.0)
    }

    /// Carries out `msg` and gives its answer.
    pub fn handle_operation(&mut self, msg: StatusOperationMessage<T>) -> (r: Option<PacketStatus<T>>)
        ensures
            final(self)@ == apply_operation(old(self)@, msg),
            r == operation_answer(old(self)@, msg),
    {
        match msg {
            StatusOperationMessage::SetPacketStatus(id, status) => {
                self.map.insert(id, status);
                None
            },
            StatusOperationMessage::GetPacketStatus(id) => {
                match self.map.get(&id) {
                    Some(s) => Some(*s),
                    None => None,
                }
            },
            StatusOperationMessage::GetAndRemovePacketStatus(id) => {
                self.map.remove(&id)
            },
            StatusOperationMessage::RemovePacketStatus(id) => {
                self.map.remove(&id);
                None
            },
        }
    }

    /// The send status reported after each operation: finished when no
    /// packet waits for an answer.
    pub fn send_status(&self) -> (r: PacketSendStatus)
        ensures
            r.finished == (self@.len() == 0),
    {
        PacketSendStatus { finished: self.map.len() == 0 }
    }
}

} // verus!

verus! {

/// A status just recorded is read back as recorded.
pub proof fn lemma_set_then_get<T>(m: Map<u16, PacketStatus<T>>, id: u16, s: PacketStatus<T>)
    ensures
        ({
            let after = apply_operation(m, StatusOperationMessage::SetPacketStatus(id, s));
            &&& operation_answer(after, StatusOperationMessage::GetPacketStatus(id)) == Some(s)
            &&& operation_answer(after, StatusOperationMessage::GetAndRemovePacketStatus(id)) == Some(s)
        }),
{
}

/// Taking a status out answers it and leaves none behind; removing it leaves
/// none behind; reading it changes nothing.
pub proof fn lemma_take_and_remove<T>(m: Map<u16, PacketStatus<T>>, id: u16)
    ensures
        operation_answer(m, StatusOperationMessage::GetAndRemovePacketStatus(id)) == status_of(m, id),
        !apply_operation(m, StatusOperationMessage::<T>::GetAndRemovePacketStatus(id)).contains_key(id),
        !apply_operation(m, StatusOperationMessage::<T>::RemovePacketStatus(id)).contains_key(id),
        apply_operation(m, StatusOperationMessage::<T>::GetPacketStatus(id)) == m,
{
}

/// The identifier an operation is about.
pub open spec fn operation_id<T>(op: StatusOperationMessage<T>) -> u16 {
    match op {
        StatusOperationMessage::SetPacketStatus(id, _) => id,
        StatusOperationMessage::GetPacketStatus(id) => id,
        StatusOperationMessage::GetAndRemovePacketStatus(id) => id,
        StatusOperationMessage::RemovePacketStatus(id) => id,
    }
}

/// An operation leaves the statuses of other packets as they were.
pub proof fn lemma_other_ids_untouched<T>(m: Map<u16, PacketStatus<T>>, op: StatusOperationMessage<T>, other: u16)
    requires
        other != operation_id(op),
    ensures
        status_of(apply_operation(m, op), other) == status_of(m, other),
{
}

/// Recording a status and then dropping it leaves the record as it was
/// without that packet; in particular an empty record is empty again, so the
/// send status reports finished.
pub proof fn lemma_set_then_remove<T>(m: Map<u16, PacketStatus<T>>, id: u16, s: PacketStatus<T>)
    requires
        m.dom().finite(),
    ensures
        apply_operation(
            apply_operation(m, StatusOperationMessage::SetPacketStatus(id, s)),
            StatusOperationMessage::RemovePacketStatus(id),
        ) =~= m.remove(id),
        m.len() == 0 ==> apply_operation(
            apply_operation(m, StatusOperationMessage::SetPacketStatus(id, s)),
            StatusOperationMessage::RemovePacketStatus(id),
        ).len() == 0,
{
    let after = apply_operation(
        apply_operation(m, StatusOperationMessage::SetPacketStatus(id, s)),
        StatusOperationMessage::RemovePacketStatus(id),
    );
    assert(after =~= m.remove(id));
    if m.len() == 0 {
        vstd::set_lib::lemma_set_empty_equivalency_len(m.dom());
        assert(m.remove(id) =~= Map::<u16, PacketStatus<T>>::empty());
    }
}

} // verus!
