//! Pending table: the reply slots of the calls that wait for a node.

use crate::message::PendingKey;
use dashmap::DashMap;
use vstd::prelude::*;

verus! {

/// Handle of a single-use reply slot. The slot itself is a one-shot channel
/// owned by the runtime; the table records which slot waits under which key.
pub type SlotId = u64;

/// What a pending map holds, as the contracts see it.
pub type PendingEntries = Map<PendingKey, SlotId>;

/// The entries held by a pending map: (request id, request type) to slot.
///
/// The map's own methods work through a shared reference. Here a map is
/// owned by one table and changed only through an exclusive reference, so
/// that what it holds is a function of its value.
pub uninterp spec fn pending_entries(map: DashMap<(String, i32), SlotId>) -> PendingEntries;

/// `DashMap::new`: a fresh map holds no entry.
#[verifier::external_body]
fn pending_map_new() -> (map: DashMap<(String, i32), SlotId>)
    ensures
        pending_entries(map) == PendingEntries::empty(),
{
    DashMap::new()
}

/// `DashMap::contains_key`: whether the key is bound.
#[verifier::external_body]
fn pending_map_contains_key(
    map: &DashMap<(String, i32), SlotId>,
    request_id: &str,
    request_type: i32,
) -> (bound: bool)
    ensures
        bound == pending_entries(*map).contains_key((request_id@, request_type)),
{
    map.contains_key(&(request_id.to_owned(), request_type))
}

/// `DashMap::insert`: the key is bound to the new value, every other entry is
/// kept, and the value previously bound to the key, if any, is returned.
#[verifier::external_body]
fn pending_map_insert(
    map: &mut DashMap<(String, i32), SlotId>,
    request_id: String,
    request_type: i32,
    slot: SlotId,
) -> (previous: Option<SlotId>)
    ensures
        pending_entries(*final(map)) == pending_entries(*old(map)).insert(
            (request_id@, request_type),
            slot,
        ),
        previous == pending_entries(*old(map)).get((request_id@, request_type)),
{
    map.insert((request_id, request_type), slot)
}

/// `DashMap::remove`: the key is unbound afterwards, every other entry is
/// kept, and the value that was bound to the key, if any, is returned.
#[verifier::external_body]
fn pending_map_remove(
    map: &mut DashMap<(String, i32), SlotId>,
    request_id: &str,
    request_type: i32,
) -> (removed: Option<SlotId>)
    ensures
        pending_entries(*final(map)) == pending_entries(*old(map)).remove(
            (request_id@, request_type),
        ),
        removed == pending_entries(*old(map)).get((request_id@, request_type)),
{
    map.remove(&(request_id.to_owned(), request_type)).map(|entry| entry.1)
}

/// The calls in flight. Each waits under the key (request id, request type)
/// with one reply slot, which is handed out at most once.
pub struct PendingTable {
    slots: DashMap<(String, i32), SlotId>,
}

impl PendingTable {
    /// The table as a map from key to slot.
    pub closed spec fn view(&self) -> PendingEntries {
        pending_entries(self.slots)
    }

    /// The slot that waits under `key`, if one does.
    pub open spec fn slot_of(&self, key: PendingKey) -> Option<SlotId> {
        self@.get(key)
    }

    /// A table with no call in flight.
    pub fn new() -> (table: Self)
        ensures
            table@ == PendingEntries::empty(),
    {
        PendingTable { slots: pending_map_new() }
    }

    /// Whether a call waits under the key.
    pub fn contains(&self, request_id: &str, request_type: i32) -> (waiting: bool)
        ensures
            waiting == self@.contains_key((request_id@, request_type)),
    {
        pending_map_contains_key(&self.slots, request_id, request_type)
    }

    /// Registers `slot` under the key, unless a call already waits there: a
    /// key has one owner, so a duplicate is refused and changes nothing.
    pub fn insert(&mut self, request_id: String, request_type: i32, slot: SlotId) -> (inserted:
        bool)
        ensures
            inserted == !old(self)@.contains_key((request_id@, request_type)),
            inserted ==> final(self)@ == old(self)@.insert((request_id@, request_type), slot),
            !inserted ==> final(self)@ == old(self)@,
    {
        if pending_map_contains_key(&self.slots, request_id.as_str(), request_type) {
            false
        } else {
            let _ = pending_map_insert(&mut self.slots, request_id, request_type, slot);
            true
        }
    }

    /// Takes the slot that waits under the key out of the table. Afterwards
    /// nothing waits under the key, so the slot is handed out once.
    pub fn remove(&mut self, request_id: &str, request_type: i32) -> (slot: Option<SlotId>)
        ensures
            slot == old(self).slot_of((request_id@, request_type)),
            final(self)@ == old(self)@.remove((request_id@, request_type)),
    {
        pending_map_remove(&mut self.slots, request_id, request_type)
    }
}

} // verus!
