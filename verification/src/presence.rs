//! Presence registry: which node keys are online, and on which event bus.

use dashmap::DashMap;
use vstd::prelude::*;

verus! {

/// Handle of a per-node event bus. The bus itself is a channel owned by the
/// runtime; the registry records which bus belongs to which node.
pub type BusId = u64;

/// A node key as the contracts see it: the characters of the node id and of
/// the password.
pub type NodeKey = (Seq<char>, Seq<char>);

/// What a presence map holds, as the contracts see it.
pub type PresenceEntries = Map<NodeKey, BusId>;

#[verifier::external_type_specification]
#[verifier::external_body]
#[verifier::reject_recursive_types(K)]
#[verifier::reject_recursive_types(V)]
#[verifier::reject_recursive_types(S)]
pub struct ExDashMap<K, V, S>(DashMap<K, V, S>);

/// The entries held by a presence map: node key to bus.
///
/// The map's own methods work through a shared reference. Here a map is
/// owned by one registry and changed only through an exclusive reference,
/// so that what it holds is a function of its value.
pub uninterp spec fn presence_entries(map: DashMap<(String, String), BusId>) -> PresenceEntries;

/// `DashMap::new`: a fresh map holds no entry.
#[verifier::external_body]
fn presence_map_new() -> (map: DashMap<(String, String), BusId>)
    ensures
        presence_entries(map) == PresenceEntries::empty(),
{
    DashMap::new()
}

/// `DashMap::insert`: the key is bound to the new value, every other entry is
/// kept, and the value previously bound to the key, if any, is returned.
#[verifier::external_body]
fn presence_map_insert(
    map: &mut DashMap<(String, String), BusId>,
    node_id: String,
    password: String,
    bus: BusId,
) -> (previous: Option<BusId>)
    ensures
        presence_entries(*final(map)) == presence_entries(*old(map)).insert(
            (node_id@, password@),
            bus,
        ),
        previous == presence_entries(*old(map)).get((node_id@, password@)),
{
    map.insert((node_id, password), bus)
}

/// `DashMap::get`: the value bound to the key, copied out of the map, or none
/// where the key is unbound.
#[verifier::external_body]
fn presence_map_get(map: &DashMap<(String, String), BusId>, node_id: &str, password: &str) -> (bus:
    Option<BusId>)
    ensures
        bus == presence_entries(*map).get((node_id@, password@)),
{
    map.get(&(node_id.to_owned(), password.to_owned())).map(|entry| *entry.value())
}

/// `DashMap::remove`: the key is unbound afterwards, every other entry is
/// kept, and the value that was bound to the key, if any, is returned.
#[verifier::external_body]
fn presence_map_remove(
    map: &mut DashMap<(String, String), BusId>,
    node_id: &str,
    password: &str,
) -> (removed: Option<BusId>)
    ensures
        presence_entries(*final(map)) == presence_entries(*old(map)).remove((node_id@, password@)),
        removed == presence_entries(*old(map)).get((node_id@, password@)),
{
    map.remove(&(node_id.to_owned(), password.to_owned())).map(|entry| entry.1)
}

/// The nodes that are online. Each authenticated node key is bound to the
/// event bus of the session that registered it last.
pub struct PresenceRegistry {
    entries: DashMap<(String, String), BusId>,
}

impl PresenceRegistry {
    /// The registry as a map from node key to bus.
    pub closed spec fn view(&self) -> PresenceEntries {
        presence_entries(self.entries)
    }

    /// The bus on which `key` is registered, if it is.
    pub open spec fn bus_of(&self, key: NodeKey) -> Option<BusId> {
        self@.get(key)
    }

    /// A registry with no node online.
    pub fn new() -> (registry: Self)
        ensures
            registry@ == PresenceEntries::empty(),
    {
        PresenceRegistry { entries: presence_map_new() }
    }

    /// Binds the node key to `bus`. A key that is already registered is
    /// rebound: the last writer wins.
    pub fn register(&mut self, node_id: String, password: String, bus: BusId)
        ensures
            final(self)@ == old(self)@.insert((node_id@, password@), bus),
    {
        let _ = presence_map_insert(&mut self.entries, node_id, password, bus);
    }

    /// The bus of the node registered under the key, if any.
    pub fn lookup(&self, node_id: &str, password: &str) -> (bus: Option<BusId>)
        ensures
            bus == self.bus_of((node_id@, password@)),
    {
        presence_map_get(&self.entries, node_id, password)
    }

    /// Unbinds the node key. Nothing changes where it was not registered.
    pub fn remove(&mut self, node_id: &str, password: &str)
        ensures
            final(self)@ == old(self)@.remove((node_id@, password@)),
    {
        let _ = presence_map_remove(&mut self.entries, node_id, password);
    }
}

} // verus!
