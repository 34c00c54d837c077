//! The coordinator's shared state: the presence registry and the pending
//! table, as one value that the sessions and the façades work on.

use crate::pending::PendingTable;
use crate::presence::{BusId, PresenceRegistry};
use crate::session::Session;
use vstd::prelude::*;

verus! {

/// The service that nodes converse with. It holds the two registries that
/// every session and every call shares.
pub struct CoordinatorServiceImpl {
    pub nodes: PresenceRegistry,
    pub pending: PendingTable,
}

impl CoordinatorServiceImpl {
    /// A service over the given registries.
    pub fn new(nodes: PresenceRegistry, pending: PendingTable) -> (service: Self)
        ensures
            service.nodes == nodes,
            service.pending == pending,
    {
        CoordinatorServiceImpl { nodes, pending }
    }

    /// The handshake of a new stream: a session that is not authenticated
    /// yet and owns the event bus `bus`.
    pub fn conversation(&self, bus: BusId) -> (session: Session)
        ensures
            session.state() is Unauthenticated,
            session.credentials() is None,
            session.bus() == bus,
    {
        Session::new(bus)
    }
}

} // verus!
