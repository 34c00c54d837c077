//! What holds of the routing core as a whole: laws that relate the pending
//! table, the sessions and the two façades, each proved from the contracts
//! of the functions it speaks of.

use crate::command_bus::{BusEvent, ServerRequestByUser};
use crate::message::{
    ContainerAction, ContainerLogs, ContainerStatus, Envelope, NodeCommandKind, NodeResponse,
    Payload, PendingKey, RequestId, RequestType,
};
use crate::node::{
    action_reply, containers_reply, is_statuses_reply, logs_reply, status_reply,
};
use crate::pending::{PendingEntries, SlotId};
use crate::presence::BusId;
use crate::rest::{
    LogsQuery, PendingCall, RestBody, RestReply, STATUS_OK, is_command_for,
    is_success_reply, node_error_of,
};
use crate::session::{EgressStep, Routing, Session, pending_after, route_of};
use vstd::prelude::*;

verus! {

/// What can happen to the pending table.
pub enum TableEvent {
    /// A call is opened under `key` with the reply slot `slot`.
    Open { key: PendingKey, slot: SlotId },
    /// A session routes a reply of its node.
    Reply(NodeResponse),
    /// A caller gives up on the call under `key`.
    GiveUp { key: PendingKey },
}

/// The pending table after `event`.
pub open spec fn table_after(pending: PendingEntries, event: TableEvent) -> PendingEntries {
    match event {
        TableEvent::Open { key, slot } => if pending.contains_key(key) {
            pending
        } else {
            pending.insert(key, slot)
        },
        TableEvent::Reply(response) => pending_after(pending, response),
        TableEvent::GiveUp { key } => pending.remove(key),
    }
}

/// Whether `event` delivers a reply to the caller that waits under `key`.
pub open spec fn delivers(pending: PendingEntries, bus: BusId, event: TableEvent, key: PendingKey) -> bool {
    &&& event matches TableEvent::Reply(response)
    &&& response.correlation() == Some(key)
    &&& route_of(pending, bus, response) is Deliver
}

/// How many replies are delivered to the caller under `key` in the course
/// of `events`, starting from the table `pending`.
pub open spec fn deliveries(
    pending: PendingEntries,
    bus: BusId,
    events: Seq<TableEvent>,
    key: PendingKey,
) -> nat
    decreases events.len(),
{
    if events.len() == 0 {
        0
    } else {
        let here: nat = if delivers(pending, bus, events[0], key) {
            1
        } else {
            0
        };
        here + deliveries(
            table_after(pending, events[0]),
            bus,
            events.subrange(1, events.len() as int),
            key,
        )
    }
}

/// How many times a call is opened under `key` in the course of `events`.
pub open spec fn openings(events: Seq<TableEvent>, key: PendingKey) -> nat
    decreases events.len(),
{
    if events.len() == 0 {
        0
    } else {
        let here: nat = if events[0] matches TableEvent::Open { key: k, .. } && k == key {
            1
        } else {
            0
        };
        here + openings(events.subrange(1, events.len() as int), key)
    }
}

/// Whether a call waits under `key`, as a number.
pub open spec fn waiting(pending: PendingEntries, key: PendingKey) -> nat {
    if pending.contains_key(key) {
        1
    } else {
        0
    }
}

/// No key receives more replies than calls were opened under it: whatever
/// the order of openings, replies and callers giving up, the replies
/// delivered under a key number at most the calls opened under it, plus one
/// if a call was waiting at the start.
pub proof fn lemma_deliveries_bounded(
    pending: PendingEntries,
    bus: BusId,
    events: Seq<TableEvent>,
    key: PendingKey,
)
    ensures
        deliveries(pending, bus, events, key) <= openings(events, key) + waiting(pending, key),
    decreases events.len(),
{
    if events.len() > 0 {
        let rest = events.subrange(1, events.len() as int);
        lemma_deliveries_bounded(table_after(pending, events[0]), bus, rest, key);
    }
}

/// A request id that is used for one call receives at most one reply:
/// under a key that was not waiting and is opened at most once, at most one
/// reply is ever delivered.
pub proof fn lemma_at_most_one_delivery(
    pending: PendingEntries,
    bus: BusId,
    events: Seq<TableEvent>,
    key: PendingKey,
)
    requires
        !pending.contains_key(key),
        openings(events, key) <= 1,
    ensures
        deliveries(pending, bus, events, key) <= 1,
{
    lemma_deliveries_bounded(pending, bus, events, key);
}

/// Replies are never swapped: when two calls wait under different request
/// ids, the reply to each goes to that call's own slot, whichever of the two
/// replies arrives first.
pub proof fn lemma_replies_not_swapped(
    pending: PendingEntries,
    bus: BusId,
    first: NodeResponse,
    first_key: PendingKey,
    second: NodeResponse,
    second_key: PendingKey,
)
    requires
        first.correlation() == Some(first_key),
        second.correlation() == Some(second_key),
        first_key.0 != second_key.0,
        pending.contains_key(first_key),
        pending.contains_key(second_key),
    ensures
        route_of(pending, bus, first) == (Routing::Deliver {
            slot: pending[first_key],
            envelope: Envelope::of_response(first),
        }),
        route_of(pending_after(pending, first), bus, second) == (Routing::Deliver {
            slot: pending[second_key],
            envelope: Envelope::of_response(second),
        }),
        route_of(pending, bus, second) == (Routing::Deliver {
            slot: pending[second_key],
            envelope: Envelope::of_response(second),
        }),
        route_of(pending_after(pending, second), bus, first) == (Routing::Deliver {
            slot: pending[first_key],
            envelope: Envelope::of_response(first),
        }),
{
}

/// A reply reaches a caller only under the request id it carries: whenever
/// a reply is delivered to a slot, the reply names a request, and the slot
/// is the one that waited under that request's id and type.
pub proof fn lemma_delivered_reply_names_its_request(
    pending: PendingEntries,
    bus: BusId,
    response: NodeResponse,
)
    requires
        route_of(pending, bus, response) is Deliver,
    ensures
        response.request_key() matches Some(key) && key.request_id matches Some(
            RequestId::Value(id),
        ) && pending.contains_key((id@, key.request_type)) && route_of(pending, bus, response)
            == (Routing::Deliver {
            slot: pending[(id@, key.request_type)],
            envelope: Envelope::of_response(response),
        }),
{
}

/// A late reply blocks nobody: a reply whose call no longer waits is
/// published on the session's bus, and the pending table stays as it is.
pub proof fn lemma_late_reply_is_published(
    pending: PendingEntries,
    bus: BusId,
    response: NodeResponse,
)
    requires
        response.correlation() matches Some(key) ==> !pending.contains_key(key),
    ensures
        route_of(pending, bus, response) == (Routing::Publish {
            bus,
            envelope: Envelope::of_response(response),
        }),
        pending_after(pending, response) == pending,
{
    match response.correlation() {
        Some(key) => {
            assert(pending.remove(key) =~= pending);
        },
        None => {},
    }
}

/// A command for credentials that no session holds reaches no session:
/// every session passes it over, and nothing is forwarded to any node.
pub proof fn lemma_unmatched_command_reaches_no_session(
    sessions: Seq<Session>,
    request: ServerRequestByUser,
)
    requires
        forall|i: int|
            0 <= i < sessions.len() ==> (#[trigger] sessions[i]).credentials() != Some(
                (request.id@, request.password@),
            ),
    ensures
        forall|i: int|
            0 <= i < sessions.len() ==> (#[trigger] sessions[i]).egress_of(
                BusEvent::Message(request),
            ) == EgressStep::Skip,
{
}

/// A command is forwarded only by sessions that hold exactly its
/// credentials.
pub proof fn lemma_forward_needs_matching_credentials(
    session: Session,
    request: ServerRequestByUser,
)
    requires
        session.egress_of(BusEvent::Message(request)) is Forward,
    ensures
        session.credentials() == Some((request.id@, request.password@)),
        session.state() is Authenticated,
        session.egress_of(BusEvent::Message(request)) == EgressStep::Forward(request.envelope),
{
    session.lemma_state_credentials();
}

/// The list of containers makes the round trip: when the node answers a
/// call for its containers with the names `containers`, the reply is not an
/// error, it is correlated to the call, and the call's reply is 200 with
/// the request id and exactly those names.
pub proof fn lemma_list_round_trip(call: PendingCall, containers: Vec<String>, reply: RestReply)
    requires
        call.endpoint is ListContainers,
        is_success_reply(reply, call, containers_reply(call.request_id, containers)),
    ensures
        node_error_of(containers_reply(call.request_id, containers)) is None,
        containers_reply(call.request_id, containers).payload matches Some(
            Payload::NodeResponse(response),
        ) && response.correlation() == Some(call.key()),
        reply.status == STATUS_OK,
        reply.body matches RestBody::Containers(list) && list.id == call.request_id
            && list.containers == containers,
{
}

/// The request that a command carries: its type and its id.
pub open spec fn command_key(kind: NodeCommandKind) -> PendingKey {
    match kind {
        NodeCommandKind::GetNodeContainers(c) => (
            c.request_id@,
            RequestType::GetContainers.spec_code(),
        ),
        NodeCommandKind::GetNodeContainersWithStatus(c) => (
            c.request_id@,
            RequestType::GetContainersWithStatus.spec_code(),
        ),
        NodeCommandKind::GetContainerStatus(c) => (
            c.request_id@,
            RequestType::GetContainerStatus.spec_code(),
        ),
        NodeCommandKind::StartContainer(c) => (
            c.request_id@,
            RequestType::StartContainer.spec_code(),
        ),
        NodeCommandKind::StopContainer(c) => (
            c.request_id@,
            RequestType::StopContainer.spec_code(),
        ),
        NodeCommandKind::DeleteContainer(c) => (
            c.request_id@,
            RequestType::DeleteContainer.spec_code(),
        ),
        NodeCommandKind::GetContainerLogs(c) => (
            c.request_id@,
            RequestType::GetContainerLogs.spec_code(),
        ),
    }
}

/// The command of a call carries the key under which the call waits.
pub proof fn lemma_command_carries_call_key(call: PendingCall, kind: NodeCommandKind, logs: LogsQuery)
    requires
        is_command_for(kind, call.endpoint, call.request_id@, call.container_id@, logs),
    ensures
        command_key(kind) == call.key(),
{
}

/// The key under which the reply in `envelope` is correlated, if the
/// envelope carries a reply that names a request.
pub open spec fn correlation_of(envelope: Envelope) -> Option<PendingKey> {
    match envelope.payload {
        Some(Payload::NodeResponse(response)) => response.correlation(),
        _ => None,
    }
}

/// The request id makes the round trip: the reply that a node builds for a
/// request id, of whatever kind and whether it reports success or an error,
/// is correlated under that same id and the type of its request.
pub proof fn lemma_reply_key_round_trip(
    request_id: String,
    containers: Vec<String>,
    status: Result<ContainerStatus, String>,
    action: Result<ContainerAction, String>,
    logs: ContainerLogs,
)
    ensures
        correlation_of(containers_reply(request_id, containers)) == Some(
            (request_id@, RequestType::GetContainers.spec_code()),
        ),
        correlation_of(status_reply(request_id, status)) == Some(
            (request_id@, RequestType::GetContainerStatus.spec_code()),
        ),
        correlation_of(action_reply(RequestType::StartContainer, request_id, action)) == Some(
            (request_id@, RequestType::StartContainer.spec_code()),
        ),
        correlation_of(action_reply(RequestType::StopContainer, request_id, action)) == Some(
            (request_id@, RequestType::StopContainer.spec_code()),
        ),
        correlation_of(action_reply(RequestType::DeleteContainer, request_id, action)) == Some(
            (request_id@, RequestType::DeleteContainer.spec_code()),
        ),
        correlation_of(logs_reply(request_id, logs)) == Some(
            (request_id@, RequestType::GetContainerLogs.spec_code()),
        ),
{
}

/// The same holds of the reply that lists containers with their status.
pub proof fn lemma_statuses_reply_key_round_trip(
    envelope: Envelope,
    request_id: String,
    statuses: Seq<ContainerStatus>,
)
    requires
        is_statuses_reply(envelope, request_id, statuses),
    ensures
        correlation_of(envelope) == Some(
            (request_id@, RequestType::GetContainersWithStatus.spec_code()),
        ),
{
}

} // verus!
