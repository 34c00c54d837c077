//! The request/reply façade: each call of the HTTP API becomes a command
//! for one node, waits under its own key for the reply, and maps whatever
//! comes of it to a status code and a body.

use crate::command_bus::ServerRequestByUser;
use crate::message::{
    ContainerStatus, DeleteContainer, Envelope, GetContainerLogs, GetContainerStatus,
    GetNodeContainers, GetNodeContainersWithStatus, NodeCommandKind, NodeResponseKind, Payload,
    RequestType, StartContainer, StopContainer,
};
use crate::pending::{PendingTable, SlotId};
use crate::message::PendingKey;
use crate::pending::PendingEntries;
use crate::request_id::{is_request_id, new_request_id};
use vstd::prelude::*;

verus! {

/// The status code of a reply that succeeded.
pub const STATUS_OK: u16 = 200;

/// The status code of a reply to a call that the node reported as failed.
pub const STATUS_BAD_REQUEST: u16 = 400;

/// The status code of a reply to a call whose deadline passed.
pub const STATUS_REQUEST_TIMEOUT: u16 = 408;

/// The status code of a reply to a call that the coordinator could not carry
/// through.
pub const STATUS_INTERNAL_SERVER_ERROR: u16 = 500;

/// The credentials that every call presents; they address the node.
#[derive(Clone, Debug, PartialEq, Eq)]
pub struct AuthParams {
    pub node_id: String,
    pub password: String,
}

/// The options of a call for a container's logs.
#[derive(Clone, Debug, PartialEq, Eq)]
pub struct LogsQuery {
    pub tail: Option<i32>,
    pub follow: Option<bool>,
    pub since: Option<String>,
}

impl LogsQuery {
    /// The number of lines asked for: 100 unless stated.
    pub open spec fn tail_or_default(self) -> i32 {
        match self.tail {
            Some(tail) => tail,
            None => 100,
        }
    }

    /// Whether to follow the log: not unless stated.
    pub open spec fn follow_or_default(self) -> bool {
        match self.follow {
            Some(follow) => follow,
            None => false,
        }
    }

    /// The point in time to start from: empty unless stated.
    pub open spec fn since_or_default(self) -> Seq<char> {
        match self.since {
            Some(since) => since@,
            None => Seq::empty(),
        }
    }

    /// The query that states no option.
    pub open spec fn unset() -> LogsQuery {
        LogsQuery { tail: None, follow: None, since: None }
    }

    /// A query that states no option.
    pub fn none() -> (query: LogsQuery)
        ensures
            query == LogsQuery::unset(),
    {
        LogsQuery { tail: None, follow: None, since: None }
    }
}

/// The operations of the API.
#[derive(Clone, Copy, Debug, PartialEq, Eq)]
pub enum Endpoint {
    ListContainers,
    ListContainersWithStatus,
    ContainerStatus,
    StartContainer,
    StopContainer,
    DeleteContainer,
    ContainerLogs,
}

impl Endpoint {
    /// The request type under which a call of this operation waits.
    pub open spec fn spec_request_type(self) -> RequestType {
        match self {
            Endpoint::ListContainers => RequestType::GetContainers,
            Endpoint::ListContainersWithStatus => RequestType::GetContainersWithStatus,
            Endpoint::ContainerStatus => RequestType::GetContainerStatus,
            Endpoint::StartContainer => RequestType::StartContainer,
            Endpoint::StopContainer => RequestType::StopContainer,
            Endpoint::DeleteContainer => RequestType::DeleteContainer,
            Endpoint::ContainerLogs => RequestType::GetContainerLogs,
        }
    }

    /// The seconds a call of this operation waits for its reply.
    pub open spec fn spec_deadline_secs(self) -> u64 {
        match self {
            Endpoint::ContainerStatus => 5,
            _ => 10,
        }
    }

    /// The word for the operation in the body of a container action.
    pub open spec fn action_word(self) -> Seq<char> {
        match self {
            Endpoint::StartContainer => "start"@,
            Endpoint::StopContainer => "stop"@,
            Endpoint::DeleteContainer => "delete"@,
            _ => Seq::empty(),
        }
    }

    /// The operation starts, stops or deletes a container.
    pub open spec fn is_action(self) -> bool {
        self is StartContainer || self is StopContainer || self is DeleteContainer
    }

    /// The wire number of the request type of this operation.
    pub open spec fn code(self) -> i32 {
        self.spec_request_type().spec_code()
    }

    #[verifier::when_used_as_spec(spec_request_type)]
    pub fn request_type(self) -> (request_type: RequestType)
        ensures
            request_type == self.spec_request_type(),
    {
        match self {
            Endpoint::ListContainers => RequestType::GetContainers,
            Endpoint::ListContainersWithStatus => RequestType::GetContainersWithStatus,
            Endpoint::ContainerStatus => RequestType::GetContainerStatus,
            Endpoint::StartContainer => RequestType::StartContainer,
            Endpoint::StopContainer => RequestType::StopContainer,
            Endpoint::DeleteContainer => RequestType::DeleteContainer,
            Endpoint::ContainerLogs => RequestType::GetContainerLogs,
        }
    }

    #[verifier::when_used_as_spec(spec_deadline_secs)]
    pub fn deadline_secs(self) -> (secs: u64)
        ensures
            secs == self.spec_deadline_secs(),
    {
        match self {
            Endpoint::ContainerStatus => 5,
            _ => 10,
        }
    }
}

/// The command that a call of `endpoint` sends to the node: it names the
/// request and, where the operation is on one container, the container; a
/// call for logs also carries its options, with their defaults filled in.
pub open spec fn is_command_for(
    kind: NodeCommandKind,
    endpoint: Endpoint,
    request_id: Seq<char>,
    container_id: Seq<char>,
    logs: LogsQuery,
) -> bool {
    match endpoint {
        Endpoint::ListContainers => {
            &&& kind matches NodeCommandKind::GetNodeContainers(command)
            &&& command.request_id@ == request_id
        },
        Endpoint::ListContainersWithStatus => {
            &&& kind matches NodeCommandKind::GetNodeContainersWithStatus(command)
            &&& command.request_id@ == request_id
        },
        Endpoint::ContainerStatus => {
            &&& kind matches NodeCommandKind::GetContainerStatus(command)
            &&& command.request_id@ == request_id
            &&& command.container_id@ == container_id
        },
        Endpoint::StartContainer => {
            &&& kind matches NodeCommandKind::StartContainer(command)
            &&& command.request_id@ == request_id
            &&& command.container_id@ == container_id
        },
        Endpoint::StopContainer => {
            &&& kind matches NodeCommandKind::StopContainer(command)
            &&& command.request_id@ == request_id
            &&& command.container_id@ == container_id
        },
        Endpoint::DeleteContainer => {
            &&& kind matches NodeCommandKind::DeleteContainer(command)
            &&& command.request_id@ == request_id
            &&& command.container_id@ == container_id
        },
        Endpoint::ContainerLogs => {
            &&& kind matches NodeCommandKind::GetContainerLogs(command)
            &&& command.request_id@ == request_id
            &&& command.container_id@ == container_id
            &&& command.tail == logs.tail_or_default()
            &&& command.follow == logs.follow_or_default()
            &&& command.since@ == logs.since_or_default()
        },
    }
}

/// A call that has been sent towards its node and awaits the reply.
#[derive(Clone, Debug, PartialEq, Eq)]
pub struct PendingCall {
    pub endpoint: Endpoint,
    pub request_id: String,
    pub container_id: String,
}

/// How the wait for a reply ended.
#[derive(Clone, Debug, PartialEq, Eq)]
pub enum ReplyOutcome {
    /// The node's reply arrived on the slot.
    Reply(Envelope),
    /// The slot was dropped before any reply.
    ChannelClosed,
    /// The deadline passed.
    TimedOut,
}

#[derive(Clone, Debug, PartialEq, Eq)]
pub struct ApiErrorDetail {
    pub message: String,
    pub detail: String,
}

/// The body of a reply to a call that failed after it was sent.
#[derive(Clone, Debug, PartialEq, Eq)]
pub struct ApiError {
    pub req_uuid: String,
    pub error: ApiErrorDetail,
}

/// The body of a reply to a call that could not be sent.
#[derive(Clone, Debug, PartialEq, Eq)]
pub struct SendFailure {
    pub error: String,
}

#[derive(Clone, Debug, PartialEq, Eq)]
pub struct ContainerList {
    pub id: String,
    pub containers: Vec<String>,
}

#[derive(Clone, Debug, PartialEq, Eq)]
pub struct StatusDetail {
    pub status: String,
    pub created: i64,
    pub started_at: i64,
    pub finished_at: i64,
    pub exit_code: i32,
}

#[derive(Clone, Debug, PartialEq, Eq)]
pub struct ContainerStatusEntry {
    pub container_id: String,
    pub status: String,
    pub created: i64,
    pub started_at: i64,
    pub finished_at: i64,
    pub exit_code: i32,
}

#[derive(Clone, Debug, PartialEq, Eq)]
pub struct ContainerStatusList {
    pub id: String,
    pub containers: Vec<ContainerStatusEntry>,
}

#[derive(Clone, Debug, PartialEq, Eq)]
pub struct StatusReport {
    pub id: String,
    pub container_id: String,
    pub status: Option<StatusDetail>,
}

#[derive(Clone, Debug, PartialEq, Eq)]
pub struct ActionDetail {
    pub container_id: String,
    pub action: String,
    pub message: String,
}

#[derive(Clone, Debug, PartialEq, Eq)]
pub struct ActionReport {
    pub id: String,
    pub container_id: String,
    pub action: String,
    pub result: Option<ActionDetail>,
}

#[derive(Clone, Debug, PartialEq, Eq)]
pub struct LogsDetail {
    pub container_id: String,
    pub logs: Vec<String>,
}

#[derive(Clone, Debug, PartialEq, Eq)]
pub struct LogsReport {
    pub id: String,
    pub container_id: String,
    pub logs: Option<LogsDetail>,
}

/// The body of a reply, one shape per kind of outcome.
#[derive(Clone, Debug, PartialEq, Eq)]
pub enum RestBody {
    Containers(ContainerList),
    ContainersWithStatus(ContainerStatusList),
    Status(StatusReport),
    Action(ActionReport),
    Logs(LogsReport),
    Error(ApiError),
    SendFailure(SendFailure),
}

/// What the API answers to a call.
#[derive(Clone, Debug, PartialEq, Eq)]
pub struct RestReply {
    pub status: u16,
    pub body: RestBody,
}

impl PendingCall {
    /// The key under which the call waits.
    pub open spec fn key(self) -> PendingKey {
        (self.request_id@, self.endpoint.code())
    }
}

/// `call` and `request` are what opening a call of `endpoint` under
/// `request_id` yields: the call remembers the operation, the request and
/// the container, and the request carries the operation's command to the
/// node that `query` addresses.
pub open spec fn is_opened(
    call: PendingCall,
    request: ServerRequestByUser,
    endpoint: Endpoint,
    request_id: Seq<char>,
    container_id: Seq<char>,
    logs: LogsQuery,
    query: AuthParams,
) -> bool {
    &&& call.endpoint == endpoint
    &&& call.request_id@ == request_id
    &&& call.container_id@ == container_id
    &&& request.id == query.node_id
    &&& request.password == query.password
    &&& request.envelope.payload matches Some(Payload::NodeCommand(command))
    &&& command.kind matches Some(kind)
    &&& is_command_for(kind, endpoint, request_id, container_id, logs)
}

/// What a handler leaves behind. Either the call was opened under a fresh
/// request id that was not waiting before, and now waits on `slot`; or the
/// id that was generated is already waiting, and nothing has changed.
pub open spec fn call_started(
    endpoint: Endpoint,
    container_id: Seq<char>,
    logs: LogsQuery,
    query: AuthParams,
    slot: SlotId,
    before: PendingEntries,
    after: PendingEntries,
    out: Option<(PendingCall, ServerRequestByUser)>,
) -> bool {
    match out {
        Some((call, request)) => {
            &&& is_request_id(call.request_id@)
            &&& !before.contains_key(call.key())
            &&& after == before.insert(call.key(), slot)
            &&& is_opened(call, request, endpoint, call.request_id@, container_id, logs, query)
        },
        None => {
            &&& after == before
            &&& exists|id: Seq<char>|
                is_request_id(id) && #[trigger] before.contains_key((id, endpoint.code()))
        },
    }
}

fn build_command(endpoint: Endpoint, request_id: String, container_id: String, logs: LogsQuery) -> (kind:
    NodeCommandKind)
    ensures
        is_command_for(kind, endpoint, request_id@, container_id@, logs),
{
    match endpoint {
        Endpoint::ListContainers => NodeCommandKind::GetNodeContainers(
            GetNodeContainers { request_id },
        ),
        Endpoint::ListContainersWithStatus => NodeCommandKind::GetNodeContainersWithStatus(
            GetNodeContainersWithStatus { request_id },
        ),
        Endpoint::ContainerStatus => NodeCommandKind::GetContainerStatus(
            GetContainerStatus { request_id, container_id },
        ),
        Endpoint::StartContainer => NodeCommandKind::StartContainer(
            StartContainer { request_id, container_id },
        ),
        Endpoint::StopContainer => NodeCommandKind::StopContainer(
            StopContainer { request_id, container_id },
        ),
        Endpoint::DeleteContainer => NodeCommandKind::DeleteContainer(
            DeleteContainer { request_id, container_id },
        ),
        Endpoint::ContainerLogs => {
            let tail: i32 = match logs.tail {
                Some(tail) => tail,
                None => 100,
            };
            let follow = match logs.follow {
                Some(follow) => follow,
                None => false,
            };
            let since = match logs.since {
                Some(since) => since,
                None => String::new(),
            };
            NodeCommandKind::GetContainerLogs(
                GetContainerLogs { request_id, container_id, tail, follow, since },
            )
        },
    }
}

/// Opens a call under a given request id: registers `slot` in the pending
/// table, then builds the request to publish on the command bus, in that
/// order, so that no reply can arrive before its slot waits.
///
/// A request id that is already waiting for the same operation is refused:
/// nothing is registered and there is nothing to publish.
pub fn open_call(
    endpoint: Endpoint,
    container_id: String,
    logs: LogsQuery,
    query: AuthParams,
    request_id: String,
    slot: SlotId,
    pending: &mut PendingTable,
) -> (out: Option<(PendingCall, ServerRequestByUser)>)
    ensures
        out is Some <==> !old(pending)@.contains_key((request_id@, endpoint.code())),
        out matches Some((call, request)) ==> is_opened(
            call,
            request,
            endpoint,
            request_id@,
            container_id@,
            logs,
            query,
        ) && final(pending)@ == old(pending)@.insert((request_id@, endpoint.code()), slot),
        out is None ==> final(pending)@ == old(pending)@,
{
    let code = endpoint.request_type().code();
    if !pending.insert(request_id.clone(), code, slot) {
        return None;
    }
    let kind = build_command(endpoint, request_id.clone(), container_id.clone(), logs);
    let request = ServerRequestByUser {
        envelope: Envelope::from_command(kind),
        id: query.node_id,
        password: query.password,
    };
    Some((PendingCall { endpoint, request_id, container_id }, request))
}

fn start_call(
    endpoint: Endpoint,
    container_id: String,
    logs: LogsQuery,
    query: AuthParams,
    slot: SlotId,
    pending: &mut PendingTable,
) -> (out: Option<(PendingCall, ServerRequestByUser)>)
    ensures
        call_started(endpoint, container_id@, logs, query, slot, old(pending)@, final(pending)@, out),
{
    let request_id = new_request_id();
    let ghost id = request_id@;
    let out = open_call(endpoint, container_id, logs, query, request_id, slot, pending);
    proof {
        if out is None {
            assert(old(pending)@.contains_key((id, endpoint.code())));
        }
    }
    out
}

/// `GET /api/containers`: asks the node for the names of its containers.
pub fn get_containers(query: AuthParams, slot: SlotId, pending: &mut PendingTable) -> (out: Option<
    (PendingCall, ServerRequestByUser),
>)
    ensures
        call_started(
            Endpoint::ListContainers,
            Seq::empty(),
            LogsQuery::unset(),
            query,
            slot,
            old(pending)@,
            final(pending)@,
            out,
        ),
{
    start_call(Endpoint::ListContainers, String::new(), LogsQuery::none(), query, slot, pending)
}

/// Asks the node for its containers together with the status of each.
pub fn get_containers_with_status(
    query: AuthParams,
    slot: SlotId,
    pending: &mut PendingTable,
) -> (out: Option<(PendingCall, ServerRequestByUser)>)
    ensures
        call_started(
            Endpoint::ListContainersWithStatus,
            Seq::empty(),
            LogsQuery::unset(),
            query,
            slot,
            old(pending)@,
            final(pending)@,
            out,
        ),
{
    start_call(
        Endpoint::ListContainersWithStatus,
        String::new(),
        LogsQuery::none(),
        query,
        slot,
        pending,
    )
}

/// `GET /api/containers/{id}/status`: asks the node to inspect a container.
pub fn get_container_status(
    container_id: String,
    query: AuthParams,
    slot: SlotId,
    pending: &mut PendingTable,
) -> (out: Option<(PendingCall, ServerRequestByUser)>)
    ensures
        call_started(
            Endpoint::ContainerStatus,
            container_id@,
            LogsQuery::unset(),
            query,
            slot,
            old(pending)@,
            final(pending)@,
            out,
        ),
{
    start_call(Endpoint::ContainerStatus, container_id, LogsQuery::none(), query, slot, pending)
}

/// `POST /api/containers/{id}/start`: asks the node to start a container.
pub fn start_container(
    container_id: String,
    query: AuthParams,
    slot: SlotId,
    pending: &mut PendingTable,
) -> (out: Option<(PendingCall, ServerRequestByUser)>)
    ensures
        call_started(
            Endpoint::StartContainer,
            container_id@,
            LogsQuery::unset(),
            query,
            slot,
            old(pending)@,
            final(pending)@,
            out,
        ),
{
    start_call(Endpoint::StartContainer, container_id, LogsQuery::none(), query, slot, pending)
}

/// `POST /api/containers/{id}/stop`: asks the node to stop a container.
pub fn stop_container(
    container_id: String,
    query: AuthParams,
    slot: SlotId,
    pending: &mut PendingTable,
) -> (out: Option<(PendingCall, ServerRequestByUser)>)
    ensures
        call_started(
            Endpoint::StopContainer,
            container_id@,
            LogsQuery::unset(),
            query,
            slot,
            old(pending)@,
            final(pending)@,
            out,
        ),
{
    start_call(Endpoint::StopContainer, container_id, LogsQuery::none(), query, slot, pending)
}

/// `DELETE /api/containers/{id}`: asks the node to delete a container.
pub fn delete_container(
    container_id: String,
    query: AuthParams,
    slot: SlotId,
    pending: &mut PendingTable,
) -> (out: Option<(PendingCall, ServerRequestByUser)>)
    ensures
        call_started(
            Endpoint::DeleteContainer,
            container_id@,
            LogsQuery::unset(),
            query,
            slot,
            old(pending)@,
            final(pending)@,
            out,
        ),
{
    start_call(Endpoint::DeleteContainer, container_id, LogsQuery::none(), query, slot, pending)
}

/// `GET /api/containers/{id}/logs`: asks the node for a container's logs,
/// the last 100 lines without following unless `logs_query` says otherwise.
pub fn get_container_logs(
    container_id: String,
    logs_query: LogsQuery,
    query: AuthParams,
    slot: SlotId,
    pending: &mut PendingTable,
) -> (out: Option<(PendingCall, ServerRequestByUser)>)
    ensures
        call_started(
            Endpoint::ContainerLogs,
            container_id@,
            logs_query,
            query,
            slot,
            old(pending)@,
            final(pending)@,
            out,
        ),
{
    start_call(Endpoint::ContainerLogs, container_id, logs_query, query, slot, pending)
}

/// The message of the error that a node reports in `reply`, if it does.
pub open spec fn node_error_of(reply: Envelope) -> Option<String> {
    match reply.payload {
        Some(Payload::NodeResponse(response)) => match response.kind {
            Some(NodeResponseKind::Error(error)) => Some(error.message),
            _ => None,
        },
        _ => None,
    }
}

/// The container names that `reply` lists, if it is a list of containers.
pub open spec fn containers_of(reply: Envelope) -> Option<Vec<String>> {
    match reply.payload {
        Some(Payload::NodeResponse(response)) => match response.kind {
            Some(NodeResponseKind::NodeContainers(list)) => Some(list.containers),
            _ => None,
        },
        _ => None,
    }
}

/// The statuses that `reply` lists, if it is a list of containers with
/// their status.
pub open spec fn statuses_of(reply: Envelope) -> Option<Vec<ContainerStatus>> {
    match reply.payload {
        Some(Payload::NodeResponse(response)) => match response.kind {
            Some(NodeResponseKind::NodeContainersWithStatus(list)) => Some(list.containers),
            _ => None,
        },
        _ => None,
    }
}

/// The status that `reply` reports, if it is the status of a container.
pub open spec fn status_detail_of(reply: Envelope) -> Option<StatusDetail> {
    match reply.payload {
        Some(Payload::NodeResponse(response)) => match response.kind {
            Some(NodeResponseKind::ContainerStatus(status)) => Some(
                StatusDetail {
                    status: status.status,
                    created: status.created,
                    started_at: status.started_at,
                    finished_at: status.finished_at,
                    exit_code: status.exit_code,
                },
            ),
            _ => None,
        },
        _ => None,
    }
}

/// The result that `reply` reports, if it is the result of an action on a
/// container.
pub open spec fn action_detail_of(reply: Envelope) -> Option<ActionDetail> {
    match reply.payload {
        Some(Payload::NodeResponse(response)) => match response.kind {
            Some(NodeResponseKind::ContainerAction(action)) => Some(
                ActionDetail {
                    container_id: action.container_id,
                    action: action.action,
                    message: action.message,
                },
            ),
            _ => None,
        },
        _ => None,
    }
}

/// The log lines that `reply` carries, if it is a container's logs.
pub open spec fn logs_detail_of(reply: Envelope) -> Option<LogsDetail> {
    match reply.payload {
        Some(Payload::NodeResponse(response)) => match response.kind {
            Some(NodeResponseKind::ContainerLogs(logs)) => Some(
                LogsDetail { container_id: logs.container_id, logs: logs.logs },
            ),
            _ => None,
        },
        _ => None,
    }
}

/// The entry that stands for `status` in a list of containers with status.
pub open spec fn entry_of(status: ContainerStatus) -> ContainerStatusEntry {
    ContainerStatusEntry {
        container_id: status.container_id,
        status: status.status,
        created: status.created,
        started_at: status.started_at,
        finished_at: status.finished_at,
        exit_code: status.exit_code,
    }
}

/// `entries` lists `statuses`, entry by entry and in their order.
pub open spec fn lists_statuses(
    entries: Seq<ContainerStatusEntry>,
    statuses: Seq<ContainerStatus>,
) -> bool {
    &&& entries.len() == statuses.len()
    &&& forall|i: int| 0 <= i < entries.len() ==> #[trigger] entries[i] == entry_of(statuses[i])
}

/// `reply` is the error reply with the given status code and texts, for the
/// request `req_uuid`.
pub open spec fn is_error_reply(
    reply: RestReply,
    status: u16,
    req_uuid: Seq<char>,
    message: Seq<char>,
    detail: Seq<char>,
) -> bool {
    &&& reply.status == status
    &&& reply.body matches RestBody::Error(error)
    &&& error.req_uuid@ == req_uuid
    &&& error.error.message@ == message
    &&& error.error.detail@ == detail
}

/// `reply` is the reply to a call that could not be sent.
pub open spec fn is_send_failure(reply: RestReply) -> bool {
    &&& reply.status == STATUS_INTERNAL_SERVER_ERROR
    &&& reply.body matches RestBody::SendFailure(failure)
    &&& failure.error@ == "Failed to send request to server"@
}

/// `reply` is the success reply of `call` to the node's reply `envelope`:
/// status 200 and the body of the call's operation, which echoes the request
/// id and, for an operation on one container, the container, and holds what
/// the node reported. Where the node's reply is of another kind than the
/// operation expects, the list is empty and any other content is absent.
pub open spec fn is_success_reply(reply: RestReply, call: PendingCall, envelope: Envelope) -> bool {
    &&& reply.status == STATUS_OK
    &&& match call.endpoint {
        Endpoint::ListContainers => {
            &&& reply.body matches RestBody::Containers(list)
            &&& list.id == call.request_id
            &&& match containers_of(envelope) {
                Some(names) => list.containers == names,
                None => list.containers@.len() == 0,
            }
        },
        Endpoint::ListContainersWithStatus => {
            &&& reply.body matches RestBody::ContainersWithStatus(list)
            &&& list.id == call.request_id
            &&& match statuses_of(envelope) {
                Some(statuses) => lists_statuses(list.containers@, statuses@),
                None => list.containers@.len() == 0,
            }
        },
        Endpoint::ContainerStatus => {
            &&& reply.body matches RestBody::Status(report)
            &&& report.id == call.request_id
            &&& report.container_id == call.container_id
            &&& report.status == status_detail_of(envelope)
        },
        Endpoint::ContainerLogs => {
            &&& reply.body matches RestBody::Logs(report)
            &&& report.id == call.request_id
            &&& report.container_id == call.container_id
            &&& report.logs == logs_detail_of(envelope)
        },
        _ => {
            &&& reply.body matches RestBody::Action(report)
            &&& report.id == call.request_id
            &&& report.container_id == call.container_id
            &&& report.action@ == call.endpoint.action_word()
            &&& report.result == action_detail_of(envelope)
        },
    }
}

/// The message of the error that the node reports in `response`, if any.
pub fn extract_node_error_from_response(response: &Envelope) -> (message: Option<String>)
    ensures
        message == node_error_of(*response),
{
    match &response.payload {
        Some(Payload::NodeResponse(node_response)) => match &node_response.kind {
            Some(NodeResponseKind::Error(error)) => Some(error.message.clone()),
            _ => None,
        },
        _ => None,
    }
}

/// The container names listed in `response`, if it is a list of containers.
pub fn extract_containers_from_response(response: Envelope) -> (names: Option<Vec<String>>)
    ensures
        names == containers_of(response),
{
    match response.payload {
        Some(Payload::NodeResponse(node_response)) => match node_response.kind {
            Some(NodeResponseKind::NodeContainers(list)) => Some(list.containers),
            _ => None,
        },
        _ => None,
    }
}

/// The entries for the containers listed with their status in `response`;
/// none where it is not such a list.
pub fn extract_containers_with_status_from_response(response: Envelope) -> (entries: Vec<
    ContainerStatusEntry,
>)
    ensures
        match statuses_of(response) {
            Some(statuses) => lists_statuses(entries@, statuses@),
            None => entries@.len() == 0,
        },
{
    let statuses: Vec<ContainerStatus> = match response.payload {
        Some(Payload::NodeResponse(node_response)) => match node_response.kind {
            Some(NodeResponseKind::NodeContainersWithStatus(list)) => list.containers,
            _ => { return Vec::new(); },
        },
        _ => { return Vec::new(); },
    };
    let mut entries: Vec<ContainerStatusEntry> = Vec::new();
    let mut i: usize = 0;
    while i < statuses.len()
        invariant
            i <= statuses.len(),
            entries@.len() == i,
            forall|j: int| 0 <= j < i ==> #[trigger] entries@[j] == entry_of(statuses@[j]),
        decreases statuses.len() - i,
    {
        let status = &statuses[i];
        entries.push(
            ContainerStatusEntry {
                container_id: status.container_id.clone(),
                status: status.status.clone(),
                created: status.created,
                started_at: status.started_at,
                finished_at: status.finished_at,
                exit_code: status.exit_code,
            },
        );
        i += 1;
    }
    entries
}

/// The status reported in `response`, if it is the status of a container.
pub fn extract_container_status_from_response(response: Envelope) -> (detail: Option<StatusDetail>)
    ensures
        detail == status_detail_of(response),
{
    match response.payload {
        Some(Payload::NodeResponse(node_response)) => match node_response.kind {
            Some(NodeResponseKind::ContainerStatus(status)) => Some(
                StatusDetail {
                    status: status.status,
                    created: status.created,
                    started_at: status.started_at,
                    finished_at: status.finished_at,
                    exit_code: status.exit_code,
                },
            ),
            _ => None,
        },
        _ => None,
    }
}

/// The result reported in `response`, if it is the result of an action.
pub fn extract_container_action_from_response(response: Envelope) -> (detail: Option<ActionDetail>)
    ensures
        detail == action_detail_of(response),
{
    match response.payload {
        Some(Payload::NodeResponse(node_response)) => match node_response.kind {
            Some(NodeResponseKind::ContainerAction(action)) => Some(
                ActionDetail {
                    container_id: action.container_id,
                    action: action.action,
                    message: action.message,
                },
            ),
            _ => None,
        },
        _ => None,
    }
}

/// The log lines carried in `response`, if it is a container's logs.
pub fn extract_container_logs_from_response(response: Envelope) -> (detail: Option<LogsDetail>)
    ensures
        detail == logs_detail_of(response),
{
    match response.payload {
        Some(Payload::NodeResponse(node_response)) => match node_response.kind {
            Some(NodeResponseKind::ContainerLogs(logs)) => Some(
                LogsDetail { container_id: logs.container_id, logs: logs.logs },
            ),
            _ => None,
        },
        _ => None,
    }
}

/// The reply to a call that was not sent towards its node.
pub fn not_sent() -> (reply: RestReply)
    ensures
        is_send_failure(reply),
{
    RestReply {
        status: STATUS_INTERNAL_SERVER_ERROR,
        body: RestBody::SendFailure(
            SendFailure { error: "Failed to send request to server".to_owned() },
        ),
    }
}

fn error_reply(status: u16, req_uuid: String, message: &str, detail: String) -> (reply: RestReply)
    ensures
        is_error_reply(reply, status, req_uuid@, message@, detail@),
{
    let error = ApiErrorDetail { message: message.to_owned(), detail };
    RestReply { status, body: RestBody::Error(ApiError { req_uuid, error }) }
}

impl PendingCall {
    /// The seconds to wait for the reply before giving up.
    pub fn deadline_secs(&self) -> (secs: u64)
        ensures
            secs == self.endpoint.spec_deadline_secs(),
    {
        self.endpoint.deadline_secs()
    }

    /// Ends a call whose request could not be published: the call no longer
    /// waits, and the reply says that the request was not sent.
    pub fn publish_failed(self, pending: &mut PendingTable) -> (reply: RestReply)
        ensures
            is_send_failure(reply),
            final(pending)@ == old(pending)@.remove(self.key()),
    {
        let _ = pending.remove(self.request_id.as_str(), self.endpoint.request_type().code());
        not_sent()
    }

    /// Ends a call with the outcome of its wait and maps it to the reply.
    ///
    /// A reply of the node gives 200 and the operation's body, unless the
    /// node reports an error, which gives 400 with the node's message. A slot
    /// dropped without reply gives 500, a deadline that passed gives 408.
    /// On every path but success the call is taken out of the pending table;
    /// on success the table is left alone, the reply having been routed
    /// through it.
    pub fn complete(self, outcome: ReplyOutcome, pending: &mut PendingTable) -> (reply: RestReply)
        ensures
            match outcome {
                ReplyOutcome::Reply(envelope) => match node_error_of(envelope) {
                    Some(message) => {
                        &&& is_error_reply(
                            reply,
                            STATUS_BAD_REQUEST,
                            self.request_id@,
                            "Node error"@,
                            message@,
                        )
                        &&& final(pending)@ == old(pending)@.remove(self.key())
                    },
                    None => {
                        &&& is_success_reply(reply, self, envelope)
                        &&& final(pending)@ == old(pending)@
                    },
                },
                ReplyOutcome::ChannelClosed => {
                    &&& is_error_reply(
                        reply,
                        STATUS_INTERNAL_SERVER_ERROR,
                        self.request_id@,
                        "Response channel closed"@,
                        "Node dropped oneshot channel"@,
                    )
                    &&& final(pending)@ == old(pending)@.remove(self.key())
                },
                ReplyOutcome::TimedOut => {
                    &&& is_error_reply(
                        reply,
                        STATUS_REQUEST_TIMEOUT,
                        self.request_id@,
                        "Timeout waiting for node response"@,
                        "Timeout waiting for node response"@,
                    )
                    &&& final(pending)@ == old(pending)@.remove(self.key())
                },
            },
    {
        let code = self.endpoint.request_type().code();
        match outcome {
            ReplyOutcome::Reply(envelope) => {
                if let Some(message) = extract_node_error_from_response(&envelope) {
                    let _ = pending.remove(self.request_id.as_str(), code);
                    return error_reply(STATUS_BAD_REQUEST, self.request_id, "Node error", message);
                }
                let id = self.request_id;
                let container_id = self.container_id;
                let body = match self.endpoint {
                    Endpoint::ListContainers => {
                        let containers = match extract_containers_from_response(envelope) {
                            Some(names) => names,
                            None => Vec::new(),
                        };
                        RestBody::Containers(ContainerList { id, containers })
                    },
                    Endpoint::ListContainersWithStatus => {
                        let containers = extract_containers_with_status_from_response(envelope);
                        RestBody::ContainersWithStatus(ContainerStatusList { id, containers })
                    },
                    Endpoint::ContainerStatus => {
                        let status = extract_container_status_from_response(envelope);
                        RestBody::Status(StatusReport { id, container_id, status })
                    },
                    Endpoint::ContainerLogs => {
                        let logs = extract_container_logs_from_response(envelope);
                        RestBody::Logs(LogsReport { id, container_id, logs })
                    },
                    Endpoint::StartContainer => {
                        let result = extract_container_action_from_response(envelope);
                        RestBody::Action(
                            ActionReport { id, container_id, action: "start".to_owned(), result },
                        )
                    },
                    Endpoint::StopContainer => {
                        let result = extract_container_action_from_response(envelope);
                        RestBody::Action(
                            ActionReport { id, container_id, action: "stop".to_owned(), result },
                        )
                    },
                    Endpoint::DeleteContainer => {
                        let result = extract_container_action_from_response(envelope);
                        RestBody::Action(
                            ActionReport { id, container_id, action: "delete".to_owned(), result },
                        )
                    },
                };
                RestReply { status: STATUS_OK, body }
            },
            ReplyOutcome::ChannelClosed => {
                let _ = pending.remove(self.request_id.as_str(), code);
                error_reply(
                    STATUS_INTERNAL_SERVER_ERROR,
                    self.request_id,
                    "Response channel closed",
                    "Node dropped oneshot channel".to_owned(),
                )
            },
            ReplyOutcome::TimedOut => {
                let _ = pending.remove(self.request_id.as_str(), code);
                error_reply(
                    STATUS_REQUEST_TIMEOUT,
                    self.request_id,
                    "Timeout waiting for node response",
                    "Timeout waiting for node response".to_owned(),
                )
            },
        }
    }
}

} // verus!
