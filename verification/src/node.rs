//! The node's side of the conversation: which task a message from the
//! coordinator calls for, and the reply that reports a task's outcome under
//! the key of the request it answers.

use crate::message::{
    AuthRequest, ContainerAction, ContainerLogs, ContainerStatus, Envelope, NodeCommandKind,
    NodeContainers, NodeContainersWithStatus, NodeError, NodeResponse, NodeResponseKind, Payload,
    RequestId, RequestKey, RequestType, ServerCommand, ServerCommandKind, ServerResponseKind,
};
use vstd::prelude::*;

verus! {

/// What a node does on a message from the coordinator.
#[derive(Clone, Debug, PartialEq, Eq)]
pub enum NodeTask {
    ListContainers { request_id: String },
    ListContainersWithStatus { request_id: String },
    InspectContainer { request_id: String, container_id: String },
    StartContainer { request_id: String, container_id: String },
    StopContainer { request_id: String, container_id: String },
    DeleteContainer { request_id: String, container_id: String },
    ReadLogs {
        request_id: String,
        container_id: String,
        tail: Option<i32>,
        follow: bool,
        since: Option<String>,
    },
    /// Take note of the coordinator's status.
    NoteServerStatus { status: String, uptime: String },
    /// Take note of how the authentication went.
    NoteAuthResult { success: bool, message: String },
    /// The message calls for nothing.
    Nothing,
}

/// The task that `envelope` calls for.
pub open spec fn task_of(envelope: Envelope) -> NodeTask {
    match envelope.payload {
        Some(Payload::NodeCommand(command)) => match command.kind {
            Some(NodeCommandKind::GetNodeContainers(c)) => NodeTask::ListContainers {
                request_id: c.request_id,
            },
            Some(NodeCommandKind::GetNodeContainersWithStatus(c)) => {
                NodeTask::ListContainersWithStatus { request_id: c.request_id }
            },
            Some(NodeCommandKind::GetContainerStatus(c)) => NodeTask::InspectContainer {
                request_id: c.request_id,
                container_id: c.container_id,
            },
            Some(NodeCommandKind::StartContainer(c)) => NodeTask::StartContainer {
                request_id: c.request_id,
                container_id: c.container_id,
            },
            Some(NodeCommandKind::StopContainer(c)) => NodeTask::StopContainer {
                request_id: c.request_id,
                container_id: c.container_id,
            },
            Some(NodeCommandKind::DeleteContainer(c)) => NodeTask::DeleteContainer {
                request_id: c.request_id,
                container_id: c.container_id,
            },
            Some(NodeCommandKind::GetContainerLogs(c)) => NodeTask::ReadLogs {
                request_id: c.request_id,
                container_id: c.container_id,
                tail: Some(c.tail),
                follow: c.follow,
                since: Some(c.since),
            },
            None => NodeTask::Nothing,
        },
        Some(Payload::ServerResponse(response)) => match response.kind {
            Some(ServerResponseKind::ServerStatus(status)) => NodeTask::NoteServerStatus {
                status: status.status,
                uptime: status.uptime,
            },
            Some(ServerResponseKind::AuthResponse(auth)) => NodeTask::NoteAuthResult {
                success: auth.success,
                message: auth.message,
            },
            None => NodeTask::Nothing,
        },
        _ => NodeTask::Nothing,
    }
}

/// The key that marks a reply as the answer to the request `request_id` of
/// type `request_type`.
pub open spec fn key_for(request_type: RequestType, request_id: String) -> RequestKey {
    RequestKey {
        request_type: request_type.spec_code(),
        request_id: Some(RequestId::Value(request_id)),
    }
}

/// The reply that lists `containers` in answer to `request_id`.
pub open spec fn containers_reply(request_id: String, containers: Vec<String>) -> Envelope {
    Envelope::of_response(
        NodeResponse {
            kind: Some(
                NodeResponseKind::NodeContainers(
                    NodeContainers {
                        containers,
                        request_key: Some(key_for(RequestType::GetContainers, request_id)),
                    },
                ),
            ),
        },
    )
}

/// The reply that reports an error in answer to `request_id`.
pub open spec fn error_reply(request_type: RequestType, request_id: String, message: String) -> Envelope {
    Envelope::of_response(
        NodeResponse {
            kind: Some(
                NodeResponseKind::Error(
                    NodeError { request_key: Some(key_for(request_type, request_id)), message },
                ),
            ),
        },
    )
}

/// The reply to an inspection: the status under the request's key, or the
/// error.
pub open spec fn status_reply(request_id: String, outcome: Result<ContainerStatus, String>) -> Envelope {
    match outcome {
        Ok(status) => Envelope::of_response(
            NodeResponse {
                kind: Some(
                    NodeResponseKind::ContainerStatus(
                        ContainerStatus {
                            request_key: Some(key_for(RequestType::GetContainerStatus, request_id)),
                            container_id: status.container_id,
                            status: status.status,
                            created: status.created,
                            started_at: status.started_at,
                            finished_at: status.finished_at,
                            exit_code: status.exit_code,
                        },
                    ),
                ),
            },
        ),
        Err(message) => error_reply(RequestType::GetContainerStatus, request_id, message),
    }
}

/// The reply to an action on a container: its result under the request's
/// key, or the error.
pub open spec fn action_reply(
    request_type: RequestType,
    request_id: String,
    outcome: Result<ContainerAction, String>,
) -> Envelope {
    match outcome {
        Ok(action) => Envelope::of_response(
            NodeResponse {
                kind: Some(
                    NodeResponseKind::ContainerAction(
                        ContainerAction {
                            request_key: Some(key_for(request_type, request_id)),
                            container_id: action.container_id,
                            action: action.action,
                            message: action.message,
                        },
                    ),
                ),
            },
        ),
        Err(message) => error_reply(request_type, request_id, message),
    }
}

/// The reply that carries a container's logs in answer to `request_id`.
pub open spec fn logs_reply(request_id: String, logs: ContainerLogs) -> Envelope {
    Envelope::of_response(
        NodeResponse {
            kind: Some(
                NodeResponseKind::ContainerLogs(
                    ContainerLogs {
                        request_key: Some(key_for(RequestType::GetContainerLogs, request_id)),
                        container_id: logs.container_id,
                        logs: logs.logs,
                    },
                ),
            ),
        },
    )
}

/// The inspections that succeeded, in their order.
pub open spec fn inspected(inspections: Seq<Option<ContainerStatus>>) -> Seq<ContainerStatus>
    decreases inspections.len(),
{
    if inspections.len() == 0 {
        Seq::empty()
    } else {
        match inspections.last() {
            Some(status) => inspected(inspections.drop_last()).push(status),
            None => inspected(inspections.drop_last()),
        }
    }
}

/// `envelope` lists `statuses` in answer to `request_id`.
pub open spec fn is_statuses_reply(
    envelope: Envelope,
    request_id: String,
    statuses: Seq<ContainerStatus>,
) -> bool {
    &&& envelope.payload matches Some(Payload::NodeResponse(response))
    &&& response.kind matches Some(NodeResponseKind::NodeContainersWithStatus(list))
    &&& list.request_key == Some(key_for(RequestType::GetContainersWithStatus, request_id))
    &&& list.containers@ == statuses
}

fn request_key(request_type: RequestType, request_id: String) -> (key: RequestKey)
    ensures
        key == key_for(request_type, request_id),
{
    RequestKey { request_type: request_type.code(), request_id: Some(RequestId::Value(request_id)) }
}

fn error_envelope(request_type: RequestType, request_id: String, message: String) -> (envelope:
    Envelope)
    ensures
        envelope == error_reply(request_type, request_id, message),
{
    let request_key = Some(request_key(request_type, request_id));
    Envelope::from_response(
        NodeResponse { kind: Some(NodeResponseKind::Error(NodeError { request_key, message })) },
    )
}

fn action_envelope(
    request_type: RequestType,
    request_id: String,
    outcome: Result<ContainerAction, String>,
) -> (envelope: Envelope)
    ensures
        envelope == action_reply(request_type, request_id, outcome),
{
    match outcome {
        Ok(action) => {
            let reported = ContainerAction {
                request_key: Some(request_key(request_type, request_id)),
                container_id: action.container_id,
                action: action.action,
                message: action.message,
            };
            Envelope::from_response(
                NodeResponse { kind: Some(NodeResponseKind::ContainerAction(reported)) },
            )
        },
        Err(message) => error_envelope(request_type, request_id, message),
    }
}

/// Answers a request for the node's containers with their names.
pub fn handle_get_client_containers(request_id: String, containers: Vec<String>) -> (envelope:
    Envelope)
    ensures
        envelope == containers_reply(request_id, containers),
{
    let request_key = Some(request_key(RequestType::GetContainers, request_id));
    Envelope::from_response(
        NodeResponse {
            kind: Some(NodeResponseKind::NodeContainers(NodeContainers { containers, request_key })),
        },
    )
}

/// Answers a request for the node's containers with their status: the
/// containers whose inspection succeeded, in the order of the inspections.
pub fn handle_get_client_containers_with_status(
    request_id: String,
    inspections: Vec<Option<ContainerStatus>>,
) -> (envelope: Envelope)
    ensures
        is_statuses_reply(envelope, request_id, inspected(inspections@)),
{
    let mut containers: Vec<ContainerStatus> = Vec::new();
    let mut i: usize = 0;
    while i < inspections.len()
        invariant
            i <= inspections.len(),
            containers@ == inspected(inspections@.take(i as int)),
        decreases inspections.len() - i,
    {
        proof {
            let next = inspections@.take(i + 1);
            assert(next.drop_last() == inspections@.take(i as int));
            assert(next.last() == inspections@[i as int]);
        }
        if let Some(status) = &inspections[i] {
            containers.push(
                ContainerStatus {
                    request_key: clone_key(&status.request_key),
                    container_id: status.container_id.clone(),
                    status: status.status.clone(),
                    created: status.created,
                    started_at: status.started_at,
                    finished_at: status.finished_at,
                    exit_code: status.exit_code,
                },
            );
        }
        i += 1;
    }
    proof {
        assert(inspections@.take(inspections.len() as int) == inspections@);
    }
    let request_key = Some(request_key(RequestType::GetContainersWithStatus, request_id));
    Envelope::from_response(
        NodeResponse {
            kind: Some(
                NodeResponseKind::NodeContainersWithStatus(
                    NodeContainersWithStatus { containers, request_key },
                ),
            ),
        },
    )
}

fn clone_key(key: &Option<RequestKey>) -> (copy: Option<RequestKey>)
    ensures
        copy == *key,
{
    match key {
        Some(key) => {
            let request_id = match &key.request_id {
                Some(RequestId::Value(id)) => Some(RequestId::Value(id.clone())),
                Some(RequestId::Unspecific(flag)) => Some(RequestId::Unspecific(*flag)),
                None => None,
            };
            Some(RequestKey { request_type: key.request_type, request_id })
        },
        None => None,
    }
}

/// Answers a request to inspect a container with its status, or with the
/// error that the inspection gave.
pub fn handle_get_container_status(request_id: String, outcome: Result<ContainerStatus, String>) -> (envelope:
    Envelope)
    ensures
        envelope == status_reply(request_id, outcome),
{
    match outcome {
        Ok(status) => {
            let reported = ContainerStatus {
                request_key: Some(request_key(RequestType::GetContainerStatus, request_id)),
                container_id: status.container_id,
                status: status.status,
                created: status.created,
                started_at: status.started_at,
                finished_at: status.finished_at,
                exit_code: status.exit_code,
            };
            Envelope::from_response(
                NodeResponse { kind: Some(NodeResponseKind::ContainerStatus(reported)) },
            )
        },
        Err(message) => error_envelope(RequestType::GetContainerStatus, request_id, message),
    }
}

/// Answers a request to start a container with the result, or the error.
pub fn handle_start_container(request_id: String, outcome: Result<ContainerAction, String>) -> (envelope:
    Envelope)
    ensures
        envelope == action_reply(RequestType::StartContainer, request_id, outcome),
{
    action_envelope(RequestType::StartContainer, request_id, outcome)
}

/// Answers a request to stop a container with the result, or the error.
pub fn handle_stop_container(request_id: String, outcome: Result<ContainerAction, String>) -> (envelope:
    Envelope)
    ensures
        envelope == action_reply(RequestType::StopContainer, request_id, outcome),
{
    action_envelope(RequestType::StopContainer, request_id, outcome)
}

/// Answers a request to delete a container with the result, or the error.
pub fn handle_delete_container(request_id: String, outcome: Result<ContainerAction, String>) -> (envelope:
    Envelope)
    ensures
        envelope == action_reply(RequestType::DeleteContainer, request_id, outcome),
{
    action_envelope(RequestType::DeleteContainer, request_id, outcome)
}

/// Answers a request for a container's logs. Where reading the logs failed
/// there is no reply: the error is handed back to the caller.
pub fn handle_get_container_logs(request_id: String, outcome: Result<ContainerLogs, String>) -> (reply:
    Result<Envelope, String>)
    ensures
        reply == (match outcome {
            Ok(logs) => Ok::<Envelope, String>(logs_reply(request_id, logs)),
            Err(message) => Err(message),
        }),
{
    match outcome {
        Ok(logs) => {
            let reported = ContainerLogs {
                request_key: Some(request_key(RequestType::GetContainerLogs, request_id)),
                container_id: logs.container_id,
                logs: logs.logs,
            };
            Ok(
                Envelope::from_response(
                    NodeResponse { kind: Some(NodeResponseKind::ContainerLogs(reported)) },
                ),
            )
        },
        Err(message) => Err(message),
    }
}

/// `envelope` asks the coordinator to authenticate the node as
/// `(node_id, password)`.
pub open spec fn is_auth_request(envelope: Envelope, node_id: Seq<char>, password: Seq<char>) -> bool {
    &&& envelope.payload matches Some(Payload::ServerCommand(command))
    &&& command.kind matches Some(ServerCommandKind::AuthRequest(request))
    &&& request.node_id@ == node_id
    &&& request.password@ == password
}

/// The first message of a node on its stream: it presents the credentials.
pub fn auth_request(node_id: &str, password: &str) -> (envelope: Envelope)
    ensures
        is_auth_request(envelope, node_id@, password@),
{
    let request = AuthRequest { node_id: node_id.to_owned(), password: password.to_owned() };
    Envelope {
        payload: Some(
            Payload::ServerCommand(
                ServerCommand { kind: Some(ServerCommandKind::AuthRequest(request)) },
            ),
        ),
    }
}

/// The message by which a node asks the coordinator for its status.
pub fn status_query() -> (envelope: Envelope)
    ensures
        envelope == (Envelope {
            payload: Some(
                Payload::ServerCommand(
                    ServerCommand { kind: Some(ServerCommandKind::GetServerStatus) },
                ),
            ),
        }),
{
    Envelope {
        payload: Some(
            Payload::ServerCommand(ServerCommand { kind: Some(ServerCommandKind::GetServerStatus) }),
        ),
    }
}

/// Tells which task a message from the coordinator calls for: each command
/// its own, a reply of the coordinator a note, and anything else nothing.
pub fn process_incoming_message(envelope: Envelope) -> (task: NodeTask)
    ensures
        task == task_of(envelope),
{
    match envelope.payload {
        Some(Payload::NodeCommand(command)) => match command.kind {
            Some(NodeCommandKind::GetNodeContainers(c)) => NodeTask::ListContainers {
                request_id: c.request_id,
            },
            Some(NodeCommandKind::GetNodeContainersWithStatus(c)) => {
                NodeTask::ListContainersWithStatus { request_id: c.request_id }
            },
            Some(NodeCommandKind::GetContainerStatus(c)) => NodeTask::InspectContainer {
                request_id: c.request_id,
                container_id: c.container_id,
            },
            Some(NodeCommandKind::StartContainer(c)) => NodeTask::StartContainer {
                request_id: c.request_id,
                container_id: c.container_id,
            },
            Some(NodeCommandKind::StopContainer(c)) => NodeTask::StopContainer {
                request_id: c.request_id,
                container_id: c.container_id,
            },
            Some(NodeCommandKind::DeleteContainer(c)) => NodeTask::DeleteContainer {
                request_id: c.request_id,
                container_id: c.container_id,
            },
            Some(NodeCommandKind::GetContainerLogs(c)) => NodeTask::ReadLogs {
                request_id: c.request_id,
                container_id: c.container_id,
                tail: Some(c.tail),
                follow: c.follow,
                since: Some(c.since),
            },
            None => NodeTask::Nothing,
        },
        Some(Payload::ServerResponse(response)) => match response.kind {
            Some(ServerResponseKind::ServerStatus(status)) => NodeTask::NoteServerStatus {
                status: status.status,
                uptime: status.uptime,
            },
            Some(ServerResponseKind::AuthResponse(auth)) => NodeTask::NoteAuthResult {
                success: auth.success,
                message: auth.message,
            },
            None => NodeTask::Nothing,
        },
        _ => NodeTask::Nothing,
    }
}

} // verus!
