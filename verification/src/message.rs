//! The messages exchanged between coordinator and node.
//!
//! One `Envelope` travels in either direction on a node's stream and carries
//! at most one payload. Replies from a node carry a `RequestKey` that either
//! names the request they answer or marks them as spontaneous.

use vstd::prelude::*;

verus! {

/// The kind of request a reply belongs to.
#[derive(Clone, Copy, Debug, PartialEq, Eq)]
pub enum RequestType {
    GetContainers,
    GetContainersWithStatus,
    GetContainerStatus,
    StartContainer,
    StopContainer,
    DeleteContainer,
    GetContainerLogs,
    UpdateContainerInfo,
}

impl RequestType {
    /// The number that stands for this request type on the wire.
    pub open spec fn spec_code(self) -> i32 {
        match self {
            RequestType::GetContainers => 0,
            RequestType::GetContainersWithStatus => 1,
            RequestType::GetContainerStatus => 2,
            RequestType::StartContainer => 3,
            RequestType::StopContainer => 4,
            RequestType::DeleteContainer => 5,
            RequestType::GetContainerLogs => 6,
            RequestType::UpdateContainerInfo => 7,
        }
    }

    /// The request type that a wire number stands for, if any.
    pub open spec fn spec_from_code(code: i32) -> Option<RequestType> {
        if code == 0 {
            Some(RequestType::GetContainers)
        } else if code == 1 {
            Some(RequestType::GetContainersWithStatus)
        } else if code == 2 {
            Some(RequestType::GetContainerStatus)
        } else if code == 3 {
            Some(RequestType::StartContainer)
        } else if code == 4 {
            Some(RequestType::StopContainer)
        } else if code == 5 {
            Some(RequestType::DeleteContainer)
        } else if code == 6 {
            Some(RequestType::GetContainerLogs)
        } else if code == 7 {
            Some(RequestType::UpdateContainerInfo)
        } else {
            None
        }
    }

    #[verifier::when_used_as_spec(spec_code)]
    pub fn code(self) -> (code: i32)
        ensures
            code == self.spec_code(),
            0 <= code <= 7,
    {
        match self {
            RequestType::GetContainers => 0,
            RequestType::GetContainersWithStatus => 1,
            RequestType::GetContainerStatus => 2,
            RequestType::StartContainer => 3,
            RequestType::StopContainer => 4,
            RequestType::DeleteContainer => 5,
            RequestType::GetContainerLogs => 6,
            RequestType::UpdateContainerInfo => 7,
        }
    }

    #[verifier::when_used_as_spec(spec_from_code)]
    pub fn from_code(code: i32) -> (request_type: Option<RequestType>)
        ensures
            request_type == RequestType::spec_from_code(code),
            request_type matches Some(t) ==> t.spec_code() == code,
            request_type is None <==> !(0 <= code <= 7),
    {
        if code == 0 {
            Some(RequestType::GetContainers)
        } else if code == 1 {
            Some(RequestType::GetContainersWithStatus)
        } else if code == 2 {
            Some(RequestType::GetContainerStatus)
        } else if code == 3 {
            Some(RequestType::StartContainer)
        } else if code == 4 {
            Some(RequestType::StopContainer)
        } else if code == 5 {
            Some(RequestType::DeleteContainer)
        } else if code == 6 {
            Some(RequestType::GetContainerLogs)
        } else if code == 7 {
            Some(RequestType::UpdateContainerInfo)
        } else {
            None
        }
    }

    /// Every request type is recovered from its wire number.
    pub proof fn lemma_code_round_trip(self)
        ensures
            RequestType::spec_from_code(self.spec_code()) == Some(self),
    {
    }
}

/// Names the request a reply answers, or marks the reply as spontaneous.
#[derive(Clone, Debug, PartialEq, Eq)]
pub enum RequestId {
    /// The identifier of a request that a caller is waiting on.
    Value(String),
    /// No caller is waiting: the message is an update to be broadcast.
    Unspecific(bool),
}

/// The correlation data carried by every reply of a node.
#[derive(Clone, Debug, PartialEq, Eq)]
pub struct RequestKey {
    pub request_type: i32,
    pub request_id: Option<RequestId>,
}

#[derive(Clone, Debug, PartialEq, Eq)]
pub struct AuthRequest {
    pub node_id: String,
    pub password: String,
}

#[derive(Clone, Debug, PartialEq, Eq)]
pub enum ServerCommandKind {
    AuthRequest(AuthRequest),
    GetServerStatus,
}

/// What a node asks of the coordinator.
#[derive(Clone, Debug, PartialEq, Eq)]
pub struct ServerCommand {
    pub kind: Option<ServerCommandKind>,
}

#[derive(Clone, Debug, PartialEq, Eq)]
pub struct ServerStatus {
    pub status: String,
    pub uptime: String,
}

#[derive(Clone, Debug, PartialEq, Eq)]
pub struct AuthResponse {
    pub success: bool,
    pub message: String,
}

#[derive(Clone, Debug, PartialEq, Eq)]
pub enum ServerResponseKind {
    ServerStatus(ServerStatus),
    AuthResponse(AuthResponse),
}

/// What the coordinator answers to a node.
#[derive(Clone, Debug, PartialEq, Eq)]
pub struct ServerResponse {
    pub kind: Option<ServerResponseKind>,
}

#[derive(Clone, Debug, PartialEq, Eq)]
pub struct GetNodeContainers {
    pub request_id: String,
}

#[derive(Clone, Debug, PartialEq, Eq)]
pub struct GetNodeContainersWithStatus {
    pub request_id: String,
}

#[derive(Clone, Debug, PartialEq, Eq)]
pub struct GetContainerStatus {
    pub request_id: String,
    pub container_id: String,
}

#[derive(Clone, Debug, PartialEq, Eq)]
pub struct StartContainer {
    pub request_id: String,
    pub container_id: String,
}

#[derive(Clone, Debug, PartialEq, Eq)]
pub struct StopContainer {
    pub request_id: String,
    pub container_id: String,
}

#[derive(Clone, Debug, PartialEq, Eq)]
pub struct DeleteContainer {
    pub request_id: String,
    pub container_id: String,
}

#[derive(Clone, Debug, PartialEq, Eq)]
pub struct GetContainerLogs {
    pub request_id: String,
    pub container_id: String,
    pub tail: i32,
    pub follow: bool,
    pub since: String,
}

#[derive(Clone, Debug, PartialEq, Eq)]
pub enum NodeCommandKind {
    GetNodeContainers(GetNodeContainers),
    GetNodeContainersWithStatus(GetNodeContainersWithStatus),
    GetContainerStatus(GetContainerStatus),
    StartContainer(StartContainer),
    StopContainer(StopContainer),
    DeleteContainer(DeleteContainer),
    GetContainerLogs(GetContainerLogs),
}

/// What the coordinator asks of a node on behalf of a user.
#[derive(Clone, Debug, PartialEq, Eq)]
pub struct NodeCommand {
    pub kind: Option<NodeCommandKind>,
}

#[derive(Clone, Debug, PartialEq, Eq)]
pub struct NodeContainers {
    pub containers: Vec<String>,
    pub request_key: Option<RequestKey>,
}

#[derive(Clone, Debug, PartialEq, Eq)]
pub struct ContainerStatus {
    pub request_key: Option<RequestKey>,
    pub container_id: String,
    pub status: String,
    pub created: i64,
    pub started_at: i64,
    pub finished_at: i64,
    pub exit_code: i32,
}

#[derive(Clone, Debug, PartialEq, Eq)]
pub struct NodeContainersWithStatus {
    pub containers: Vec<ContainerStatus>,
    pub request_key: Option<RequestKey>,
}

#[derive(Clone, Debug, PartialEq, Eq)]
pub struct ContainerAction {
    pub request_key: Option<RequestKey>,
    pub container_id: String,
    pub action: String,
    pub message: String,
}

#[derive(Clone, Debug, PartialEq, Eq)]
pub struct ContainerLogs {
    pub request_key: Option<RequestKey>,
    pub container_id: String,
    pub logs: Vec<String>,
}

#[derive(Clone, Debug, PartialEq, Eq)]
pub struct NodeError {
    pub request_key: Option<RequestKey>,
    pub message: String,
}

#[derive(Clone, Debug, PartialEq, Eq)]
pub enum NodeResponseKind {
    NodeContainers(NodeContainers),
    NodeContainersWithStatus(NodeContainersWithStatus),
    ContainerStatus(ContainerStatus),
    ContainerAction(ContainerAction),
    ContainerLogs(ContainerLogs),
    Error(NodeError),
}

/// What a node reports, in answer to a command or on its own.
#[derive(Clone, Debug, PartialEq, Eq)]
pub struct NodeResponse {
    pub kind: Option<NodeResponseKind>,
}

#[derive(Clone, Debug, PartialEq, Eq)]
pub enum Payload {
    ServerCommand(ServerCommand),
    ServerResponse(ServerResponse),
    NodeCommand(NodeCommand),
    NodeResponse(NodeResponse),
}

/// The one message type of the node stream.
#[derive(Clone, Debug, PartialEq, Eq)]
pub struct Envelope {
    pub payload: Option<Payload>,
}

/// A pending-table key as the contracts see it: the characters of the
/// request id and the wire number of the request type.
pub type PendingKey = (Seq<char>, i32);

impl ServerCommand {
    /// The command asks to authenticate the node.
    pub open spec fn is_auth_request(self) -> bool {
        self.kind matches Some(ServerCommandKind::AuthRequest(_))
    }
}

impl RequestKey {
    /// The key under which a caller waits for a reply carrying `self`; none
    /// for a spontaneous message.
    pub open spec fn correlation(self) -> Option<PendingKey> {
        match self.request_id {
            Some(RequestId::Value(id)) => Some((id@, self.request_type)),
            _ => None,
        }
    }
}

impl NodeResponse {
    /// The request key carried by the reply, whatever its kind.
    pub open spec fn request_key(self) -> Option<RequestKey> {
        match self.kind {
            Some(NodeResponseKind::NodeContainers(c)) => c.request_key,
            Some(NodeResponseKind::NodeContainersWithStatus(c)) => c.request_key,
            Some(NodeResponseKind::ContainerStatus(c)) => c.request_key,
            Some(NodeResponseKind::ContainerLogs(c)) => c.request_key,
            Some(NodeResponseKind::ContainerAction(c)) => c.request_key,
            Some(NodeResponseKind::Error(c)) => c.request_key,
            None => None,
        }
    }

    /// The key of the pending call this reply answers, if it names one.
    pub open spec fn correlation(self) -> Option<PendingKey> {
        match self.request_key() {
            Some(key) => key.correlation(),
            None => None,
        }
    }
}

impl Envelope {
    /// The envelope that carries `response`.
    pub open spec fn of_response(response: NodeResponse) -> Envelope {
        Envelope { payload: Some(Payload::NodeResponse(response)) }
    }

    /// The envelope that carries `command`.
    pub open spec fn of_command(kind: NodeCommandKind) -> Envelope {
        Envelope { payload: Some(Payload::NodeCommand(NodeCommand { kind: Some(kind) })) }
    }

    /// Wraps a node reply for transport.
    pub fn from_response(response: NodeResponse) -> (envelope: Envelope)
        ensures
            envelope == Envelope::of_response(response),
    {
        Envelope { payload: Some(Payload::NodeResponse(response)) }
    }

    /// Wraps a node command for transport.
    pub fn from_command(kind: NodeCommandKind) -> (envelope: Envelope)
        ensures
            envelope == Envelope::of_command(kind),
    {
        Envelope { payload: Some(Payload::NodeCommand(NodeCommand { kind: Some(kind) })) }
    }
}

/// The request key carried by a node reply: every reply kind has one, and all
/// are eligible for correlation.
pub fn extract_request_key(response: &NodeResponse) -> (key: Option<&RequestKey>)
    ensures
        match key {
            Some(k) => response.request_key() == Some(*k),
            None => response.request_key() is None,
        },
{
    match &response.kind {
        Some(NodeResponseKind::NodeContainers(c)) => c.request_key.as_ref(),
        Some(NodeResponseKind::NodeContainersWithStatus(c)) => c.request_key.as_ref(),
        Some(NodeResponseKind::ContainerStatus(c)) => c.request_key.as_ref(),
        Some(NodeResponseKind::ContainerLogs(c)) => c.request_key.as_ref(),
        Some(NodeResponseKind::ContainerAction(c)) => c.request_key.as_ref(),
        Some(NodeResponseKind::Error(c)) => c.request_key.as_ref(),
        None => None,
    }
}

} // verus!
