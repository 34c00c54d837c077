//! The observation façade: a long-lived subscription of one user to the
//! events of one node, which pushes the node's container list whenever the
//! node reports it.

use crate::command_bus::{BusEvent, ServerRequestByUser, TaskStep};
use crate::message::{
    Envelope, GetNodeContainers, NodeCommandKind, NodeResponseKind, Payload, RequestType,
};
use crate::presence::{BusId, PresenceRegistry};
use crate::request_id::{is_request_id, new_request_id};
use vstd::prelude::*;

verus! {

/// A frame of the socket, as far as the façade tells frames apart.
#[derive(Clone, Debug, PartialEq, Eq)]
pub enum Frame {
    Ping(Vec<u8>),
    Pong(Vec<u8>),
    Text(String),
    Binary(Vec<u8>),
    Close,
}

/// What reading the socket yields.
#[derive(Clone, Debug, PartialEq, Eq)]
pub enum SocketEvent {
    Frame(Frame),
    /// The read failed.
    Error,
    /// The peer is gone.
    End,
}

/// What to do after a read of the socket.
#[derive(Clone, Debug, PartialEq, Eq)]
pub enum SocketStep {
    /// Answer a ping with a pong of the same payload and go on, whether or
    /// not the pong can be sent.
    Pong(Vec<u8>),
    /// Go on.
    Continue,
    /// End the observation.
    Stop,
}

/// The text frame that reports a node's containers.
#[derive(Clone, Debug, PartialEq, Eq)]
pub struct ContainersFrame {
    pub containers: Vec<String>,
}

/// What to do after an event of the node's bus.
#[derive(Clone, Debug, PartialEq, Eq)]
pub enum BusStep {
    /// Send the frame to the user; `after_frame` says how to go on.
    Send(ContainersFrame),
    /// Go on.
    Continue,
    /// End the observation.
    Stop,
}

/// How an observation begins.
#[derive(Clone, Debug, PartialEq, Eq)]
pub enum Observation {
    /// The node is not online: send a close frame and end.
    Rejected,
    /// Subscribe to `bus`, then publish `prime` on the command bus, so that
    /// the node's answer arrives as the first snapshot.
    Subscribed { bus: BusId, prime: ServerRequestByUser },
}

/// `request` asks the node addressed by `(node_id, password)` for its
/// containers, under the request id `request_id`.
pub open spec fn is_prime_request(
    request: ServerRequestByUser,
    node_id: Seq<char>,
    password: Seq<char>,
    request_id: Seq<char>,
) -> bool {
    &&& request.id@ == node_id
    &&& request.password@ == password
    &&& request.envelope.payload matches Some(Payload::NodeCommand(command))
    &&& command.kind matches Some(NodeCommandKind::GetNodeContainers(get))
    &&& get.request_id@ == request_id
}

/// The containers that `envelope` announces to observers: those of a list
/// of containers that answers a list request or reports a change.
pub open spec fn announced_containers(envelope: Envelope) -> Option<Vec<String>> {
    match envelope.payload {
        Some(Payload::NodeResponse(response)) => match response.kind {
            Some(NodeResponseKind::NodeContainers(list)) => match list.request_key {
                Some(key) => if key.request_type == RequestType::GetContainers.spec_code()
                    || key.request_type == RequestType::UpdateContainerInfo.spec_code() {
                    Some(list.containers)
                } else {
                    None
                },
                None => None,
            },
            _ => None,
        },
        _ => None,
    }
}

/// The request that primes an observation, under a given request id.
pub fn prime_request(node_id: &str, password: &str, request_id: String) -> (request:
    ServerRequestByUser)
    ensures
        is_prime_request(request, node_id@, password@, request_id@),
{
    ServerRequestByUser {
        id: node_id.to_owned(),
        password: password.to_owned(),
        envelope: Envelope::from_command(
            NodeCommandKind::GetNodeContainers(GetNodeContainers { request_id }),
        ),
    }
}

/// The request that primes an observation, under a fresh request id.
pub fn send_get_containers(node_id: &str, password: &str) -> (request: ServerRequestByUser)
    ensures
        exists|request_id: Seq<char>|
            is_request_id(request_id) && #[trigger] is_prime_request(
                request,
                node_id@,
                password@,
                request_id,
            ),
{
    let request_id = new_request_id();
    let ghost id = request_id@;
    let request = prime_request(node_id, password, request_id);
    assert(is_prime_request(request, node_id@, password@, id));
    request
}

/// Begins an observation of the node addressed by `(node_id, password)`: it
/// is rejected unless the node is online, and otherwise subscribes to the
/// node's bus and primes a first snapshot.
pub fn handle_socket(node_id: &str, password: &str, nodes: &PresenceRegistry) -> (observation:
    Observation)
    ensures
        match nodes.bus_of((node_id@, password@)) {
            Some(registered) => {
                &&& observation matches Observation::Subscribed { bus, prime }
                &&& bus == registered
                &&& exists|request_id: Seq<char>|
                    is_request_id(request_id) && #[trigger] is_prime_request(
                        prime,
                        node_id@,
                        password@,
                        request_id,
                    )
            },
            None => observation is Rejected,
        },
{
    match nodes.lookup(node_id, password) {
        Some(bus) => Observation::Subscribed { bus, prime: send_get_containers(node_id, password) },
        None => Observation::Rejected,
    }
}

/// Handles what a read of the socket yields: a ping is answered, a close
/// frame or the end of the stream ends the observation, and anything else,
/// a failed read included, is passed over.
pub fn handle_node_message(event: SocketEvent) -> (step: SocketStep)
    ensures
        step == (match event {
            SocketEvent::Frame(Frame::Ping(payload)) => SocketStep::Pong(payload),
            SocketEvent::Frame(Frame::Close) => SocketStep::Stop,
            SocketEvent::End => SocketStep::Stop,
            _ => SocketStep::Continue,
        }),
{
    match event {
        SocketEvent::Frame(Frame::Ping(payload)) => SocketStep::Pong(payload),
        SocketEvent::Frame(Frame::Close) => SocketStep::Stop,
        SocketEvent::End => SocketStep::Stop,
        _ => SocketStep::Continue,
    }
}

/// Handles an event of the node's bus: a list of containers that answers a
/// list request or reports a change is sent on as a frame, any other
/// message is passed over, and so is a lag; the end of the bus ends the
/// observation.
pub fn handle_server_message(event: BusEvent<Envelope>) -> (step: BusStep)
    ensures
        step == (match event {
            BusEvent::Message(envelope) => match announced_containers(envelope) {
                Some(containers) => BusStep::Send(ContainersFrame { containers }),
                None => BusStep::Continue,
            },
            BusEvent::Lagged(_) => BusStep::Continue,
            BusEvent::Closed => BusStep::Stop,
        }),
{
    match event {
        BusEvent::Message(envelope) => {
            if let Some(Payload::NodeResponse(response)) = envelope.payload {
                if let Some(NodeResponseKind::NodeContainers(list)) = response.kind {
                    if let Some(key) = list.request_key {
                        if key.request_type == RequestType::GetContainers.code()
                            || key.request_type == RequestType::UpdateContainerInfo.code() {
                            return BusStep::Send(ContainersFrame { containers: list.containers });
                        }
                    }
                }
            }
            BusStep::Continue
        },
        BusEvent::Lagged(_) => BusStep::Continue,
        BusEvent::Closed => BusStep::Stop,
    }
}

/// How the observation goes on after a frame was handed to the socket: it
/// ends where the frame could not be sent.
pub fn after_frame(sent: bool) -> (step: TaskStep)
    ensures
        step == (if sent {
            TaskStep::Continue
        } else {
            TaskStep::Stop
        }),
{
    if sent {
        TaskStep::Continue
    } else {
        TaskStep::Stop
    }
}

} // verus!
