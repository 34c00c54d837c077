use docklord::command_bus::{BusEvent, ServerRequestByUser, TaskStep};
use docklord::message::{
    ContainerLogs, Envelope, GetNodeContainers, NodeCommand, NodeCommandKind, NodeContainers,
    NodeResponse, NodeResponseKind, Payload, RequestId, RequestKey, RequestType,
};
use docklord::presence::PresenceRegistry;
use docklord::ws::{
    after_frame, handle_node_message, handle_server_message, handle_socket, prime_request,
    send_get_containers, BusStep, ContainersFrame, Frame, Observation, SocketEvent, SocketStep,
};

fn containers(names: &[&str], request_key: Option<RequestKey>) -> Envelope {
    Envelope {
        payload: Some(Payload::NodeResponse(NodeResponse {
            kind: Some(NodeResponseKind::NodeContainers(NodeContainers {
                containers: names.iter().map(|n| n.to_string()).collect(),
                request_key,
            })),
        })),
    }
}

fn key(request_type: RequestType, request_id: RequestId) -> Option<RequestKey> {
    Some(RequestKey { request_type: request_type.code(), request_id: Some(request_id) })
}

fn primed_id(request: &ServerRequestByUser) -> String {
    match &request.envelope.payload {
        Some(Payload::NodeCommand(NodeCommand {
            kind: Some(NodeCommandKind::GetNodeContainers(get)),
        })) => get.request_id.clone(),
        other => panic!("not a list request: {:?}", other),
    }
}

#[test]
fn observation_of_unknown_node_is_rejected() {
    let nodes = PresenceRegistry::new();
    assert_eq!(handle_socket("n1", "pw", &nodes), Observation::Rejected);
}

#[test]
fn observation_with_wrong_password_is_rejected() {
    let mut nodes = PresenceRegistry::new();
    nodes.register("n1".to_string(), "good".to_string(), 3);
    assert_eq!(handle_socket("n1", "bad", &nodes), Observation::Rejected);
}

#[test]
fn observation_of_online_node_subscribes_and_primes() {
    let mut nodes = PresenceRegistry::new();
    nodes.register("n1".to_string(), "pw".to_string(), 3);
    match handle_socket("n1", "pw", &nodes) {
        Observation::Subscribed { bus, prime } => {
            assert_eq!(bus, 3);
            assert_eq!(prime.id, "n1");
            assert_eq!(prime.password, "pw");
            assert_eq!(primed_id(&prime).len(), 36);
        }
        Observation::Rejected => panic!("rejected"),
    }
}

#[test]
fn prime_request_asks_for_the_containers() {
    let request = prime_request("n1", "pw", "r1".to_string());
    assert_eq!(
        request,
        ServerRequestByUser {
            id: "n1".to_string(),
            password: "pw".to_string(),
            envelope: Envelope {
                payload: Some(Payload::NodeCommand(NodeCommand {
                    kind: Some(NodeCommandKind::GetNodeContainers(GetNodeContainers {
                        request_id: "r1".to_string()
                    })),
                })),
            },
        }
    );
}

#[test]
fn send_get_containers_uses_fresh_ids() {
    let a = send_get_containers("n1", "pw");
    let b = send_get_containers("n1", "pw");
    assert_eq!(a.id, "n1");
    assert_eq!(a.password, "pw");
    assert_ne!(primed_id(&a), primed_id(&b));
    let id = primed_id(&a);
    assert_eq!(id.len(), 36);
    assert_eq!(id.chars().filter(|c| *c == '-').count(), 4);
    assert_eq!(id.chars().nth(14), Some('4'));
}

#[test]
fn ping_is_answered_with_the_same_payload() {
    assert_eq!(
        handle_node_message(SocketEvent::Frame(Frame::Ping(vec![1, 2, 3]))),
        SocketStep::Pong(vec![1, 2, 3])
    );
    assert_eq!(
        handle_node_message(SocketEvent::Frame(Frame::Ping(vec![]))),
        SocketStep::Pong(vec![])
    );
}

#[test]
fn close_frame_and_end_of_stream_end_the_observation() {
    assert_eq!(handle_node_message(SocketEvent::Frame(Frame::Close)), SocketStep::Stop);
    assert_eq!(handle_node_message(SocketEvent::End), SocketStep::Stop);
}

#[test]
fn other_frames_and_read_errors_are_passed_over() {
    assert_eq!(
        handle_node_message(SocketEvent::Frame(Frame::Text("hi".to_string()))),
        SocketStep::Continue
    );
    assert_eq!(
        handle_node_message(SocketEvent::Frame(Frame::Binary(vec![0]))),
        SocketStep::Continue
    );
    assert_eq!(
        handle_node_message(SocketEvent::Frame(Frame::Pong(vec![0]))),
        SocketStep::Continue
    );
    assert_eq!(handle_node_message(SocketEvent::Error), SocketStep::Continue);
}

#[test]
fn list_answer_becomes_a_frame() {
    let envelope =
        containers(&["alpha", "beta"], key(RequestType::GetContainers, RequestId::Value("r".to_string())));
    assert_eq!(
        handle_server_message(BusEvent::Message(envelope)),
        BusStep::Send(ContainersFrame {
            containers: vec!["alpha".to_string(), "beta".to_string()]
        })
    );
}

#[test]
fn change_update_becomes_a_frame() {
    let envelope = containers(&["gamma"], key(RequestType::UpdateContainerInfo, RequestId::Unspecific(true)));
    assert_eq!(
        handle_server_message(BusEvent::Message(envelope)),
        BusStep::Send(ContainersFrame { containers: vec!["gamma".to_string()] })
    );
    let empty = containers(&[], key(RequestType::UpdateContainerInfo, RequestId::Unspecific(false)));
    assert_eq!(
        handle_server_message(BusEvent::Message(empty)),
        BusStep::Send(ContainersFrame { containers: vec![] })
    );
}

#[test]
fn lists_of_other_request_types_are_passed_over() {
    for request_type in [
        RequestType::GetContainersWithStatus,
        RequestType::GetContainerStatus,
        RequestType::StartContainer,
        RequestType::StopContainer,
        RequestType::DeleteContainer,
        RequestType::GetContainerLogs,
    ] {
        let envelope = containers(&["a"], key(request_type, RequestId::Value("r".to_string())));
        assert_eq!(handle_server_message(BusEvent::Message(envelope)), BusStep::Continue);
    }
    assert_eq!(handle_server_message(BusEvent::Message(containers(&["a"], None))), BusStep::Continue);
    let unknown = containers(&["a"], Some(RequestKey { request_type: 99, request_id: None }));
    assert_eq!(handle_server_message(BusEvent::Message(unknown)), BusStep::Continue);
}

#[test]
fn other_messages_are_passed_over() {
    let logs = Envelope {
        payload: Some(Payload::NodeResponse(NodeResponse {
            kind: Some(NodeResponseKind::ContainerLogs(ContainerLogs {
                request_key: key(RequestType::GetContainers, RequestId::Value("r".to_string())),
                container_id: "c".to_string(),
                logs: vec![],
            })),
        })),
    };
    assert_eq!(handle_server_message(BusEvent::Message(logs)), BusStep::Continue);
    assert_eq!(
        handle_server_message(BusEvent::Message(Envelope { payload: None })),
        BusStep::Continue
    );
    let no_kind = Envelope { payload: Some(Payload::NodeResponse(NodeResponse { kind: None })) };
    assert_eq!(handle_server_message(BusEvent::Message(no_kind)), BusStep::Continue);
}

#[test]
fn lag_keeps_the_observation_open() {
    assert_eq!(handle_server_message(BusEvent::Lagged(17)), BusStep::Continue);
    assert_eq!(handle_server_message(BusEvent::Lagged(0)), BusStep::Continue);
}

#[test]
fn closed_bus_ends_the_observation() {
    assert_eq!(handle_server_message(BusEvent::Closed), BusStep::Stop);
}

#[test]
fn failed_send_ends_the_observation() {
    assert_eq!(after_frame(true), TaskStep::Continue);
    assert_eq!(after_frame(false), TaskStep::Stop);
}
