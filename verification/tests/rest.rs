use docklord::message::{
    ContainerAction, ContainerLogs, ContainerStatus, Envelope, GetContainerLogs, GetContainerStatus,
    GetNodeContainers, GetNodeContainersWithStatus, NodeCommand, NodeCommandKind, NodeContainers,
    NodeContainersWithStatus, NodeError, NodeResponse, NodeResponseKind, Payload, RequestId,
    RequestKey, RequestType, StartContainer, StopContainer, DeleteContainer,
};
use docklord::pending::PendingTable;
use docklord::rest::{
    delete_container, extract_container_action_from_response, extract_container_logs_from_response,
    extract_container_status_from_response, extract_containers_from_response,
    extract_containers_with_status_from_response, extract_node_error_from_response,
    get_container_logs, get_container_status, get_containers, get_containers_with_status,
    not_sent, open_call, start_container, stop_container, ActionDetail, ActionReport, ApiError,
    ApiErrorDetail, AuthParams, ContainerList, ContainerStatusEntry, ContainerStatusList, Endpoint,
    LogsDetail, LogsQuery, LogsReport, PendingCall, ReplyOutcome, RestBody, RestReply, SendFailure,
    StatusDetail, StatusReport, STATUS_BAD_REQUEST, STATUS_INTERNAL_SERVER_ERROR, STATUS_OK,
    STATUS_REQUEST_TIMEOUT,
};

fn query() -> AuthParams {
    AuthParams { node_id: "n1".to_string(), password: "pw".to_string() }
}

fn key(request_type: RequestType, id: &str) -> Option<RequestKey> {
    Some(RequestKey {
        request_type: request_type.code(),
        request_id: Some(RequestId::Value(id.to_string())),
    })
}

fn wrap(kind: NodeResponseKind) -> Envelope {
    Envelope { payload: Some(Payload::NodeResponse(NodeResponse { kind: Some(kind) })) }
}

fn command(kind: NodeCommandKind) -> Envelope {
    Envelope { payload: Some(Payload::NodeCommand(NodeCommand { kind: Some(kind) })) }
}

fn call(endpoint: Endpoint, request_id: &str, container_id: &str) -> PendingCall {
    PendingCall {
        endpoint,
        request_id: request_id.to_string(),
        container_id: container_id.to_string(),
    }
}

fn is_uuid_v4_text(text: &str) -> bool {
    let chars: Vec<char> = text.chars().collect();
    chars.len() == 36
        && chars.iter().enumerate().all(|(i, c)| {
            if i == 8 || i == 13 || i == 18 || i == 23 {
                *c == '-'
            } else {
                c.is_ascii_digit() || ('a'..='f').contains(c)
            }
        })
        && chars[14] == '4'
        && ['8', '9', 'a', 'b'].contains(&chars[19])
}

fn status(container_id: &str, request_key: Option<RequestKey>) -> ContainerStatus {
    ContainerStatus {
        request_key,
        container_id: container_id.to_string(),
        status: "running".to_string(),
        created: 10,
        started_at: 20,
        finished_at: 0,
        exit_code: 0,
    }
}

#[test]
fn deadlines_per_operation() {
    assert_eq!(Endpoint::ListContainers.deadline_secs(), 10);
    assert_eq!(Endpoint::ListContainersWithStatus.deadline_secs(), 10);
    assert_eq!(Endpoint::ContainerStatus.deadline_secs(), 5);
    assert_eq!(Endpoint::StartContainer.deadline_secs(), 10);
    assert_eq!(Endpoint::StopContainer.deadline_secs(), 10);
    assert_eq!(Endpoint::DeleteContainer.deadline_secs(), 10);
    assert_eq!(Endpoint::ContainerLogs.deadline_secs(), 10);
    assert_eq!(call(Endpoint::ContainerStatus, "r", "c").deadline_secs(), 5);
}

#[test]
fn request_types_per_operation() {
    assert_eq!(Endpoint::ListContainers.request_type(), RequestType::GetContainers);
    assert_eq!(
        Endpoint::ListContainersWithStatus.request_type(),
        RequestType::GetContainersWithStatus
    );
    assert_eq!(Endpoint::ContainerStatus.request_type(), RequestType::GetContainerStatus);
    assert_eq!(Endpoint::StartContainer.request_type(), RequestType::StartContainer);
    assert_eq!(Endpoint::StopContainer.request_type(), RequestType::StopContainer);
    assert_eq!(Endpoint::DeleteContainer.request_type(), RequestType::DeleteContainer);
    assert_eq!(Endpoint::ContainerLogs.request_type(), RequestType::GetContainerLogs);
}

#[test]
fn status_codes() {
    assert_eq!(STATUS_OK, 200);
    assert_eq!(STATUS_BAD_REQUEST, 400);
    assert_eq!(STATUS_REQUEST_TIMEOUT, 408);
    assert_eq!(STATUS_INTERNAL_SERVER_ERROR, 500);
}

#[test]
fn open_call_registers_then_builds_the_request() {
    let mut pending = PendingTable::new();
    let out = open_call(
        Endpoint::StartContainer,
        "c1".to_string(),
        LogsQuery::none(),
        query(),
        "r1".to_string(),
        70,
        &mut pending,
    );
    let (opened, request) = out.unwrap();
    assert_eq!(opened, call(Endpoint::StartContainer, "r1", "c1"));
    assert_eq!(request.id, "n1");
    assert_eq!(request.password, "pw");
    assert_eq!(
        request.envelope,
        command(NodeCommandKind::StartContainer(StartContainer {
            request_id: "r1".to_string(),
            container_id: "c1".to_string(),
        }))
    );
    assert_eq!(pending.remove("r1", RequestType::StartContainer.code()), Some(70));
}

#[test]
fn open_call_refuses_a_request_id_that_is_waiting() {
    let mut pending = PendingTable::new();
    assert!(pending.insert("r1".to_string(), RequestType::StopContainer.code(), 70));
    let out = open_call(
        Endpoint::StopContainer,
        "c1".to_string(),
        LogsQuery::none(),
        query(),
        "r1".to_string(),
        71,
        &mut pending,
    );
    assert_eq!(out, None);
    assert_eq!(pending.remove("r1", RequestType::StopContainer.code()), Some(70));
    let out = open_call(
        Endpoint::DeleteContainer,
        "c1".to_string(),
        LogsQuery::none(),
        query(),
        "r1".to_string(),
        72,
        &mut pending,
    );
    assert!(out.is_some());
}

#[test]
fn open_call_builds_each_command() {
    let build = |endpoint: Endpoint, logs: LogsQuery| {
        let mut pending = PendingTable::new();
        open_call(endpoint, "c".to_string(), logs, query(), "r".to_string(), 1, &mut pending)
            .unwrap()
            .1
            .envelope
    };
    assert_eq!(
        build(Endpoint::ListContainers, LogsQuery::none()),
        command(NodeCommandKind::GetNodeContainers(GetNodeContainers {
            request_id: "r".to_string()
        }))
    );
    assert_eq!(
        build(Endpoint::ListContainersWithStatus, LogsQuery::none()),
        command(NodeCommandKind::GetNodeContainersWithStatus(GetNodeContainersWithStatus {
            request_id: "r".to_string()
        }))
    );
    assert_eq!(
        build(Endpoint::ContainerStatus, LogsQuery::none()),
        command(NodeCommandKind::GetContainerStatus(GetContainerStatus {
            request_id: "r".to_string(),
            container_id: "c".to_string()
        }))
    );
    assert_eq!(
        build(Endpoint::StopContainer, LogsQuery::none()),
        command(NodeCommandKind::StopContainer(StopContainer {
            request_id: "r".to_string(),
            container_id: "c".to_string()
        }))
    );
    assert_eq!(
        build(Endpoint::DeleteContainer, LogsQuery::none()),
        command(NodeCommandKind::DeleteContainer(DeleteContainer {
            request_id: "r".to_string(),
            container_id: "c".to_string()
        }))
    );
    assert_eq!(
        build(Endpoint::ContainerLogs, LogsQuery::none()),
        command(NodeCommandKind::GetContainerLogs(GetContainerLogs {
            request_id: "r".to_string(),
            container_id: "c".to_string(),
            tail: 100,
            follow: false,
            since: String::new(),
        }))
    );
    assert_eq!(
        build(
            Endpoint::ContainerLogs,
            LogsQuery { tail: Some(5), follow: Some(true), since: Some("1700000000".to_string()) }
        ),
        command(NodeCommandKind::GetContainerLogs(GetContainerLogs {
            request_id: "r".to_string(),
            container_id: "c".to_string(),
            tail: 5,
            follow: true,
            since: "1700000000".to_string(),
        }))
    );
}

#[test]
fn handlers_generate_a_fresh_request_id() {
    let mut pending = PendingTable::new();
    let (first, request) = get_containers(query(), 1, &mut pending).unwrap();
    let (second, _) = get_containers(query(), 2, &mut pending).unwrap();
    assert!(is_uuid_v4_text(&first.request_id));
    assert!(is_uuid_v4_text(&second.request_id));
    assert_ne!(first.request_id, second.request_id);
    assert_eq!(first.endpoint, Endpoint::ListContainers);
    assert_eq!(first.container_id, "");
    assert_eq!(
        request.envelope,
        command(NodeCommandKind::GetNodeContainers(GetNodeContainers {
            request_id: first.request_id.clone()
        }))
    );
    assert_eq!(pending.remove(&first.request_id, RequestType::GetContainers.code()), Some(1));
    assert_eq!(pending.remove(&second.request_id, RequestType::GetContainers.code()), Some(2));
}

#[test]
fn each_handler_opens_its_own_operation() {
    let mut pending = PendingTable::new();
    let (c, r) = get_containers_with_status(query(), 1, &mut pending).unwrap();
    assert_eq!(c.endpoint, Endpoint::ListContainersWithStatus);
    assert_eq!(
        r.envelope,
        command(NodeCommandKind::GetNodeContainersWithStatus(GetNodeContainersWithStatus {
            request_id: c.request_id.clone()
        }))
    );
    let (c, r) = get_container_status("c1".to_string(), query(), 2, &mut pending).unwrap();
    assert_eq!(c.endpoint, Endpoint::ContainerStatus);
    assert_eq!(c.container_id, "c1");
    assert_eq!(
        r.envelope,
        command(NodeCommandKind::GetContainerStatus(GetContainerStatus {
            request_id: c.request_id.clone(),
            container_id: "c1".to_string()
        }))
    );
    assert_eq!(pending.remove(&c.request_id, RequestType::GetContainerStatus.code()), Some(2));
    let (c, r) = start_container("c1".to_string(), query(), 3, &mut pending).unwrap();
    assert_eq!(c.endpoint, Endpoint::StartContainer);
    assert_eq!((r.id.as_str(), r.password.as_str()), ("n1", "pw"));
    assert_eq!(pending.remove(&c.request_id, RequestType::StartContainer.code()), Some(3));
    let (c, _) = stop_container("c1".to_string(), query(), 4, &mut pending).unwrap();
    assert_eq!(c.endpoint, Endpoint::StopContainer);
    assert_eq!(pending.remove(&c.request_id, RequestType::StopContainer.code()), Some(4));
    let (c, _) = delete_container("c1".to_string(), query(), 5, &mut pending).unwrap();
    assert_eq!(c.endpoint, Endpoint::DeleteContainer);
    assert_eq!(pending.remove(&c.request_id, RequestType::DeleteContainer.code()), Some(5));
    let logs = LogsQuery { tail: Some(7), follow: None, since: None };
    let (c, r) = get_container_logs("c1".to_string(), logs, query(), 6, &mut pending).unwrap();
    assert_eq!(c.endpoint, Endpoint::ContainerLogs);
    assert_eq!(
        r.envelope,
        command(NodeCommandKind::GetContainerLogs(GetContainerLogs {
            request_id: c.request_id.clone(),
            container_id: "c1".to_string(),
            tail: 7,
            follow: false,
            since: String::new(),
        }))
    );
    assert_eq!(pending.remove(&c.request_id, RequestType::GetContainerLogs.code()), Some(6));
}

#[test]
fn timeout_gives_408_and_frees_the_slot() {
    let mut pending = PendingTable::new();
    assert!(pending.insert("r1".to_string(), RequestType::GetContainers.code(), 70));
    let reply = call(Endpoint::ListContainers, "r1", "").complete(ReplyOutcome::TimedOut, &mut pending);
    assert_eq!(
        reply,
        RestReply {
            status: 408,
            body: RestBody::Error(ApiError {
                req_uuid: "r1".to_string(),
                error: ApiErrorDetail {
                    message: "Timeout waiting for node response".to_string(),
                    detail: "Timeout waiting for node response".to_string(),
                },
            }),
        }
    );
    assert!(!pending.contains("r1", RequestType::GetContainers.code()));
}

#[test]
fn dropped_slot_gives_500_and_frees_the_slot() {
    let mut pending = PendingTable::new();
    assert!(pending.insert("r1".to_string(), RequestType::StopContainer.code(), 70));
    let reply =
        call(Endpoint::StopContainer, "r1", "c1").complete(ReplyOutcome::ChannelClosed, &mut pending);
    assert_eq!(
        reply,
        RestReply {
            status: 500,
            body: RestBody::Error(ApiError {
                req_uuid: "r1".to_string(),
                error: ApiErrorDetail {
                    message: "Response channel closed".to_string(),
                    detail: "Node dropped oneshot channel".to_string(),
                },
            }),
        }
    );
    assert!(!pending.contains("r1", RequestType::StopContainer.code()));
}

#[test]
fn publish_failure_gives_500_and_frees_the_slot() {
    let mut pending = PendingTable::new();
    assert!(pending.insert("r1".to_string(), RequestType::DeleteContainer.code(), 70));
    assert!(pending.insert("r2".to_string(), RequestType::DeleteContainer.code(), 71));
    let reply = call(Endpoint::DeleteContainer, "r1", "c1").publish_failed(&mut pending);
    assert_eq!(
        reply,
        RestReply {
            status: 500,
            body: RestBody::SendFailure(SendFailure {
                error: "Failed to send request to server".to_string()
            }),
        }
    );
    assert!(!pending.contains("r1", RequestType::DeleteContainer.code()));
    assert!(pending.contains("r2", RequestType::DeleteContainer.code()));
}

#[test]
fn node_error_gives_400_with_the_nodes_message() {
    let mut pending = PendingTable::new();
    let error = wrap(NodeResponseKind::Error(NodeError {
        request_key: key(RequestType::GetContainerLogs, "r1"),
        message: "boom".to_string(),
    }));
    for endpoint in [
        Endpoint::ListContainers,
        Endpoint::ListContainersWithStatus,
        Endpoint::ContainerStatus,
        Endpoint::StartContainer,
        Endpoint::StopContainer,
        Endpoint::DeleteContainer,
        Endpoint::ContainerLogs,
    ] {
        let reply = call(endpoint, "r1", "c1").complete(ReplyOutcome::Reply(error.clone()), &mut pending);
        assert_eq!(
            reply,
            RestReply {
                status: 400,
                body: RestBody::Error(ApiError {
                    req_uuid: "r1".to_string(),
                    error: ApiErrorDetail {
                        message: "Node error".to_string(),
                        detail: "boom".to_string(),
                    },
                }),
            }
        );
    }
}

#[test]
fn success_leaves_the_pending_table_alone() {
    let mut pending = PendingTable::new();
    assert!(pending.insert("r1".to_string(), RequestType::GetContainers.code(), 70));
    let reply = call(Endpoint::ListContainers, "r1", "").complete(
        ReplyOutcome::Reply(wrap(NodeResponseKind::NodeContainers(NodeContainers {
            containers: vec!["a".to_string()],
            request_key: key(RequestType::GetContainers, "r1"),
        }))),
        &mut pending,
    );
    assert_eq!(reply.status, 200);
    assert!(pending.contains("r1", RequestType::GetContainers.code()));
}

#[test]
fn list_success_body() {
    let mut pending = PendingTable::new();
    let reply = call(Endpoint::ListContainers, "r1", "").complete(
        ReplyOutcome::Reply(wrap(NodeResponseKind::NodeContainers(NodeContainers {
            containers: vec!["alpha".to_string(), "beta".to_string()],
            request_key: key(RequestType::GetContainers, "r1"),
        }))),
        &mut pending,
    );
    assert_eq!(
        reply,
        RestReply {
            status: 200,
            body: RestBody::Containers(ContainerList {
                id: "r1".to_string(),
                containers: vec!["alpha".to_string(), "beta".to_string()],
            }),
        }
    );
}

#[test]
fn list_with_status_success_body() {
    let mut pending = PendingTable::new();
    let reply = call(Endpoint::ListContainersWithStatus, "r1", "").complete(
        ReplyOutcome::Reply(wrap(NodeResponseKind::NodeContainersWithStatus(
            NodeContainersWithStatus {
                containers: vec![status("a", None), status("b", None)],
                request_key: key(RequestType::GetContainersWithStatus, "r1"),
            },
        ))),
        &mut pending,
    );
    let entry = |id: &str| ContainerStatusEntry {
        container_id: id.to_string(),
        status: "running".to_string(),
        created: 10,
        started_at: 20,
        finished_at: 0,
        exit_code: 0,
    };
    assert_eq!(
        reply,
        RestReply {
            status: 200,
            body: RestBody::ContainersWithStatus(ContainerStatusList {
                id: "r1".to_string(),
                containers: vec![entry("a"), entry("b")],
            }),
        }
    );
}

#[test]
fn status_success_body() {
    let mut pending = PendingTable::new();
    let reply = call(Endpoint::ContainerStatus, "r1", "c1").complete(
        ReplyOutcome::Reply(wrap(NodeResponseKind::ContainerStatus(ContainerStatus {
            request_key: key(RequestType::GetContainerStatus, "r1"),
            container_id: "c1".to_string(),
            status: "exited".to_string(),
            created: 1700000000,
            started_at: 1700000100,
            finished_at: 1700000200,
            exit_code: 137,
        }))),
        &mut pending,
    );
    assert_eq!(
        reply,
        RestReply {
            status: 200,
            body: RestBody::Status(StatusReport {
                id: "r1".to_string(),
                container_id: "c1".to_string(),
                status: Some(StatusDetail {
                    status: "exited".to_string(),
                    created: 1700000000,
                    started_at: 1700000100,
                    finished_at: 1700000200,
                    exit_code: 137,
                }),
            }),
        }
    );
}

#[test]
fn action_success_bodies_name_the_action() {
    let mut pending = PendingTable::new();
    for (endpoint, word) in [
        (Endpoint::StartContainer, "start"),
        (Endpoint::StopContainer, "stop"),
        (Endpoint::DeleteContainer, "delete"),
    ] {
        let reply = call(endpoint, "r1", "c1").complete(
            ReplyOutcome::Reply(wrap(NodeResponseKind::ContainerAction(ContainerAction {
                request_key: key(endpoint.request_type(), "r1"),
                container_id: "c1".to_string(),
                action: word.to_string(),
                message: "done".to_string(),
            }))),
            &mut pending,
        );
        assert_eq!(
            reply,
            RestReply {
                status: 200,
                body: RestBody::Action(ActionReport {
                    id: "r1".to_string(),
                    container_id: "c1".to_string(),
                    action: word.to_string(),
                    result: Some(ActionDetail {
                        container_id: "c1".to_string(),
                        action: word.to_string(),
                        message: "done".to_string(),
                    }),
                }),
            }
        );
    }
}

#[test]
fn logs_success_body() {
    let mut pending = PendingTable::new();
    let reply = call(Endpoint::ContainerLogs, "r1", "c1").complete(
        ReplyOutcome::Reply(wrap(NodeResponseKind::ContainerLogs(ContainerLogs {
            request_key: key(RequestType::GetContainerLogs, "r1"),
            container_id: "c1".to_string(),
            logs: vec!["one\n".to_string(), "two\n".to_string()],
        }))),
        &mut pending,
    );
    assert_eq!(
        reply,
        RestReply {
            status: 200,
            body: RestBody::Logs(LogsReport {
                id: "r1".to_string(),
                container_id: "c1".to_string(),
                logs: Some(LogsDetail {
                    container_id: "c1".to_string(),
                    logs: vec!["one\n".to_string(), "two\n".to_string()],
                }),
            }),
        }
    );
}

#[test]
fn reply_of_another_kind_gives_an_empty_success() {
    let mut pending = PendingTable::new();
    let other = wrap(NodeResponseKind::ContainerLogs(ContainerLogs {
        request_key: None,
        container_id: "c1".to_string(),
        logs: vec![],
    }));
    let reply = call(Endpoint::ListContainers, "r1", "")
        .complete(ReplyOutcome::Reply(other.clone()), &mut pending);
    assert_eq!(
        reply.body,
        RestBody::Containers(ContainerList { id: "r1".to_string(), containers: vec![] })
    );
    let reply = call(Endpoint::ListContainersWithStatus, "r1", "")
        .complete(ReplyOutcome::Reply(other.clone()), &mut pending);
    assert_eq!(
        reply.body,
        RestBody::ContainersWithStatus(ContainerStatusList {
            id: "r1".to_string(),
            containers: vec![]
        })
    );
    let reply = call(Endpoint::ContainerStatus, "r1", "c1")
        .complete(ReplyOutcome::Reply(other.clone()), &mut pending);
    assert_eq!(
        reply,
        RestReply {
            status: 200,
            body: RestBody::Status(StatusReport {
                id: "r1".to_string(),
                container_id: "c1".to_string(),
                status: None
            }),
        }
    );
    let reply = call(Endpoint::StartContainer, "r1", "c1")
        .complete(ReplyOutcome::Reply(other), &mut pending);
    assert_eq!(
        reply.body,
        RestBody::Action(ActionReport {
            id: "r1".to_string(),
            container_id: "c1".to_string(),
            action: "start".to_string(),
            result: None
        })
    );
    let reply = call(Endpoint::ContainerLogs, "r1", "c1")
        .complete(ReplyOutcome::Reply(Envelope { payload: None }), &mut pending);
    assert_eq!(
        reply.body,
        RestBody::Logs(LogsReport {
            id: "r1".to_string(),
            container_id: "c1".to_string(),
            logs: None
        })
    );
}

#[test]
fn extractors_tell_reply_kinds_apart() {
    let error = wrap(NodeResponseKind::Error(NodeError {
        request_key: None,
        message: "boom".to_string(),
    }));
    let action = wrap(NodeResponseKind::ContainerAction(ContainerAction {
        request_key: None,
        container_id: "c".to_string(),
        action: "stop".to_string(),
        message: "m".to_string(),
    }));
    let list = wrap(NodeResponseKind::NodeContainers(NodeContainers {
        containers: vec!["a".to_string()],
        request_key: None,
    }));
    assert_eq!(extract_node_error_from_response(&error), Some("boom".to_string()));
    assert_eq!(extract_node_error_from_response(&action), None);
    assert_eq!(extract_node_error_from_response(&Envelope { payload: None }), None);
    assert_eq!(
        extract_container_action_from_response(action.clone()),
        Some(ActionDetail {
            container_id: "c".to_string(),
            action: "stop".to_string(),
            message: "m".to_string()
        })
    );
    assert_eq!(extract_container_action_from_response(error.clone()), None);
    assert_eq!(extract_containers_from_response(list.clone()), Some(vec!["a".to_string()]));
    assert_eq!(extract_containers_from_response(action.clone()), None);
    assert_eq!(extract_container_status_from_response(list.clone()), None);
    assert_eq!(extract_container_logs_from_response(list.clone()), None);
    assert_eq!(
        extract_containers_with_status_from_response(list),
        Vec::<ContainerStatusEntry>::new()
    );
    let with_status = wrap(NodeResponseKind::NodeContainersWithStatus(NodeContainersWithStatus {
        containers: vec![status("a", key(RequestType::GetContainerStatus, "x"))],
        request_key: None,
    }));
    assert_eq!(
        extract_containers_with_status_from_response(with_status),
        vec![ContainerStatusEntry {
            container_id: "a".to_string(),
            status: "running".to_string(),
            created: 10,
            started_at: 20,
            finished_at: 0,
            exit_code: 0,
        }]
    );
}

#[test]
fn logs_query_defaults() {
    let none = LogsQuery::none();
    assert_eq!(none, LogsQuery { tail: None, follow: None, since: None });
}

#[test]
fn a_call_that_was_not_sent_gives_500() {
    assert_eq!(
        not_sent(),
        RestReply {
            status: 500,
            body: RestBody::SendFailure(SendFailure {
                error: "Failed to send request to server".to_string()
            }),
        }
    );
}
