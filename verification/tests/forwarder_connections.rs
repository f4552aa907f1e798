use edgehog_device_runtime::data::{AstarteType, DeviceEvent, Value};
use edgehog_device_runtime::forwarder::connection::{
    delivered, response_message, stream_next, task, websocket_next, ConnectionError,
    ConnectionHandle, HttpTransport, TaskStep, TransportBuilder, WriteHandle,
};
use edgehog_device_runtime::forwarder::connections::{Connections, ConnectionsError};
use edgehog_device_runtime::forwarder::messages::{
    Http, HttpMessage, HttpRequest, HttpResponse, Id, ProtoError, ProtoMessage, Protocol,
    WebSocket, WebSocketMessage, WsFrame,
};
use edgehog_device_runtime::forwarder::session::{
    handle_session, ConnectionInfo, Forwarder, Key, SessionState, SESSIONS_STATE_INTERFACE,
};
use edgehog_device_runtime::string_map::StringMap;

fn request(upgrade: bool, method: &str) -> HttpRequest {
    let mut headers = StringMap::new();
    if upgrade {
        headers.insert("Upgrade".to_string(), "websocket".to_string());
    }
    HttpRequest {
        path: "path".to_string(),
        method: method.to_string(),
        query_string: "query".to_string(),
        headers,
        body: vec![],
        port: 7681,
    }
}

fn http(id: u8, upgrade: bool, method: &str) -> Http {
    Http::new(
        Id::new(vec![id]),
        HttpMessage::Request(request(upgrade, method)),
    )
}

fn ws(id: u8) -> WebSocket {
    WebSocket {
        socket_id: Id::new(vec![id]),
        message: WebSocketMessage::ping(vec![id]),
    }
}

const HTTP_HANDLE: ConnectionHandle = ConnectionHandle {
    task: 1,
    connection: WriteHandle::Http,
};

#[test]
fn requests_open_connections() {
    let mut connections = Connections::new();
    connections
        .handle_http(http(1, false, "GET"), &vec![], false, |id, builder| {
            assert!(id.same(&Id::new(vec![1])));
            assert!(matches!(builder, TransportBuilder::Http(_)));
            10
        })
        .unwrap();
    connections
        .handle_http(http(2, true, "GET"), &vec![], false, |_, builder| {
            match builder {
                TransportBuilder::Ws(upgrade) => {
                    assert_eq!(upgrade.uri, "ws://localhost:7681/path?query")
                }
                TransportBuilder::Http(_) => panic!("not upgraded"),
            }
            20
        })
        .unwrap();
    assert_eq!(
        connections.get(&Id::new(vec![1])),
        Some(ConnectionHandle {
            task: 10,
            connection: WriteHandle::Http
        })
    );
    assert_eq!(
        connections.get(&Id::new(vec![2])),
        Some(ConnectionHandle {
            task: 20,
            connection: WriteHandle::Ws
        })
    );
    assert_eq!(connections.get(&Id::new(vec![3])), None);
}

#[test]
fn responses_from_edgehog_are_refused() {
    let mut connections = Connections::new();
    let response = HttpResponse::new(200, StringMap::new(), vec![]);
    let message = Http::new(Id::new(vec![3]), HttpMessage::Response(response));
    match connections.handle_http(message, &vec![], false, |_, _| 1) {
        Err(ConnectionsError::WrongMessage(id)) => assert_eq!(id.display(), "03"),
        other => panic!("unexpected {other:?}"),
    }
}

#[test]
fn identifiers_in_use_are_refused() {
    let mut connections = Connections::new();
    connections
        .handle_http(http(1, false, "GET"), &vec![], false, |_, _| 10)
        .unwrap();
    match connections.handle_http(http(1, true, "GET"), &vec![], false, |_, _| 11) {
        Err(ConnectionsError::IdAlreadyUsed(id)) => assert_eq!(id.display(), "01"),
        other => panic!("unexpected {other:?}"),
    }
    assert_eq!(connections.get(&Id::new(vec![1])).unwrap().task, 10);
}

#[test]
fn refused_messages_open_nothing() {
    let mut connections = Connections::new();
    connections
        .try_add(Id::new(vec![1]), &vec![], false, || Ok(HTTP_HANDLE))
        .unwrap();
    let used = connections.try_add(Id::new(vec![1]), &vec![], false, || panic!("in use"));
    assert!(matches!(used, Err(ConnectionsError::IdAlreadyUsed(_))));
    let used = connections.handle_http(http(1, false, "GET"), &vec![], false, |_, _| {
        panic!("in use")
    });
    assert!(matches!(used, Err(ConnectionsError::IdAlreadyUsed(_))));
    let failed = connections.handle_http(http(2, true, "TRACE"), &vec![], false, |_, _| {
        panic!("not to be opened")
    });
    assert!(matches!(failed, Err(ConnectionsError::Connection(_))));
    let opened = connections.try_add(Id::new(vec![1]), &vec![1], false, || Ok(HTTP_HANDLE));
    assert!(opened.is_ok());
}

#[test]
fn finished_connections_are_replaced() {
    let mut connections = Connections::new();
    connections
        .try_add(Id::new(vec![1]), &vec![], false, || Ok(HTTP_HANDLE))
        .unwrap();
    connections
        .handle_http(http(1, false, "GET"), &vec![1], false, |_, _| 2)
        .unwrap();
    assert_eq!(connections.get(&Id::new(vec![1])).unwrap().task, 2);
    connections
        .handle_http(http(1, false, "GET"), &vec![], true, |_, _| 3)
        .unwrap();
    assert_eq!(connections.get(&Id::new(vec![1])).unwrap().task, 3);
}

#[test]
fn connections_that_cannot_be_opened_are_not_added() {
    let mut connections = Connections::new();
    match connections.handle_http(http(1, true, "TRACE"), &vec![], false, |_, _| 1) {
        Err(ConnectionsError::Connection(ConnectionError::Protobuf(
            ProtoError::WrongHttpMethod(method),
        ))) => assert_eq!(method, "TRACE"),
        other => panic!("unexpected {other:?}"),
    }
    assert!(matches!(
        connections.try_add(Id::new(vec![1]), &vec![], false, || Err(
            ConnectionsError::Connection(ConnectionError::Channel)
        )),
        Err(ConnectionsError::Connection(ConnectionError::Channel))
    ));
    assert_eq!(connections.get(&Id::new(vec![1])), None);
}

#[test]
fn terminated_connections_are_forgotten() {
    let mut connections = Connections::new();
    for task in 1..=4u8 {
        let handle = ConnectionHandle {
            task: task as u64,
            connection: WriteHandle::Ws,
        };
        connections
            .try_add(Id::new(vec![task]), &vec![], false, || Ok(handle))
            .unwrap();
    }
    connections.remove_terminated(&vec![2, 4, 9]);
    let left: Vec<bool> = (1..=4u8)
        .map(|id| connections.get(&Id::new(vec![id])).is_some())
        .collect();
    assert_eq!(left, vec![true, false, true, false]);
    connections.remove_terminated(&vec![2, 4, 9]);
    assert!(connections.get(&Id::new(vec![3])).is_some());

    let mut aborted = connections.disconnect();
    aborted.sort();
    assert_eq!(aborted, vec![1, 3]);
    assert!(connections.get(&Id::new(vec![1])).is_none());
    assert!(connections.disconnect().is_empty());
}

#[test]
fn websocket_messages_find_their_connection() {
    let mut connections = Connections::new();
    connections
        .handle_http(http(2, true, "GET"), &vec![], false, |_, _| 20)
        .unwrap();
    connections
        .handle_http(http(1, false, "GET"), &vec![], false, |_, _| 10)
        .unwrap();
    assert_eq!(
        connections.handle_ws(ws(2)).unwrap(),
        (20, WebSocketMessage::ping(vec![2]))
    );
    assert!(matches!(
        connections.handle_ws(ws(1)),
        Err(ConnectionsError::Connection(ConnectionError::Channel))
    ));
    match connections.handle_ws(ws(7)) {
        Err(ConnectionsError::ConnectionNotFound(id)) => assert_eq!(id.display(), "07"),
        other => panic!("unexpected {other:?}"),
    }
}

#[test]
fn handles_take_messages_of_their_protocol() {
    let ws_handle = ConnectionHandle {
        task: 1,
        connection: WriteHandle::Ws,
    };
    assert_eq!(
        ws_handle.send(Protocol::WebSocket(ws(1))).unwrap(),
        WebSocketMessage::ping(vec![1])
    );
    assert!(matches!(
        ws_handle.send(Protocol::Http(http(1, false, "GET"))),
        Err(ConnectionError::WrongProtocol)
    ));
    assert!(matches!(
        HTTP_HANDLE.send(Protocol::WebSocket(ws(1))),
        Err(ConnectionError::Channel)
    ));
    assert!(delivered(true).is_ok());
    assert!(matches!(delivered(false), Err(ConnectionError::Channel)));
}

#[test]
fn http_requests_are_sent_once() {
    let client = request(false, "GET").request_builder().unwrap();
    let mut transport = HttpTransport::new(client);
    assert_eq!(
        transport.next().unwrap().url,
        "http://localhost:7681/path?query"
    );
    assert!(transport.next().is_none());
    assert!(transport.next().is_none());
}

#[test]
fn responses_answer_their_requests() {
    let message = response_message(
        &Id::new(vec![3]),
        201,
        vec![("a".to_string(), b"b".to_vec())],
        vec![1],
    );
    match message.protocol {
        Protocol::Http(Http {
            request_id,
            http_msg: HttpMessage::Response(response),
        }) => {
            assert_eq!(request_id.display(), "03");
            assert_eq!(response.status(), 201);
            assert_eq!(response.headers.get("a").unwrap(), "b");
            assert_eq!(response.body, vec![1]);
        }
        other => panic!("unexpected {other:?}"),
    }
}

#[test]
fn websocket_streams_are_forwarded() {
    let id = Id::new(vec![3]);
    assert!(matches!(websocket_next(&id, None), Ok(None)));
    assert!(matches!(
        websocket_next(&id, Some(Err("gone".to_string()))),
        Err(ConnectionError::WebSocket(reason)) if reason == "gone"
    ));
    assert!(matches!(
        websocket_next(&id, Some(Ok(WsFrame::Raw))),
        Err(ConnectionError::Protobuf(ProtoError::WrongWsFrame))
    ));
    match websocket_next(&id, Some(Ok(WsFrame::Ping(vec![1])))) {
        Ok(Some(ProtoMessage {
            protocol: Protocol::WebSocket(ws),
        })) => assert_eq!(ws.message, WebSocketMessage::ping(vec![1])),
        other => panic!("unexpected {other:?}"),
    }
    assert!(matches!(
        stream_next(Some(Ok(WsFrame::Raw))),
        Some(Ok(WsFrame::Raw))
    ));
    assert!(stream_next(None).is_none());
}

#[test]
fn tasks_go_on_until_there_is_nothing_more() {
    let message = response_message(&Id::new(vec![3]), 201, vec![], vec![]);
    assert!(matches!(task(Ok(Some(message))), TaskStep::Send(_)));
    assert!(matches!(task(Ok(None)), TaskStep::Finish(Ok(()))));
    assert!(matches!(
        task(Err(ConnectionError::Connecting)),
        TaskStep::Finish(Err(ConnectionError::Connecting))
    ));
}

#[test]
fn connection_errors_are_shown() {
    let cases = [
        (ConnectionError::Channel, "Channel error."),
        (ConnectionError::Http, "Reqwest error."),
        (
            ConnectionError::Protobuf(ProtoError::Empty),
            "Protobuf error.",
        ),
        (ConnectionError::JoinError, "Failed to Join a task handle."),
        (
            ConnectionError::WrongProtocol,
            "Message sent to the wrong protocol",
        ),
        (
            ConnectionError::WebSocket("gone".to_string()),
            "Error when receiving message on websocket connection, `gone`.",
        ),
        (
            ConnectionError::Connecting,
            "Trying to poll while still connecting.",
        ),
    ];
    for (error, shown) in cases {
        assert_eq!(error.display(), shown);
    }
}

fn info(host: &str, port: u16, token: &str) -> ConnectionInfo {
    ConnectionInfo {
        host: host.to_string(),
        port,
        session_token: token.to_string(),
    }
}

fn session_event(path: &str) -> DeviceEvent {
    let mut object = StringMap::new();
    object.insert(
        "session_token".to_string(),
        AstarteType::String("abcd".to_string()),
    );
    DeviceEvent {
        interface: "io.edgehog.devicemanager.ForwarderSessionRequest".to_string(),
        path: path.to_string(),
        data: Value::Object(object),
    }
}

#[test]
fn sessions_are_opened_once() {
    let mut forwarder = Forwarder::init();
    let mut spawned = Vec::new();
    for (host, port, finished) in [
        ("a", 1, vec![]),
        ("a", 1, vec![]),
        ("a", 2, vec![]),
        ("b", 1, vec![]),
        ("a", 1, vec![0]),
    ] {
        let number = spawned.len() as u64;
        let mut opened = false;
        forwarder.handle(
            session_event("/request"),
            &finished,
            |data| {
                assert!(data.contains_key("session_token"));
                Some((info(host, port, "abcd"), format!("ws://{host}:{port}")))
            },
            |url, token| {
                assert_eq!(url, format!("ws://{host}:{port}"));
                assert_eq!(token, "abcd");
                opened = true;
                number
            },
        );
        if opened {
            spawned.push((host, port));
        }
    }
    assert_eq!(spawned, vec![("a", 1), ("a", 2), ("b", 1), ("a", 1)]);
    let key = Key {
        info: info("a", 1, "other"),
    };
    assert_eq!(forwarder.get_running(&key, &vec![]), Some(3));
    assert_eq!(forwarder.get_running(&key, &vec![3]), None);
}

#[test]
fn other_events_open_no_session() {
    let mut forwarder = Forwarder::init();
    let mut event = session_event("/request");
    event.data = Value::Individual(AstarteType::Boolean(true));
    for event in [session_event("/other"), event] {
        forwarder.handle(
            event,
            &vec![],
            |_| panic!("not a request"),
            |_, _| panic!("not a request"),
        );
    }
    forwarder.handle(
        session_event("/request"),
        &vec![],
        |_| None,
        |_, _| panic!("no connection information"),
    );
}

#[test]
fn session_identity_is_host_and_port() {
    let key = Key {
        info: info("a", 1, "t"),
    };
    assert!(key.eq(&Key {
        info: info("a", 1, "u")
    }));
    assert!(!key.eq(&Key {
        info: info("a", 2, "t")
    }));
    assert!(!key.eq(&Key {
        info: info("b", 1, "t")
    }));
}

#[test]
fn session_states_are_published() {
    let (path, value) = SessionState::connected("abcd".to_string()).property();
    assert_eq!(path, "/abcd/connected");
    assert!(matches!(value, AstarteType::Boolean(true)));
    let (path, value) = SessionState::disconnected("ef".to_string()).property();
    assert_eq!(path, "/ef/connected");
    assert!(matches!(value, AstarteType::Boolean(false)));
    assert_eq!(
        SESSIONS_STATE_INTERFACE,
        "io.edgehog.devicemanager.DeviceForwarderSessionsState"
    );
    let (opened, closed) = handle_session("t".to_string(), true).unwrap();
    assert_eq!(opened, SessionState::connected("t".to_string()));
    assert_eq!(closed, SessionState::disconnected("t".to_string()));
    assert!(handle_session("t".to_string(), false).is_none());
}
