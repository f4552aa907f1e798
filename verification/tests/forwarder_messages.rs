use std::collections::HashMap;

use edgehog_device_runtime::forwarder::headers::headermap_to_hashmap;
use edgehog_device_runtime::forwarder::messages::{
    Http, HttpMessage, HttpRequest, HttpResponse, Id, ProtoError, ProtoMessage, Protocol,
    WebSocket, WebSocketMessage, WsFrame,
};
use edgehog_device_runtime::forwarder::wire::{WireHttpMessage, WireProtocol, WireWsMessage};
use edgehog_device_runtime::string_map::StringMap;

fn headers(pairs: &[(&str, &str)]) -> StringMap<String> {
    let mut map = StringMap::new();
    for (name, value) in pairs {
        map.insert(name.to_string(), value.to_string());
    }
    map
}

fn request(method: &str, pairs: &[(&str, &str)]) -> HttpRequest {
    HttpRequest {
        path: "remote-terminal".to_string(),
        method: method.to_string(),
        query_string: "session=abcd".to_string(),
        headers: headers(pairs),
        body: vec![1, 2, 3],
        port: 8080,
    }
}

fn wire_headers(pairs: &[(&str, &str)]) -> HashMap<String, String> {
    pairs
        .iter()
        .map(|(name, value)| (name.to_string(), value.to_string()))
        .collect()
}

fn come_back(protocol: Protocol) -> Result<Protocol, ProtoError> {
    let bytes = ProtoMessage::new(protocol).encode().unwrap();
    ProtoMessage::decode(&bytes).map(|message| message.protocol)
}

#[test]
fn http_requests_come_back_from_their_bytes() {
    let http = Http::new(
        Id::new(vec![9, 8]),
        HttpMessage::Request(request("GET", &[("Upgrade", "websocket"), ("a", "")])),
    );
    match come_back(Protocol::Http(http)) {
        Ok(Protocol::Http(Http {
            request_id,
            http_msg: HttpMessage::Request(request),
        })) => {
            assert!(request_id.same(&Id::new(vec![9, 8])));
            assert_eq!(request.path, "remote-terminal");
            assert_eq!(request.method, "GET");
            assert_eq!(request.query_string, "session=abcd");
            assert_eq!(request.headers.len(), 2);
            assert_eq!(request.headers.get("Upgrade").unwrap(), "websocket");
            assert_eq!(request.headers.get("a").unwrap(), "");
            assert_eq!(request.body, vec![1, 2, 3]);
            assert_eq!(request.port, 8080);
        }
        other => panic!("unexpected {other:?}"),
    }
}

#[test]
fn http_responses_come_back_from_their_bytes() {
    let response = HttpResponse::new(404, headers(&[("k", "v")]), vec![7]);
    assert_eq!(response.status(), 404);
    let http = Http::new(Id::new(vec![1]), HttpMessage::Response(response));
    match come_back(Protocol::Http(http)) {
        Ok(Protocol::Http(Http {
            http_msg: HttpMessage::Response(response),
            ..
        })) => {
            assert_eq!(response.status(), 404);
            assert_eq!(response.headers.get("k").unwrap(), "v");
            assert_eq!(response.body, vec![7]);
        }
        other => panic!("unexpected {other:?}"),
    }
}

#[test]
fn http_without_identifier_is_refused() {
    let http = Http::new(Id::new(vec![]), HttpMessage::Request(request("GET", &[])));
    assert!(matches!(
        come_back(Protocol::Http(http)),
        Err(ProtoError::Empty)
    ));
}

#[test]
fn websocket_messages_come_back_from_their_bytes() {
    let messages = [
        WebSocketMessage::text("text".to_string()),
        WebSocketMessage::binary(vec![0, 255]),
        WebSocketMessage::ping(vec![]),
        WebSocketMessage::pong(vec![4]),
        WebSocketMessage::close(1001, Some("bye".to_string())),
        WebSocketMessage::close(1000, None),
    ];
    for message in messages {
        let shown = format!("{message:?}");
        let ws = WebSocket {
            socket_id: Id::new(vec![5]),
            message,
        };
        match come_back(Protocol::WebSocket(ws)) {
            Ok(Protocol::WebSocket(ws)) => {
                assert!(ws.socket_id.same(&Id::new(vec![5])));
                assert_eq!(format!("{:?}", ws.message), shown);
            }
            other => panic!("unexpected {other:?}"),
        }
    }
}

#[test]
fn empty_close_reason_comes_back_as_none() {
    let ws = WebSocket {
        socket_id: Id::new(vec![]),
        message: WebSocketMessage::close(1000, Some(String::new())),
    };
    match come_back(Protocol::WebSocket(ws)) {
        Ok(Protocol::WebSocket(ws)) => {
            assert_eq!(ws.message, WebSocketMessage::close(1000, None))
        }
        other => panic!("unexpected {other:?}"),
    }
}

#[test]
fn bytes_that_are_no_message_are_refused() {
    assert!(matches!(
        ProtoMessage::decode(&[0xff, 0xff]),
        Err(ProtoError::Decode(_))
    ));
    assert!(matches!(
        ProtoMessage::decode(&[]),
        Err(ProtoError::Empty)
    ));
}

#[test]
fn messages_without_parts_are_refused() {
    assert!(matches!(ProtoMessage::try_from(None), Err(ProtoError::Empty)));
    let http = WireProtocol::WireHttp {
        request_id: vec![1],
        message: None,
    };
    assert!(matches!(Protocol::try_from(http), Err(ProtoError::Empty)));
    let ws = WireProtocol::WireWs {
        socket_id: vec![1],
        message: None,
    };
    assert!(matches!(Protocol::try_from(ws), Err(ProtoError::Empty)));
}

#[test]
fn numbers_beyond_sixteen_bits_are_refused() {
    let wide = WireHttpMessage::WireRequest {
        path: String::new(),
        method: String::new(),
        query_string: String::new(),
        headers: HashMap::new(),
        body: vec![],
        port: 65536,
    };
    assert!(matches!(
        HttpMessage::try_from(wide),
        Err(ProtoError::InvalidPortNumber)
    ));
    let narrow = WireHttpMessage::WireRequest {
        path: String::new(),
        method: String::new(),
        query_string: String::new(),
        headers: wire_headers(&[("a", "b")]),
        body: vec![],
        port: 65535,
    };
    match HttpMessage::try_from(narrow) {
        Ok(HttpMessage::Request(request)) => {
            assert_eq!(request.port, 65535);
            assert_eq!(request.headers.get("a").unwrap(), "b");
        }
        other => panic!("unexpected {other:?}"),
    }
    let response = WireHttpMessage::WireResponse {
        status_code: 70000,
        headers: HashMap::new(),
        body: vec![],
    };
    assert!(matches!(
        HttpMessage::try_from(response),
        Err(ProtoError::InvalidPortNumber)
    ));
    let close = WireWsMessage::WireClose {
        code: 65536,
        reason: String::new(),
    };
    assert!(matches!(
        WebSocketMessage::try_from(close),
        Err(ProtoError::InvalidPortNumber)
    ));
}

#[test]
fn frames_are_forwarded() {
    let cases = [
        (WsFrame::Text("t".to_string()), WebSocketMessage::text("t".to_string())),
        (WsFrame::Binary(vec![1]), WebSocketMessage::binary(vec![1])),
        (WsFrame::Ping(vec![2]), WebSocketMessage::ping(vec![2])),
        (WsFrame::Pong(vec![3]), WebSocketMessage::pong(vec![3])),
        (WsFrame::Close(None), WebSocketMessage::close(1000, None)),
        (
            WsFrame::Close(Some((1002, String::new()))),
            WebSocketMessage::close(1002, Some(String::new())),
        ),
    ];
    for (frame, expected) in cases {
        match ProtoMessage::try_from_tung(Id::new(vec![6]), frame) {
            Ok(ProtoMessage {
                protocol: Protocol::WebSocket(ws),
            }) => {
                assert_eq!(ws.message, expected);
                assert!(ws.socket_id.same(&Id::new(vec![6])));
            }
            other => panic!("unexpected {other:?}"),
        }
    }
    assert!(matches!(
        ProtoMessage::try_from_tung(Id::new(vec![6]), WsFrame::Raw),
        Err(ProtoError::WrongWsFrame)
    ));
}

#[test]
fn only_websocket_messages_are_websocket_messages() {
    let ws = WebSocket {
        socket_id: Id::new(vec![]),
        message: WebSocketMessage::ping(vec![]),
    };
    assert!(Protocol::WebSocket(ws).into_ws().is_some());
    let http = Http::new(Id::new(vec![1]), HttpMessage::Request(request("GET", &[])));
    assert!(Protocol::Http(http).into_ws().is_none());
}

#[test]
fn identifiers_are_shown_in_hexadecimal() {
    let id = Id::new(vec![0x00, 0x0a, 0xff, 0x1b]);
    assert_eq!(id.display(), "000aff1b");
    assert_eq!(id.debug(), "Id(000aff1b)");
    assert_eq!(id.clone().into_bytes(), vec![0x00, 0x0a, 0xff, 0x1b]);
    assert!(!id.same(&Id::new(vec![0x00, 0x0a, 0xff])));
    assert!(!id.same(&Id::new(vec![0x00, 0x0a, 0xff, 0x1c])));
}

#[test]
fn upgrades_are_asked_for_by_a_header() {
    assert!(request("GET", &[("Upgrade", "websocket")]).is_upgrade());
    assert!(!request("GET", &[("upgrade", "websocket")]).is_upgrade());
    assert!(!request("GET", &[]).is_upgrade());
}

#[test]
fn requests_are_sent_to_the_local_port() {
    let request = request("GET", &[("X-Name", "value"), ("accept", "*/*")])
        .request_builder()
        .unwrap();
    assert_eq!(
        request.url,
        "http://localhost:8080/remote-terminal?session=abcd"
    );
    assert_eq!(request.method, "GET");
    assert_eq!(request.body, vec![1, 2, 3]);
    assert_eq!(request.headers.len(), 2);
    assert_eq!(request.headers["x-name"], "value");
    assert_eq!(request.headers["accept"], "*/*");
}

#[test]
fn addresses_are_normalised() {
    let mut odd = request("GET", &[]);
    odd.path = "a b".to_string();
    odd.port = 80;
    assert_eq!(
        odd.request_builder().unwrap().url,
        "http://localhost/a%20b?session=abcd"
    );
}

#[test]
fn methods_are_kept_as_they_are() {
    assert_eq!(
        request("Purge", &[]).request_builder().unwrap().method,
        "Purge"
    );
    for wrong in ["", "GE T", "GET\"", "GÉT"] {
        assert!(matches!(
            request(wrong, &[]).request_builder(),
            Err(ProtoError::InvalidHttpMethod(_))
        ));
    }
}

#[test]
fn requests_with_wrong_headers_are_refused() {
    for (name, value) in [("", "v"), ("a b", "v"), ("name", "line\nbreak"), ("name", "\u{7f}")] {
        assert!(matches!(
            request("", &[(name, value)]).request_builder(),
            Err(ProtoError::Http(_))
        ));
    }
    let tolerated = request("GET", &[("!#$%&'*+-.^_`|~\"9", "\tvalue \u{e9}")]);
    assert!(tolerated.request_builder().is_ok());
}

#[test]
fn values_of_one_name_are_all_sent() {
    let request = request("GET", &[("Name", "1"), ("other", "2"), ("NAME", "3")])
        .request_builder()
        .unwrap();
    let values: Vec<&[u8]> = request
        .headers
        .get_all("name")
        .iter()
        .map(|value| value.as_bytes())
        .collect();
    assert_eq!(values, vec![&b"1"[..], &b"3"[..]]);
}

#[test]
fn client_requests_take_the_address() {
    let request = request("GET", &[])
        .client_request("http://else/".to_string())
        .unwrap();
    assert_eq!(request.url, "http://else/");
}

#[test]
fn upgrades_open_a_websocket() {
    let upgrade = request(
        "get",
        &[
            ("Upgrade", "websocket"),
            ("bad name", "x"),
            ("name", "bad\nvalue"),
            ("Name", "1"),
            ("NAME", "2"),
        ],
    )
    .upgrade()
    .unwrap();
    assert_eq!(upgrade.method, "GET");
    assert_eq!(
        upgrade.uri,
        "ws://localhost:8080/remote-terminal?session=abcd"
    );
    assert_eq!(
        upgrade.headers,
        vec![
            ("upgrade".to_string(), b"websocket".to_vec()),
            ("name".to_string(), b"1".to_vec())
        ]
    );
}

#[test]
fn upgrades_need_a_plain_method() {
    for method in ["GET", "delete", "Head", "PATCH", "post", "put"] {
        assert!(request(method, &[]).upgrade().is_ok());
    }
    for method in ["options", "", "connect"] {
        match request(method, &[]).upgrade() {
            Err(ProtoError::WrongHttpMethod(wrong)) => {
                assert_eq!(wrong, method.to_uppercase())
            }
            other => panic!("unexpected {other:?}"),
        }
    }
}

#[test]
fn upgrades_need_a_valid_address() {
    let mut odd = request("GET", &[]);
    odd.path = "a b".to_string();
    assert!(matches!(odd.upgrade(), Err(ProtoError::Http(_))));
    let given = request("GET", &[]).upgrade_request(Ok("ws://else/".to_string()));
    assert_eq!(given.unwrap().uri, "ws://else/");
}

#[test]
fn received_headers_are_mapped() {
    let map = headermap_to_hashmap(vec![
        ("a".to_string(), b"1".to_vec()),
        ("b".to_string(), "\u{e9}".as_bytes().to_vec()),
        ("a".to_string(), b"2".to_vec()),
        ("c".to_string(), vec![b'x', 0xff]),
    ]);
    assert_eq!(map.len(), 3);
    assert_eq!(map.get("a").unwrap(), "2");
    assert_eq!(map.get("b").unwrap(), "\u{e9}");
    assert_eq!(map.get("c").unwrap(), "x\u{fffd}");
}

#[test]
fn messages_travel_on_unchanged() {
    let wire = WireProtocol::WireWs {
        socket_id: vec![7],
        message: Some(WireWsMessage::WireClose {
            code: 1001,
            reason: String::new(),
        }),
    };
    match Protocol::try_from(wire).unwrap().into_wire() {
        WireProtocol::WireWs {
            socket_id,
            message: Some(WireWsMessage::WireClose { code, reason }),
        } => {
            assert_eq!(socket_id, vec![7]);
            assert_eq!(code, 1001);
            assert_eq!(reason, "");
        }
        other => panic!("unexpected {other:?}"),
    }

    let wire = WireProtocol::WireHttp {
        request_id: vec![1],
        message: Some(WireHttpMessage::WireResponse {
            status_code: 404,
            headers: wire_headers(&[("a", "b"), ("A", "")]),
            body: vec![5],
        }),
    };
    match Protocol::try_from(wire).unwrap().into_wire() {
        WireProtocol::WireHttp {
            request_id,
            message:
                Some(WireHttpMessage::WireResponse {
                    status_code,
                    headers,
                    body,
                }),
        } => {
            assert_eq!(request_id, vec![1]);
            assert_eq!(status_code, 404);
            assert_eq!(headers, wire_headers(&[("a", "b"), ("A", "")]));
            assert_eq!(body, vec![5]);
        }
        other => panic!("unexpected {other:?}"),
    }
}

#[test]
fn message_errors_are_shown() {
    let cases = [
        (ProtoError::Encode, "Failed to serialize into Protobuf."),
        (ProtoError::Empty, "Empty fields."),
        (ProtoError::Reqwest, "Reqwest error."),
        (ProtoError::ParseHeaders, "Error while parsing Headers."),
        (ProtoError::InvalidPortNumber, "Invalid port number."),
        (
            ProtoError::WrongHttpMethod("X".to_string()),
            "Wrong HTTP method field, `X`.",
        ),
        (
            ProtoError::WebSocketConnect("no".to_string()),
            "Error performing exponential backoff when trying to connect with TTYD, no",
        ),
        (
            ProtoError::WrongWsFrame,
            "Received a wrong WebSocket frame.",
        ),
    ];
    for (error, shown) in cases {
        assert_eq!(error.display(), shown);
    }
    let decode = ProtoMessage::decode(&[0xff, 0xff]).unwrap_err();
    assert_eq!(decode.display(), "Failed to deserialize from Protobuf.");
    let method = request("", &[]).request_builder().unwrap_err();
    assert_eq!(method.display(), "Wrong HTTP method field.");
    let header = request("GET", &[("", "")]).request_builder().unwrap_err();
    assert_eq!(header.display(), "Http error.");
}
