//! Forwarder messages as they travel: every field that a Protobuf message may
//! leave out is optional, and every number has its width on the wire.

use std::collections::HashMap;

use edgehog_device_forwarder_proto::http::Message::{Request, Response};
use edgehog_device_forwarder_proto::http::Request as RequestFields;
use edgehog_device_forwarder_proto::http::Response as ResponseFields;
use edgehog_device_forwarder_proto::message::Protocol::{Http, Ws};
use edgehog_device_forwarder_proto::web_socket::Close as CloseFields;
use edgehog_device_forwarder_proto::web_socket::Message::{Binary, Close, Ping, Pong, Text};
use edgehog_device_forwarder_proto::Http as HttpFields;
use edgehog_device_forwarder_proto::Message;
use edgehog_device_forwarder_proto::WebSocket as WsFields;
use prost::Message as ProstMessage;
use vstd::prelude::*;

use crate::forwarder::wire::WireHttpMessage::{WireRequest, WireResponse};
use crate::forwarder::wire::WireProtocol::{WireHttp, WireWs};
use crate::forwarder::wire::WireWsMessage::{WireBinary, WireClose, WirePing, WirePong, WireText};
use crate::string_map::StringMap;

verus! {

/// The message of one of the protocols.
#[derive(Debug)]
pub enum WireProtocol {
    WireHttp { request_id: Vec<u8>, message: Option<WireHttpMessage> },
    WireWs { socket_id: Vec<u8>, message: Option<WireWsMessage> },
}

/// An HTTP message.
#[derive(Debug)]
pub enum WireHttpMessage {
    WireRequest {
        path: String,
        method: String,
        query_string: String,
        headers: HashMap<String, String>,
        body: Vec<u8>,
        port: u32,
    },
    WireResponse { status_code: u32, headers: HashMap<String, String>, body: Vec<u8> },
}

/// A WebSocket message.
#[derive(Debug)]
pub enum WireWsMessage {
    WireText(String),
    WireBinary(Vec<u8>),
    WirePing(Vec<u8>),
    WirePong(Vec<u8>),
    WireClose { code: u32, reason: String },
}

/// A [`WireProtocol`] as a mathematical value.
#[verifier::ext_equal]
pub enum WireProtocolView {
    WireHttp { request_id: Seq<u8>, message: Option<WireHttpMessageView> },
    WireWs { socket_id: Seq<u8>, message: Option<WireWsMessageView> },
}

/// A [`WireHttpMessage`] as a mathematical value.
#[verifier::ext_equal]
pub enum WireHttpMessageView {
    WireRequest {
        path: Seq<char>,
        method: Seq<char>,
        query_string: Seq<char>,
        headers: Map<Seq<char>, Seq<char>>,
        body: Seq<u8>,
        port: u32,
    },
    WireResponse { status_code: u32, headers: Map<Seq<char>, Seq<char>>, body: Seq<u8> },
}

/// A [`WireWsMessage`] as a mathematical value.
#[verifier::ext_equal]
pub enum WireWsMessageView {
    WireText(Seq<char>),
    WireBinary(Seq<u8>),
    WirePing(Seq<u8>),
    WirePong(Seq<u8>),
    WireClose { code: u32, reason: Seq<char> },
}

/// A map of strings as a map of their texts.
pub open spec fn text_map(map: Map<String, String>) -> Map<Seq<char>, Seq<char>> {
    Map::new(
        |text: Seq<char>| exists|key: String| #[trigger] map.contains_key(key) && key@ == text,
        |text: Seq<char>|
            map[choose|key: String| #[trigger] map.contains_key(key) && key@ == text]@,
    )
}

impl View for WireProtocol {
    type V = WireProtocolView;

    open spec fn view(&self) -> WireProtocolView {
        match self {
            WireProtocol::WireHttp { request_id, message } => WireProtocolView::WireHttp {
                request_id: request_id@,
                message: match message {
                    Some(m) => Some(m@),
                    None => None,
                },
            },
            WireProtocol::WireWs { socket_id, message } => WireProtocolView::WireWs {
                socket_id: socket_id@,
                message: match message {
                    Some(m) => Some(m@),
                    None => None,
                },
            },
        }
    }
}

impl View for WireHttpMessage {
    type V = WireHttpMessageView;

    open spec fn view(&self) -> WireHttpMessageView {
        match self {
            WireHttpMessage::WireRequest { path, method, query_string, headers, body, port } =>
                WireHttpMessageView::WireRequest {
                path: path@,
                method: method@,
                query_string: query_string@,
                headers: text_map(headers@),
                body: body@,
                port: *port,
            },
            WireHttpMessage::WireResponse { status_code, headers, body } =>
                WireHttpMessageView::WireResponse {
                status_code: *status_code,
                headers: text_map(headers@),
                body: body@,
            },
        }
    }
}

impl View for WireWsMessage {
    type V = WireWsMessageView;

    open spec fn view(&self) -> WireWsMessageView {
        match self {
            WireWsMessage::WireText(t) => WireWsMessageView::WireText(t@),
            WireWsMessage::WireBinary(d) => WireWsMessageView::WireBinary(d@),
            WireWsMessage::WirePing(d) => WireWsMessageView::WirePing(d@),
            WireWsMessage::WirePong(d) => WireWsMessageView::WirePong(d@),
            WireWsMessage::WireClose { code, reason } => WireWsMessageView::WireClose {
                code: *code,
                reason: reason@,
            },
        }
    }
}

/// The error of a message that is no Protobuf message.
#[verifier::external_type_specification]
#[verifier::external_body]
pub struct ExDecodeError(prost::DecodeError);

/// What [`prost::Message::decode`] reads from bytes as a forwarder message: its
/// protocol, where it has one. `None` stands for the error.
pub uninterp spec fn message_decoded(bytes: Seq<u8>) -> Option<Option<WireProtocolView>>;

/// Calls [`prost::Message::decode`] for a forwarder message. The contract names
/// the result.
#[verifier::external_body]
pub(crate) fn decode_message(bytes: &[u8]) -> (message: Result<
    Option<WireProtocol>,
    prost::DecodeError,
>)
    ensures
        match message {
            Ok(Some(protocol)) => message_decoded(bytes@) == Some(Some(protocol@)),
            Ok(None) => message_decoded(bytes@) == Some(None::<WireProtocolView>),
            Err(_) => message_decoded(bytes@) is None,
        },
{
    Message::decode(bytes).map(|m| m.protocol.map(|p| match p {
        Http(HttpFields { request_id, message }) => WireHttp { request_id, message: message.map(|m| match m {
            Request(RequestFields { path, method, query_string, headers, body, port }) => WireRequest { path, method, query_string, headers, body, port },
            Response(ResponseFields { status_code, headers, body }) => WireResponse { status_code, headers, body },
        }) },
        Ws(WsFields { socket_id, message }) => WireWs { socket_id, message: message.map(|m| match m {
            Text(data) => WireText(data),
            Binary(data) => WireBinary(data),
            Ping(data) => WirePing(data),
            Pong(data) => WirePong(data),
            Close(CloseFields { code, reason }) => WireClose { code, reason },
        }) },
    }))
}

/// Calls [`prost::Message::encode_to_vec`] for a forwarder message. The
/// contract states that decoding the bytes gives the message back. The bytes
/// themselves are not stated: they hold the headers in the order in which
/// their hash map is walked.
#[verifier::external_body]
pub(crate) fn encode_message(protocol: WireProtocol) -> (bytes: Vec<u8>)
    ensures
        message_decoded(bytes@) == Some(Some(protocol@)),
{
    Message { protocol: Some(match protocol {
        WireHttp { request_id, message } => Http(HttpFields { request_id, message: message.map(|m| match m {
            WireRequest { path, method, query_string, headers, body, port } => Request(RequestFields { path, method, query_string, headers, body, port }),
            WireResponse { status_code, headers, body } => Response(ResponseFields { status_code, headers, body }),
        }) }),
        WireWs { socket_id, message } => Ws(WsFields { socket_id, message: message.map(|m| match m {
            WireText(data) => Text(data),
            WireBinary(data) => Binary(data),
            WirePing(data) => Ping(data),
            WirePong(data) => Pong(data),
            WireClose { code, reason } => Close(CloseFields { code, reason }),
        }) }),
    }) }.encode_to_vec()
}

/// Whether the pairs are the entries of the map, each once, in some order.
pub open spec fn lists(pairs: Seq<(String, String)>, map: Map<String, String>) -> bool {
    &&& forall|i: int|
        0 <= i < pairs.len() ==> map.contains_key((#[trigger] pairs[i]).0) && map[pairs[i].0]
            == pairs[i].1
    &&& forall|key: String| #[trigger]
        map.contains_key(key) ==> exists|i: int| 0 <= i < pairs.len() && (#[trigger] pairs[i]).0
            == key
    &&& forall|i: int, j: int|
        0 <= i < j < pairs.len() ==> (#[trigger] pairs[i]).0@ != (#[trigger] pairs[j]).0@
}

/// Calls `Vec::from_iter` on a [`HashMap`]. The contract states that the pairs
/// are the entries of the map, each once; their order is left open.
#[verifier::external_body]
fn hash_map_pairs(map: HashMap<String, String>) -> (pairs: Vec<(String, String)>)
    ensures
        lists(pairs@, map@),
{
    Vec::from_iter(map)
}

/// Calls `HashMap::from_iter`. The contract states that the entries of the map
/// are the pairs, whose keys have to be distinct.
#[verifier::external_body]
fn pairs_hash_map(pairs: Vec<(String, String)>) -> (map: HashMap<String, String>)
    requires
        forall|i: int, j: int|
            0 <= i < j < pairs.len() ==> (#[trigger] pairs[i]).0@ != (#[trigger] pairs[j]).0@,
    ensures
        lists(pairs@, map@),
{
    HashMap::from_iter(pairs)
}

/// A map from text to strings as a map from text to text.
pub open spec fn texts_of(map: Map<Seq<char>, String>) -> Map<Seq<char>, Seq<char>> {
    map.map_values(|s: String| s@)
}

/// The pairs that list a map stand for the same texts as the map.
proof fn lemma_lists(pairs: Seq<(String, String)>, map: Map<String, String>)
    requires
        lists(pairs, map),
    ensures
        texts_of(crate::string_map::pairs_map(crate::string_map::entry_pairs(pairs))) == text_map(map),
{
    let keyed_pairs = crate::string_map::entry_pairs(pairs);
    let left = texts_of(crate::string_map::pairs_map(keyed_pairs));
    let right = text_map(map);
    crate::string_map::lemma_pairs_map(keyed_pairs);
    assert(crate::string_map::distinct_keys(keyed_pairs)) by {
        assert forall|i: int, j: int| 0 <= i < j < keyed_pairs.len() implies #[trigger] keyed_pairs[i].0
            != #[trigger] keyed_pairs[j].0 by {
            assert(pairs[i].0@ != pairs[j].0@);
        }
    }
    assert forall|text: Seq<char>| left.contains_key(text) == right.contains_key(text) by {
        if left.contains_key(text) {
            let i = choose|i: int|
                0 <= i < keyed_pairs.len() && #[trigger] keyed_pairs[i].0 == text;
            assert(map.contains_key(pairs[i].0));
        }
        if right.contains_key(text) {
            let key = choose|key: String| #[trigger] map.contains_key(key) && key@ == text;
            let i = choose|i: int| 0 <= i < pairs.len() && (#[trigger] pairs[i]).0 == key;
            assert(keyed_pairs[i].0 == text);
        }
    }
    assert forall|text: Seq<char>| left.contains_key(text) implies left[text] == right[text] by {
        let key = choose|key: String| #[trigger] map.contains_key(key) && key@ == text;
        assert(right.contains_key(text));
        let i = choose|i: int| 0 <= i < pairs.len() && (#[trigger] pairs[i]).0 == key;
        assert(keyed_pairs[i].0 == text);
        assert(crate::string_map::pairs_map(keyed_pairs)[keyed_pairs[i].0] == keyed_pairs[i].1);
    }
    assert(left =~= right);
}

/// The headers of a message, taken out of their hash map.
pub(crate) fn headers_from_wire(headers: HashMap<String, String>) -> (map: StringMap<String>)
    ensures
        texts_of(map@) == text_map(headers@),
{
    let ghost entries = headers@;
    let mut pairs = hash_map_pairs(headers);
    let ghost listed = pairs@.reverse();
    let mut map: StringMap<String> = StringMap::new();
    let ghost mut taken: int = 0;
    proof {
        assert(lists(listed, entries)) by {
            assert forall|key: String| #[trigger] entries.contains_key(key) implies exists|i: int|
                0 <= i < listed.len() && (#[trigger] listed[i]).0 == key by {
                let i = choose|i: int| 0 <= i < pairs@.len() && (#[trigger] pairs@[i]).0 == key;
                assert(listed[listed.len() - 1 - i].0 == key);
            }
        }
        lemma_lists(listed, entries);
        assert(pairs@ =~= listed.skip(0).reverse());
        assert(crate::string_map::entry_pairs(listed.take(0)) =~= Seq::empty());
    }
    while pairs.len() > 0
        invariant
            0 <= taken <= listed.len(),
            pairs@ == listed.skip(taken).reverse(),
            map@ == crate::string_map::pairs_map(
                crate::string_map::entry_pairs(listed.take(taken)),
            ),
        decreases pairs.len(),
    {
        if let Some((key, value)) = pairs.pop() {
            map.insert(key, value);
            proof {
                let next = crate::string_map::entry_pairs(listed.take(taken + 1));
                assert(next.drop_last() =~= crate::string_map::entry_pairs(listed.take(taken)));
                assert(pairs@ =~= listed.skip(taken + 1).reverse());
                taken = taken + 1;
            }
        }
    }
    assert(listed.take(taken) =~= listed);
    map
}

/// The headers of a message, put into a hash map.
pub(crate) fn headers_to_wire(map: StringMap<String>) -> (headers: HashMap<String, String>)
    ensures
        text_map(headers@) == texts_of(map@),
{
    let pairs = map.into_entries();
    let ghost keyed = crate::string_map::entry_pairs(pairs@);
    assert forall|i: int, j: int| 0 <= i < j < pairs.len() implies (#[trigger] pairs[i]).0@ != (
    #[trigger] pairs[j]).0@ by {
        assert(keyed[i].0 != keyed[j].0);
    }
    let headers = pairs_hash_map(pairs);
    proof {
        lemma_lists(pairs@, headers@);
    }
    headers
}

} // verus!
