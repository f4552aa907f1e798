//! What holds of the messages that are forwarded, field by field, and of the
//! headers and addresses of requests.

use vstd::prelude::*;
use vstd::utf8::*;

use crate::forwarder::connection::{ConnectionError, TransportBuilder, WriteHandle};
use crate::forwarder::messages::{
    ClientRequest, HttpMessage, HttpRequest, Malformed, ProtoError, ProtoMessage, Protocol,
    ProtocolView, UpgradeRequest, WebSocketMessage, WsFrame,
};
use crate::forwarder::session::Key;
use crate::forwarder::wire::{WireHttpMessage, WireProtocol, WireWsMessage};

verus! {

/// Whether an HTTP message holds in each field what an HTTP message on the wire
/// holds in the field of the same name.
pub open spec fn same_http(message: HttpMessage, wire: WireHttpMessage) -> bool {
    match (message, wire) {
        (
            HttpMessage::Request(request),
            WireHttpMessage::WireRequest { path, method, query_string, headers, body, port },
        ) => {
            &&& request.path@ == path@
            &&& request.method@ == method@
            &&& request.query_string@ == query_string@
            &&& crate::forwarder::wire::texts_of(request.headers@)
                == crate::forwarder::wire::text_map(headers@)
            &&& request.body@ == body@
            &&& request.port == port
        },
        (
            HttpMessage::Response(response),
            WireHttpMessage::WireResponse { status_code, headers, body },
        ) => {
            &&& response.status_code == status_code
            &&& crate::forwarder::wire::texts_of(response.headers@)
                == crate::forwarder::wire::text_map(headers@)
            &&& response.body@ == body@
        },
        _ => false,
    }
}

/// Whether a WebSocket message is of the same sort as one on the wire and holds
/// the same. Where the wire has no reason for a close it is an empty one.
pub open spec fn same_ws(message: WebSocketMessage, wire: WireWsMessage) -> bool {
    match (message, wire) {
        (WebSocketMessage::Text(data), WireWsMessage::WireText(sent)) => data@ == sent@,
        (WebSocketMessage::Binary(data), WireWsMessage::WireBinary(sent)) => data@ == sent@,
        (WebSocketMessage::Ping(data), WireWsMessage::WirePing(sent)) => data@ == sent@,
        (WebSocketMessage::Pong(data), WireWsMessage::WirePong(sent)) => data@ == sent@,
        (
            WebSocketMessage::Close { code, reason },
            WireWsMessage::WireClose { code: sent_code, reason: sent_reason },
        ) => {
            &&& code == sent_code
            &&& match reason {
                Some(reason) => reason@ == sent_reason@,
                None => sent_reason@.len() == 0,
            }
        },
        _ => false,
    }
}

/// Whether a message holds the identifier and in each field what a message on
/// the wire holds there.
pub open spec fn same_message(protocol: Protocol, wire: WireProtocol) -> bool {
    match (protocol, wire) {
        (Protocol::Http(http), WireProtocol::WireHttp { request_id, message: Some(message) }) => {
            &&& http.request_id@ == request_id@
            &&& same_http(http.http_msg, message)
        },
        (Protocol::WebSocket(ws), WireProtocol::WireWs { socket_id, message: Some(message) }) => {
            &&& ws.socket_id@ == socket_id@
            &&& same_ws(ws.message, message)
        },
        _ => false,
    }
}

/// The number in a message on the wire that has to fit in 16 bits.
pub open spec fn wire_number(wire: WireProtocol) -> int {
    match wire {
        WireProtocol::WireHttp { message: Some(message), .. } => match message {
            WireHttpMessage::WireRequest { port, .. } => port as int,
            WireHttpMessage::WireResponse { status_code, .. } => status_code as int,
        },
        WireProtocol::WireWs { message: Some(WireWsMessage::WireClose { code, .. }), .. } =>
            code as int,
        _ => 0,
    }
}

/// Whether a message on the wire lacks its message, or its identifier where it
/// is an HTTP message.
pub open spec fn lacks_part(wire: WireProtocol) -> bool {
    match wire {
        WireProtocol::WireHttp { request_id, message } => request_id@.len() == 0
            || message is None,
        WireProtocol::WireWs { message, .. } => message is None,
    }
}

/// Each field of a message that was read is the field of the same name on the
/// wire.
pub proof fn law_messages_are_read_field_by_field(wire: WireProtocol, protocol: Protocol)
    requires
        crate::forwarder::messages::from_wire(Some(wire@)) == Ok::<ProtocolView, Malformed>(
            protocol@,
        ),
    ensures
        same_message(protocol, wire),
        match protocol {
            Protocol::WebSocket(ws) => ws.message matches WebSocketMessage::Close {
                reason: Some(reason),
                ..
            } ==> reason@.len() > 0,
            Protocol::Http(http) => http.request_id@.len() > 0,
        },
{
}

/// A message on the wire can be read exactly when no part of it is missing and
/// its number fits in 16 bits. What is missing is found first.
pub proof fn law_whole_messages_are_read(wire: WireProtocol)
    ensures
        match crate::forwarder::messages::from_wire(Some(wire@)) {
            Ok(_) => !lacks_part(wire) && wire_number(wire) <= 65535,
            Err(Malformed::Empty) => lacks_part(wire),
            Err(Malformed::InvalidNumber) => !lacks_part(wire) && wire_number(wire) > 65535,
        },
        crate::forwarder::messages::from_wire(None) matches Err(malformed) && malformed is Empty,
{
}

/// Each field of a message travels as the field of the same name on the wire.
pub proof fn law_messages_travel_field_by_field(protocol: Protocol, wire: WireProtocol)
    requires
        wire@ == crate::forwarder::messages::to_wire(protocol@),
    ensures
        same_message(protocol, wire),
{
}

/// Each field of an HTTP message that was read is the field of the same name on
/// the wire, and it is read exactly when its number fits in 16 bits.
pub proof fn law_http_messages_are_read_field_by_field(wire: WireHttpMessage, message: HttpMessage)
    ensures
        crate::forwarder::messages::http_from_wire(wire@) == Ok::<_, Malformed>(message@)
            ==> same_http(message, wire),
        crate::forwarder::messages::http_from_wire(wire@) is Ok <==> (match wire {
            WireHttpMessage::WireRequest { port, .. } => port <= 65535,
            WireHttpMessage::WireResponse { status_code, .. } => status_code <= 65535,
        }),
{
}

/// A WebSocket message that was read is of the same sort as on the wire and
/// holds the same. An empty reason of a close is none.
pub proof fn law_ws_messages_are_read_field_by_field(wire: WireWsMessage, message: WebSocketMessage)
    requires
        crate::forwarder::messages::ws_from_wire(wire@) == Ok::<_, Malformed>(message@),
    ensures
        same_ws(message, wire),
        message matches WebSocketMessage::Close { reason: Some(reason), .. } ==> reason@.len() > 0,
{
}

/// Whether a WebSocket message is of the same sort as a frame and holds the
/// same.
pub open spec fn same_frame(message: WebSocketMessage, frame: WsFrame) -> bool {
    match (message, frame) {
        (WebSocketMessage::Text(data), WsFrame::Text(came)) => data@ == came@,
        (WebSocketMessage::Binary(data), WsFrame::Binary(came)) => data@ == came@,
        (WebSocketMessage::Ping(data), WsFrame::Ping(came)) => data@ == came@,
        (WebSocketMessage::Pong(data), WsFrame::Pong(came)) => data@ == came@,
        (WebSocketMessage::Close { code, reason }, WsFrame::Close(came)) => match (reason, came) {
            (Some(reason), Some((came_code, came_reason))) => {
                &&& code == came_code
                &&& reason@ == came_reason@
            },
            (None, None) => code == 1000,
            _ => false,
        },
        _ => false,
    }
}

/// A frame is forwarded as what it is: a close carries the code and the reason
/// of the frame, and is a normal one where the frame has none.
pub proof fn law_frames_are_forwarded_as_they_are(frame: WsFrame, message: WebSocketMessage)
    requires
        !(frame is Raw),
        message@ == crate::forwarder::messages::frame_message(frame),
    ensures
        same_frame(message, frame),
{
}

/// The contents of a frame.
pub open spec fn frame_contents(frame: WsFrame) -> (int, Seq<char>, Seq<u8>, Option<u16>) {
    match frame {
        WsFrame::Text(data) => (0, data@, Seq::empty(), None),
        WsFrame::Binary(data) => (1, Seq::empty(), data@, None),
        WsFrame::Ping(data) => (2, Seq::empty(), data@, None),
        WsFrame::Pong(data) => (3, Seq::empty(), data@, None),
        WsFrame::Close(Some((code, reason))) => (4, reason@, Seq::empty(), Some(code)),
        WsFrame::Close(None) => (4, Seq::empty(), Seq::empty(), None),
        WsFrame::Raw => (5, Seq::empty(), Seq::empty(), None),
    }
}

/// Two frames with different contents come to different messages.
pub proof fn law_frames_are_told_apart(one: WsFrame, other: WsFrame)
    requires
        !(one is Raw),
        !(other is Raw),
        crate::forwarder::messages::frame_message(one)
            == crate::forwarder::messages::frame_message(other),
    ensures
        frame_contents(one) == frame_contents(other),
{
}

/// The address of a service of the device starts with the scheme, the device
/// and the port, goes on with the path, and ends with the query.
pub proof fn law_addresses_name_the_service(request: HttpRequest, scheme: Seq<char>)
    ensures
        ({
            let address = request.address(scheme);
            let start = scheme + "://localhost:"@ + crate::text::decimal(request.port as nat)
                + "/"@;
            let query = "?"@ + request.query_string@;
            &&& address.len() == start.len() + request.path@.len() + query.len()
            &&& address.take(start.len() as int) == start
            &&& address.subrange(start.len() as int, (start.len() + request.path@.len()) as int)
                == request.path@
            &&& address.skip(address.len() - query.len()) == query
        }),
{
    let address = request.address(scheme);
    let start = scheme + "://localhost:"@ + crate::text::decimal(request.port as nat) + "/"@;
    let query = "?"@ + request.query_string@;
    assert(address =~= start + request.path@ + query);
    assert(address.take(start.len() as int) =~= start);
    assert(address.subrange(start.len() as int, (start.len() + request.path@.len()) as int)
        =~= request.path@);
    assert(address.skip(address.len() - query.len()) =~= query);
}

/// A WebSocket is opened exactly for a request with the header `Upgrade`, and
/// what can be written to a connection goes by what was opened.
pub proof fn law_upgrades_open_websockets(
    request: HttpRequest,
    res: Result<(TransportBuilder, WriteHandle), ConnectionError>,
)
    requires
        TransportBuilder::opened_by(request, res),
    ensures
        match res {
            Ok((TransportBuilder::Ws(_), handle)) => handle is Ws && request.headers@.contains_key(
                "Upgrade"@,
            ),
            Ok((TransportBuilder::Http(_), handle)) => handle is Http
                && !request.headers@.contains_key("Upgrade"@),
            Err(error) => error is Protobuf,
        },
{
}

/// A pair that may stand in headers, as an entry of headers.
pub open spec fn header_entry(pair: (Seq<char>, Seq<char>)) -> (Seq<char>, Seq<u8>) {
    (crate::forwarder::headers::lowercase(pair.0), encode_utf8(pair.1))
}

/// The valid ones of the pairs as entries of headers, in their order.
pub open spec fn valid_entries(pairs: Seq<(Seq<char>, Seq<char>)>) -> Seq<(Seq<char>, Seq<u8>)> {
    pairs.filter(|pair: (Seq<char>, Seq<char>)| crate::forwarder::headers::header_valid(pair)).map_values(
        |pair: (Seq<char>, Seq<char>)| header_entry(pair),
    )
}

/// Whether an entry has a name.
pub open spec fn has_name(name: Seq<char>) -> spec_fn((Seq<char>, Seq<u8>)) -> bool {
    |entry: (Seq<char>, Seq<u8>)| entry.0 == name
}

/// The entries with a name, in their order.
pub open spec fn entries_of(
    entries: Seq<(Seq<char>, Seq<u8>)>,
    name: Seq<char>,
) -> Seq<(Seq<char>, Seq<u8>)> {
    entries.filter(has_name(name))
}

proof fn lemma_valid_entries_push(pairs: Seq<(Seq<char>, Seq<char>)>)
    requires
        pairs.len() > 0,
    ensures
        valid_entries(pairs) == (if crate::forwarder::headers::header_valid(pairs.last()) {
            valid_entries(pairs.drop_last()).push(header_entry(pairs.last()))
        } else {
            valid_entries(pairs.drop_last())
        }),
{
    reveal(Seq::filter);
    let rest = pairs.drop_last();
    let valid = |pair: (Seq<char>, Seq<char>)| crate::forwarder::headers::header_valid(pair);
    assert(pairs.filter(valid) =~= (if valid(pairs.last()) {
        rest.filter(valid).push(pairs.last())
    } else {
        rest.filter(valid)
    }));
    if valid(pairs.last()) {
        assert(valid_entries(pairs) =~= valid_entries(rest).push(header_entry(pairs.last())));
    }
}

proof fn lemma_entries_of_nothing(entries: Seq<(Seq<char>, Seq<u8>)>, name: Seq<char>)
    requires
        forall|i: int| 0 <= i < entries.len() ==> (#[trigger] entries[i]).0 != name,
    ensures
        entries_of(entries, name) == Seq::<(Seq<char>, Seq<u8>)>::empty(),
    decreases entries.len(),
{
    reveal(Seq::filter);
    if entries.len() > 0 {
        assert(entries[entries.len() - 1].0 != name);
        lemma_entries_of_nothing(entries.drop_last(), name);
    }
}

proof fn lemma_entries_of_appended(
    entries: Seq<(Seq<char>, Seq<u8>)>,
    added: (Seq<char>, Seq<u8>),
    name: Seq<char>,
)
    ensures
        entries_of(crate::forwarder::headers::appended(entries, added.0, added.1), name) == (
        if added.0 == name {
            entries_of(entries, name).push(added)
        } else {
            entries_of(entries, name)
        }),
{
    reveal(Seq::filter);
    crate::forwarder::headers::lemma_group_end(entries, added.0);
    let end = crate::forwarder::headers::group_end(entries, added.0);
    let at: int = if end == 0 {
        entries.len() as int
    } else {
        end
    };
    let named = has_name(name);
    let before = entries.take(at);
    let after = entries.skip(at);
    let one = seq![added];
    let more = crate::forwarder::headers::appended(entries, added.0, added.1);
    assert(more =~= before + one + after);
    assert(entries =~= before + after);
    Seq::filter_distributes_over_add(before + one, after, named);
    Seq::filter_distributes_over_add(before, one, named);
    Seq::filter_distributes_over_add(before, after, named);
    assert(one.drop_last() =~= Seq::empty());
    assert(one.drop_last().filter(named) =~= Seq::empty());
    if added.0 == name {
        assert forall|i: int| 0 <= i < after.len() implies (#[trigger] after[i]).0 != name by {
            assert(after[i] == entries[at + i]);
        }
        lemma_entries_of_nothing(after, name);
        assert(after.filter(named) == Seq::<(Seq<char>, Seq<u8>)>::empty());
        assert(one.filter(named) =~= one);
        assert(more.filter(named) =~= entries.filter(named).push(added));
    } else {
        assert(one.filter(named) =~= Seq::empty());
        assert(more.filter(named) =~= entries.filter(named));
    }
}

/// Headers that are collected from pairs hold for each name just the values
/// that the valid ones of the pairs have for it, in the order in which they
/// come: no valid pair is lost and none is made up.
pub proof fn law_headers_hold_the_valid_pairs(
    pairs: Seq<(Seq<char>, Seq<char>)>,
    name: Seq<char>,
)
    ensures
        entries_of(crate::forwarder::headers::collected(pairs), name) == entries_of(
            valid_entries(pairs),
            name,
        ),
    decreases pairs.len(),
{
    reveal(Seq::filter);
    if pairs.len() > 0 {
        let rest = pairs.drop_last();
        law_headers_hold_the_valid_pairs(rest, name);
        lemma_valid_entries_push(pairs);
        if crate::forwarder::headers::header_valid(pairs.last()) {
            let added = header_entry(pairs.last());
            lemma_entries_of_appended(crate::forwarder::headers::collected(rest), added, name);
            let more = valid_entries(pairs);
            assert(more.drop_last() =~= valid_entries(rest));
            assert(more.last() == added);
        }
    } else {
        assert(valid_entries(pairs) =~= Seq::empty());
    }
}

proof fn lemma_names_found(pairs: Seq<(Seq<char>, Seq<char>)>, at: int)
    requires
        0 <= at < pairs.len(),
        crate::forwarder::headers::header_valid(pairs[at]),
    ensures
        crate::forwarder::headers::has_name(
            crate::forwarder::headers::first_values(pairs),
            header_entry(pairs[at]).0,
        ),
    decreases pairs.len(),
{
    let rest = pairs.drop_last();
    let before = crate::forwarder::headers::first_values(rest);
    let values = crate::forwarder::headers::first_values(pairs);
    let name = header_entry(pairs[at]).0;
    if at < rest.len() {
        assert(rest[at] == pairs[at]);
        lemma_names_found(rest, at);
    }
    if crate::forwarder::headers::has_name(before, name) {
        let j = choose|j: int| 0 <= j < before.len() && (#[trigger] before[j]).0 == name;
        assert(values[j].0 == name);
    } else {
        assert(values[values.len() - 1].0 == name);
    }
}

proof fn lemma_first_of_name(pairs: Seq<(Seq<char>, Seq<char>)>, at: int)
    requires
        0 <= at < crate::forwarder::headers::first_values(pairs).len(),
    ensures
        is_first_value(
            pairs,
            crate::forwarder::headers::first_values(pairs)[at].0,
            crate::forwarder::headers::first_values(pairs)[at].1,
        ),
    decreases pairs.len(),
{
    let rest = pairs.drop_last();
    let before = crate::forwarder::headers::first_values(rest);
    let values = crate::forwarder::headers::first_values(pairs);
    if at < before.len() {
        lemma_first_of_name(rest, at);
        assert(values[at] == before[at]);
        let i = choose|i: int|
            0 <= i < rest.len() && #[trigger] first_valid(rest, i) && header_entry(rest[i]) == (
                before[at].0,
                before[at].1,
            );
        assert(first_valid(pairs, i)) by {
            assert(rest[i] == pairs[i]);
            assert forall|k: int|
                0 <= k < i && crate::forwarder::headers::header_valid(
                    #[trigger] pairs[k],
                ) implies header_entry(pairs[k]).0 != header_entry(pairs[i]).0 by {
                assert(rest[k] == pairs[k]);
            }
        }
        assert(pairs[i] == rest[i]);
    } else {
        let last = pairs.len() - 1;
        assert(values[at] == header_entry(pairs[last]));
        assert(first_valid(pairs, last)) by {
            assert forall|k: int|
                0 <= k < last && crate::forwarder::headers::header_valid(
                    #[trigger] pairs[k],
                ) implies header_entry(pairs[k]).0 != header_entry(pairs[last]).0 by {
                assert(rest[k] == pairs[k]);
                lemma_names_found(rest, k);
            }
        }
    }
}

proof fn lemma_names_distinct(pairs: Seq<(Seq<char>, Seq<char>)>, i: int, j: int)
    requires
        0 <= i < j < crate::forwarder::headers::first_values(pairs).len(),
    ensures
        crate::forwarder::headers::first_values(pairs)[i].0
            != crate::forwarder::headers::first_values(pairs)[j].0,
    decreases pairs.len(),
{
    let before = crate::forwarder::headers::first_values(pairs.drop_last());
    let values = crate::forwarder::headers::first_values(pairs);
    assert(values[i] == before[i]);
    if j < before.len() {
        lemma_names_distinct(pairs.drop_last(), i, j);
        assert(values[j] == before[j]);
    }
}

/// The first value of each name that a request for an upgrade carries is the
/// value of the first valid pair with that name; no name comes twice, and no
/// name of a valid pair is left out.
pub proof fn law_first_values_come_first(pairs: Seq<(Seq<char>, Seq<char>)>)
    ensures
        ({
            let values = crate::forwarder::headers::first_values(pairs);
            &&& forall|i: int, j: int|
                0 <= i < j < values.len() ==> (#[trigger] values[i]).0 != (#[trigger] values[j]).0
            &&& forall|i: int|
                0 <= i < pairs.len() && crate::forwarder::headers::header_valid(#[trigger] pairs[i])
                    ==> crate::forwarder::headers::has_name(values, header_entry(pairs[i]).0)
            &&& forall|j: int|
                0 <= j < values.len() ==> is_first_value(
                    pairs,
                    (#[trigger] values[j]).0,
                    values[j].1,
                )
        }),
{
    let values = crate::forwarder::headers::first_values(pairs);
    assert forall|i: int, j: int| 0 <= i < j < values.len() implies (#[trigger] values[i]).0 != (
    #[trigger] values[j]).0 by {
        lemma_names_distinct(pairs, i, j);
    }
    assert forall|i: int|
        0 <= i < pairs.len() && crate::forwarder::headers::header_valid(
            #[trigger] pairs[i],
        ) implies crate::forwarder::headers::has_name(values, header_entry(pairs[i]).0) by {
        lemma_names_found(pairs, i);
    }
    assert forall|j: int| 0 <= j < values.len() implies is_first_value(
        pairs,
        (#[trigger] values[j]).0,
        values[j].1,
    ) by {
        lemma_first_of_name(pairs, j);
    }
}

/// Whether the pair at a place is valid, and the first valid one of its name.
pub open spec fn first_valid(pairs: Seq<(Seq<char>, Seq<char>)>, at: int) -> bool {
    &&& crate::forwarder::headers::header_valid(pairs[at])
    &&& forall|k: int|
        0 <= k < at && crate::forwarder::headers::header_valid(#[trigger] pairs[k]) ==> header_entry(
            pairs[k],
        ).0 != header_entry(pairs[at]).0
}

/// Whether a name and a value are those of the first valid pair with the name.
pub open spec fn is_first_value(
    pairs: Seq<(Seq<char>, Seq<char>)>,
    name: Seq<char>,
    value: Seq<u8>,
) -> bool {
    exists|i: int|
        0 <= i < pairs.len() && #[trigger] first_valid(pairs, i) && header_entry(pairs[i]) == (
            name,
            value,
        )
}

/// The header of a response that reaches Edgehog under a name is the last one
/// of that name, as text, and every name of the response is there.
pub proof fn law_last_received_headers_stay(headers: Seq<(String, Vec<u8>)>, at: int)
    requires
        0 <= at < headers.len(),
        forall|later: int| at < later < headers.len() ==> (#[trigger] headers[later]).0@
            != headers[at].0@,
    ensures
        ({
            let map = crate::string_map::pairs_map(
                crate::forwarder::headers::received_headers(headers),
            );
            &&& map.contains_key(headers[at].0@)
            &&& map[headers[at].0@] == crate::forwarder::headers::utf8_lossy(headers[at].1@)
        }),
{
    let received = crate::forwarder::headers::received_headers(headers);
    assert forall|later: int| at < later < received.len() implies (#[trigger] received[later]).0
        != received[at].0 by {
        assert(headers[later].0@ != headers[at].0@);
    }
    crate::string_map::law_later_pairs_win(received, at);
}

/// What the HTTP client of the device is given: the method and the body of the
/// request as they are, the address that was read, and for each name the values
/// that the headers of the request have for it, all of which have to be valid.
pub proof fn law_requests_are_sent_as_they_are(
    request: HttpRequest,
    sent: ClientRequest,
    name: Seq<char>,
)
    requires
        request.builds(Ok(sent)),
    ensures
        sent.method@ == request.method@,
        sent.body@ == request.body@,
        crate::forwarder::headers::url_parsed(request.address("http"@)) == Some(sent.url@),
        entries_of(crate::forwarder::headers::header_entries(sent.headers), name) == entries_of(
            valid_entries(request.header_pairs()),
            name,
        ),
        forall|i: int|
            0 <= i < request.header_pairs().len() ==> crate::forwarder::headers::header_valid(
                #[trigger] request.header_pairs()[i],
            ),
{
    law_headers_hold_the_valid_pairs(request.header_pairs(), name);
}

/// What opens a WebSocket of the device: the method in uppercase, which has to
/// be one of six, and the address that was read.
pub proof fn law_upgrades_are_sent_as_they_are(request: HttpRequest, sent: UpgradeRequest)
    requires
        request.upgrades(Ok(sent)),
    ensures
        sent.method@ == crate::forwarder::headers::uppercase(request.method@),
        set!["GET"@, "DELETE"@, "HEAD"@, "PATCH"@, "POST"@, "PUT"@].contains(sent.method@),
        crate::forwarder::headers::uri_parsed(request.address("ws"@)) == Some(sent.uri@),
        forall|i: int, j: int|
            0 <= i < j < sent.headers@.len() ==> (#[trigger] sent.headers@[i]).0@ != (
            #[trigger] sent.headers@[j]).0@,
        forall|j: int|
            0 <= j < sent.headers@.len() ==> is_first_value(
                request.header_pairs(),
                (#[trigger] sent.headers@[j]).0@,
                sent.headers@[j].1@,
            ),
        forall|i: int|
            0 <= i < request.header_pairs().len() && crate::forwarder::headers::header_valid(
                #[trigger] request.header_pairs()[i],
            ) ==> crate::forwarder::headers::has_name(
                crate::forwarder::headers::byte_pairs(sent.headers@),
                header_entry(request.header_pairs()[i]).0,
            ),
{
    let pairs = request.header_pairs();
    let values = crate::forwarder::headers::first_values(pairs);
    law_first_values_come_first(pairs);
    assert(crate::forwarder::headers::byte_pairs(sent.headers@) == values);
    assert forall|j: int| 0 <= j < sent.headers@.len() implies values[j] == (
        (#[trigger] sent.headers@[j]).0@,
        sent.headers@[j].1@,
    ) by {
        assert(crate::forwarder::headers::byte_pairs(sent.headers@)[j] == values[j]);
    }
    assert forall|i: int, j: int| 0 <= i < j < sent.headers@.len() implies (
    #[trigger] sent.headers@[i]).0@ != (#[trigger] sent.headers@[j]).0@ by {
        assert(values[i].0 != values[j].0);
    }
    assert forall|j: int| 0 <= j < sent.headers@.len() implies is_first_value(
        pairs,
        (#[trigger] sent.headers@[j]).0@,
        sent.headers@[j].1@,
    ) by {
        assert(is_first_value(pairs, values[j].0, values[j].1));
    }
}

/// A request is sent wherever nothing stands against it: its address and its
/// method are valid, so are all its headers, and these are not too many. A
/// request for an upgrade needs a method that opens a WebSocket, and no header
/// stands against it.
pub proof fn law_valid_requests_are_sent(
    request: HttpRequest,
    sent: Result<ClientRequest, ProtoError>,
    opened: Result<UpgradeRequest, ProtoError>,
)
    requires
        request.builds(sent),
        request.upgrades(opened),
        request.header_pairs().len() <= 6554,
    ensures
        sent is Ok <==> {
            &&& crate::forwarder::headers::url_parsed(request.address("http"@)) is Some
            &&& crate::forwarder::headers::method_valid(request.method@)
            &&& forall|i: int|
                0 <= i < request.header_pairs().len() ==> crate::forwarder::headers::header_valid(
                    #[trigger] request.header_pairs()[i],
                )
        },
        opened is Ok <==> {
            &&& crate::forwarder::headers::uri_parsed(request.address("ws"@)) is Some
            &&& set!["GET"@, "DELETE"@, "HEAD"@, "PATCH"@, "POST"@, "PUT"@].contains(
                crate::forwarder::headers::uppercase(request.method@),
            )
        },
{
}

/// Whether a message is the response with the given status code, headers and
/// body, to the request with the given identifier.
pub open spec fn is_response(
    message: ProtoMessage,
    id: Seq<u8>,
    status_code: u16,
    headers: Seq<(String, Vec<u8>)>,
    body: Seq<u8>,
) -> bool {
    match message.protocol {
        Protocol::Http(http) => http.request_id@ == id && match http.http_msg {
            HttpMessage::Response(response) => {
                &&& response.status_code == status_code
                &&& response.body@ == body
                &&& forall|at: int|
                    0 <= at < headers.len() && is_last(headers, at)
                        ==> response.headers@.contains_key((#[trigger] headers[at]).0@)
                        && response.headers@[headers[at].0@]@
                        == crate::forwarder::headers::utf8_lossy(headers[at].1@)
            },
            HttpMessage::Request(_) => false,
        },
        Protocol::WebSocket(_) => false,
    }
}

/// Whether no header behind the one at a place has its name.
pub open spec fn is_last(headers: Seq<(String, Vec<u8>)>, at: int) -> bool {
    forall|later: int| at < later < headers.len() ==> (#[trigger] headers[later]).0@
        != headers[at].0@
}

/// What answers a request carries its identifier and the status code, the
/// headers and the body of the response of the device.
pub proof fn law_answers_carry_the_response(
    message: ProtoMessage,
    id: Seq<u8>,
    status_code: u16,
    headers: Seq<(String, Vec<u8>)>,
    body: Vec<u8>,
)
    requires
        crate::forwarder::connection::answers(message, id, status_code, headers, body),
    ensures
        is_response(message, id, status_code, headers, body@),
{
    if let Protocol::Http(http) = message.protocol {
        if let HttpMessage::Response(response) = http.http_msg {
            assert forall|at: int|
                0 <= at < headers.len() && is_last(
                    headers,
                    at,
                ) implies response.headers@.contains_key((#[trigger] headers[at]).0@)
                && response.headers@[headers[at].0@]@ == crate::forwarder::headers::utf8_lossy(
                headers[at].1@,
            ) by {
                law_last_received_headers_stay(headers, at);
                assert(crate::forwarder::wire::texts_of(response.headers@).contains_key(
                    headers[at].0@,
                ));
            }
        }
    }
}

/// Two keys stand for the same session exactly when they name the same host and
/// the same port.
pub proof fn law_sessions_go_by_host_and_port(one: Key, other: Key)
    ensures
        one@ == other@ <==> one.info.host@ == other.info.host@ && one.info.port == other.info.port,
{
}

} // verus!
