//! Forwarder messages as the device works with them, and their conversions
//! from and to the messages that travel.

use vstd::prelude::*;
use vstd::string::*;

use crate::forwarder::headers::{
    first_header_values, parse_method, parse_uri, parse_url, try_headermap,
};
use crate::forwarder::wire::{
    decode_message, encode_message, headers_from_wire, headers_to_wire, WireHttpMessage,
    WireHttpMessageView, WireProtocol, WireProtocolView, WireWsMessage, WireWsMessageView,
};
use crate::string_map::StringMap;
use crate::text::{decimal_text, join, same_text};

verus! {

/// What went wrong with a message.
#[derive(Debug)]
#[non_exhaustive]
pub enum ProtoError {
    /// The message could not be encoded.
    Encode,
    /// The bytes are no Protobuf message.
    Decode(prost::DecodeError),
    /// A field that a message needs is missing.
    Empty,
    /// The HTTP client failed.
    Reqwest,
    /// The address is no URL.
    ParseUrl(url::ParseError),
    /// The method is none that HTTP allows.
    InvalidHttpMethod(http::method::InvalidMethod),
    /// A part of the request is none that HTTP allows.
    Http(http::Error),
    /// The headers are no text.
    ParseHeaders,
    /// A number does not fit in 16 bits.
    InvalidPortNumber,
    /// The method is none that opens a WebSocket.
    WrongHttpMethod(String),
    /// The WebSocket could not be opened.
    WebSocketConnect(String),
    /// A WebSocket frame that is not to be forwarded.
    WrongWsFrame,
}

impl ProtoError {
    /// The error as it is shown to people.
    pub open spec fn shown(self) -> Seq<char> {
        match self {
            ProtoError::Encode => "Failed to serialize into Protobuf."@,
            ProtoError::Decode(_) => "Failed to deserialize from Protobuf."@,
            ProtoError::Empty => "Empty fields."@,
            ProtoError::Reqwest => "Reqwest error."@,
            ProtoError::ParseUrl(_) => "Error parsing URL."@,
            ProtoError::InvalidHttpMethod(_) => "Wrong HTTP method field."@,
            ProtoError::Http(_) => "Http error."@,
            ProtoError::ParseHeaders => "Error while parsing Headers."@,
            ProtoError::InvalidPortNumber => "Invalid port number."@,
            ProtoError::WrongHttpMethod(method) => "Wrong HTTP method field, `"@ + method@ + "`."@,
            ProtoError::WebSocketConnect(reason) =>
                "Error performing exponential backoff when trying to connect with TTYD, "@
                + reason@,
            ProtoError::WrongWsFrame => "Received a wrong WebSocket frame."@,
        }
    }

    /// The error as it is shown to people.
    pub fn display(&self) -> (text: String)
        ensures
            text@ == self.shown(),
    {
        match self {
            ProtoError::Encode => "Failed to serialize into Protobuf.".to_owned(),
            ProtoError::Decode(_) => "Failed to deserialize from Protobuf.".to_owned(),
            ProtoError::Empty => "Empty fields.".to_owned(),
            ProtoError::Reqwest => "Reqwest error.".to_owned(),
            ProtoError::ParseUrl(_) => "Error parsing URL.".to_owned(),
            ProtoError::InvalidHttpMethod(_) => "Wrong HTTP method field.".to_owned(),
            ProtoError::Http(_) => "Http error.".to_owned(),
            ProtoError::ParseHeaders => "Error while parsing Headers.".to_owned(),
            ProtoError::InvalidPortNumber => "Invalid port number.".to_owned(),
            ProtoError::WrongHttpMethod(method) => join(
                "Wrong HTTP method field, `",
                method.as_str(),
            ).concat("`."),
            ProtoError::WebSocketConnect(reason) => join(
                "Error performing exponential backoff when trying to connect with TTYD, ",
                reason.as_str(),
            ),
            ProtoError::WrongWsFrame => "Received a wrong WebSocket frame.".to_owned(),
        }
    }
}

/// The identifier of a request or of a WebSocket.
#[derive(Debug, PartialEq, Eq, Hash)]
pub struct Id {
    bytes: Vec<u8>,
}

impl View for Id {
    type V = Seq<u8>;

    closed spec fn view(&self) -> Seq<u8> {
        self.bytes@
    }
}

impl Clone for Id {
    fn clone(&self) -> (copy: Self)
        ensures
            copy@ == self@,
    {
        let bytes = self.bytes.clone();
        assert(bytes@ =~= self.bytes@);
        Id { bytes }
    }
}

/// Bytes in hexadecimal, two lowercase digits for each.
pub open spec fn hex(bytes: Seq<u8>) -> Seq<char> {
    Seq::new(
        2 * bytes.len(),
        |i: int|
            crate::text::hex_digit(
                if i % 2 == 0 {
                    bytes[i / 2] as int / 16
                } else {
                    bytes[i / 2] as int % 16
                },
            ),
    )
}

/// Calls [`hex::encode`], which writes two lowercase digits for each byte.
#[verifier::external_body]
fn hex_text(bytes: &[u8]) -> (text: String)
    ensures
        text@ == hex(bytes@),
{
    hex::encode(bytes)
}

impl Id {
    /// The identifier with the given bytes.
    pub fn new(id: Vec<u8>) -> (res: Id)
        ensures
            res@ == id@,
    {
        Id { bytes: id }
    }

    /// The bytes of the identifier.
    pub fn into_bytes(self) -> (bytes: Vec<u8>)
        ensures
            bytes@ == self@,
    {
        self.bytes
    }

    /// Whether two identifiers hold the same bytes.
    pub fn same(&self, other: &Id) -> (same: bool)
        ensures
            same == (self@ == other@),
    {
        if self.bytes.len() != other.bytes.len() {
            return false;
        }
        let mut i: usize = 0;
        while i < self.bytes.len()
            invariant
                self.bytes.len() == other.bytes.len(),
                i <= self.bytes.len(),
                forall|j: int| 0 <= j < i ==> self.bytes[j] == other.bytes[j],
            decreases self.bytes.len() - i,
        {
            if self.bytes[i] != other.bytes[i] {
                return false;
            }
            i += 1;
        }
        assert(self.bytes@ =~= other.bytes@);
        true
    }

    /// The identifier as it is shown to people.
    pub fn display(&self) -> (text: String)
        ensures
            text@ == hex(self@),
    {
        hex_text(self.bytes.as_slice())
    }

    /// The identifier as it is shown to developers.
    pub fn debug(&self) -> (text: String)
        ensures
            text@ == "Id("@ + hex(self@) + ")"@,
    {
        join("Id(", hex_text(self.bytes.as_slice()).as_str()).concat(")")
    }
}

/// A message between Edgehog and the device.
#[derive(Debug)]
pub struct ProtoMessage {
    pub protocol: Protocol,
}

/// The protocols that are forwarded.
#[derive(Debug)]
pub enum Protocol {
    Http(Http),
    WebSocket(WebSocket),
}

/// An HTTP message.
#[derive(Debug)]
pub struct Http {
    pub request_id: Id,
    pub http_msg: HttpMessage,
}

/// The kinds of HTTP messages.
#[derive(Debug)]
pub enum HttpMessage {
    Request(HttpRequest),
    Response(HttpResponse),
}

/// An HTTP request to a port of the device.
#[derive(Debug)]
pub struct HttpRequest {
    pub path: String,
    pub method: String,
    pub query_string: String,
    pub headers: StringMap<String>,
    pub body: Vec<u8>,
    pub port: u16,
}

/// An HTTP response from the device.
#[derive(Debug)]
pub struct HttpResponse {
    pub status_code: u16,
    pub headers: StringMap<String>,
    pub body: Vec<u8>,
}

/// A WebSocket message.
#[derive(Debug)]
pub struct WebSocket {
    pub socket_id: Id,
    pub message: WebSocketMessage,
}

/// The kinds of WebSocket messages.
#[derive(Debug, PartialEq)]
pub enum WebSocketMessage {
    Text(String),
    Binary(Vec<u8>),
    Ping(Vec<u8>),
    Pong(Vec<u8>),
    Close { code: u16, reason: Option<String> },
}

/// A frame that came from a WebSocket of the device.
#[derive(Debug, PartialEq)]
pub enum WsFrame {
    Text(String),
    Binary(Vec<u8>),
    Ping(Vec<u8>),
    Pong(Vec<u8>),
    /// The code and the reason, where the frame gives them.
    Close(Option<(u16, String)>),
    /// A frame in its raw form.
    Raw,
}

/// A [`Protocol`] as a mathematical value.
#[verifier::ext_equal]
pub enum ProtocolView {
    Http { request_id: Seq<u8>, http_msg: HttpMessageView },
    WebSocket { socket_id: Seq<u8>, message: WebSocketMessageView },
}

/// An [`HttpMessage`] as a mathematical value.
#[verifier::ext_equal]
pub enum HttpMessageView {
    Request {
        path: Seq<char>,
        method: Seq<char>,
        query_string: Seq<char>,
        headers: Map<Seq<char>, Seq<char>>,
        body: Seq<u8>,
        port: u16,
    },
    Response { status_code: u16, headers: Map<Seq<char>, Seq<char>>, body: Seq<u8> },
}

/// A [`WebSocketMessage`] as a mathematical value.
#[verifier::ext_equal]
pub enum WebSocketMessageView {
    Text(Seq<char>),
    Binary(Seq<u8>),
    Ping(Seq<u8>),
    Pong(Seq<u8>),
    Close { code: u16, reason: Option<Seq<char>> },
}

impl View for Protocol {
    type V = ProtocolView;

    open spec fn view(&self) -> ProtocolView {
        match self {
            Protocol::Http(http) => ProtocolView::Http {
                request_id: http.request_id@,
                http_msg: http.http_msg@,
            },
            Protocol::WebSocket(ws) => ProtocolView::WebSocket {
                socket_id: ws.socket_id@,
                message: ws.message@,
            },
        }
    }
}

impl View for HttpMessage {
    type V = HttpMessageView;

    open spec fn view(&self) -> HttpMessageView {
        match self {
            HttpMessage::Request(request) => HttpMessageView::Request {
                path: request.path@,
                method: request.method@,
                query_string: request.query_string@,
                headers: crate::forwarder::wire::texts_of(request.headers@),
                body: request.body@,
                port: request.port,
            },
            HttpMessage::Response(response) => HttpMessageView::Response {
                status_code: response.status_code,
                headers: crate::forwarder::wire::texts_of(response.headers@),
                body: response.body@,
            },
        }
    }
}

impl View for WebSocketMessage {
    type V = WebSocketMessageView;

    open spec fn view(&self) -> WebSocketMessageView {
        match self {
            WebSocketMessage::Text(data) => WebSocketMessageView::Text(data@),
            WebSocketMessage::Binary(data) => WebSocketMessageView::Binary(data@),
            WebSocketMessage::Ping(data) => WebSocketMessageView::Ping(data@),
            WebSocketMessage::Pong(data) => WebSocketMessageView::Pong(data@),
            WebSocketMessage::Close { code, reason: Some(reason) } => WebSocketMessageView::Close {
                code: *code,
                reason: Some(reason@),
            },
            WebSocketMessage::Close { code, reason: None } => WebSocketMessageView::Close {
                code: *code,
                reason: None,
            },
        }
    }
}

/// Why a message that travelled cannot be worked with.
pub enum Malformed {
    Empty,
    InvalidNumber,
}

/// What an HTTP message that travelled stands for: its number has to fit in
/// 16 bits.
pub open spec fn http_from_wire(message: WireHttpMessageView) -> Result<
    HttpMessageView,
    Malformed,
> {
    match message {
        WireHttpMessageView::WireRequest { path, method, query_string, headers, body, port } =>
            if port <= 0xffff {
                Ok(
                    HttpMessageView::Request {
                        path,
                        method,
                        query_string,
                        headers,
                        body,
                        port: port as u16,
                    },
                )
            } else {
                Err(Malformed::InvalidNumber)
            },
        WireHttpMessageView::WireResponse { status_code, headers, body } => if status_code
            <= 0xffff {
            Ok(HttpMessageView::Response { status_code: status_code as u16, headers, body })
        } else {
            Err(Malformed::InvalidNumber)
        },
    }
}

/// What a WebSocket message that travelled stands for: the code of a close has
/// to fit in 16 bits, and an empty reason is none.
pub open spec fn ws_from_wire(message: WireWsMessageView) -> Result<
    WebSocketMessageView,
    Malformed,
> {
    match message {
        WireWsMessageView::WireText(data) => Ok(WebSocketMessageView::Text(data)),
        WireWsMessageView::WireBinary(data) => Ok(WebSocketMessageView::Binary(data)),
        WireWsMessageView::WirePing(data) => Ok(WebSocketMessageView::Ping(data)),
        WireWsMessageView::WirePong(data) => Ok(WebSocketMessageView::Pong(data)),
        WireWsMessageView::WireClose { code, reason } => if code <= 0xffff {
            Ok(
                WebSocketMessageView::Close {
                    code: code as u16,
                    reason: if reason.len() == 0 {
                        None
                    } else {
                        Some(reason)
                    },
                },
            )
        } else {
            Err(Malformed::InvalidNumber)
        },
    }
}

/// What a message that travelled stands for: it needs a protocol and a message,
/// and an HTTP message needs an identifier.
pub open spec fn from_wire(protocol: Option<WireProtocolView>) -> Result<ProtocolView, Malformed> {
    match protocol {
        None => Err(Malformed::Empty),
        Some(WireProtocolView::WireHttp { request_id, message }) => match message {
            Some(message) if request_id.len() > 0 => match http_from_wire(message) {
                Ok(http_msg) => Ok(ProtocolView::Http { request_id, http_msg }),
                Err(error) => Err(error),
            },
            _ => Err(Malformed::Empty),
        },
        Some(WireProtocolView::WireWs { socket_id, message }) => match message {
            Some(message) => match ws_from_wire(message) {
                Ok(message) => Ok(ProtocolView::WebSocket { socket_id, message }),
                Err(error) => Err(error),
            },
            None => Err(Malformed::Empty),
        },
    }
}

/// How a message travels.
pub open spec fn to_wire(protocol: ProtocolView) -> WireProtocolView {
    match protocol {
        ProtocolView::Http { request_id, http_msg } => WireProtocolView::WireHttp {
            request_id,
            message: Some(
                match http_msg {
                    HttpMessageView::Request { path, method, query_string, headers, body, port } =>
                        WireHttpMessageView::WireRequest {
                        path,
                        method,
                        query_string,
                        headers,
                        body,
                        port: port as u32,
                    },
                    HttpMessageView::Response { status_code, headers, body } =>
                        WireHttpMessageView::WireResponse {
                        status_code: status_code as u32,
                        headers,
                        body,
                    },
                },
            ),
        },
        ProtocolView::WebSocket { socket_id, message } => WireProtocolView::WireWs {
            socket_id,
            message: Some(
                match message {
                    WebSocketMessageView::Text(data) => WireWsMessageView::WireText(data),
                    WebSocketMessageView::Binary(data) => WireWsMessageView::WireBinary(data),
                    WebSocketMessageView::Ping(data) => WireWsMessageView::WirePing(data),
                    WebSocketMessageView::Pong(data) => WireWsMessageView::WirePong(data),
                    WebSocketMessageView::Close { code, reason } => WireWsMessageView::WireClose {
                        code: code as u32,
                        reason: match reason {
                            Some(reason) => reason,
                            None => Seq::empty(),
                        },
                    },
                },
            ),
        },
    }
}

/// What a frame that came from a WebSocket of the device, other than a raw
/// one, stands for. A close without a code is a normal one.
pub open spec fn frame_message(frame: WsFrame) -> WebSocketMessageView {
    match frame {
        WsFrame::Text(data) => WebSocketMessageView::Text(data@),
        WsFrame::Binary(data) => WebSocketMessageView::Binary(data@),
        WsFrame::Ping(data) => WebSocketMessageView::Ping(data@),
        WsFrame::Pong(data) => WebSocketMessageView::Pong(data@),
        WsFrame::Close(Some((code, reason))) => WebSocketMessageView::Close {
            code,
            reason: Some(reason@),
        },
        WsFrame::Close(None) => WebSocketMessageView::Close { code: 1000, reason: None },
        WsFrame::Raw => arbitrary(),
    }
}

/// Whether an error says why a message is malformed.
pub open spec fn reports(error: ProtoError, malformed: Malformed) -> bool {
    match malformed {
        Malformed::Empty => error is Empty,
        Malformed::InvalidNumber => error is InvalidPortNumber,
    }
}

/// Narrows a number that travelled in 32 bits.
fn narrow(number: u32) -> (narrowed: Result<u16, ProtoError>)
    ensures
        match narrowed {
            Ok(n) => number <= 0xffff && n == number,
            Err(error) => number > 0xffff && error is InvalidPortNumber,
        },
{
    if number <= 0xffff {
        Ok(number as u16)
    } else {
        Err(ProtoError::InvalidPortNumber)
    }
}

impl HttpMessage {
    /// Reads an HTTP message that travelled.
    pub fn try_from(message: WireHttpMessage) -> (res: Result<HttpMessage, ProtoError>)
        ensures
            match res {
                Ok(m) => http_from_wire(message@) == Ok::<HttpMessageView, Malformed>(m@),
                Err(error) => http_from_wire(message@) matches Err(malformed) && reports(
                    error,
                    malformed,
                ),
            },
    {
        match message {
            WireHttpMessage::WireRequest { path, method, query_string, headers, body, port } => {
                let port: u16 = match narrow(port) {
                    Ok(port) => port,
                    Err(error) => return Err(error),
                };
                let headers = headers_from_wire(headers);
                Ok(
                    HttpMessage::Request(
                        HttpRequest { path, method, query_string, headers, body, port },
                    ),
                )
            },
            WireHttpMessage::WireResponse { status_code, headers, body } => {
                let status_code: u16 = match narrow(status_code) {
                    Ok(status_code) => status_code,
                    Err(error) => return Err(error),
                };
                Ok(
                    HttpMessage::Response(
                        HttpResponse::new(status_code, headers_from_wire(headers), body),
                    ),
                )
            },
        }
    }
}

impl WebSocketMessage {
    /// A text frame.
    pub fn text(data: String) -> (message: WebSocketMessage)
        ensures
            message@ == WebSocketMessageView::Text(data@),
    {
        WebSocketMessage::Text(data)
    }

    /// A binary frame.
    pub fn binary(data: Vec<u8>) -> (message: WebSocketMessage)
        ensures
            message@ == WebSocketMessageView::Binary(data@),
    {
        WebSocketMessage::Binary(data)
    }

    /// A ping frame.
    pub fn ping(data: Vec<u8>) -> (message: WebSocketMessage)
        ensures
            message@ == WebSocketMessageView::Ping(data@),
    {
        WebSocketMessage::Ping(data)
    }

    /// A pong frame.
    pub fn pong(data: Vec<u8>) -> (message: WebSocketMessage)
        ensures
            message@ == WebSocketMessageView::Pong(data@),
    {
        WebSocketMessage::Pong(data)
    }

    /// A close frame.
    pub fn close(code: u16, reason: Option<String>) -> (message: WebSocketMessage)
        ensures
            message@ == (WebSocketMessageView::Close {
                code,
                reason: match reason {
                    Some(reason) => Some(reason@),
                    None => None,
                },
            }),
    {
        WebSocketMessage::Close { code, reason }
    }

    /// Reads a WebSocket message that travelled.
    pub fn try_from(message: WireWsMessage) -> (res: Result<WebSocketMessage, ProtoError>)
        ensures
            match res {
                Ok(m) => ws_from_wire(message@) == Ok::<WebSocketMessageView, Malformed>(m@),
                Err(error) => ws_from_wire(message@) matches Err(malformed) && reports(
                    error,
                    malformed,
                ),
            },
    {
        match message {
            WireWsMessage::WireText(data) => Ok(WebSocketMessage::text(data)),
            WireWsMessage::WireBinary(data) => Ok(WebSocketMessage::binary(data)),
            WireWsMessage::WirePing(data) => Ok(WebSocketMessage::ping(data)),
            WireWsMessage::WirePong(data) => Ok(WebSocketMessage::pong(data)),
            WireWsMessage::WireClose { code, reason } => {
                let code: u16 = match narrow(code) {
                    Ok(code) => code,
                    Err(error) => return Err(error),
                };
                let reason = if reason.as_str().is_empty() {
                    None
                } else {
                    Some(reason)
                };
                Ok(WebSocketMessage::close(code, reason))
            },
        }
    }

    /// Reads a frame that came from a WebSocket of the device.
    pub fn try_from_frame(frame: WsFrame) -> (res: Result<WebSocketMessage, ProtoError>)
        ensures
            match res {
                Ok(m) => !(frame is Raw) && m@ == frame_message(frame),
                Err(error) => frame is Raw && error is WrongWsFrame,
            },
    {
        match frame {
            WsFrame::Text(data) => Ok(WebSocketMessage::text(data)),
            WsFrame::Binary(data) => Ok(WebSocketMessage::binary(data)),
            WsFrame::Ping(data) => Ok(WebSocketMessage::ping(data)),
            WsFrame::Pong(data) => Ok(WebSocketMessage::pong(data)),
            WsFrame::Close(Some((code, reason))) => Ok(WebSocketMessage::close(code, Some(reason))),
            WsFrame::Close(None) => Ok(WebSocketMessage::close(1000, None)),
            WsFrame::Raw => Err(ProtoError::WrongWsFrame),
        }
    }
}

impl Protocol {
    /// Reads the message of one of the protocols that travelled.
    pub fn try_from(protocol: WireProtocol) -> (res: Result<Protocol, ProtoError>)
        ensures
            match res {
                Ok(p) => from_wire(Some(protocol@)) == Ok::<ProtocolView, Malformed>(p@),
                Err(error) => from_wire(Some(protocol@)) matches Err(malformed) && reports(
                    error,
                    malformed,
                ),
            },
    {
        match protocol {
            WireProtocol::WireHttp { request_id, message } => match message {
                Some(message) => {
                    if request_id.len() == 0 {
                        return Err(ProtoError::Empty);
                    }
                    match HttpMessage::try_from(message) {
                        Ok(http_msg) => Ok(
                            Protocol::Http(Http::new(Id::new(request_id), http_msg)),
                        ),
                        Err(error) => Err(error),
                    }
                },
                None => Err(ProtoError::Empty),
            },
            WireProtocol::WireWs { socket_id, message } => match message {
                Some(message) => match WebSocketMessage::try_from(message) {
                    Ok(message) => Ok(
                        Protocol::WebSocket(WebSocket { socket_id: Id::new(socket_id), message }),
                    ),
                    Err(error) => Err(error),
                },
                None => Err(ProtoError::Empty),
            },
        }
    }

    /// The message as it travels.
    pub fn into_wire(self) -> (protocol: WireProtocol)
        ensures
            protocol@ == to_wire(self@),
    {
        match self {
            Protocol::Http(http) => WireProtocol::WireHttp {
                request_id: http.request_id.into_bytes(),
                message: Some(
                    match http.http_msg {
                        HttpMessage::Request(request) => WireHttpMessage::WireRequest {
                            path: request.path,
                            method: request.method,
                            query_string: request.query_string,
                            headers: headers_to_wire(request.headers),
                            body: request.body,
                            port: request.port as u32,
                        },
                        HttpMessage::Response(response) => WireHttpMessage::WireResponse {
                            status_code: response.status_code as u32,
                            headers: headers_to_wire(response.headers),
                            body: response.body,
                        },
                    },
                ),
            },
            Protocol::WebSocket(ws) => WireProtocol::WireWs {
                socket_id: ws.socket_id.into_bytes(),
                message: Some(
                    match ws.message {
                        WebSocketMessage::Text(data) => WireWsMessage::WireText(data),
                        WebSocketMessage::Binary(data) => WireWsMessage::WireBinary(data),
                        WebSocketMessage::Ping(data) => WireWsMessage::WirePing(data),
                        WebSocketMessage::Pong(data) => WireWsMessage::WirePong(data),
                        WebSocketMessage::Close { code, reason } => WireWsMessage::WireClose {
                            code: code as u32,
                            reason: match reason {
                                Some(reason) => reason,
                                None => String::new(),
                            },
                        },
                    },
                ),
            },
        }
    }

    /// The WebSocket message, where the protocol is that of WebSockets.
    pub fn into_ws(self) -> (ws: Option<WebSocket>)
        ensures
            ws == (match self {
                Protocol::Http(_) => None,
                Protocol::WebSocket(ws) => Some(ws),
            }),
    {
        match self {
            Protocol::Http(_) => None,
            Protocol::WebSocket(ws) => Some(ws),
        }
    }
}

impl ProtoMessage {
    /// The message of one of the protocols.
    pub fn new(protocol: Protocol) -> (message: ProtoMessage)
        ensures
            message.protocol == protocol,
    {
        ProtoMessage { protocol }
    }

    /// Reads a message that travelled.
    pub fn try_from(protocol: Option<WireProtocol>) -> (res: Result<ProtoMessage, ProtoError>)
        ensures
            ({
                let wire = match protocol {
                    Some(p) => Some(p@),
                    None => None,
                };
                match res {
                    Ok(m) => from_wire(wire) == Ok::<ProtocolView, Malformed>(m.protocol@),
                    Err(error) => from_wire(wire) matches Err(malformed) && reports(
                        error,
                        malformed,
                    ),
                }
            }),
    {
        match protocol {
            Some(protocol) => match Protocol::try_from(protocol) {
                Ok(protocol) => Ok(ProtoMessage::new(protocol)),
                Err(error) => Err(error),
            },
            None => Err(ProtoError::Empty),
        }
    }

    /// Reads a message from its bytes.
    pub fn decode(bytes: &[u8]) -> (res: Result<ProtoMessage, ProtoError>)
        ensures
            match (crate::forwarder::wire::message_decoded(bytes@), res) {
                (Some(wire), Ok(m)) => from_wire(wire) == Ok::<ProtocolView, Malformed>(
                    m.protocol@,
                ),
                (Some(wire), Err(error)) => from_wire(wire) matches Err(malformed) && reports(
                    error,
                    malformed,
                ),
                (None, Err(error)) => error is Decode,
                (None, Ok(_)) => false,
            },
    {
        match decode_message(bytes) {
            Ok(protocol) => ProtoMessage::try_from(protocol),
            Err(error) => Err(ProtoError::Decode(error)),
        }
    }

    /// The bytes of the message.
    pub fn encode(self) -> (res: Result<Vec<u8>, ProtoError>)
        ensures
            match res {
                Ok(bytes) => crate::forwarder::wire::message_decoded(bytes@) == Some(
                    Some(to_wire(self.protocol@)),
                ),
                Err(_) => false,
            },
    {
        Ok(encode_message(self.protocol.into_wire()))
    }

    /// The message that forwards a frame of a WebSocket of the device.
    pub fn try_from_tung(socket_id: Id, frame: WsFrame) -> (res: Result<ProtoMessage, ProtoError>)
        ensures
            match res {
                Ok(m) => {
                    &&& !(frame is Raw)
                    &&& m.protocol matches Protocol::WebSocket(ws)
                    &&& ws.socket_id == socket_id
                    &&& ws.message@ == frame_message(frame)
                },
                Err(error) => frame is Raw && error is WrongWsFrame,
            },
    {
        match WebSocketMessage::try_from_frame(frame) {
            Ok(message) => Ok(
                ProtoMessage::new(Protocol::WebSocket(WebSocket { socket_id, message })),
            ),
            Err(error) => Err(error),
        }
    }
}

impl Http {
    /// An HTTP message with its identifier.
    pub fn new(request_id: Id, http_msg: HttpMessage) -> (http: Http)
        ensures
            http.request_id == request_id,
            http.http_msg == http_msg,
    {
        Http { request_id, http_msg }
    }
}

impl HttpResponse {
    /// An HTTP response.
    pub fn new(status_code: u16, headers: StringMap<String>, body: Vec<u8>) -> (response:
        HttpResponse)
        ensures
            response.status_code == status_code,
            response.headers == headers,
            response.body == body,
    {
        HttpResponse { status_code, headers, body }
    }

    /// The status code of the response.
    pub fn status(&self) -> (status: u16)
        ensures
            status == self.status_code,
    {
        self.status_code
    }
}

/// A request that the HTTP client of the device can send.
#[derive(Debug)]
pub struct ClientRequest {
    pub method: String,
    pub url: String,
    pub headers: http::HeaderMap<http::HeaderValue>,
    pub body: Vec<u8>,
}

/// A request that opens a WebSocket of the device.
#[derive(Debug)]
pub struct UpgradeRequest {
    pub method: String,
    pub uri: String,
    pub headers: Vec<(String, Vec<u8>)>,
}

/// The address of a service of the device.
pub open spec fn local_address(
    scheme: Seq<char>,
    port: u16,
    path: Seq<char>,
    query_string: Seq<char>,
) -> Seq<char> {
    scheme + "://localhost:"@ + crate::text::decimal(port as nat) + "/"@ + path + "?"@
        + query_string
}

/// Whether a method, in uppercase, may open a WebSocket.
pub open spec fn opens_socket(method: Seq<char>) -> bool {
    method == "GET"@ || method == "DELETE"@ || method == "HEAD"@ || method == "PATCH"@ || method
        == "POST"@ || method == "PUT"@
}

impl HttpRequest {
    /// The headers of the request as pairs of texts.
    pub open spec fn header_pairs(self) -> Seq<(Seq<char>, Seq<char>)> {
        crate::forwarder::headers::text_pairs(self.headers.pairs())
    }

    /// The address that the request goes to.
    pub open spec fn address(self, scheme: Seq<char>) -> Seq<char> {
        local_address(scheme, self.port, self.path@, self.query_string@)
    }

    /// Whether the request comes to the given request for the HTTP client of
    /// the device, or fails, once the address is read.
    pub open spec fn sent_to(self, url: Seq<char>, res: Result<ClientRequest, ProtoError>) -> bool {
        match res {
            Ok(request) => {
                &&& request.method@ == self.method@
                &&& request.url@ == url
                &&& crate::forwarder::headers::header_entries(request.headers)
                    == crate::forwarder::headers::collected(self.header_pairs())
                &&& request.body == self.body
                &&& crate::forwarder::headers::all_valid(self.header_pairs())
                &&& crate::forwarder::headers::method_valid(self.method@)
            },
            Err(ProtoError::Http(_)) => {
                ||| !crate::forwarder::headers::all_valid(self.header_pairs())
                ||| self.header_pairs().len() > crate::forwarder::headers::MAX_HEADERS
            },
            Err(ProtoError::InvalidHttpMethod(_)) => {
                &&& crate::forwarder::headers::all_valid(self.header_pairs())
                &&& !crate::forwarder::headers::method_valid(self.method@)
            },
            Err(_) => false,
        }
    }

    /// Whether the request comes to the given request for the HTTP client of
    /// the device, or fails.
    pub open spec fn builds(self, res: Result<ClientRequest, ProtoError>) -> bool {
        match crate::forwarder::headers::url_parsed(self.address("http"@)) {
            Some(url) => self.sent_to(url, res),
            None => res matches Err(error) && error is ParseUrl,
        }
    }

    /// Whether the request comes to the given request that opens a WebSocket of
    /// the device, or fails, once the address is read.
    pub open spec fn upgrades_to(
        self,
        uri: Option<Seq<char>>,
        res: Result<UpgradeRequest, ProtoError>,
    ) -> bool {
        let method = crate::forwarder::headers::uppercase(self.method@);
        match res {
            Ok(request) => {
                &&& opens_socket(method)
                &&& request.method@ == method
                &&& uri == Some(request.uri@)
                &&& crate::forwarder::headers::byte_pairs(request.headers@)
                    == crate::forwarder::headers::first_values(self.header_pairs())
            },
            Err(ProtoError::WrongHttpMethod(wrong)) => !opens_socket(method) && wrong@ == method,
            Err(ProtoError::Http(_)) => {
                &&& opens_socket(method)
                &&& uri is None || self.header_pairs().len()
                    > crate::forwarder::headers::MAX_HEADERS
            },
            Err(_) => false,
        }
    }

    /// Whether the request comes to the given request that opens a WebSocket of
    /// the device, or fails.
    pub open spec fn upgrades(self, res: Result<UpgradeRequest, ProtoError>) -> bool {
        self.upgrades_to(crate::forwarder::headers::uri_parsed(self.address("ws"@)), res)
    }

    fn address_text(&self, scheme: &str) -> (text: String)
        ensures
            text@ == self.address(scheme@),
    {
        join(scheme, "://localhost:").concat(decimal_text(self.port as u64).as_str()).concat(
            "/",
        ).concat(self.path.as_str()).concat("?").concat(self.query_string.as_str())
    }

    /// The request for the HTTP client of the device, given the address it goes
    /// to.
    pub fn client_request(self, url: String) -> (res: Result<ClientRequest, ProtoError>)
        ensures
            self.sent_to(url@, res),
    {
        let headers = match try_headermap(&self.headers) {
            Ok(headers) => headers,
            Err(error) => return Err(ProtoError::Http(error)),
        };
        let method = match parse_method(self.method.as_str()) {
            Ok(method) => method,
            Err(error) => return Err(ProtoError::InvalidHttpMethod(error)),
        };
        Ok(ClientRequest { method, url, headers, body: self.body })
    }

    /// The request for the HTTP client of the device.
    pub fn request_builder(self) -> (res: Result<ClientRequest, ProtoError>)
        ensures
            self.builds(res),
    {
        let url = match parse_url(self.address_text("http").as_str()) {
            Ok(url) => url,
            Err(error) => return Err(ProtoError::ParseUrl(error)),
        };
        self.client_request(url)
    }

    /// Whether the request asks for an upgrade to another protocol.
    pub fn is_upgrade(&self) -> (upgrade: bool)
        ensures
            upgrade == self.headers@.contains_key("Upgrade"@),
    {
        self.headers.contains_key("Upgrade")
    }

    /// The method of the request in uppercase, where it may open a WebSocket.
    fn upgrade_method(&self) -> (res: Result<String, ProtoError>)
        ensures
            match res {
                Ok(method) => method@ == crate::forwarder::headers::uppercase(self.method@)
                    && opens_socket(method@),
                Err(ProtoError::WrongHttpMethod(method)) => method@
                    == crate::forwarder::headers::uppercase(self.method@) && !opens_socket(method@),
                Err(_) => false,
            },
    {
        let method = self.method.as_str().to_ascii_uppercase();
        let name = method.as_str();
        if same_text(name, "GET") || same_text(name, "DELETE") || same_text(name, "HEAD")
            || same_text(name, "PATCH") || same_text(name, "POST") || same_text(name, "PUT") {
            Ok(method)
        } else {
            Err(ProtoError::WrongHttpMethod(method))
        }
    }

    /// The request that opens a WebSocket of the device, given the address it
    /// goes to. Headers that are not valid are left out, and of several values
    /// of a header the first stays.
    pub fn upgrade_request(self, uri: Result<String, http::Error>) -> (res: Result<
        UpgradeRequest,
        ProtoError,
    >)
        ensures
            self.upgrades_to(
                match uri {
                    Ok(uri) => Some(uri@),
                    Err(_) => None,
                },
                res,
            ),
    {
        let method = match self.upgrade_method() {
            Ok(method) => method,
            Err(error) => return Err(error),
        };
        let headers = match first_header_values(&self.headers) {
            Ok(headers) => headers,
            Err(error) => return Err(ProtoError::Http(error)),
        };
        match uri {
            Ok(uri) => Ok(UpgradeRequest { method, uri, headers }),
            Err(error) => Err(ProtoError::Http(error)),
        }
    }

    /// The request that opens a WebSocket of the device.
    pub fn upgrade(self) -> (res: Result<UpgradeRequest, ProtoError>)
        ensures
            self.upgrades(res),
    {
        let uri = parse_uri(self.address_text("ws").as_str());
        self.upgrade_request(uri)
    }
}

/// A message comes back from the bytes it was encoded to, but for an HTTP
/// message without an identifier, which is refused, and a close with an empty
/// reason, which comes back without one.
pub proof fn law_messages_come_back(protocol: ProtocolView, bytes: Seq<u8>)
    requires
        crate::forwarder::wire::message_decoded(bytes) == Some(Some(to_wire(protocol))),
    ensures
        crate::forwarder::wire::message_decoded(bytes) matches Some(wire) && from_wire(wire) == (
        match protocol {
            ProtocolView::Http { request_id, .. } if request_id.len() == 0 => Err(Malformed::Empty),
            ProtocolView::WebSocket {
                socket_id,
                message: WebSocketMessageView::Close { code, reason: Some(reason) },
            } if reason.len() == 0 => Ok(
                ProtocolView::WebSocket {
                    socket_id,
                    message: WebSocketMessageView::Close { code, reason: None },
                },
            ),
            _ => Ok(protocol),
        }),
{
}

/// A message that travelled and could be read travels on unchanged.
pub proof fn law_messages_travel_on(wire: WireProtocolView, protocol: ProtocolView)
    requires
        from_wire(Some(wire)) == Ok::<ProtocolView, Malformed>(protocol),
    ensures
        to_wire(protocol) == wire,
{
}

} // verus!
