//! A single connection to a service of the device.

use vstd::prelude::*;
use vstd::string::*;

use crate::forwarder::headers::headermap_to_hashmap;
use crate::forwarder::messages::{
    ClientRequest, Http, HttpMessage, HttpRequest, HttpResponse, Id, ProtoError, ProtoMessage,
    Protocol, UpgradeRequest, WebSocketMessage, WsFrame,
};
use crate::text::join;

verus! {

/// What went wrong with a connection.
#[derive(Debug)]
#[non_exhaustive]
pub enum ConnectionError {
    /// A channel to or from the connection is closed.
    Channel,
    /// The HTTP client failed.
    Http,
    /// A message is not valid.
    Protobuf(ProtoError),
    /// The task of the connection failed.
    JoinError,
    /// A message is not of the protocol of the connection.
    WrongProtocol,
    /// The WebSocket failed.
    WebSocket(String),
    /// The connection is not established yet.
    Connecting,
}

impl ConnectionError {
    /// The error as it is shown to people.
    pub open spec fn shown(self) -> Seq<char> {
        match self {
            ConnectionError::Channel => "Channel error."@,
            ConnectionError::Http => "Reqwest error."@,
            ConnectionError::Protobuf(_) => "Protobuf error."@,
            ConnectionError::JoinError => "Failed to Join a task handle."@,
            ConnectionError::WrongProtocol => "Message sent to the wrong protocol"@,
            ConnectionError::WebSocket(reason) =>
                "Error when receiving message on websocket connection, `"@ + reason@ + "`."@,
            ConnectionError::Connecting => "Trying to poll while still connecting."@,
        }
    }

    /// The error as it is shown to people.
    pub fn display(&self) -> (text: String)
        ensures
            text@ == self.shown(),
    {
        match self {
            ConnectionError::Channel => "Channel error.".to_owned(),
            ConnectionError::Http => "Reqwest error.".to_owned(),
            ConnectionError::Protobuf(_) => "Protobuf error.".to_owned(),
            ConnectionError::JoinError => "Failed to Join a task handle.".to_owned(),
            ConnectionError::WrongProtocol => "Message sent to the wrong protocol".to_owned(),
            ConnectionError::WebSocket(reason) => join(
                "Error when receiving message on websocket connection, `",
                reason.as_str(),
            ).concat("`."),
            ConnectionError::Connecting => "Trying to poll while still connecting.".to_owned(),
        }
    }
}

/// What can be written to a connection.
#[derive(Debug, Clone, Copy, PartialEq, Eq)]
pub enum WriteHandle {
    /// Nothing: an HTTP connection is over with its response.
    Http,
    /// WebSocket messages.
    Ws,
}

/// A connection that was opened: the number of the task that handles it, and
/// what can be written to it.
#[derive(Debug, Clone, Copy, PartialEq, Eq)]
pub struct ConnectionHandle {
    pub task: u64,
    pub connection: WriteHandle,
}

impl ConnectionHandle {
    /// The message to hand to the task of the connection.
    pub fn send(&self, msg: Protocol) -> (res: Result<WebSocketMessage, ConnectionError>)
        ensures
            match (self.connection, msg) {
                (WriteHandle::Http, _) => res matches Err(error) && error is Channel,
                (WriteHandle::Ws, Protocol::Http(_)) => res matches Err(error)
                    && error is WrongProtocol,
                (WriteHandle::Ws, Protocol::WebSocket(ws)) => res matches Ok(message) && message
                    == ws.message,
            },
    {
        match self.connection {
            WriteHandle::Http => Err(ConnectionError::Channel),
            WriteHandle::Ws => match msg.into_ws() {
                Some(ws) => Ok(ws.message),
                None => Err(ConnectionError::WrongProtocol),
            },
        }
    }
}

/// What handing a message to another task comes to, given whether that task
/// took it.
pub fn delivered(taken: bool) -> (res: Result<(), ConnectionError>)
    ensures
        match res {
            Ok(_) => taken,
            Err(error) => !taken && error is Channel,
        },
{
    if taken {
        Ok(())
    } else {
        Err(ConnectionError::Channel)
    }
}

/// What is needed to open a connection.
#[derive(Debug)]
pub enum TransportBuilder {
    Http(ClientRequest),
    Ws(UpgradeRequest),
}

impl TransportBuilder {
    /// Whether a request comes to the given connection, or fails: a request for
    /// an upgrade opens a WebSocket, any other one is sent by HTTP.
    pub open spec fn opened_by(
        request: HttpRequest,
        res: Result<(TransportBuilder, WriteHandle), ConnectionError>,
    ) -> bool {
        if request.headers@.contains_key("Upgrade"@) {
            match res {
                Ok((TransportBuilder::Ws(upgrade), WriteHandle::Ws)) => request.upgrades(
                    Ok(upgrade),
                ),
                Err(ConnectionError::Protobuf(error)) => request.upgrades(Err(error)),
                _ => false,
            }
        } else {
            match res {
                Ok((TransportBuilder::Http(client), WriteHandle::Http)) => request.builds(
                    Ok(client),
                ),
                Err(ConnectionError::Protobuf(error)) => request.builds(Err(error)),
                _ => false,
            }
        }
    }

    /// The connection that a request is sent through.
    pub fn with_handle(request: HttpRequest) -> (res: Result<
        (TransportBuilder, WriteHandle),
        ConnectionError,
    >)
        ensures
            Self::opened_by(request, res),
    {
        if request.is_upgrade() {
            match request.upgrade() {
                Ok(upgrade) => Ok((TransportBuilder::Ws(upgrade), WriteHandle::Ws)),
                Err(error) => Err(ConnectionError::Protobuf(error)),
            }
        } else {
            match request.request_builder() {
                Ok(client) => Ok((TransportBuilder::Http(client), WriteHandle::Http)),
                Err(error) => Err(ConnectionError::Protobuf(error)),
            }
        }
    }
}

/// An HTTP connection, which sends its request once.
#[derive(Debug)]
pub struct HttpTransport {
    request: Option<ClientRequest>,
}

impl View for HttpTransport {
    type V = Option<ClientRequest>;

    closed spec fn view(&self) -> Option<ClientRequest> {
        self.request
    }
}

/// Whether a message answers a request with a response of the device.
pub open spec fn answers(
    message: ProtoMessage,
    id: Seq<u8>,
    status_code: u16,
    headers: Seq<(String, Vec<u8>)>,
    body: Vec<u8>,
) -> bool {
    &&& message.protocol matches Protocol::Http(http)
    &&& http.request_id@ == id
    &&& http.http_msg matches HttpMessage::Response(response)
    &&& response.status_code == status_code
    &&& response.body == body
    &&& crate::forwarder::wire::texts_of(response.headers@) == crate::string_map::pairs_map(
        crate::forwarder::headers::received_headers(headers),
    )
}

/// The message that answers a request with a response of the device.
pub fn response_message(
    id: &Id,
    status_code: u16,
    headers: Vec<(String, Vec<u8>)>,
    body: Vec<u8>,
) -> (message: ProtoMessage)
    ensures
        answers(message, id@, status_code, headers@, body),
{
    let headers = headermap_to_hashmap(headers);
    let response = HttpResponse::new(status_code, headers, body);
    ProtoMessage::new(Protocol::Http(Http::new(id.clone(), HttpMessage::Response(response))))
}

impl HttpTransport {
    /// A connection that has not sent its request.
    pub fn new(request: ClientRequest) -> (transport: HttpTransport)
        ensures
            transport@ == Some(request),
    {
        HttpTransport { request: Some(request) }
    }

    /// The request to send next: there is none once the request was sent.
    pub fn next(&mut self) -> (request: Option<ClientRequest>)
        ensures
            request == old(self)@,
            final(self)@ is None,
    {
        self.request.take()
    }
}

/// What the stream of a WebSocket handed out, with its error as that of a
/// connection.
pub fn stream_next(item: Option<Result<WsFrame, String>>) -> (res: Option<
    Result<WsFrame, ConnectionError>,
>)
    ensures
        match (item, res) {
            (Some(Ok(frame)), Some(Ok(same))) => same == frame,
            (Some(Err(reason)), Some(Err(ConnectionError::WebSocket(same)))) => same == reason,
            (None, None) => true,
            _ => false,
        },
{
    match item {
        Some(Ok(frame)) => Some(Ok(frame)),
        Some(Err(reason)) => Some(Err(ConnectionError::WebSocket(reason))),
        None => None,
    }
}

/// The message to forward for what the stream of a WebSocket handed out: there
/// is none once the stream is closed.
pub fn websocket_next(id: &Id, item: Option<Result<WsFrame, String>>) -> (res: Result<
    Option<ProtoMessage>,
    ConnectionError,
>)
    ensures
        match (item, res) {
            (None, Ok(None)) => true,
            (Some(Err(reason)), Err(ConnectionError::WebSocket(same))) => same == reason,
            (
                Some(Ok(WsFrame::Raw)),
                Err(ConnectionError::Protobuf(ProtoError::WrongWsFrame)),
            ) => true,
            (Some(Ok(frame)), Ok(Some(message))) => {
                &&& !(frame is Raw)
                &&& message.protocol matches Protocol::WebSocket(ws)
                &&& ws.socket_id@ == id@
                &&& ws.message@ == crate::forwarder::messages::frame_message(frame)
            },
            _ => false,
        },
{
    match stream_next(item) {
        None => Ok(None),
        Some(Ok(frame)) => match ProtoMessage::try_from_tung(id.clone(), frame) {
            Ok(message) => Ok(Some(message)),
            Err(error) => Err(ConnectionError::Protobuf(error)),
        },
        Some(Err(error)) => Err(error),
    }
}

/// What the task of a connection does after its transport was polled.
#[derive(Debug)]
pub enum TaskStep {
    /// Send the message to Edgehog and poll again.
    Send(ProtoMessage),
    /// End.
    Finish(Result<(), ConnectionError>),
}

/// The next step of the task of a connection, given what its transport handed
/// out.
pub fn task(next: Result<Option<ProtoMessage>, ConnectionError>) -> (step: TaskStep)
    ensures
        step == (match next {
            Ok(Some(message)) => TaskStep::Send(message),
            Ok(None) => TaskStep::Finish(Ok(())),
            Err(error) => TaskStep::Finish(Err(error)),
        }),
{
    match next {
        Ok(Some(message)) => TaskStep::Send(message),
        Ok(None) => TaskStep::Finish(Ok(())),
        Err(error) => TaskStep::Finish(Err(error)),
    }
}

} // verus!
