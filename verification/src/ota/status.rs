//! The states of an update, the errors that end it, and the events that report
//! both to Astarte.

use vstd::prelude::*;

use crate::text::join;
use crate::uuids::uuid_text;

verus! {

/// The interface on which update events are published.
pub const OTA_RESPONSE_INTERFACE: &'static str = "io.edgehog.devicemanager.OTAResponse";

/// The path on which update events are published.
pub const OTA_RESPONSE_PATH: &'static str = "/response";

/// Why an update failed.
#[derive(Debug, PartialEq)]
pub enum OtaError {
    Request(&'static str),
    UpdateAlreadyInProgress,
    Network(String),
    IO(String),
    Internal(&'static str),
    InvalidBaseImage(String),
    SystemRollback(&'static str),
    Cancelled,
}

/// A request to update the device: its identifier and where the image is.
#[derive(Debug, PartialEq)]
pub struct OtaRequest {
    pub uuid: u128,
    pub url: String,
}

/// How far an update has come.
#[derive(Debug, PartialEq)]
pub enum OtaStatus {
    Idle,
    Init,
    NoPendingOta,
    Acknowledged(OtaRequest),
    Downloading(OtaRequest, i32),
    Deploying(OtaRequest),
    Deployed(OtaRequest),
    Rebooting(OtaRequest),
    Rebooted,
    Success(OtaRequest),
    Error(OtaError, OtaRequest),
    Failure(OtaError, Option<OtaRequest>),
}

/// What survives the reboot that an update needs: the request and the slot
/// that was booted before it.
#[derive(Debug, PartialEq)]
pub struct PersistentState {
    pub uuid: u128,
    pub slot: String,
}

/// An update event as it is published.
#[allow(non_snake_case)]
#[derive(Debug, PartialEq)]
pub struct OtaEvent {
    pub requestUUID: String,
    pub status: String,
    pub statusProgress: i32,
    pub statusCode: String,
    pub message: String,
}

/// The code and the message that an error is published with.
#[derive(Debug, PartialEq)]
pub struct OtaStatusMessage {
    pub status_code: String,
    pub message: String,
}

/// What Astarte asks to be done with an update.
#[derive(Debug, PartialEq)]
pub enum OtaOperation {
    Cancel,
    Update,
}

/// An [`OtaError`] as a mathematical value.
#[verifier::ext_equal]
pub enum OtaErrorView {
    Request(Seq<char>),
    UpdateAlreadyInProgress,
    Network(Seq<char>),
    IO(Seq<char>),
    Internal(Seq<char>),
    InvalidBaseImage(Seq<char>),
    SystemRollback(Seq<char>),
    Cancelled,
}

/// An [`OtaRequest`] as a mathematical value.
#[verifier::ext_equal]
pub struct OtaRequestView {
    pub uuid: u128,
    pub url: Seq<char>,
}

/// An [`OtaStatus`] as a mathematical value.
#[verifier::ext_equal]
pub enum OtaStatusView {
    Idle,
    Init,
    NoPendingOta,
    Acknowledged(OtaRequestView),
    Downloading(OtaRequestView, i32),
    Deploying(OtaRequestView),
    Deployed(OtaRequestView),
    Rebooting(OtaRequestView),
    Rebooted,
    Success(OtaRequestView),
    Error(OtaErrorView, OtaRequestView),
    Failure(OtaErrorView, Option<OtaRequestView>),
}

/// A [`PersistentState`] as a mathematical value.
#[verifier::ext_equal]
pub struct PersistentStateView {
    pub uuid: u128,
    pub slot: Seq<char>,
}

/// An [`OtaEvent`] as a mathematical value.
#[allow(non_snake_case)]
#[verifier::ext_equal]
pub struct OtaEventView {
    pub requestUUID: Seq<char>,
    pub status: Seq<char>,
    pub statusProgress: i32,
    pub statusCode: Seq<char>,
    pub message: Seq<char>,
}

impl View for OtaError {
    type V = OtaErrorView;

    open spec fn view(&self) -> OtaErrorView {
        match self {
            OtaError::Request(m) => OtaErrorView::Request(m@),
            OtaError::UpdateAlreadyInProgress => OtaErrorView::UpdateAlreadyInProgress,
            OtaError::Network(m) => OtaErrorView::Network(m@),
            OtaError::IO(m) => OtaErrorView::IO(m@),
            OtaError::Internal(m) => OtaErrorView::Internal(m@),
            OtaError::InvalidBaseImage(m) => OtaErrorView::InvalidBaseImage(m@),
            OtaError::SystemRollback(m) => OtaErrorView::SystemRollback(m@),
            OtaError::Cancelled => OtaErrorView::Cancelled,
        }
    }
}

impl View for OtaRequest {
    type V = OtaRequestView;

    open spec fn view(&self) -> OtaRequestView {
        OtaRequestView { uuid: self.uuid, url: self.url@ }
    }
}

/// The mathematical value of a request that may be absent.
pub open spec fn optional_request(request: Option<OtaRequest>) -> Option<OtaRequestView> {
    match request {
        Some(r) => Some(r@),
        None => None,
    }
}

impl View for OtaStatus {
    type V = OtaStatusView;

    open spec fn view(&self) -> OtaStatusView {
        match self {
            OtaStatus::Idle => OtaStatusView::Idle,
            OtaStatus::Init => OtaStatusView::Init,
            OtaStatus::NoPendingOta => OtaStatusView::NoPendingOta,
            OtaStatus::Acknowledged(r) => OtaStatusView::Acknowledged(r@),
            OtaStatus::Downloading(r, p) => OtaStatusView::Downloading(r@, *p),
            OtaStatus::Deploying(r) => OtaStatusView::Deploying(r@),
            OtaStatus::Deployed(r) => OtaStatusView::Deployed(r@),
            OtaStatus::Rebooting(r) => OtaStatusView::Rebooting(r@),
            OtaStatus::Rebooted => OtaStatusView::Rebooted,
            OtaStatus::Success(r) => OtaStatusView::Success(r@),
            OtaStatus::Error(e, r) => OtaStatusView::Error(e@, r@),
            OtaStatus::Failure(e, r) => OtaStatusView::Failure(e@, optional_request(*r)),
        }
    }
}

impl View for PersistentState {
    type V = PersistentStateView;

    open spec fn view(&self) -> PersistentStateView {
        PersistentStateView { uuid: self.uuid, slot: self.slot@ }
    }
}

impl View for OtaEvent {
    type V = OtaEventView;

    open spec fn view(&self) -> OtaEventView {
        OtaEventView {
            requestUUID: self.requestUUID@,
            status: self.status@,
            statusProgress: self.statusProgress,
            statusCode: self.statusCode@,
            message: self.message@,
        }
    }
}

impl Clone for OtaError {
    fn clone(&self) -> (copy: Self)
        ensures
            copy == *self,
    {
        match self {
            OtaError::Request(m) => OtaError::Request(m),
            OtaError::UpdateAlreadyInProgress => OtaError::UpdateAlreadyInProgress,
            OtaError::Network(m) => OtaError::Network(m.clone()),
            OtaError::IO(m) => OtaError::IO(m.clone()),
            OtaError::Internal(m) => OtaError::Internal(m),
            OtaError::InvalidBaseImage(m) => OtaError::InvalidBaseImage(m.clone()),
            OtaError::SystemRollback(m) => OtaError::SystemRollback(m),
            OtaError::Cancelled => OtaError::Cancelled,
        }
    }
}

impl Clone for OtaRequest {
    fn clone(&self) -> (copy: Self)
        ensures
            copy == *self,
    {
        OtaRequest { uuid: self.uuid, url: self.url.clone() }
    }
}

impl Clone for OtaStatus {
    fn clone(&self) -> (copy: Self)
        ensures
            copy == *self,
    {
        match self {
            OtaStatus::Idle => OtaStatus::Idle,
            OtaStatus::Init => OtaStatus::Init,
            OtaStatus::NoPendingOta => OtaStatus::NoPendingOta,
            OtaStatus::Acknowledged(r) => OtaStatus::Acknowledged(r.clone()),
            OtaStatus::Downloading(r, p) => OtaStatus::Downloading(r.clone(), *p),
            OtaStatus::Deploying(r) => OtaStatus::Deploying(r.clone()),
            OtaStatus::Deployed(r) => OtaStatus::Deployed(r.clone()),
            OtaStatus::Rebooting(r) => OtaStatus::Rebooting(r.clone()),
            OtaStatus::Rebooted => OtaStatus::Rebooted,
            OtaStatus::Success(r) => OtaStatus::Success(r.clone()),
            OtaStatus::Error(e, r) => OtaStatus::Error(e.clone(), r.clone()),
            OtaStatus::Failure(e, Some(r)) => OtaStatus::Failure(e.clone(), Some(r.clone())),
            OtaStatus::Failure(e, None) => OtaStatus::Failure(e.clone(), None),
        }
    }
}

impl OtaErrorView {
    /// The code that the error is published with.
    pub open spec fn code(self) -> Seq<char> {
        match self {
            OtaErrorView::Request(_) => "RequestError"@,
            OtaErrorView::UpdateAlreadyInProgress => "UpdateAlreadyInProgress"@,
            OtaErrorView::Network(_) => "NetworkError"@,
            OtaErrorView::IO(_) => "IOError"@,
            OtaErrorView::Internal(_) => "InternalError"@,
            OtaErrorView::InvalidBaseImage(_) => "InvalidBaseImage"@,
            OtaErrorView::SystemRollback(_) => "SystemRollback"@,
            OtaErrorView::Cancelled => "Cancelled"@,
        }
    }

    /// The message that the error carries, empty where it carries none.
    pub open spec fn message(self) -> Seq<char> {
        match self {
            OtaErrorView::Request(m) => m,
            OtaErrorView::UpdateAlreadyInProgress => Seq::empty(),
            OtaErrorView::Network(m) => m,
            OtaErrorView::IO(m) => m,
            OtaErrorView::Internal(m) => m,
            OtaErrorView::InvalidBaseImage(m) => m,
            OtaErrorView::SystemRollback(m) => m,
            OtaErrorView::Cancelled => Seq::empty(),
        }
    }

    /// The error as it is shown to people.
    pub open spec fn shown(self) -> Seq<char> {
        match self {
            OtaErrorView::Request(m) => "InvalidRequestError: "@ + m,
            OtaErrorView::UpdateAlreadyInProgress => "UpdateAlreadyInProgress"@,
            OtaErrorView::Network(m) => "NetworkError: "@ + m,
            OtaErrorView::IO(m) => "IOError: "@ + m,
            OtaErrorView::Internal(m) => "InternalError: "@ + m,
            OtaErrorView::InvalidBaseImage(m) => "InvalidBaseImage: "@ + m,
            OtaErrorView::SystemRollback(m) => "SystemRollback: "@ + m,
            OtaErrorView::Cancelled => "Cancelled"@,
        }
    }
}

impl OtaError {
    /// The error as it is shown to people.
    pub fn display(&self) -> (text: String)
        ensures
            text@ == self@.shown(),
    {
        match self {
            OtaError::Request(m) => join("InvalidRequestError: ", m),
            OtaError::UpdateAlreadyInProgress => "UpdateAlreadyInProgress".to_owned(),
            OtaError::Network(m) => join("NetworkError: ", m.as_str()),
            OtaError::IO(m) => join("IOError: ", m.as_str()),
            OtaError::Internal(m) => join("InternalError: ", m),
            OtaError::InvalidBaseImage(m) => join("InvalidBaseImage: ", m.as_str()),
            OtaError::SystemRollback(m) => join("SystemRollback: ", m),
            OtaError::Cancelled => "Cancelled".to_owned(),
        }
    }
}

impl OtaStatusView {
    /// The request that the status is about.
    pub open spec fn request(self) -> Option<OtaRequestView> {
        match self {
            OtaStatusView::Acknowledged(r) => Some(r),
            OtaStatusView::Downloading(r, _) => Some(r),
            OtaStatusView::Deploying(r) => Some(r),
            OtaStatusView::Deployed(r) => Some(r),
            OtaStatusView::Rebooting(r) => Some(r),
            OtaStatusView::Success(r) => Some(r),
            OtaStatusView::Error(_, r) => Some(r),
            OtaStatusView::Failure(_, r) => r,
            _ => None,
        }
    }

    /// The error that the status reports.
    pub open spec fn error(self) -> Option<OtaErrorView> {
        match self {
            OtaStatusView::Error(e, _) => Some(e),
            OtaStatusView::Failure(e, _) => Some(e),
            _ => None,
        }
    }

    /// The name that the status is published under, empty where it is not
    /// published.
    pub open spec fn name(self) -> Seq<char> {
        match self {
            OtaStatusView::Acknowledged(_) => "Acknowledged"@,
            OtaStatusView::Downloading(_, _) => "Downloading"@,
            OtaStatusView::Deploying(_) => "Deploying"@,
            OtaStatusView::Deployed(_) => "Deployed"@,
            OtaStatusView::Rebooting(_) => "Rebooting"@,
            OtaStatusView::Success(_) => "Success"@,
            OtaStatusView::Error(_, _) => "Error"@,
            OtaStatusView::Failure(_, _) => "Failure"@,
            _ => Seq::empty(),
        }
    }

    /// The progress that the status is published with.
    pub open spec fn progress(self) -> i32 {
        match self {
            OtaStatusView::Downloading(_, p) => p,
            _ => 0,
        }
    }

    /// The event that reports the status.
    pub open spec fn event(self) -> OtaEventView {
        OtaEventView {
            requestUUID: match self.request() {
                Some(r) => crate::uuids::uuid_hyphenated(r.uuid),
                None => Seq::empty(),
            },
            status: self.name(),
            statusProgress: self.progress(),
            statusCode: match self.error() {
                Some(e) => e.code(),
                None => Seq::empty(),
            },
            message: match self.error() {
                Some(e) => e.message(),
                None => Seq::empty(),
            },
        }
    }

    /// Whether an update with this status goes no further by itself.
    pub open spec fn terminal(self) -> bool {
        self is Rebooting || self is NoPendingOta || self is Success || self is Failure
    }
}

impl OtaStatus {
    /// The request that the status is about.
    pub fn ota_request(&self) -> (request: Option<&OtaRequest>)
        ensures
            match request {
                Some(r) => self@.request() == Some(r@),
                None => self@.request() is None,
            },
    {
        match self {
            OtaStatus::Acknowledged(r) => Some(r),
            OtaStatus::Downloading(r, _) => Some(r),
            OtaStatus::Deploying(r) => Some(r),
            OtaStatus::Deployed(r) => Some(r),
            OtaStatus::Rebooting(r) => Some(r),
            OtaStatus::Success(r) => Some(r),
            OtaStatus::Error(_, r) => Some(r),
            OtaStatus::Failure(_, Some(r)) => Some(r),
            _ => None,
        }
    }
}

impl OtaStatusMessage {
    /// The code and the message that an error is published with.
    pub fn from(ota_error: &OtaError) -> (message: OtaStatusMessage)
        ensures
            message.status_code@ == ota_error@.code(),
            message.message@ == ota_error@.message(),
    {
        let mut status_message = OtaStatusMessage {
            status_code: String::new(),
            message: String::new(),
        };
        match ota_error {
            OtaError::Request(m) => {
                status_message.status_code = "RequestError".to_owned();
                status_message.message = (*m).to_owned();
            },
            OtaError::UpdateAlreadyInProgress => {
                status_message.status_code = "UpdateAlreadyInProgress".to_owned();
            },
            OtaError::Network(m) => {
                status_message.status_code = "NetworkError".to_owned();
                status_message.message = m.clone();
            },
            OtaError::IO(m) => {
                status_message.status_code = "IOError".to_owned();
                status_message.message = m.clone();
            },
            OtaError::Internal(m) => {
                status_message.status_code = "InternalError".to_owned();
                status_message.message = (*m).to_owned();
            },
            OtaError::InvalidBaseImage(m) => {
                status_message.status_code = "InvalidBaseImage".to_owned();
                status_message.message = m.clone();
            },
            OtaError::SystemRollback(m) => {
                status_message.status_code = "SystemRollback".to_owned();
                status_message.message = (*m).to_owned();
            },
            OtaError::Cancelled => {
                status_message.status_code = "Cancelled".to_owned();
            },
        }
        status_message
    }
}

impl OtaEvent {
    /// The event that reports a status.
    pub fn from(ota_status: &OtaStatus) -> (event: OtaEvent)
        ensures
            event@ == ota_status@.event(),
            ota_status@.request() matches Some(r) ==> crate::uuids::uuid_parsed(event.requestUUID@)
                == Some(r.uuid),
    {
        let mut event = OtaEvent {
            requestUUID: String::new(),
            status: String::new(),
            statusProgress: 0,
            statusCode: String::new(),
            message: String::new(),
        };
        match ota_status {
            OtaStatus::Acknowledged(r) => {
                event.requestUUID = uuid_text(r.uuid);
                event.status = "Acknowledged".to_owned();
            },
            OtaStatus::Downloading(r, progress) => {
                event.requestUUID = uuid_text(r.uuid);
                event.statusProgress = *progress;
                event.status = "Downloading".to_owned();
            },
            OtaStatus::Deploying(r) => {
                event.requestUUID = uuid_text(r.uuid);
                event.status = "Deploying".to_owned();
            },
            OtaStatus::Deployed(r) => {
                event.requestUUID = uuid_text(r.uuid);
                event.status = "Deployed".to_owned();
            },
            OtaStatus::Rebooting(r) => {
                event.requestUUID = uuid_text(r.uuid);
                event.status = "Rebooting".to_owned();
            },
            OtaStatus::Success(r) => {
                event.requestUUID = uuid_text(r.uuid);
                event.status = "Success".to_owned();
            },
            OtaStatus::Failure(error, request) => {
                if let Some(r) = request {
                    event.requestUUID = uuid_text(r.uuid);
                }
                event.status = "Failure".to_owned();
                let status_message = OtaStatusMessage::from(error);
                event.statusCode = status_message.status_code;
                event.message = status_message.message;
            },
            OtaStatus::Error(error, r) => {
                event.status = "Error".to_owned();
                event.requestUUID = uuid_text(r.uuid);
                let status_message = OtaStatusMessage::from(error);
                event.statusCode = status_message.status_code;
                event.message = status_message.message;
            },
            OtaStatus::Idle | OtaStatus::Init | OtaStatus::NoPendingOta | OtaStatus::Rebooted => {},
        }
        event
    }
}

/// The event to publish for a status on [`OTA_RESPONSE_INTERFACE`] and
/// [`OTA_RESPONSE_PATH`]: none for a status that is about no request.
pub fn ota_response(ota_status: &OtaStatus) -> (event: Result<Option<OtaEvent>, OtaError>)
    ensures
        match event {
            Ok(Some(e)) => ota_status@.request() is Some && e@ == ota_status@.event(),
            Ok(None) => ota_status@.request() is None,
            Err(_) => false,
        },
{
    if ota_status.ota_request().is_none() {
        return Ok(None);
    }
    let event = OtaEvent::from(ota_status);
    if event.requestUUID.as_str().is_empty() {
        return Err(OtaError::Internal("Unable to publish ota_event: request_uuid is empty"));
    }
    Ok(Some(event))
}

/// What publishing an update event comes to, given whether Astarte took it.
pub fn ota_response_sent(published: bool) -> (result: Result<(), OtaError>)
    ensures
        match result {
            Ok(_) => published,
            Err(e) => !published && e@ == OtaErrorView::Network("Unable to publish ota_event"@),
        },
{
    if published {
        Ok(())
    } else {
        Err(OtaError::Network("Unable to publish ota_event".to_owned()))
    }
}

impl OtaOperation {
    /// Reads the operation that a request asks for.
    pub fn from_str(s: &str) -> (operation: Result<OtaOperation, ()>)
        ensures
            match operation {
                Ok(OtaOperation::Cancel) => s@ == "Cancel"@,
                Ok(OtaOperation::Update) => s@ == "Update"@,
                Err(_) => s@ != "Cancel"@ && s@ != "Update"@,
            },
    {
        if crate::text::same_text(s, "Cancel") {
            Ok(OtaOperation::Cancel)
        } else if crate::text::same_text(s, "Update") {
            Ok(OtaOperation::Update)
        } else {
            Err(())
        }
    }
}

} // verus!
