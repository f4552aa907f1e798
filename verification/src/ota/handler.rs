//! What the device does with update requests from Astarte, and how it reports
//! the updates that follow.
//!
//! Handling a request is a sequence of steps. Each step hands out one action
//! for the device to perform; the reply to it decides the next step.

use vstd::pervasive::unreached;
use vstd::prelude::*;

use crate::data::{read_text, read_uuid, AstarteType};
use crate::ota::status::{
    OtaError, OtaErrorView, OtaOperation, OtaRequest, OtaRequestView, OtaStatus, OtaStatusView,
};
use crate::string_map::StringMap;

verus! {

/// What the device has to do next for a request.
#[derive(Debug, PartialEq)]
pub enum HandlerAction {
    /// Ask the update of the device for its status.
    GetOtaStatus,
    /// Publish the event that reports the status.
    Publish(OtaStatus),
    /// Keep a new cancellation token and hand the request to the update.
    StartUpdate,
    /// Hand the check of a kept update to the update.
    EnsurePendingOta,
    /// Receive the next status of the update.
    Receive,
    /// Cancel the token that was kept.
    CancelUpdate,
    /// Nothing: the request was handled.
    Finish(Result<(), OtaError>),
}

/// What came of an action.
#[derive(Debug, PartialEq)]
pub enum HandlerReply {
    /// The action was performed.
    Done,
    /// The status of the update, unless asking for it failed.
    Status(Result<OtaStatus, OtaError>),
    /// What publishing came to.
    Sent(Result<(), OtaError>),
    /// Whether the update took what it was handed.
    Delivered(bool),
    /// The next status, or that there is none.
    Received(Option<OtaStatus>),
}

/// Where the handling of a request stands: which action it waits for.
#[derive(Debug, PartialEq)]
pub enum HandlerPhase {
    /// A request to update, with its identifier.
    UpdateStatus(u128),
    UpdateRefuse,
    UpdateDeliver,
    UpdateReceive,
    UpdateReport(OtaStatus),
    /// A request to cancel, with the identifier of the update.
    CancelStatus(u128),
    CancelToken(u128),
    CancelReport,
    /// A check of a kept update.
    PendingDeliver,
    PendingReceive,
    PendingReport(OtaStatus),
    Done,
}

/// A [`HandlerAction`] as a mathematical value.
#[verifier::ext_equal]
pub enum HandlerActionView {
    GetOtaStatus,
    Publish(OtaStatusView),
    StartUpdate,
    EnsurePendingOta,
    Receive,
    CancelUpdate,
    Finish(Result<(), OtaErrorView>),
}

/// A [`HandlerReply`] as a mathematical value.
#[verifier::ext_equal]
pub enum HandlerReplyView {
    Done,
    Status(Option<OtaStatusView>),
    Sent(Result<(), OtaErrorView>),
    Delivered(bool),
    Received(Option<OtaStatusView>),
}

/// A [`HandlerPhase`] as a mathematical value.
#[verifier::ext_equal]
pub enum HandlerPhaseView {
    UpdateStatus(u128),
    UpdateRefuse,
    UpdateDeliver,
    UpdateReceive,
    UpdateReport(OtaStatusView),
    CancelStatus(u128),
    CancelToken(u128),
    CancelReport,
    PendingDeliver,
    PendingReceive,
    PendingReport(OtaStatusView),
    Done,
}

/// One step of the handling of a request: whether a cancellation token is kept
/// from then on, where the handling stands, and what the device does next.
#[verifier::ext_equal]
pub struct HandlerStep {
    pub cancellable: bool,
    pub phase: HandlerPhaseView,
    pub action: HandlerActionView,
}

impl View for HandlerAction {
    type V = HandlerActionView;

    open spec fn view(&self) -> HandlerActionView {
        match self {
            HandlerAction::GetOtaStatus => HandlerActionView::GetOtaStatus,
            HandlerAction::Publish(s) => HandlerActionView::Publish(s@),
            HandlerAction::StartUpdate => HandlerActionView::StartUpdate,
            HandlerAction::EnsurePendingOta => HandlerActionView::EnsurePendingOta,
            HandlerAction::Receive => HandlerActionView::Receive,
            HandlerAction::CancelUpdate => HandlerActionView::CancelUpdate,
            HandlerAction::Finish(Ok(u)) => HandlerActionView::Finish(Ok(*u)),
            HandlerAction::Finish(Err(e)) => HandlerActionView::Finish(Err(e@)),
        }
    }
}

impl View for HandlerReply {
    type V = HandlerReplyView;

    open spec fn view(&self) -> HandlerReplyView {
        match self {
            HandlerReply::Done => HandlerReplyView::Done,
            HandlerReply::Status(Ok(s)) => HandlerReplyView::Status(Some(s@)),
            HandlerReply::Status(Err(_)) => HandlerReplyView::Status(None),
            HandlerReply::Sent(Ok(u)) => HandlerReplyView::Sent(Ok(*u)),
            HandlerReply::Sent(Err(e)) => HandlerReplyView::Sent(Err(e@)),
            HandlerReply::Delivered(b) => HandlerReplyView::Delivered(*b),
            HandlerReply::Received(Some(s)) => HandlerReplyView::Received(Some(s@)),
            HandlerReply::Received(None) => HandlerReplyView::Received(None),
        }
    }
}

impl View for HandlerPhase {
    type V = HandlerPhaseView;

    open spec fn view(&self) -> HandlerPhaseView {
        match self {
            HandlerPhase::UpdateStatus(u) => HandlerPhaseView::UpdateStatus(*u),
            HandlerPhase::UpdateRefuse => HandlerPhaseView::UpdateRefuse,
            HandlerPhase::UpdateDeliver => HandlerPhaseView::UpdateDeliver,
            HandlerPhase::UpdateReceive => HandlerPhaseView::UpdateReceive,
            HandlerPhase::UpdateReport(s) => HandlerPhaseView::UpdateReport(s@),
            HandlerPhase::CancelStatus(u) => HandlerPhaseView::CancelStatus(*u),
            HandlerPhase::CancelToken(u) => HandlerPhaseView::CancelToken(*u),
            HandlerPhase::CancelReport => HandlerPhaseView::CancelReport,
            HandlerPhase::PendingDeliver => HandlerPhaseView::PendingDeliver,
            HandlerPhase::PendingReceive => HandlerPhaseView::PendingReceive,
            HandlerPhase::PendingReport(s) => HandlerPhaseView::PendingReport(s@),
            HandlerPhase::Done => HandlerPhaseView::Done,
        }
    }
}

/// The end of the handling of a request.
pub open spec fn finished(cancellable: bool, result: Result<(), OtaErrorView>) -> HandlerStep {
    HandlerStep {
        cancellable,
        phase: HandlerPhaseView::Done,
        action: HandlerActionView::Finish(result),
    }
}

/// The failure that answers a request with nothing known but its identifier.
pub open spec fn answer(error: OtaErrorView, uuid: u128) -> OtaStatusView {
    OtaStatusView::Failure(error, Some(OtaRequestView { uuid, url: Seq::empty() }))
}

/// The first step for a request from Astarte, given the identifier that was
/// read from it: an identifier that is not text leaves nothing to do.
pub open spec fn first_step_as(
    cancellable: bool,
    data: Map<Seq<char>, AstarteType>,
    uuid: Option<u128>,
) -> HandlerStep {
    let operation = data["operation"@].text();
    if operation != Some("Update"@) && operation != Some("Cancel"@) {
        finished(cancellable, Err(OtaErrorView::Request("Ota operation unsupported"@)))
    } else if data["uuid"@].text() is None {
        finished(cancellable, Ok(()))
    } else {
        match uuid {
            Some(uuid) => HandlerStep {
                cancellable,
                phase: if operation == Some("Update"@) {
                    HandlerPhaseView::UpdateStatus(uuid)
                } else {
                    HandlerPhaseView::CancelStatus(uuid)
                },
                action: HandlerActionView::GetOtaStatus,
            },
            None => finished(
                cancellable,
                Err(OtaErrorView::Request("Unable to parse request_uuid"@)),
            ),
        }
    }
}

/// The first step for a request from Astarte.
pub open spec fn first_step(cancellable: bool, data: Map<Seq<char>, AstarteType>) -> HandlerStep {
    first_step_as(cancellable, data, crate::data::uuid_at(data, "uuid"@))
}

/// Whether a request holds an operation, and an identifier where the operation
/// needs one.
pub open spec fn complete(data: Map<Seq<char>, AstarteType>) -> bool {
    &&& data.contains_key("operation"@)
    &&& data["operation"@].text() == Some("Update"@) || data["operation"@].text() == Some(
        "Cancel"@,
    ) ==> data.contains_key("uuid"@)
}

/// The step that follows when the status is known while an update is asked
/// for. An update in progress refuses another one: to its own request it
/// answers with its status. Without a status the update is started.
pub open spec fn update_status(
    cancellable: bool,
    uuid: u128,
    status: Option<OtaStatusView>,
) -> HandlerStep {
    match status {
        Some(current) if !(current is Idle) => HandlerStep {
            cancellable,
            phase: HandlerPhaseView::UpdateRefuse,
            action: HandlerActionView::Publish(
                match current.request() {
                    Some(request) if request.uuid == uuid => current,
                    _ => answer(OtaErrorView::UpdateAlreadyInProgress, uuid),
                },
            ),
        },
        _ => HandlerStep {
            cancellable: true,
            phase: HandlerPhaseView::UpdateDeliver,
            action: HandlerActionView::StartUpdate,
        },
    }
}

/// The step that follows when a status of an update was published: an update
/// that is being deployed or has failed can no longer be cancelled.
pub open spec fn update_reported(cancellable: bool, status: OtaStatusView) -> HandlerStep {
    match status {
        OtaStatusView::Failure(error, _) => finished(false, Err(error)),
        _ => HandlerStep {
            cancellable: cancellable && !(status is Deploying),
            phase: HandlerPhaseView::UpdateReceive,
            action: HandlerActionView::Receive,
        },
    }
}

/// The step that publishes why an update was not cancelled.
pub open spec fn cancel_refused(cancellable: bool, uuid: u128, message: Seq<char>) -> HandlerStep {
    HandlerStep {
        cancellable,
        phase: HandlerPhaseView::CancelReport,
        action: HandlerActionView::Publish(answer(OtaErrorView::Internal(message), uuid)),
    }
}

/// The step that follows when the status is known while a cancellation is
/// asked for: only the update that is in progress can be cancelled, and only
/// while its token is kept.
pub open spec fn cancel_status(
    cancellable: bool,
    uuid: u128,
    status: Option<OtaStatusView>,
) -> HandlerStep {
    match status {
        None => cancel_refused(cancellable, uuid, "Unable to cancel OTA request"@),
        Some(current) => match current.request() {
            None => cancel_refused(
                cancellable,
                uuid,
                "Unable to cancel OTA request, internal request is empty"@,
            ),
            Some(request) => if request.uuid != uuid {
                cancel_refused(
                    cancellable,
                    uuid,
                    "Unable to cancel OTA request, they have different identifier"@,
                )
            } else if cancellable {
                HandlerStep {
                    cancellable: false,
                    phase: HandlerPhaseView::CancelToken(uuid),
                    action: HandlerActionView::CancelUpdate,
                }
            } else {
                cancel_refused(cancellable, uuid, "Unable to cancel OTA request"@)
            },
        },
    }
}

/// The step that follows a reply.
pub open spec fn next_step(
    cancellable: bool,
    phase: HandlerPhaseView,
    reply: HandlerReplyView,
) -> HandlerStep {
    match (phase, reply) {
        (HandlerPhaseView::UpdateStatus(uuid), HandlerReplyView::Status(status)) => update_status(
            cancellable,
            uuid,
            status,
        ),
        (HandlerPhaseView::UpdateRefuse, _) => finished(
            cancellable,
            Err(OtaErrorView::UpdateAlreadyInProgress),
        ),
        (HandlerPhaseView::UpdateDeliver, HandlerReplyView::Delivered(true)) => HandlerStep {
            cancellable,
            phase: HandlerPhaseView::UpdateReceive,
            action: HandlerActionView::Receive,
        },
        (HandlerPhaseView::UpdateDeliver, _) => finished(
            cancellable,
            Err(
                OtaErrorView::Internal("Unable to execute HandleOtaEvent, receiver channel dropped"@),
            ),
        ),
        (HandlerPhaseView::UpdateReceive, HandlerReplyView::Received(Some(status))) => HandlerStep {
            cancellable,
            phase: HandlerPhaseView::UpdateReport(status),
            action: HandlerActionView::Publish(status),
        },
        (HandlerPhaseView::UpdateReceive, _) => finished(cancellable, Ok(())),
        (HandlerPhaseView::UpdateReport(status), HandlerReplyView::Sent(Ok(_))) => update_reported(
            cancellable,
            status,
        ),
        (HandlerPhaseView::UpdateReport(_), HandlerReplyView::Sent(Err(error))) => finished(
            cancellable,
            Err(error),
        ),
        (HandlerPhaseView::CancelStatus(uuid), HandlerReplyView::Status(status)) => cancel_status(
            cancellable,
            uuid,
            status,
        ),
        (HandlerPhaseView::CancelToken(uuid), _) => HandlerStep {
            cancellable,
            phase: HandlerPhaseView::CancelReport,
            action: HandlerActionView::Publish(answer(OtaErrorView::Cancelled, uuid)),
        },
        (HandlerPhaseView::CancelReport, HandlerReplyView::Sent(result)) => finished(
            cancellable,
            result,
        ),
        (HandlerPhaseView::PendingDeliver, HandlerReplyView::Delivered(true)) => HandlerStep {
            cancellable,
            phase: HandlerPhaseView::PendingReceive,
            action: HandlerActionView::Receive,
        },
        (HandlerPhaseView::PendingDeliver, _) => finished(
            cancellable,
            Err(
                OtaErrorView::Internal(
                    "Unable to execute EnsurePendingOta, receiver channel dropped"@,
                ),
            ),
        ),
        (HandlerPhaseView::PendingReceive, HandlerReplyView::Received(Some(status))) =>
            HandlerStep {
            cancellable,
            phase: HandlerPhaseView::PendingReport(status),
            action: HandlerActionView::Publish(status),
        },
        (HandlerPhaseView::PendingReceive, _) => finished(cancellable, Ok(())),
        (HandlerPhaseView::PendingReport(status), HandlerReplyView::Sent(Ok(_))) => match status {
            OtaStatusView::Failure(error, _) => finished(cancellable, Err(error)),
            _ => HandlerStep {
                cancellable,
                phase: HandlerPhaseView::PendingReceive,
                action: HandlerActionView::Receive,
            },
        },
        (HandlerPhaseView::PendingReport(_), HandlerReplyView::Sent(Err(error))) => finished(
            cancellable,
            Err(error),
        ),
        _ => arbitrary(),
    }
}

impl HandlerPhaseView {
    /// Whether a reply is one to the action that the phase waits for.
    pub open spec fn accepts(self, reply: HandlerReplyView) -> bool {
        match self {
            HandlerPhaseView::UpdateStatus(_) | HandlerPhaseView::CancelStatus(_) =>
                reply is Status,
            HandlerPhaseView::UpdateDeliver | HandlerPhaseView::PendingDeliver =>
                reply is Delivered,
            HandlerPhaseView::UpdateReceive | HandlerPhaseView::PendingReceive => reply is Received,
            HandlerPhaseView::UpdateRefuse | HandlerPhaseView::UpdateReport(_)
            | HandlerPhaseView::CancelReport | HandlerPhaseView::PendingReport(_) => reply is Sent,
            HandlerPhaseView::CancelToken(_) => reply is Done,
            HandlerPhaseView::Done => false,
        }
    }
}

impl HandlerActionView {
    /// Whether a reply is one to the action.
    pub open spec fn answered_by(self, reply: HandlerReplyView) -> bool {
        match self {
            HandlerActionView::GetOtaStatus => reply is Status,
            HandlerActionView::Publish(_) => reply is Sent,
            HandlerActionView::StartUpdate | HandlerActionView::EnsurePendingOta =>
                reply is Delivered,
            HandlerActionView::Receive => reply is Received,
            HandlerActionView::CancelUpdate => reply is Done,
            HandlerActionView::Finish(_) => false,
        }
    }
}

/// Whether a request in the phase can be gone on with by any reply to the
/// action.
pub open spec fn waits_for(phase: HandlerPhaseView, action: HandlerActionView) -> bool {
    forall|reply: HandlerReplyView| #[trigger]
        phase.accepts(reply) <==> action.answered_by(reply)
}

/// The status of the update, given whether it could be asked and what came
/// back.
pub fn get_ota_status(sent: bool, received: Option<OtaStatus>) -> (status: Result<
    OtaStatus,
    OtaError,
>)
    ensures
        match status {
            Ok(s) => sent && received == Some(s),
            Err(e) => e@ == OtaErrorView::Internal(
                if !sent {
                    "Unable to get the ota status, receiver channel dropped"@
                } else {
                    "Unable to get the ota status"@
                },
            ) && (!sent || received is None),
        },
{
    if !sent {
        return Err(OtaError::Internal("Unable to get the ota status, receiver channel dropped"));
    }
    match received {
        Some(status) => Ok(status),
        None => Err(OtaError::Internal("Unable to get the ota status")),
    }
}

/// Handles update requests from Astarte. It knows whether the token of an
/// update that can still be cancelled is kept.
#[derive(Debug)]
pub struct OtaHandler {
    pub cancellable: bool,
}

fn finish(result: Result<(), OtaError>) -> (step: (HandlerPhase, HandlerAction))
    ensures
        step.0@ == HandlerPhaseView::Done,
        match result {
            Ok(_) => step.1@ == HandlerActionView::Finish(Ok(())),
            Err(e) => step.1@ == HandlerActionView::Finish(Err(e@)),
        },
{
    (HandlerPhase::Done, HandlerAction::Finish(result))
}

fn answer_with(error: OtaError, uuid: u128) -> (action: HandlerAction)
    ensures
        action@ == HandlerActionView::Publish(answer(error@, uuid)),
{
    let request = OtaRequest { uuid, url: String::new() };
    HandlerAction::Publish(OtaStatus::Failure(error, Some(request)))
}

impl OtaHandler {
    /// A handler without an update to cancel.
    pub fn new() -> (handler: OtaHandler)
        ensures
            !handler.cancellable,
    {
        OtaHandler { cancellable: false }
    }

    /// Starts the check of an update that survived a reboot.
    pub fn ensure_pending_ota_response(&self) -> (step: (HandlerPhase, HandlerAction))
        ensures
            step.0@ == HandlerPhaseView::PendingDeliver,
            step.1@ == HandlerActionView::EnsurePendingOta,
            waits_for(step.0@, step.1@),
    {
        (HandlerPhase::PendingDeliver, HandlerAction::EnsurePendingOta)
    }

    /// Starts the handling of a request from Astarte, given the identifier that
    /// was read from it.
    pub fn ota_event_as(&self, data: &StringMap<AstarteType>, uuid: Option<u128>) -> (step: (
        HandlerPhase,
        HandlerAction,
    ))
        requires
            complete(data@),
        ensures
            (HandlerStep {
                cancellable: self.cancellable,
                phase: step.0@,
                action: step.1@,
            }) == first_step_as(self.cancellable, data@, uuid),
            waits_for(step.0@, step.1@),
    {
        proof {
            reveal_strlit("Update");
            reveal_strlit("Cancel");
            assert("Update"@[0] != "Cancel"@[0]);
        }
        let operation = match read_text(data, "operation") {
            Some(text) => OtaOperation::from_str(text.as_str()),
            None => Err(()),
        };
        let operation = match operation {
            Ok(operation) => operation,
            Err(_) => return finish(Err(OtaError::Request("Ota operation unsupported"))),
        };
        if read_text(data, "uuid").is_none() {
            return finish(Ok(()));
        }
        match (operation, uuid) {
            (OtaOperation::Update, Some(uuid)) => (
                HandlerPhase::UpdateStatus(uuid),
                HandlerAction::GetOtaStatus,
            ),
            (OtaOperation::Cancel, Some(uuid)) => (
                HandlerPhase::CancelStatus(uuid),
                HandlerAction::GetOtaStatus,
            ),
            _ => finish(Err(OtaError::Request("Unable to parse request_uuid"))),
        }
    }

    /// Starts the handling of a request from Astarte.
    pub fn ota_event(&self, data: &StringMap<AstarteType>) -> (step: (HandlerPhase, HandlerAction))
        requires
            complete(data@),
        ensures
            (HandlerStep {
                cancellable: self.cancellable,
                phase: step.0@,
                action: step.1@,
            }) == first_step(self.cancellable, data@),
            waits_for(step.0@, step.1@),
    {
        self.ota_event_as(data, read_uuid(data, "uuid"))
    }

    /// Goes on with a request to update after a reply.
    pub fn handle_update(&mut self, phase: HandlerPhase, reply: HandlerReply) -> (step: (
        HandlerPhase,
        HandlerAction,
    ))
        requires
            phase@ is UpdateStatus || phase@ is UpdateRefuse || phase@ is UpdateDeliver
                || phase@ is UpdateReceive || phase@ is UpdateReport,
            phase@.accepts(reply@),
        ensures
            (HandlerStep {
                cancellable: final(self).cancellable,
                phase: step.0@,
                action: step.1@,
            }) == next_step(old(self).cancellable, phase@, reply@),
            waits_for(step.0@, step.1@),
    {
        match (phase, reply) {
            (HandlerPhase::UpdateStatus(uuid), HandlerReply::Status(status)) => {
                let current = match status {
                    Ok(current) => current,
                    Err(_) => OtaStatus::Idle,
                };
                if matches!(current, OtaStatus::Idle) {
                    self.cancellable = true;
                    return (HandlerPhase::UpdateDeliver, HandlerAction::StartUpdate);
                }
                let same = match current.ota_request() {
                    Some(request) => request.uuid == uuid,
                    None => false,
                };
                if same {
                    (HandlerPhase::UpdateRefuse, HandlerAction::Publish(current))
                } else {
                    (
                        HandlerPhase::UpdateRefuse,
                        answer_with(OtaError::UpdateAlreadyInProgress, uuid),
                    )
                }
            },
            (HandlerPhase::UpdateRefuse, _) => finish(Err(OtaError::UpdateAlreadyInProgress)),
            (HandlerPhase::UpdateDeliver, HandlerReply::Delivered(true)) => (
                HandlerPhase::UpdateReceive,
                HandlerAction::Receive,
            ),
            (HandlerPhase::UpdateDeliver, _) => finish(
                Err(
                    OtaError::Internal("Unable to execute HandleOtaEvent, receiver channel dropped"),
                ),
            ),
            (HandlerPhase::UpdateReceive, HandlerReply::Received(Some(status))) => {
                let reported = status.clone();
                (HandlerPhase::UpdateReport(status), HandlerAction::Publish(reported))
            },
            (HandlerPhase::UpdateReceive, _) => finish(Ok(())),
            (HandlerPhase::UpdateReport(_), HandlerReply::Sent(Err(error))) => finish(Err(error)),
            (HandlerPhase::UpdateReport(status), _) => match status {
                // An update that is being deployed cannot be stopped.
                OtaStatus::Deploying(_) => {
                    self.cancellable = false;
                    (HandlerPhase::UpdateReceive, HandlerAction::Receive)
                },
                OtaStatus::Failure(error, _) => {
                    self.cancellable = false;
                    finish(Err(error))
                },
                _ => (HandlerPhase::UpdateReceive, HandlerAction::Receive),
            },
            _ => unreached(),
        }
    }

    /// Goes on with a request to cancel an update after a reply.
    pub fn handle_cancel(&mut self, phase: HandlerPhase, reply: HandlerReply) -> (step: (
        HandlerPhase,
        HandlerAction,
    ))
        requires
            phase@ is CancelStatus || phase@ is CancelToken || phase@ is CancelReport,
            phase@.accepts(reply@),
        ensures
            (HandlerStep {
                cancellable: final(self).cancellable,
                phase: step.0@,
                action: step.1@,
            }) == next_step(old(self).cancellable, phase@, reply@),
            waits_for(step.0@, step.1@),
    {
        match (phase, reply) {
            (HandlerPhase::CancelStatus(uuid), HandlerReply::Status(status)) => {
                let status = match status {
                    Ok(status) => status,
                    Err(_) => {
                        return (
                            HandlerPhase::CancelReport,
                            answer_with(OtaError::Internal("Unable to cancel OTA request"), uuid),
                        );
                    },
                };
                let current = match status.ota_request() {
                    Some(request) => request,
                    None => {
                        return (
                            HandlerPhase::CancelReport,
                            answer_with(
                                OtaError::Internal(
                                    "Unable to cancel OTA request, internal request is empty",
                                ),
                                uuid,
                            ),
                        );
                    },
                };
                if current.uuid != uuid {
                    return (
                        HandlerPhase::CancelReport,
                        answer_with(
                            OtaError::Internal(
                                "Unable to cancel OTA request, they have different identifier",
                            ),
                            uuid,
                        ),
                    );
                }
                if self.cancellable {
                    self.cancellable = false;
                    (HandlerPhase::CancelToken(uuid), HandlerAction::CancelUpdate)
                } else {
                    (
                        HandlerPhase::CancelReport,
                        answer_with(OtaError::Internal("Unable to cancel OTA request"), uuid),
                    )
                }
            },
            (HandlerPhase::CancelToken(uuid), _) => (
                HandlerPhase::CancelReport,
                answer_with(OtaError::Cancelled, uuid),
            ),
            (HandlerPhase::CancelReport, HandlerReply::Sent(result)) => finish(result),
            _ => unreached(),
        }
    }

    /// Goes on with the check of a kept update after a reply.
    pub fn handle_pending(&self, phase: HandlerPhase, reply: HandlerReply) -> (step: (
        HandlerPhase,
        HandlerAction,
    ))
        requires
            phase@ is PendingDeliver || phase@ is PendingReceive || phase@ is PendingReport,
            phase@.accepts(reply@),
        ensures
            (HandlerStep {
                cancellable: self.cancellable,
                phase: step.0@,
                action: step.1@,
            }) == next_step(self.cancellable, phase@, reply@),
            waits_for(step.0@, step.1@),
    {
        match (phase, reply) {
            (HandlerPhase::PendingDeliver, HandlerReply::Delivered(true)) => (
                HandlerPhase::PendingReceive,
                HandlerAction::Receive,
            ),
            (HandlerPhase::PendingDeliver, _) => finish(
                Err(
                    OtaError::Internal(
                        "Unable to execute EnsurePendingOta, receiver channel dropped",
                    ),
                ),
            ),
            (HandlerPhase::PendingReceive, HandlerReply::Received(Some(status))) => {
                let reported = status.clone();
                (HandlerPhase::PendingReport(status), HandlerAction::Publish(reported))
            },
            (HandlerPhase::PendingReceive, _) => finish(Ok(())),
            (HandlerPhase::PendingReport(_), HandlerReply::Sent(Err(error))) => finish(Err(error)),
            (HandlerPhase::PendingReport(status), _) => match status {
                OtaStatus::Failure(error, _) => finish(Err(error)),
                _ => (HandlerPhase::PendingReceive, HandlerAction::Receive),
            },
            _ => unreached(),
        }
    }

    /// Goes on with the handling of a request after a reply.
    pub fn resume(&mut self, phase: HandlerPhase, reply: HandlerReply) -> (step: (
        HandlerPhase,
        HandlerAction,
    ))
        requires
            phase@.accepts(reply@),
        ensures
            (HandlerStep {
                cancellable: final(self).cancellable,
                phase: step.0@,
                action: step.1@,
            }) == next_step(old(self).cancellable, phase@, reply@),
            waits_for(step.0@, step.1@),
    {
        match &phase {
            HandlerPhase::UpdateStatus(_)
            | HandlerPhase::UpdateRefuse
            | HandlerPhase::UpdateDeliver
            | HandlerPhase::UpdateReceive
            | HandlerPhase::UpdateReport(_) => self.handle_update(phase, reply),
            HandlerPhase::CancelStatus(_)
            | HandlerPhase::CancelToken(_)
            | HandlerPhase::CancelReport => self.handle_cancel(phase, reply),
            HandlerPhase::PendingDeliver
            | HandlerPhase::PendingReceive
            | HandlerPhase::PendingReport(_) => self.handle_pending(phase, reply),
            HandlerPhase::Done => unreached(),
        }
    }
}

} // verus!
