//! What holds of the handling of requests from Astarte, over all its steps.

use vstd::prelude::*;

use crate::data::AstarteType;
use crate::ota::handler::{HandlerActionView, HandlerPhaseView, HandlerReplyView, HandlerStep};
use crate::ota::status::{OtaErrorView, OtaStatusView};

verus! {

/// A request that asks for an update or for a cancellation, and holds an
/// identifier, asks for the status of the update first. One without an
/// identifier as text is over, one whose identifier cannot be read and one that
/// asks for anything else is refused. The token stays as it is.
pub proof fn law_requests_are_told_apart(cancellable: bool, data: Map<Seq<char>, AstarteType>)
    requires
        crate::ota::handler::complete(data),
    ensures
        ({
            let step = crate::ota::handler::first_step(cancellable, data);
            let operation = crate::data::text_at(data, "operation"@);
            let text = crate::data::text_at(data, "uuid"@);
            let uuid = crate::data::uuid_at(data, "uuid"@);
            &&& step.cancellable == cancellable
            &&& if operation == Some("Update"@) || operation == Some("Cancel"@) {
                match (text, uuid) {
                    (Some(_), Some(uuid)) => {
                        &&& step.action is GetOtaStatus
                        &&& operation == Some("Update"@) ==> step.phase
                            == HandlerPhaseView::UpdateStatus(uuid)
                        &&& operation == Some("Cancel"@) ==> step.phase
                            == HandlerPhaseView::CancelStatus(uuid)
                    },
                    (Some(_), None) => refused_as_request(step.action),
                    (None, _) => step.action == HandlerActionView::Finish(Ok(())),
                }
            } else {
                refused_as_request(step.action)
            }
        }),
{
    reveal_strlit("Update");
    reveal_strlit("Cancel");
    assert("Update"@[0] != "Cancel"@[0]);
}

/// Whether an action ends the handling because the request is not valid.
pub open spec fn refused_as_request(action: HandlerActionView) -> bool {
    match action {
        HandlerActionView::Finish(Err(error)) => error is Request,
        _ => false,
    }
}

/// Whether a status is that of a request with an identifier and nothing else
/// known.
pub open spec fn about(status: OtaStatusView, uuid: u128) -> bool {
    match status.request() {
        Some(request) => request.uuid == uuid && request.url.len() == 0,
        None => false,
    }
}

/// While an update is in progress another request for it is answered with its
/// status, and a request for another update with a failure about that request.
pub proof fn law_refused_updates_are_answered(
    cancellable: bool,
    uuid: u128,
    current: OtaStatusView,
)
    requires
        !(current is Idle),
    ensures
        match crate::ota::handler::next_step(
            cancellable,
            HandlerPhaseView::UpdateStatus(uuid),
            HandlerReplyView::Status(Some(current)),
        ).action {
            HandlerActionView::Publish(status) => if crate::ota::laws::in_progress(
                Some(current),
                uuid,
            ) {
                status == current
            } else {
                &&& about(status, uuid)
                &&& status matches OtaStatusView::Failure(error, _)
                &&& error is UpdateAlreadyInProgress
            },
            _ => false,
        },
{
}

/// An update is started where the device is idle or its status is not known:
/// its token is kept, and once the update took the request its statuses are
/// received. Where the update did not take it, or did not take the check of a
/// kept update, the handling ends with an error of the device.
pub proof fn law_updates_are_started(
    cancellable: bool,
    uuid: u128,
    status: Option<OtaStatusView>,
    taken: bool,
)
    requires
        status matches Some(current) ==> current is Idle,
    ensures
        ({
            let started = crate::ota::handler::next_step(
                cancellable,
                HandlerPhaseView::UpdateStatus(uuid),
                HandlerReplyView::Status(status),
            );
            let handed = crate::ota::handler::next_step(
                started.cancellable,
                started.phase,
                HandlerReplyView::Delivered(taken),
            );
            let checked = crate::ota::handler::next_step(
                cancellable,
                HandlerPhaseView::PendingDeliver,
                HandlerReplyView::Delivered(taken),
            );
            &&& started.action is StartUpdate
            &&& started.cancellable
            &&& handed.cancellable
            &&& checked.cancellable == cancellable
            &&& if taken {
                &&& handed.action is Receive && handed.phase is UpdateReceive
                &&& checked.action is Receive && checked.phase is PendingReceive
            } else {
                &&& handed.action matches HandlerActionView::Finish(Err(error))
                &&& error is Internal
                &&& checked.action matches HandlerActionView::Finish(Err(other))
                &&& other is Internal
            }
        }),
{
}

/// Whether a reply in a phase takes the token of an update away: it says that
/// the deployment or the failure of the update was published, or it makes the
/// device cancel the update.
pub open spec fn takes_token(phase: HandlerPhaseView, reply: HandlerReplyView) -> bool {
    match (phase, reply) {
        (HandlerPhaseView::UpdateReport(status), HandlerReplyView::Sent(sent)) => sent is Ok && (
        status is Deploying || status is Failure),
        (HandlerPhaseView::CancelStatus(uuid), HandlerReplyView::Status(status)) =>
            crate::ota::laws::in_progress(status, uuid),
        _ => false,
    }
}

/// An update stays cancellable until its deployment or its failure was
/// published or it is cancelled: nothing else takes its token away, and each of
/// these does.
pub proof fn law_tokens_are_kept(phase: HandlerPhaseView, reply: HandlerReplyView)
    requires
        phase.accepts(reply),
    ensures
        crate::ota::handler::next_step(true, phase, reply).cancellable <==> !takes_token(
            phase,
            reply,
        ),
{
}

/// Whether none of the steps takes the token of an update away.
pub open spec fn keep_token(handled: Seq<(HandlerPhaseView, HandlerReplyView)>) -> bool {
    forall|i: int|
        0 <= i < handled.len() ==> (#[trigger] handled[i]).0.accepts(handled[i].1)
            && !takes_token(handled[i].0, handled[i].1)
}

proof fn lemma_token_kept(handled: Seq<(HandlerPhaseView, HandlerReplyView)>)
    requires
        keep_token(handled),
    ensures
        crate::ota::laws::after_handling(true, handled),
    decreases handled.len(),
{
    if handled.len() > 0 {
        let rest = handled.drop_last();
        assert forall|i: int| 0 <= i < rest.len() implies (#[trigger] rest[i]).0.accepts(rest[i].1)
            && !takes_token(rest[i].0, rest[i].1) by {
            assert(rest[i] == handled[i]);
        }
        lemma_token_kept(rest);
        let last = handled[handled.len() - 1];
        law_tokens_are_kept(last.0, last.1);
    }
}

/// An update can be cancelled from its start until its deployment or failure
/// was published, whatever else the device did in between, be it to publish
/// that the request was acknowledged, that its image is downloaded or that a
/// download failed: a request to cancel it cancels it, the cancellation is
/// published about its identifier, and what publishing came to is what the
/// handling ends with.
pub proof fn law_updates_stay_cancellable(
    cancellable: bool,
    started: u128,
    idle: Option<OtaStatusView>,
    handled: Seq<(HandlerPhaseView, HandlerReplyView)>,
    uuid: u128,
    status: OtaStatusView,
    sent: Result<(), OtaErrorView>,
)
    requires
        idle matches Some(current) ==> current is Idle,
        keep_token(handled),
        status.request() matches Some(request) && request.uuid == uuid,
    ensures
        ({
            let start = crate::ota::handler::next_step(
                cancellable,
                HandlerPhaseView::UpdateStatus(started),
                HandlerReplyView::Status(idle),
            );
            let asked = crate::ota::handler::next_step(
                crate::ota::laws::after_handling(start.cancellable, handled),
                HandlerPhaseView::CancelStatus(uuid),
                HandlerReplyView::Status(Some(status)),
            );
            let cancelled = crate::ota::handler::next_step(
                asked.cancellable,
                asked.phase,
                HandlerReplyView::Done,
            );
            let ended = crate::ota::handler::next_step(
                cancelled.cancellable,
                cancelled.phase,
                HandlerReplyView::Sent(sent),
            );
            &&& asked.action is CancelUpdate
            &&& !ended.cancellable
            &&& ended.action == HandlerActionView::Finish(sent)
            &&& cancelled.action matches HandlerActionView::Publish(answer)
            &&& about(answer, uuid)
            &&& answer matches OtaStatusView::Failure(error, _)
            &&& error is Cancelled
        }),
{
    lemma_token_kept(handled);
}

/// A request to cancel that cancels nothing is answered with an error of the
/// device about its identifier, and what publishing that came to is what the
/// handling ends with.
pub proof fn law_refused_cancellations_are_answered(
    cancellable: bool,
    uuid: u128,
    status: Option<OtaStatusView>,
    sent: Result<(), OtaErrorView>,
)
    requires
        !cancellable || !crate::ota::laws::in_progress(status, uuid),
    ensures
        ({
            let asked = crate::ota::handler::next_step(
                cancellable,
                HandlerPhaseView::CancelStatus(uuid),
                HandlerReplyView::Status(status),
            );
            let ended = crate::ota::handler::next_step(
                asked.cancellable,
                asked.phase,
                HandlerReplyView::Sent(sent),
            );
            &&& ended.cancellable == cancellable
            &&& ended.action == HandlerActionView::Finish(sent)
            &&& asked.action matches HandlerActionView::Publish(answer)
            &&& about(answer, uuid)
            &&& answer matches OtaStatusView::Failure(error, _)
            &&& error is Internal
        }),
{
}

/// Whether the step after the one at a place follows from the reply to it.
pub open spec fn handled_at(
    steps: Seq<HandlerStep>,
    replies: Seq<HandlerReplyView>,
    at: int,
) -> bool {
    &&& steps[at].phase.accepts(replies[at])
    &&& steps[at + 1] == crate::ota::handler::next_step(
        steps[at].cancellable,
        steps[at].phase,
        replies[at],
    )
}

/// Whether the steps are those of a handling that waits for statuses, receives
/// the given ones one after the other, and publishes each with success.
pub open spec fn receives(
    steps: Seq<HandlerStep>,
    replies: Seq<HandlerReplyView>,
    statuses: Seq<OtaStatusView>,
) -> bool {
    &&& replies.len() == 2 * statuses.len()
    &&& steps.len() == replies.len() + 1
    &&& steps[0].phase is UpdateReceive || steps[0].phase is PendingReceive
    &&& steps[0].action is Receive
    &&& forall|at: int| 0 <= at < replies.len() ==> #[trigger] handled_at(steps, replies, at)
    &&& forall|i: int|
        0 <= i < statuses.len() ==> {
            &&& replies[2 * i] == HandlerReplyView::Received(Some(#[trigger] statuses[i]))
            &&& replies[2 * i + 1] == HandlerReplyView::Sent(Ok(()))
        }
}

/// The handling of a request goes on after every status but a failure: every
/// status that the update sends up to its first failure is published, in the
/// order in which the statuses come, and nothing else is. A failure ends the
/// handling with its error.
pub proof fn law_statuses_are_published(
    steps: Seq<HandlerStep>,
    replies: Seq<HandlerReplyView>,
    statuses: Seq<OtaStatusView>,
    at: int,
)
    requires
        receives(steps, replies, statuses),
        forall|i: int| 0 <= i < statuses.len() - 1 ==> !((#[trigger] statuses[i]) is Failure),
        0 <= at < statuses.len(),
    ensures
        steps[2 * at + 1].action == HandlerActionView::Publish(statuses[at]),
        match statuses[at] {
            OtaStatusView::Failure(error, _) => steps[2 * at + 2].action
                == HandlerActionView::Finish(Err(error)),
            _ => {
                &&& steps[2 * at + 2].action is Receive
                &&& steps[2 * at + 2].phase == steps[0].phase
            },
        },
    decreases at,
{
    if at > 0 {
        law_statuses_are_published(steps, replies, statuses, at - 1);
        assert(!(statuses[at - 1] is Failure));
        assert(2 * (at - 1) + 2 == 2 * at);
    }
    assert(handled_at(steps, replies, 2 * at));
    assert(handled_at(steps, replies, 2 * at + 1));
    assert(replies[2 * at] == HandlerReplyView::Received(Some(statuses[at])));
}

/// The handling of a request ends well when the update has no more statuses,
/// and with the error of publishing where a status could not be published. The
/// token stays as it is in both.
pub proof fn law_handlings_end(
    cancellable: bool,
    pending: bool,
    status: OtaStatusView,
    error: OtaErrorView,
)
    ensures
        ({
            let waiting = if pending {
                HandlerPhaseView::PendingReceive
            } else {
                HandlerPhaseView::UpdateReceive
            };
            let over = crate::ota::handler::next_step(
                cancellable,
                waiting,
                HandlerReplyView::Received(None),
            );
            let received = crate::ota::handler::next_step(
                cancellable,
                waiting,
                HandlerReplyView::Received(Some(status)),
            );
            let failed = crate::ota::handler::next_step(
                received.cancellable,
                received.phase,
                HandlerReplyView::Sent(Err(error)),
            );
            &&& over.action == HandlerActionView::Finish(Ok(())) && over.cancellable == cancellable
            &&& received.action == HandlerActionView::Publish(status)
            &&& failed.action == HandlerActionView::Finish(Err(error))
            &&& failed.cancellable == cancellable
        }),
{
}

} // verus!
