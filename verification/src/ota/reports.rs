//! What the events that report statuses tell.

use vstd::prelude::*;

use crate::ota::status::{OtaErrorView, OtaRequestView, OtaStatusView};

verus! {

/// Whether two statuses are at the same point of an update.
pub open spec fn same_point(one: OtaStatusView, other: OtaStatusView) -> bool {
    match (one, other) {
        (OtaStatusView::Acknowledged(_), OtaStatusView::Acknowledged(_)) => true,
        (OtaStatusView::Downloading(_, p), OtaStatusView::Downloading(_, q)) => p == q,
        (OtaStatusView::Deploying(_), OtaStatusView::Deploying(_)) => true,
        (OtaStatusView::Deployed(_), OtaStatusView::Deployed(_)) => true,
        (OtaStatusView::Rebooting(_), OtaStatusView::Rebooting(_)) => true,
        (OtaStatusView::Success(_), OtaStatusView::Success(_)) => true,
        (OtaStatusView::Error(d, _), OtaStatusView::Error(e, _)) => d == e,
        (OtaStatusView::Failure(d, _), OtaStatusView::Failure(e, _)) => d == e,
        _ => false,
    }
}

/// The request that a status holds.
pub open spec fn held_request(status: OtaStatusView) -> Option<OtaRequestView> {
    match status {
        OtaStatusView::Acknowledged(request)
        | OtaStatusView::Downloading(request, _)
        | OtaStatusView::Deploying(request)
        | OtaStatusView::Deployed(request)
        | OtaStatusView::Rebooting(request)
        | OtaStatusView::Success(request)
        | OtaStatusView::Error(_, request) => Some(request),
        OtaStatusView::Failure(_, request) => request,
        OtaStatusView::Idle
        | OtaStatusView::Init
        | OtaStatusView::NoPendingOta
        | OtaStatusView::Rebooted => None,
    }
}

proof fn lemma_codes()
    ensures
        forall|one: OtaErrorView, other: OtaErrorView|
            #[trigger] one.code() == #[trigger] other.code() && one.message() == other.message()
                ==> one == other,
        forall|error: OtaErrorView| (#[trigger] error.code()).len() > 0,
{
    reveal_strlit("RequestError");
    reveal_strlit("UpdateAlreadyInProgress");
    reveal_strlit("NetworkError");
    reveal_strlit("IOError");
    reveal_strlit("InternalError");
    reveal_strlit("InvalidBaseImage");
    reveal_strlit("SystemRollback");
    reveal_strlit("Cancelled");
    assert forall|one: OtaErrorView, other: OtaErrorView|
        #[trigger] one.code() == #[trigger] other.code() && one.message()
            == other.message() implies one == other by {
        assert(one.code().len() == other.code().len());
        assert(one.code()[0] == other.code()[0]);
        assert(one.code()[1] == other.code()[1]);
        assert(one.code()[2] == other.code()[2]);
    }
}

proof fn lemma_names()
    ensures
        forall|one: OtaStatusView, other: OtaStatusView|
            #[trigger] one.name() == #[trigger] other.name() && held_request(one) is Some
                && held_request(other) is Some && one.error() == other.error() && one.progress()
                == other.progress() ==> same_point(one, other),
{
    reveal_strlit("Acknowledged");
    reveal_strlit("Downloading");
    reveal_strlit("Deploying");
    reveal_strlit("Deployed");
    reveal_strlit("Rebooting");
    reveal_strlit("Success");
    reveal_strlit("Error");
    reveal_strlit("Failure");
    assert forall|one: OtaStatusView, other: OtaStatusView|
        #[trigger] one.name() == #[trigger] other.name() && held_request(one) is Some
            && held_request(other) is Some && one.error() == other.error() && one.progress()
            == other.progress() implies same_point(one, other) by {
        assert(one.name().len() == other.name().len());
        assert(one.name()[0] == other.name()[0]);
        assert(one.name()[1] == other.name()[1]);
    }
}

/// The event of a status tells all there is to know of it but the address of
/// the image: two statuses about requests that come to the same event are about
/// the same identifier, at the same point of the update, with the same progress
/// and the same error.
pub proof fn law_events_tell_statuses_apart(one: OtaStatusView, other: OtaStatusView)
    requires
        held_request(one) is Some,
        held_request(other) is Some,
        one.event() == other.event(),
    ensures
        same_point(one, other),
        match (held_request(one), held_request(other)) {
            (Some(r), Some(s)) => r.uuid == s.uuid,
            _ => false,
        },
{
    lemma_codes();
    lemma_names();
    match (one.error(), other.error()) {
        (Some(d), Some(e)) => {
            assert(d.code() == e.code());
            assert(d == e);
        },
        (Some(d), None) => {
            assert(d.code().len() > 0);
        },
        (None, Some(e)) => {
            assert(e.code().len() > 0);
        },
        (None, None) => {},
    }
    assert(one.name() == other.name());
    match (held_request(one), held_request(other)) {
        (Some(r), Some(s)) => {
            crate::uuids::law_identifiers_have_their_own_text(r.uuid, s.uuid);
        },
        _ => {},
    }
}

/// What an event carries: the progress of a download and nothing else as a
/// progress, the message of the error as it is, and the identifier of the
/// request that the status holds.
pub proof fn law_events_carry_their_status(status: OtaStatusView, request: OtaRequestView)
    requires
        held_request(status) == Some(request),
    ensures
        status.request() == Some(request),
        status.event().requestUUID == crate::uuids::uuid_hyphenated(request.uuid),
        status.event().statusProgress == (match status {
            OtaStatusView::Downloading(_, progress) => progress,
            _ => 0,
        }),
        match status {
            OtaStatusView::Error(error, _) | OtaStatusView::Failure(error, _) => {
                match error {
                    OtaErrorView::Request(message)
                    | OtaErrorView::Network(message)
                    | OtaErrorView::IO(message)
                    | OtaErrorView::Internal(message)
                    | OtaErrorView::InvalidBaseImage(message)
                    | OtaErrorView::SystemRollback(message) => status.event().message == message,
                    OtaErrorView::UpdateAlreadyInProgress | OtaErrorView::Cancelled =>
                        status.event().message.len() == 0,
                }
            },
            _ => status.event().message.len() == 0 && status.event().statusCode.len() == 0,
        },
{
}

/// A status that holds no request is about none, and so is its event.
pub proof fn law_other_statuses_are_about_nothing(status: OtaStatusView)
    requires
        held_request(status) is None,
    ensures
        status.request() is None,
        status.event().requestUUID.len() == 0,
{
}

/// What people are shown of an error ends with the message of the error.
pub proof fn law_errors_show_their_message(error: OtaErrorView)
    ensures
        error.shown().len() >= error.message().len(),
        error.shown().skip(error.shown().len() - error.message().len()) == error.message(),
{
    let shown = error.shown();
    let message = error.message();
    reveal_strlit("UpdateAlreadyInProgress");
    reveal_strlit("Cancelled");
    assert(shown.skip(shown.len() - message.len()) =~= message);
}

} // verus!
