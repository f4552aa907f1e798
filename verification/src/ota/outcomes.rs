//! What updates come to: how requests are read, what failures lead to, what has
//! to go well for an update to succeed, and what is reported on the way.

use vstd::arithmetic::power2::*;
use vstd::prelude::*;

use crate::data::AstarteType;
use crate::ota::run::{
    DeployStageView, InstallStage, OtaActionView, OtaPhaseView, OtaReplyView, OtaStep,
    PendingStageView,
};
use crate::ota::status::{OtaErrorView, OtaRequestView, OtaStatusView, PersistentStateView};

verus! {

/// A request is acknowledged exactly when it holds the address of an image as
/// text and an identifier, and it is acknowledged with just these. Any other
/// request is a failure that is about no request.
pub proof fn law_requests_are_acknowledged(data: Map<Seq<char>, AstarteType>)
    ensures
        match (
            crate::ota::run::acknowledged(data),
            crate::data::text_at(data, "url"@),
            crate::data::uuid_at(data, "uuid"@),
        ) {
            (OtaStatusView::Acknowledged(request), Some(url), Some(uuid)) => request.url == url
                && request.uuid == uuid,
            (OtaStatusView::Failure(OtaErrorView::Request(_), request), None, _) => request is None,
            (OtaStatusView::Failure(OtaErrorView::Request(_), request), _, None) => request is None,
            _ => false,
        },
{
}

/// A request that is not acknowledged changes nothing on the device: the update
/// removes the file of an image, if there is one, and ends with the refusal.
pub proof fn law_refused_requests_do_nothing(
    directory: Seq<char>,
    seen: OtaStatusView,
    data: Map<Seq<char>, AstarteType>,
    steps: Seq<OtaStep>,
    replies: Seq<OtaReplyView>,
    at: int,
)
    requires
        crate::ota::laws::is_run(directory, steps, replies),
        steps[0] == crate::ota::run::first_step(directory, seen, OtaStatusView::Idle, data),
        crate::data::text_at(data, "url"@) is None || crate::data::uuid_at(data, "uuid"@) is None,
        0 <= at < steps.len(),
    ensures
        if at == 0 {
            steps[at].action is RemoveFile && match steps[at].phase {
                OtaPhaseView::Remove(status) => status is Failure && status.request() is None,
                _ => false,
            }
        } else {
            at == 1 && steps[at].phase is Done && match steps[at].action {
                OtaActionView::Finish(status) => status is Failure && status.request() is None,
                _ => false,
            }
        },
    decreases at,
{
    if at > 0 {
        law_refused_requests_do_nothing(directory, seen, data, steps, replies, at - 1);
        assert(crate::ota::laws::follows(directory, steps, replies, at - 1));
    }
}

/// A request that is acknowledged is acknowledged first, then its download is
/// announced, and then its image is downloaded.
pub proof fn law_acknowledged_requests_are_downloaded(
    directory: Seq<char>,
    seen: OtaStatusView,
    data: Map<Seq<char>, AstarteType>,
    steps: Seq<OtaStep>,
    replies: Seq<OtaReplyView>,
    request: OtaRequestView,
)
    requires
        crate::ota::laws::is_run(directory, steps, replies),
        steps[0] == crate::ota::run::first_step(directory, seen, OtaStatusView::Idle, data),
        crate::data::text_at(data, "url"@) == Some(request.url),
        crate::data::uuid_at(data, "uuid"@) == Some(request.uuid),
    ensures
        steps[0].action == OtaActionView::Publish(OtaStatusView::Acknowledged(request)),
        steps.len() > 1 ==> steps[1].action == OtaActionView::Publish(
            OtaStatusView::Downloading(request, 0),
        ),
        steps.len() > 2 ==> (steps[2].action matches OtaActionView::Download { url, uuid, .. }
            && url == request.url && uuid == request.uuid),
{
    if steps.len() > 1 {
        assert(crate::ota::laws::follows(directory, steps, replies, 0));
    }
    if steps.len() > 2 {
        assert(crate::ota::laws::follows(directory, steps, replies, 1));
    }
}

/// The number of a download is how many downloads there were.
proof fn lemma_download_number(
    directory: Seq<char>,
    seen: OtaStatusView,
    data: Map<Seq<char>, AstarteType>,
    steps: Seq<OtaStep>,
    replies: Seq<OtaReplyView>,
    request: OtaRequestView,
    at: int,
)
    requires
        crate::ota::laws::is_run(directory, steps, replies),
        steps[0] == crate::ota::run::first_step(directory, seen, OtaStatusView::Idle, data),
        crate::ota::run::acknowledged(data) == OtaStatusView::Acknowledged(request),
        0 <= at < steps.len(),
    ensures
        steps[at].phase.wf(),
        match steps[at].phase {
            OtaPhaseView::Acknowledge(_) | OtaPhaseView::Announce(_) => crate::ota::laws::downloads(
                steps.take(at + 1),
            ) == 0,
            OtaPhaseView::Deploy(_, DeployStageView::Download(n)) => crate::ota::laws::downloads(
                steps.take(at + 1),
            ) == n,
            OtaPhaseView::Deploy(_, DeployStageView::Report(n)) => crate::ota::laws::downloads(
                steps.take(at + 1),
            ) == n,
            OtaPhaseView::Deploy(_, DeployStageView::Backoff(n)) => crate::ota::laws::downloads(
                steps.take(at + 1),
            ) == n,
            _ => true,
        },
    decreases at,
{
    crate::ota::laws::lemma_before(directory, seen, data, steps, replies, request, at);
    crate::ota::laws::lemma_request_kept(directory, seen, data, steps, replies, request, at);
    assert(steps.take(at + 1).drop_last() =~= steps.take(at));
    assert(steps.take(at + 1).last() == steps[at]);
    if at > 0 {
        lemma_download_number(directory, seen, data, steps, replies, request, at - 1);
        assert(crate::ota::laws::follows(directory, steps, replies, at - 1));
    } else {
        assert(steps.take(0) =~= Seq::empty());
        assert(crate::ota::laws::downloads(steps.take(0)) == 0);
    }
}

/// A failed download is tried again, four times at most. After each of the
/// first four the failure is reported with its error, twice as much time passes
/// as before, starting with two seconds, and the same download is started
/// again. The error of the fifth is the error that the update fails with.
pub proof fn law_failed_downloads_are_tried_again(
    directory: Seq<char>,
    seen: OtaStatusView,
    data: Map<Seq<char>, AstarteType>,
    steps: Seq<OtaStep>,
    replies: Seq<OtaReplyView>,
    request: OtaRequestView,
    at: int,
    error: OtaErrorView,
)
    requires
        crate::ota::laws::is_run(directory, steps, replies),
        steps[0] == crate::ota::run::first_step(directory, seen, OtaStatusView::Idle, data),
        crate::ota::run::acknowledged(data) == OtaStatusView::Acknowledged(request),
        0 <= at < replies.len(),
        steps[at].action is Download,
        replies[at] == OtaReplyView::Downloaded(Err(error)),
    ensures
        ({
            let nth = crate::ota::laws::downloads(steps.take(at + 1));
            &&& 1 <= nth <= 5
            &&& nth < 5 ==> {
                &&& steps[at + 1].action == OtaActionView::Publish(
                    OtaStatusView::Error(error, request),
                )
                &&& at + 2 < steps.len() ==> steps[at + 2].action == OtaActionView::Sleep(
                    if nth == 1 {
                        2
                    } else if nth == 2 {
                        4
                    } else if nth == 3 {
                        8
                    } else {
                        16
                    },
                )
                &&& at + 3 < steps.len() ==> steps[at + 3].action == steps[at].action
            }
            &&& nth == 5 ==> {
                &&& steps[at + 1].action is RemoveFile
                &&& at + 2 < steps.len() ==> steps[at + 2].action == OtaActionView::Finish(
                    OtaStatusView::Failure(error, Some(request)),
                )
            }
        }),
{
    crate::ota::laws::lemma_before(directory, seen, data, steps, replies, request, at);
    crate::ota::laws::lemma_request_kept(directory, seen, data, steps, replies, request, at);
    lemma_download_number(directory, seen, data, steps, replies, request, at);
    assert(crate::ota::laws::follows(directory, steps, replies, at));
    lemma2_to64();
    if at + 2 < steps.len() {
        assert(crate::ota::laws::follows(directory, steps, replies, at + 1));
    }
    if at + 3 < steps.len() {
        assert(crate::ota::laws::follows(directory, steps, replies, at + 2));
        crate::ota::laws::lemma_before(directory, seen, data, steps, replies, request, at + 3);
        crate::ota::laws::lemma_request_kept(
            directory,
            seen,
            data,
            steps,
            replies,
            request,
            at + 3,
        );
        assert(crate::ota::laws::starts(directory, steps[0]));
        crate::ota::laws::law_one_image_file(directory, steps, replies);
    }
}

/// The image that is checked is the one that was downloaded: once a download
/// succeeded, the next thing is to read from the bundle in the file that it was
/// downloaded to.
pub proof fn law_downloaded_images_are_checked(
    directory: Seq<char>,
    seen: OtaStatusView,
    data: Map<Seq<char>, AstarteType>,
    steps: Seq<OtaStep>,
    replies: Seq<OtaReplyView>,
    request: OtaRequestView,
    at: int,
    url: Seq<char>,
    path: Seq<char>,
    uuid: u128,
)
    requires
        crate::ota::laws::is_run(directory, steps, replies),
        steps[0] == crate::ota::run::first_step(directory, seen, OtaStatusView::Idle, data),
        crate::ota::run::acknowledged(data) == OtaStatusView::Acknowledged(request),
        0 <= at < replies.len(),
        steps[at].action == (OtaActionView::Download { url, path, uuid }),
        crate::ota::laws::download_succeeded(replies[at]),
    ensures
        steps[at + 1].action == OtaActionView::BundleInfo(path),
{
    crate::ota::laws::lemma_before(directory, seen, data, steps, replies, request, at);
    assert(crate::ota::laws::follows(directory, steps, replies, at));
    assert(crate::ota::laws::starts(directory, steps[0]));
    crate::ota::laws::law_one_image_file(directory, steps, replies);
}

/// The bundle that is checked was downloaded: directly before an update that
/// starts from a request reads from a bundle, it downloaded the image to the
/// file that it reads from.
pub proof fn law_checked_images_were_downloaded(
    directory: Seq<char>,
    seen: OtaStatusView,
    data: Map<Seq<char>, AstarteType>,
    steps: Seq<OtaStep>,
    replies: Seq<OtaReplyView>,
    request: OtaRequestView,
    at: int,
    checked: Seq<char>,
)
    requires
        crate::ota::laws::is_run(directory, steps, replies),
        steps[0] == crate::ota::run::first_step(directory, seen, OtaStatusView::Idle, data),
        crate::ota::run::acknowledged(data) == OtaStatusView::Acknowledged(request),
        0 <= at < steps.len(),
        steps[at].action == OtaActionView::BundleInfo(checked),
    ensures
        at > 0,
        steps[at - 1].action matches OtaActionView::Download { path, .. } && path == checked,
        crate::ota::laws::download_succeeded(replies[at - 1]),
{
    crate::ota::laws::lemma_at_start(directory, seen, data, steps, replies, request, at);
    crate::ota::laws::lemma_before(directory, seen, data, steps, replies, request, at);
    assert(crate::ota::laws::starts(directory, steps[0]));
    crate::ota::laws::law_one_image_file(directory, steps, replies);
}

/// Whether a reply says that an action of an update failed.
pub open spec fn failed(action: OtaActionView, reply: OtaReplyView) -> bool {
    match action {
        OtaActionView::BundleInfo(_) | OtaActionView::Compatible | OtaActionView::BootSlot => reply
            == OtaReplyView::Text(None),
        OtaActionView::WriteState(_)
        | OtaActionView::InstallBundle(_)
        | OtaActionView::Operation
        | OtaActionView::Reboot => reply == OtaReplyView::Outcome(false),
        OtaActionView::ReceiveCompleted => reply != OtaReplyView::Signal(Some(0)),
        _ => false,
    }
}

/// Whether an error is of the sort that a failed action is reported with: the
/// image is at fault, the device could not keep its state, or something within
/// the device failed.
pub open spec fn blames(action: OtaActionView, reply: OtaReplyView, error: OtaErrorView) -> bool {
    match action {
        OtaActionView::BundleInfo(_)
        | OtaActionView::Compatible
        | OtaActionView::InstallBundle(_) => error is InvalidBaseImage,
        OtaActionView::ReceiveCompleted => if reply == OtaReplyView::Signal(None) {
            error is Internal
        } else {
            error is InvalidBaseImage
        },
        OtaActionView::WriteState(_) => error is IO,
        _ => error is Internal,
    }
}

/// The first action of an update that fails before the device rebooted, other
/// than a download, ends the update: the file of the image is removed, nothing
/// else is done, and the update ends with a failure about its request.
pub proof fn law_failed_actions_end_updates(
    directory: Seq<char>,
    seen: OtaStatusView,
    data: Map<Seq<char>, AstarteType>,
    steps: Seq<OtaStep>,
    replies: Seq<OtaReplyView>,
    request: OtaRequestView,
    at: int,
)
    requires
        crate::ota::laws::is_run(directory, steps, replies),
        steps[0] == crate::ota::run::first_step(directory, seen, OtaStatusView::Idle, data),
        crate::ota::run::acknowledged(data) == OtaStatusView::Acknowledged(request),
        0 <= at < replies.len(),
        !(steps[at].phase is Pending),
        failed(steps[at].action, replies[at]),
    ensures
        steps[at + 1].action is RemoveFile,
        at + 2 < steps.len() ==> match steps[at + 2].action {
            OtaActionView::Finish(OtaStatusView::Failure(error, about)) => {
                &&& about == Some(request)
                &&& blames(steps[at].action, replies[at], error)
            },
            _ => false,
        },
{
    crate::ota::laws::lemma_before(directory, seen, data, steps, replies, request, at);
    crate::ota::laws::lemma_request_kept(directory, seen, data, steps, replies, request, at);
    assert(crate::ota::laws::follows(directory, steps, replies, at));
    if at + 2 < steps.len() {
        assert(crate::ota::laws::follows(directory, steps, replies, at + 1));
    }
}

/// A bundle that is compatible with something else than the system ends the
/// update with a failure that names both.
pub proof fn law_other_bundles_end_updates(
    directory: Seq<char>,
    seen: OtaStatusView,
    data: Map<Seq<char>, AstarteType>,
    steps: Seq<OtaStep>,
    replies: Seq<OtaReplyView>,
    request: OtaRequestView,
    at: int,
    bundle: Seq<char>,
    system: Seq<char>,
)
    requires
        crate::ota::laws::is_run(directory, steps, replies),
        steps[0] == crate::ota::run::first_step(directory, seen, OtaStatusView::Idle, data),
        crate::ota::run::acknowledged(data) == OtaStatusView::Acknowledged(request),
        0 < at < replies.len(),
        steps[at - 1].action is BundleInfo,
        replies[at - 1] == OtaReplyView::Text(Some(bundle)),
        replies[at] == OtaReplyView::Text(Some(system)),
        bundle != system,
    ensures
        steps[at].action is Compatible,
        steps[at + 1].action is RemoveFile,
        at + 2 < steps.len() ==> match steps[at + 2].action {
            OtaActionView::Finish(
                OtaStatusView::Failure(OtaErrorView::InvalidBaseImage(message), about),
            ) => {
                &&& about == Some(request)
                &&& message == "bundle "@ + bundle + " is not compatible with system "@ + system
            },
            _ => false,
        },
{
    crate::ota::laws::lemma_at_start(directory, seen, data, steps, replies, request, at - 1);
    crate::ota::laws::lemma_before(directory, seen, data, steps, replies, request, at - 1);
    crate::ota::laws::lemma_before(directory, seen, data, steps, replies, request, at);
    assert(crate::ota::laws::follows(directory, steps, replies, at - 1));
    assert(crate::ota::laws::follows(directory, steps, replies, at));
    if at + 2 < steps.len() {
        assert(crate::ota::laws::follows(directory, steps, replies, at + 1));
    }
}

/// Whether a reply to an action is the one that an update needs to go well:
/// bundle and system are compatible with the same thing, the state that is read
/// is the given one, another slot than before is booted, and the primary slot
/// is marked.
pub open spec fn went_well(
    step: OtaStep,
    reply: OtaReplyView,
    system: Seq<char>,
    state: PersistentStateView,
    primary: Seq<char>,
) -> bool {
    match step.action {
        OtaActionView::Download { .. } => crate::ota::laws::download_succeeded(reply),
        OtaActionView::BundleInfo(_) | OtaActionView::Compatible => reply == OtaReplyView::Text(
            Some(system),
        ),
        OtaActionView::BootSlot => match reply {
            OtaReplyView::Text(Some(slot)) => step.phase is Pending ==> slot != state.slot,
            _ => false,
        },
        OtaActionView::WriteState(_)
        | OtaActionView::InstallBundle(_)
        | OtaActionView::Operation
        | OtaActionView::Reboot
        | OtaActionView::StateExists => reply == OtaReplyView::Outcome(true),
        OtaActionView::ReceiveCompleted => reply == OtaReplyView::Signal(Some(0)),
        OtaActionView::ReadState => reply == OtaReplyView::State(Some(state)),
        OtaActionView::GetPrimary | OtaActionView::Mark { .. } => reply == OtaReplyView::Text(
            Some(primary),
        ),
        _ => true,
    }
}

proof fn lemma_good_update(
    directory: Seq<char>,
    seen: OtaStatusView,
    data: Map<Seq<char>, AstarteType>,
    steps: Seq<OtaStep>,
    replies: Seq<OtaReplyView>,
    request: OtaRequestView,
    system: Seq<char>,
    state: PersistentStateView,
    primary: Seq<char>,
    at: int,
)
    requires
        crate::ota::laws::is_run(directory, steps, replies),
        steps[0] == crate::ota::run::first_step(directory, seen, OtaStatusView::Idle, data),
        crate::ota::run::acknowledged(data) == OtaStatusView::Acknowledged(request),
        forall|i: int|
            0 <= i < replies.len() ==> went_well(
                #[trigger] steps[i],
                replies[i],
                system,
                state,
                primary,
            ),
        0 <= at < steps.len(),
    ensures
        ({
            let success = OtaStatusView::Success(
                OtaRequestView { uuid: state.uuid, url: Seq::empty() },
            );
            &&& match steps[at].phase {
                OtaPhaseView::Deploy(_, DeployStageView::Compatible(bundle)) => bundle == system,
                OtaPhaseView::Deploy(_, DeployStageView::Report(_)) => false,
                OtaPhaseView::Deploy(_, DeployStageView::Backoff(_)) => false,
                OtaPhaseView::Pending(PendingStageView::BootSlot(s)) => s == state,
                OtaPhaseView::Pending(PendingStageView::Primary(s)) => s == state,
                OtaPhaseView::Pending(PendingStageView::Mark(s, slot)) => s == state && slot
                    == primary,
                OtaPhaseView::Pending(PendingStageView::Clear(outcome)) => outcome == success,
                OtaPhaseView::Remove(outcome) => outcome == success,
                _ => true,
            }
            &&& steps[at].action matches OtaActionView::Finish(outcome) ==> outcome == success
        }),
    decreases at,
{
    if at > 0 {
        lemma_good_update(
            directory,
            seen,
            data,
            steps,
            replies,
            request,
            system,
            state,
            primary,
            at - 1,
        );
        assert(went_well(steps[at - 1], replies[at - 1], system, state, primary));
        crate::ota::laws::lemma_before(directory, seen, data, steps, replies, request, at - 1);
        crate::ota::laws::lemma_at_start(directory, seen, data, steps, replies, request, at - 1);
        crate::ota::laws::lemma_request_kept(
            directory,
            seen,
            data,
            steps,
            replies,
            request,
            at - 1,
        );
        assert(crate::ota::laws::follows(directory, steps, replies, at - 1));
    }
}

/// An update on which everything goes well succeeds: whatever it is started
/// with, where it ends it ends with success, about the request whose state was
/// read back.
pub proof fn law_good_updates_succeed(
    directory: Seq<char>,
    seen: OtaStatusView,
    data: Map<Seq<char>, AstarteType>,
    steps: Seq<OtaStep>,
    replies: Seq<OtaReplyView>,
    request: OtaRequestView,
    system: Seq<char>,
    state: PersistentStateView,
    primary: Seq<char>,
    outcome: OtaStatusView,
)
    requires
        crate::ota::laws::is_run(directory, steps, replies),
        steps[0] == crate::ota::run::first_step(directory, seen, OtaStatusView::Idle, data),
        crate::ota::run::acknowledged(data) == OtaStatusView::Acknowledged(request),
        forall|i: int|
            0 <= i < replies.len() ==> went_well(
                #[trigger] steps[i],
                replies[i],
                system,
                state,
                primary,
            ),
        steps.last().action == OtaActionView::Finish(outcome),
    ensures
        outcome == OtaStatusView::Success(OtaRequestView { uuid: state.uuid, url: Seq::empty() }),
{
    lemma_good_update(
        directory,
        seen,
        data,
        steps,
        replies,
        request,
        system,
        state,
        primary,
        steps.len() - 1,
    );
}

/// Where a published status stands among those of an update.
pub open spec fn report_order(status: OtaStatusView) -> int {
    match status {
        OtaStatusView::Acknowledged(_) => 1,
        OtaStatusView::Downloading(_, _) => 2,
        OtaStatusView::Error(_, _) => 3,
        OtaStatusView::Deploying(_) => 4,
        OtaStatusView::Deployed(_) => 5,
        OtaStatusView::Rebooting(_) => 6,
        _ => 7,
    }
}

spec fn phase_order(phase: OtaPhaseView) -> int {
    match phase {
        OtaPhaseView::Acknowledge(_) => 1,
        OtaPhaseView::Announce(_) => 2,
        OtaPhaseView::Deploy(_, DeployStageView::Announce) => 4,
        OtaPhaseView::Deploy(_, _) => 3,
        OtaPhaseView::Install(_, InstallStage::Announce) => 5,
        OtaPhaseView::Install(_, _) => 4,
        OtaPhaseView::Reboot(_, _) => 6,
        _ => 7,
    }
}

proof fn lemma_order_kept(
    directory: Seq<char>,
    seen: OtaStatusView,
    data: Map<Seq<char>, AstarteType>,
    steps: Seq<OtaStep>,
    replies: Seq<OtaReplyView>,
    request: OtaRequestView,
    i: int,
    j: int,
)
    requires
        crate::ota::laws::is_run(directory, steps, replies),
        steps[0] == crate::ota::run::first_step(directory, seen, OtaStatusView::Idle, data),
        crate::ota::run::acknowledged(data) == OtaStatusView::Acknowledged(request),
        0 <= i < j < steps.len(),
    ensures
        phase_order(steps[i].phase) <= phase_order(steps[j].phase),
        steps[i].action is Publish && !(steps[i].phase is Deploy && phase_order(steps[i].phase) == 3)
            ==> phase_order(steps[i].phase) < phase_order(steps[j].phase) || !(
        steps[j].action is Publish),
    decreases j - i,
{
    crate::ota::laws::lemma_before(directory, seen, data, steps, replies, request, i);
    crate::ota::laws::lemma_before(directory, seen, data, steps, replies, request, j);
    crate::ota::laws::lemma_before(directory, seen, data, steps, replies, request, j - 1);
    crate::ota::laws::lemma_request_kept(directory, seen, data, steps, replies, request, j - 1);
    assert(crate::ota::laws::follows(directory, steps, replies, j - 1));
    if i < j - 1 {
        lemma_order_kept(directory, seen, data, steps, replies, request, i, j - 1);
    }
}

/// What an update that starts from a request reports comes in the order of its
/// course: that it is acknowledged, that it downloads, each failed download,
/// that it is deployed, that it was, and that the device reboots. Only failed
/// downloads are reported more than once.
pub proof fn law_reports_come_in_order(
    directory: Seq<char>,
    seen: OtaStatusView,
    data: Map<Seq<char>, AstarteType>,
    steps: Seq<OtaStep>,
    replies: Seq<OtaReplyView>,
    request: OtaRequestView,
    i: int,
    j: int,
    earlier: OtaStatusView,
    later: OtaStatusView,
)
    requires
        crate::ota::laws::is_run(directory, steps, replies),
        steps[0] == crate::ota::run::first_step(directory, seen, OtaStatusView::Idle, data),
        crate::ota::run::acknowledged(data) == OtaStatusView::Acknowledged(request),
        0 <= i < j < steps.len(),
        steps[i].action == OtaActionView::Publish(earlier),
        steps[j].action == OtaActionView::Publish(later),
    ensures
        report_order(earlier) < report_order(later) || earlier is Error && later is Error,
        report_order(later) <= 6,
{
    crate::ota::laws::lemma_before(directory, seen, data, steps, replies, request, i);
    crate::ota::laws::lemma_before(directory, seen, data, steps, replies, request, j);
    lemma_order_kept(directory, seen, data, steps, replies, request, i, j);
}

/// What came directly before a step of the check of a kept update.
proof fn lemma_pending_before(
    directory: Seq<char>,
    seen: OtaStatusView,
    data: Map<Seq<char>, AstarteType>,
    steps: Seq<OtaStep>,
    replies: Seq<OtaReplyView>,
    at: int,
)
    requires
        crate::ota::laws::is_run(directory, steps, replies),
        steps[0] == crate::ota::run::first_step(directory, seen, OtaStatusView::Rebooted, data),
        0 <= at < steps.len(),
    ensures
        match steps[at].phase {
            OtaPhaseView::Pending(PendingStageView::Exists) => at == 0 && steps[at].action
                is StateExists,
            OtaPhaseView::Pending(PendingStageView::Read) => {
                &&& at == 1
                &&& steps[at - 1].phase == OtaPhaseView::Pending(PendingStageView::Exists)
                &&& replies[at - 1] == OtaReplyView::Outcome(true)
                &&& steps[at].action is ReadState
            },
            OtaPhaseView::Pending(PendingStageView::BootSlot(state)) => {
                &&& at == 2
                &&& steps[at - 1].phase == OtaPhaseView::Pending(PendingStageView::Read)
                &&& replies[at - 1] == OtaReplyView::State(Some(state))
                &&& steps[at].action is BootSlot
            },
            OtaPhaseView::Pending(PendingStageView::Primary(state)) => {
                &&& at == 3
                &&& steps[at - 1].phase == OtaPhaseView::Pending(PendingStageView::BootSlot(state))
                &&& replies[at - 1] matches OtaReplyView::Text(Some(booted))
                &&& booted != state.slot
                &&& steps[at].action is GetPrimary
            },
            OtaPhaseView::Pending(PendingStageView::Mark(state, primary)) => {
                &&& at == 4
                &&& steps[at - 1].phase == OtaPhaseView::Pending(PendingStageView::Primary(state))
                &&& replies[at - 1] == OtaReplyView::Text(Some(primary))
                &&& steps[at].action matches OtaActionView::Mark { state: mark, slot }
                &&& mark == seq!['g', 'o', 'o', 'd']
                &&& slot == primary
            },
            OtaPhaseView::Pending(PendingStageView::Clear(outcome)) => {
                &&& at > 0
                &&& steps[at].action is ClearState
                &&& outcome is Success || outcome is Failure
                &&& outcome matches OtaStatusView::Success(request) ==> {
                    &&& steps[at - 1].phase matches OtaPhaseView::Pending(
                        PendingStageView::Mark(state, primary),
                    )
                    &&& replies[at - 1] == OtaReplyView::Text(Some(primary))
                    &&& request.uuid == state.uuid
                    &&& request.url.len() == 0
                }
            },
            OtaPhaseView::Remove(outcome) => {
                &&& at > 0
                &&& steps[at].action is RemoveFile
                &&& outcome is Success ==> steps[at - 1].phase == OtaPhaseView::Pending(
                    PendingStageView::Clear(outcome),
                )
                &&& outcome is NoPendingOta ==> at == 1 && replies[0]
                    == OtaReplyView::Outcome(false)
            },
            OtaPhaseView::Done => {
                &&& at > 0
                &&& steps[at].action matches OtaActionView::Finish(outcome)
                &&& steps[at - 1].phase == OtaPhaseView::Remove(outcome)
            },
            _ => false,
        },
    decreases at,
{
    reveal_strlit("good");
    assert("good"@ =~= seq!['g', 'o', 'o', 'd']);
    if at > 0 {
        lemma_pending_before(directory, seen, data, steps, replies, at - 1);
        assert(crate::ota::laws::follows(directory, steps, replies, at - 1));
    }
}

/// While a kept update is checked others see the device as before. They see the
/// outcome once it is known, and the device as idle at the end.
pub proof fn law_checks_are_not_seen(
    directory: Seq<char>,
    seen: OtaStatusView,
    data: Map<Seq<char>, AstarteType>,
    steps: Seq<OtaStep>,
    replies: Seq<OtaReplyView>,
    at: int,
)
    requires
        crate::ota::laws::is_run(directory, steps, replies),
        steps[0] == crate::ota::run::first_step(directory, seen, OtaStatusView::Rebooted, data),
        0 <= at < steps.len(),
    ensures
        match steps[at].action {
            OtaActionView::Finish(_) => steps[at].status is Idle,
            OtaActionView::RemoveFile(_) => at + 1 < steps.len() ==> steps[at + 1].action
                == OtaActionView::Finish(steps[at].status),
            _ => steps[at].status == seen,
        },
    decreases at,
{
    lemma_pending_before(directory, seen, data, steps, replies, at);
    if at > 0 {
        law_checks_are_not_seen(directory, seen, data, steps, replies, at - 1);
        lemma_pending_before(directory, seen, data, steps, replies, at - 1);
        assert(crate::ota::laws::follows(directory, steps, replies, at - 1));
    }
    if at + 1 < steps.len() {
        assert(crate::ota::laws::follows(directory, steps, replies, at));
    }
}

/// What has to have happened where the check of a kept update ends with
/// success: a state was found and read, another slot than the one in it was
/// booted, the primary slot was marked good and is the one that was marked, and
/// the state was dropped. The success is about the identifier in the state.
pub proof fn law_success_is_earned(
    directory: Seq<char>,
    seen: OtaStatusView,
    data: Map<Seq<char>, AstarteType>,
    steps: Seq<OtaStep>,
    replies: Seq<OtaReplyView>,
    at: int,
    request: OtaRequestView,
)
    requires
        crate::ota::laws::is_run(directory, steps, replies),
        steps[0] == crate::ota::run::first_step(directory, seen, OtaStatusView::Rebooted, data),
        0 <= at < steps.len(),
        steps[at].action == OtaActionView::Finish(OtaStatusView::Success(request)),
    ensures
        at == 7,
        steps[0].action is StateExists && replies[0] == OtaReplyView::Outcome(true),
        steps[1].action is ReadState,
        steps[2].action is BootSlot,
        match (replies[1], replies[2]) {
            (OtaReplyView::State(Some(state)), OtaReplyView::Text(Some(booted))) => {
                &&& booted != state.slot
                &&& request.uuid == state.uuid
            },
            _ => false,
        },
        steps[3].action is GetPrimary,
        match (replies[3], steps[4].action) {
            (OtaReplyView::Text(Some(primary)), OtaActionView::Mark { state, slot }) => {
                &&& state == seq!['g', 'o', 'o', 'd']
                &&& slot == primary
                &&& replies[4] == replies[3]
            },
            _ => false,
        },
        steps[5].action is ClearState,
{
    lemma_pending_before(directory, seen, data, steps, replies, at);
    lemma_pending_before(directory, seen, data, steps, replies, at - 1);
    lemma_pending_before(directory, seen, data, steps, replies, at - 2);
    lemma_pending_before(directory, seen, data, steps, replies, at - 3);
    lemma_pending_before(directory, seen, data, steps, replies, at - 4);
    lemma_pending_before(directory, seen, data, steps, replies, at - 5);
    lemma_pending_before(directory, seen, data, steps, replies, at - 6);
}

/// A check of a kept update that cannot ask the device, or cannot mark the
/// primary slot, drops the state all the same and fails with an error of the
/// device, about the identifier in the state. A state that cannot be read is a
/// failure about no request.
pub proof fn law_failed_checks_fail_the_update(
    directory: Seq<char>,
    seen: OtaStatusView,
    state: PersistentStateView,
    primary: Seq<char>,
    stage: PendingStageView,
)
    requires
        stage == PendingStageView::BootSlot(state) || stage == PendingStageView::Primary(state)
            || stage == PendingStageView::Mark(state, primary),
    ensures
        ({
            let failed = crate::ota::run::next_step(
                directory,
                seen,
                OtaPhaseView::Pending(stage),
                OtaReplyView::Text(None),
            );
            let dropped = crate::ota::run::next_step(
                directory,
                failed.status,
                failed.phase,
                OtaReplyView::Done,
            );
            let ended = crate::ota::run::next_step(
                directory,
                dropped.status,
                dropped.phase,
                OtaReplyView::Done,
            );
            let unread = crate::ota::run::next_step(
                directory,
                seen,
                OtaPhaseView::Pending(PendingStageView::Read),
                OtaReplyView::State(None),
            );
            &&& failed.action is ClearState
            &&& dropped.action is RemoveFile
            &&& ended.action == OtaActionView::Finish(dropped.status)
            &&& dropped.status matches OtaStatusView::Failure(error, about)
            &&& error is Internal
            &&& about == Some(OtaRequestView { uuid: state.uuid, url: Seq::empty() })
            &&& unread.action is RemoveFile
            &&& unread.status matches OtaStatusView::Failure(other, none)
            &&& other is IO
            &&& none is None
        }),
{
}

/// The check of a kept update does nothing but ask the device, mark the primary
/// slot, drop the state and remove the file of an image: it publishes,
/// downloads and installs nothing, keeps no state and reboots nothing. It finds
/// no pending update exactly where no state exists.
pub proof fn law_checks_change_little(
    directory: Seq<char>,
    seen: OtaStatusView,
    data: Map<Seq<char>, AstarteType>,
    steps: Seq<OtaStep>,
    replies: Seq<OtaReplyView>,
    at: int,
)
    requires
        crate::ota::laws::is_run(directory, steps, replies),
        steps[0] == crate::ota::run::first_step(directory, seen, OtaStatusView::Rebooted, data),
        0 <= at < steps.len(),
    ensures
        !(steps[at].action is Publish || steps[at].action is Download
            || steps[at].action is InstallBundle || steps[at].action is WriteState
            || steps[at].action is Reboot || steps[at].action is Sleep),
        steps[at].action matches OtaActionView::Finish(outcome) ==> (outcome is NoPendingOta
            <==> replies[0] == OtaReplyView::Outcome(false)),
    decreases at,
{
    lemma_pending_before(directory, seen, data, steps, replies, at);
    if steps[at].phase is Done {
        lemma_pending_before(directory, seen, data, steps, replies, at - 1);
        assert(crate::ota::laws::follows(directory, steps, replies, 0));
        if replies[0] == OtaReplyView::Outcome(false) {
            assert(steps[1].phase == OtaPhaseView::Remove(OtaStatusView::NoPendingOta));
            assert(at == 2) by {
                assert(crate::ota::laws::follows(directory, steps, replies, 1));
                if at > 2 {
                    assert(crate::ota::laws::follows(directory, steps, replies, 2));
                }
            }
        }
    }
}

} // verus!
