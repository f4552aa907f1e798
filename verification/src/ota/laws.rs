//! What holds of whole updates, downloads and requests, over all their steps.

use vstd::arithmetic::power2::*;
use vstd::prelude::*;

use crate::data::AstarteType;
use crate::ota::download::{DownloadActionView, DownloadPhase, DownloadReply, DownloadView};
use crate::ota::handler::{HandlerActionView, HandlerPhaseView, HandlerReplyView};
use crate::ota::run::{
    DeployStageView, InstallStage, OtaActionView, OtaPhaseView, OtaReplyView, OtaStep,
    PendingStageView, RebootStage, DOWNLOAD_ATTEMPTS,
};
use crate::ota::status::{
    OtaErrorView, OtaRequestView, OtaStatusView, PersistentStateView,
};

verus! {

/// Whether the step after the one at a place follows from the reply to it.
pub open spec fn follows(
    directory: Seq<char>,
    steps: Seq<OtaStep>,
    replies: Seq<OtaReplyView>,
    at: int,
) -> bool {
    &&& steps[at].phase.accepts(replies[at])
    &&& steps[at + 1] == crate::ota::run::next_step(
        directory,
        steps[at].status,
        steps[at].phase,
        replies[at],
    )
}

/// Whether the steps are those of an update that got the replies.
pub open spec fn is_run(
    directory: Seq<char>,
    steps: Seq<OtaStep>,
    replies: Seq<OtaReplyView>,
) -> bool {
    &&& steps.len() == replies.len() + 1
    &&& forall|at: int|
        0 <= at < replies.len() ==> #[trigger] follows(directory, steps, replies, at)
}

/// Whether a step is one that an update can start with.
pub open spec fn starts(directory: Seq<char>, step: OtaStep) -> bool {
    exists|seen: OtaStatusView, from: OtaStatusView, data: Map<Seq<char>, AstarteType>|
        step == #[trigger] crate::ota::run::first_step(directory, seen, from, data)
}

/// How many replies an update can still get.
pub open spec fn rank(phase: OtaPhaseView) -> nat {
    match phase {
        OtaPhaseView::Acknowledge(_) => 34,
        OtaPhaseView::Announce(_) => 33,
        OtaPhaseView::Deploy(_, stage) => match stage {
            DeployStageView::Download(n) => (20 + 3 * (DOWNLOAD_ATTEMPTS - n)) as nat,
            DeployStageView::Report(n) => (19 + 3 * (DOWNLOAD_ATTEMPTS - n)) as nat,
            DeployStageView::Backoff(n) => (18 + 3 * (DOWNLOAD_ATTEMPTS - n)) as nat,
            DeployStageView::Info => 19,
            DeployStageView::Compatible(_) => 18,
            DeployStageView::BootSlot => 17,
            DeployStageView::Persist => 16,
            DeployStageView::Announce => 15,
        },
        OtaPhaseView::Install(_, stage) => match stage {
            InstallStage::Install => 14,
            InstallStage::Operation => 13,
            InstallStage::Completed => 12,
            InstallStage::Announce => 11,
        },
        OtaPhaseView::Reboot(_, stage) => match stage {
            RebootStage::Announce => 10,
            RebootStage::Delay => 9,
            RebootStage::Reboot => 8,
        },
        OtaPhaseView::Pending(stage) => match stage {
            PendingStageView::Exists => 7,
            PendingStageView::Read => 6,
            PendingStageView::BootSlot(_) => 5,
            PendingStageView::Primary(_) => 4,
            PendingStageView::Mark(_, _) => 3,
            PendingStageView::Clear(_) => 2,
        },
        OtaPhaseView::Remove(_) => 1,
        OtaPhaseView::Done => 0,
    }
}

proof fn lemma_step_kept(
    directory: Seq<char>,
    seen: OtaStatusView,
    phase: OtaPhaseView,
    reply: OtaReplyView,
)
    requires
        phase.wf(),
        phase.accepts(reply),
    ensures
        ({
            let next = crate::ota::run::next_step(directory, seen, phase, reply);
            &&& next.phase.wf()
            &&& rank(next.phase) < rank(phase)
            &&& next.action is Finish <==> next.phase is Done
        }),
{
}

/// A phase that a run is in can always be gone on from.
pub proof fn lemma_run_kept(
    directory: Seq<char>,
    steps: Seq<OtaStep>,
    replies: Seq<OtaReplyView>,
    at: int,
)
    requires
        is_run(directory, steps, replies),
        starts(directory, steps[0]),
        0 <= at < steps.len(),
    ensures
        steps[at].phase.wf(),
        rank(steps[at].phase) + at <= 34,
        steps[at].action is Finish <==> steps[at].phase is Done,
    decreases at,
{
    if at > 0 {
        lemma_run_kept(directory, steps, replies, at - 1);
        assert(follows(directory, steps, replies, at - 1));
        lemma_step_kept(
            directory,
            steps[at - 1].status,
            steps[at - 1].phase,
            replies[at - 1],
        );
    }
}

/// Every update comes to an end: it never gets more than 34 replies, and where
/// it has not ended it waits for one.
pub proof fn law_updates_end(
    directory: Seq<char>,
    steps: Seq<OtaStep>,
    replies: Seq<OtaReplyView>,
)
    requires
        is_run(directory, steps, replies),
        starts(directory, steps[0]),
    ensures
        replies.len() <= 34,
        steps.last().action is Finish || exists|reply: OtaReplyView| #[trigger]
            steps.last().phase.accepts(reply),
{
    lemma_run_kept(directory, steps, replies, steps.len() - 1);
    let phase = steps.last().phase;
    if !(phase is Done) {
        let reply = match phase {
            OtaPhaseView::Deploy(_, stage) => match stage {
                DeployStageView::Download(_) => OtaReplyView::Downloaded(Ok(())),
                DeployStageView::Info
                | DeployStageView::Compatible(_)
                | DeployStageView::BootSlot => OtaReplyView::Text(None),
                DeployStageView::Persist => OtaReplyView::Outcome(true),
                _ => OtaReplyView::Done,
            },
            OtaPhaseView::Install(_, stage) => match stage {
                InstallStage::Install | InstallStage::Operation => OtaReplyView::Outcome(true),
                InstallStage::Completed => OtaReplyView::Signal(None),
                InstallStage::Announce => OtaReplyView::Done,
            },
            OtaPhaseView::Reboot(_, stage) => match stage {
                RebootStage::Reboot => OtaReplyView::Outcome(true),
                _ => OtaReplyView::Done,
            },
            OtaPhaseView::Pending(stage) => match stage {
                PendingStageView::Exists => OtaReplyView::Outcome(true),
                PendingStageView::Read => OtaReplyView::State(None),
                PendingStageView::Clear(_) => OtaReplyView::Done,
                _ => OtaReplyView::Text(None),
            },
            _ => OtaReplyView::Done,
        };
        assert(phase.accepts(reply));
    }
}

/// When an update ends, others see the device as idle again, the file of the
/// image was removed, and the update has no pending state, has succeeded or has
/// failed. Only an update that starts from a reboot which was announced before
/// ends with it, and one that starts from an error fails with that error.
pub proof fn law_updates_end_idle(
    directory: Seq<char>,
    seen: OtaStatusView,
    from: OtaStatusView,
    data: Map<Seq<char>, AstarteType>,
    steps: Seq<OtaStep>,
    replies: Seq<OtaReplyView>,
    outcome: OtaStatusView,
)
    requires
        is_run(directory, steps, replies),
        steps[0] == crate::ota::run::first_step(directory, seen, from, data),
        steps.last().action == OtaActionView::Finish(outcome),
    ensures
        steps.last().status == OtaStatusView::Idle,
        ends_as(from, outcome),
        exists|i: int|
            0 <= i < steps.len() && (#[trigger] steps[i]).action == OtaActionView::RemoveFile(
                crate::ota::run::update_file(directory),
            ),
{
    lemma_outcome(directory, seen, from, data, steps, replies, steps.len() - 1);
    let last = steps.len() - 2;
    lemma_outcome(directory, seen, from, data, steps, replies, last);
    assert(follows(directory, steps, replies, last));
    assert(steps[last].action == OtaActionView::RemoveFile(
        crate::ota::run::update_file(directory),
    ));
}

/// Whether an update that starts from a status can end with an outcome.
pub open spec fn ends_as(from: OtaStatusView, outcome: OtaStatusView) -> bool {
    match from {
        OtaStatusView::Error(error, request) => outcome == crate::ota::run::failure(error, request),
        _ => {
            ||| outcome is NoPendingOta
            ||| outcome is Success
            ||| outcome is Failure
            ||| outcome is Rebooting && outcome == from
        },
    }
}

proof fn lemma_outcome(
    directory: Seq<char>,
    seen: OtaStatusView,
    from: OtaStatusView,
    data: Map<Seq<char>, AstarteType>,
    steps: Seq<OtaStep>,
    replies: Seq<OtaReplyView>,
    at: int,
)
    requires
        is_run(directory, steps, replies),
        steps[0] == crate::ota::run::first_step(directory, seen, from, data),
        0 <= at < steps.len(),
    ensures
        match steps[at].phase {
            OtaPhaseView::Remove(s) => {
                &&& ends_as(from, s)
                &&& steps[at].action == OtaActionView::RemoveFile(
                    crate::ota::run::update_file(directory),
                )
            },
            OtaPhaseView::Pending(PendingStageView::Clear(s)) => s is Success || s is Failure,
            _ => true,
        },
        from is Error ==> steps[at].phase is Remove || steps[at].phase is Done,
        match steps[at].action {
            OtaActionView::Finish(s) => {
                &&& steps[at].status is Idle
                &&& ends_as(from, s)
                &&& at > 0
                &&& steps[at - 1].phase is Remove
            },
            _ => true,
        },
    decreases at,
{
    if at > 0 {
        lemma_outcome(directory, seen, from, data, steps, replies, at - 1);
        assert(follows(directory, steps, replies, at - 1));
    }
}

/// How many of the steps download an image.
pub open spec fn downloads(steps: Seq<OtaStep>) -> nat
    decreases steps.len(),
{
    if steps.len() == 0 {
        0
    } else {
        downloads(steps.drop_last()) + (if steps.last().action is Download {
            1nat
        } else {
            0
        })
    }
}

/// How many downloads an update may still start.
spec fn downloads_left(phase: OtaPhaseView) -> nat {
    match phase {
        OtaPhaseView::Acknowledge(_) | OtaPhaseView::Announce(_) => DOWNLOAD_ATTEMPTS as nat,
        OtaPhaseView::Deploy(_, DeployStageView::Download(n)) => (DOWNLOAD_ATTEMPTS - n) as nat,
        OtaPhaseView::Deploy(_, DeployStageView::Report(n)) => (DOWNLOAD_ATTEMPTS - n) as nat,
        OtaPhaseView::Deploy(_, DeployStageView::Backoff(n)) => (DOWNLOAD_ATTEMPTS - n) as nat,
        _ => 0,
    }
}

proof fn lemma_downloads(
    directory: Seq<char>,
    steps: Seq<OtaStep>,
    replies: Seq<OtaReplyView>,
    at: int,
)
    requires
        is_run(directory, steps, replies),
        starts(directory, steps[0]),
        0 <= at < steps.len(),
    ensures
        downloads(steps.take(at + 1)) + downloads_left(steps[at].phase) <= DOWNLOAD_ATTEMPTS,
    decreases at,
{
    lemma_run_kept(directory, steps, replies, at);
    assert(steps.take(at + 1).drop_last() =~= steps.take(at));
    if at > 0 {
        lemma_downloads(directory, steps, replies, at - 1);
        lemma_run_kept(directory, steps, replies, at - 1);
        assert(follows(directory, steps, replies, at - 1));
    } else {
        assert(steps.take(0) =~= Seq::empty());
    }
}

/// An image is downloaded at most [`DOWNLOAD_ATTEMPTS`] times in one update,
/// whatever the downloads come to.
pub proof fn law_downloads_are_bounded(
    directory: Seq<char>,
    steps: Seq<OtaStep>,
    replies: Seq<OtaReplyView>,
)
    requires
        is_run(directory, steps, replies),
        starts(directory, steps[0]),
    ensures
        downloads(steps) <= DOWNLOAD_ATTEMPTS,
{
    lemma_downloads(directory, steps, replies, steps.len() - 1);
    assert(steps.take(steps.len() as int) =~= steps);
}

/// After a failed download that is not the last, the failure is reported with
/// the request, and the time that then passes is twice that of the failure
/// before: 2, 4, 8 and 16 seconds.
pub proof fn law_downloads_back_off(
    directory: Seq<char>,
    seen: OtaStatusView,
    request: OtaRequestView,
    attempt: u32,
    error: OtaErrorView,
)
    requires
        1 <= attempt < DOWNLOAD_ATTEMPTS,
    ensures
        ({
            let failed = crate::ota::run::next_step(
                directory,
                seen,
                OtaPhaseView::Deploy(request, DeployStageView::Download(attempt)),
                OtaReplyView::Downloaded(Err(error)),
            );
            let reported = crate::ota::run::next_step(
                directory,
                failed.status,
                failed.phase,
                OtaReplyView::Done,
            );
            let waited = crate::ota::run::next_step(
                directory,
                reported.status,
                reported.phase,
                OtaReplyView::Done,
            );
            &&& failed.action == OtaActionView::Publish(OtaStatusView::Error(error, request))
            &&& reported.action == OtaActionView::Sleep(pow2(attempt as nat) as u64)
            &&& pow2(attempt as nat) == (if attempt == 1 {
                2
            } else {
                2 * pow2((attempt - 1) as nat)
            })
            &&& waited.phase == OtaPhaseView::Deploy(
                request,
                DeployStageView::Download((attempt + 1) as u32),
            )
            &&& waited.action == crate::ota::run::download(directory, request)
        }),
{
    lemma2_to64();
    lemma_pow2_unfold(attempt as nat);
}

/// The request that an update is about before the device reboots.
pub open spec fn phase_request(phase: OtaPhaseView) -> Option<OtaRequestView> {
    match phase {
        OtaPhaseView::Acknowledge(r) => Some(r),
        OtaPhaseView::Announce(r) => Some(r),
        OtaPhaseView::Deploy(r, _) => Some(r),
        OtaPhaseView::Install(r, _) => Some(r),
        OtaPhaseView::Reboot(r, _) => Some(r),
        _ => None,
    }
}

pub proof fn lemma_request_kept(
    directory: Seq<char>,
    seen: OtaStatusView,
    data: Map<Seq<char>, AstarteType>,
    steps: Seq<OtaStep>,
    replies: Seq<OtaReplyView>,
    request: OtaRequestView,
    at: int,
)
    requires
        is_run(directory, steps, replies),
        steps[0] == crate::ota::run::first_step(directory, seen, OtaStatusView::Idle, data),
        crate::ota::run::acknowledged(data) == OtaStatusView::Acknowledged(request),
        0 <= at < steps.len(),
    ensures
        steps[at].phase.wf(),
        phase_request(steps[at].phase) matches Some(r) ==> r == request,
        match steps[at].action {
            OtaActionView::Publish(status) => status.request() == Some(request),
            OtaActionView::Download { url, uuid, .. } => url == request.url && uuid == request.uuid,
            OtaActionView::WriteState(state) => state.uuid == request.uuid,
            _ => true,
        },
    decreases at,
{
    if at > 0 {
        lemma_request_kept(directory, seen, data, steps, replies, request, at - 1);
        assert(follows(directory, steps, replies, at - 1));
        lemma_step_kept(
            directory,
            steps[at - 1].status,
            steps[at - 1].phase,
            replies[at - 1],
        );
    }
}

/// Everything that an update reports, downloads and keeps across the reboot is
/// about the request it was started with.
pub proof fn law_updates_keep_their_request(
    directory: Seq<char>,
    seen: OtaStatusView,
    data: Map<Seq<char>, AstarteType>,
    steps: Seq<OtaStep>,
    replies: Seq<OtaReplyView>,
    request: OtaRequestView,
)
    requires
        is_run(directory, steps, replies),
        steps[0] == crate::ota::run::first_step(directory, seen, OtaStatusView::Idle, data),
        crate::ota::run::acknowledged(data) == OtaStatusView::Acknowledged(request),
    ensures
        forall|at: int|
            0 <= at < steps.len() ==> match (#[trigger] steps[at]).action {
                OtaActionView::Publish(status) => status.request() == Some(request),
                OtaActionView::Download { url, uuid, .. } => url == request.url && uuid
                    == request.uuid,
                OtaActionView::WriteState(state) => state.uuid == request.uuid,
                _ => true,
            },
{
    assert forall|at: int| 0 <= at < steps.len() implies match (#[trigger] steps[at]).action {
        OtaActionView::Publish(status) => status.request() == Some(request),
        OtaActionView::Download { url, uuid, .. } => url == request.url && uuid == request.uuid,
        OtaActionView::WriteState(state) => state.uuid == request.uuid,
        _ => true,
    } by {
        lemma_request_kept(directory, seen, data, steps, replies, request, at);
    }
}

/// The status that others see while an update that was started from a request
/// is in a phase.
pub open spec fn seen_status(phase: OtaPhaseView, status: OtaStatusView) -> bool {
    match phase {
        OtaPhaseView::Acknowledge(_) => status is Init,
        OtaPhaseView::Announce(r) => status == OtaStatusView::Acknowledged(r),
        OtaPhaseView::Deploy(r, _) => status == OtaStatusView::Downloading(r, 0),
        OtaPhaseView::Install(r, _) => status == OtaStatusView::Deploying(r),
        OtaPhaseView::Reboot(r, _) => status == OtaStatusView::Deployed(r),
        OtaPhaseView::Pending(_) => status is Rebooted,
        OtaPhaseView::Remove(s) => status == s,
        OtaPhaseView::Done => status is Idle,
    }
}

/// While an update that was started from a request is in progress, others see
/// how far it has come.
pub proof fn law_others_see_the_progress(
    directory: Seq<char>,
    seen: OtaStatusView,
    data: Map<Seq<char>, AstarteType>,
    steps: Seq<OtaStep>,
    replies: Seq<OtaReplyView>,
    at: int,
)
    requires
        is_run(directory, steps, replies),
        steps[0] == crate::ota::run::first_step(directory, seen, OtaStatusView::Idle, data),
        0 <= at < steps.len(),
    ensures
        seen_status(steps[at].phase, steps[at].status),
    decreases at,
{
    if at > 0 {
        law_others_see_the_progress(directory, seen, data, steps, replies, at - 1);
        lemma_run_kept(directory, steps, replies, at - 1);
        assert(follows(directory, steps, replies, at - 1));
    }
}

/// Whether the reply at a place says that the bundle and the system are
/// compatible.
pub open spec fn found_compatible(
    steps: Seq<OtaStep>,
    replies: Seq<OtaReplyView>,
    at: int,
) -> bool {
    &&& steps[at].action is Compatible
    &&& steps[at].phase matches OtaPhaseView::Deploy(_, DeployStageView::Compatible(bundle))
    &&& replies[at] == OtaReplyView::Text(Some(bundle))
}

/// Whether the reply at a place says that the state was kept.
pub open spec fn state_written(steps: Seq<OtaStep>, replies: Seq<OtaReplyView>, at: int) -> bool {
    steps[at].action is WriteState && replies[at] == OtaReplyView::Outcome(true)
}

/// Whether the reply at a place says that the installation succeeded.
pub open spec fn installed(steps: Seq<OtaStep>, replies: Seq<OtaReplyView>, at: int) -> bool {
    steps[at].action is ReceiveCompleted && replies[at] == OtaReplyView::Signal(Some(0))
}

proof fn lemma_order(
    directory: Seq<char>,
    seen: OtaStatusView,
    data: Map<Seq<char>, AstarteType>,
    steps: Seq<OtaStep>,
    replies: Seq<OtaReplyView>,
    at: int,
)
    requires
        is_run(directory, steps, replies),
        steps[0] == crate::ota::run::first_step(directory, seen, OtaStatusView::Idle, data),
        0 <= at < steps.len(),
    ensures
        steps[at].phase.wf(),
        rank(steps[at].phase) < 8 || phase_request(steps[at].phase) is Some,
        2 <= rank(steps[at].phase) <= 17 ==> exists|i: int|
            0 <= i < at && #[trigger] found_compatible(steps, replies, i),
        2 <= rank(steps[at].phase) <= 15 ==> exists|i: int|
            0 <= i < at && #[trigger] state_written(steps, replies, i),
        2 <= rank(steps[at].phase) <= 11 ==> exists|i: int|
            0 <= i < at && #[trigger] installed(steps, replies, i),
        rank(steps[at].phase) == 18 ==> steps[at].action is Compatible,
        rank(steps[at].phase) == 16 ==> steps[at].action is WriteState,
        rank(steps[at].phase) == 12 ==> steps[at].action is ReceiveCompleted,
        steps[at].action is InstallBundle ==> rank(steps[at].phase) == 14,
        steps[at].action is Reboot ==> rank(steps[at].phase) == 8,
    decreases at,
{
    if at > 0 {
        lemma_order(directory, seen, data, steps, replies, at - 1);
        assert(follows(directory, steps, replies, at - 1));
        lemma_step_kept(
            directory,
            steps[at - 1].status,
            steps[at - 1].phase,
            replies[at - 1],
        );
        let before = rank(steps[at - 1].phase);
        let now = rank(steps[at].phase);
        if 2 <= now <= 17 {
            if before == 18 {
                assert(found_compatible(steps, replies, at - 1));
            } else {
                let i = choose|i: int|
                    0 <= i < at - 1 && #[trigger] found_compatible(steps, replies, i);
                assert(found_compatible(steps, replies, i));
            }
        }
        if 2 <= now <= 15 {
            if before == 16 {
                assert(state_written(steps, replies, at - 1));
            } else {
                let i = choose|i: int|
                    0 <= i < at - 1 && #[trigger] state_written(steps, replies, i);
                assert(state_written(steps, replies, i));
            }
        }
        if 2 <= now <= 11 {
            if before == 12 {
                assert(installed(steps, replies, at - 1));
            } else {
                let i = choose|i: int| 0 <= i < at - 1 && #[trigger] installed(steps, replies, i);
                assert(installed(steps, replies, i));
            }
        }
    }
}

/// An update that starts from a request installs nothing unless the bundle
/// was found compatible with the system and the booted slot was kept before.
pub proof fn law_only_compatible_bundles_are_installed(
    directory: Seq<char>,
    seen: OtaStatusView,
    data: Map<Seq<char>, AstarteType>,
    steps: Seq<OtaStep>,
    replies: Seq<OtaReplyView>,
    at: int,
)
    requires
        is_run(directory, steps, replies),
        steps[0] == crate::ota::run::first_step(directory, seen, OtaStatusView::Idle, data),
        0 <= at < steps.len(),
        steps[at].action is InstallBundle,
    ensures
        exists|i: int| 0 <= i < at && #[trigger] found_compatible(steps, replies, i),
        exists|i: int| 0 <= i < at && #[trigger] state_written(steps, replies, i),
{
    lemma_order(directory, seen, data, steps, replies, at);
}

/// An update that starts from a request reboots the device only after the
/// installation reported success.
pub proof fn law_reboots_follow_installations(
    directory: Seq<char>,
    seen: OtaStatusView,
    data: Map<Seq<char>, AstarteType>,
    steps: Seq<OtaStep>,
    replies: Seq<OtaReplyView>,
    at: int,
)
    requires
        is_run(directory, steps, replies),
        steps[0] == crate::ota::run::first_step(directory, seen, OtaStatusView::Idle, data),
        0 <= at < steps.len(),
        steps[at].action is Reboot,
    ensures
        exists|i: int| 0 <= i < at && #[trigger] installed(steps, replies, i),
{
    lemma_order(directory, seen, data, steps, replies, at);
}

/// What the check of a kept update comes to when every slot can be read: it
/// succeeds exactly when the device booted another slot than before and the
/// slot that was marked is the primary one. The state is dropped either way.
pub proof fn law_kept_update_succeeds(
    directory: Seq<char>,
    seen: OtaStatusView,
    state: PersistentStateView,
    booted: Seq<char>,
    primary: Seq<char>,
    marked: Seq<char>,
)
    ensures
        ({
            let checked = crate::ota::run::next_step(
                directory,
                seen,
                OtaPhaseView::Pending(PendingStageView::BootSlot(state)),
                OtaReplyView::Text(Some(booted)),
            );
            let named = crate::ota::run::next_step(
                directory,
                checked.status,
                checked.phase,
                OtaReplyView::Text(Some(primary)),
            );
            let done = if state.slot == booted {
                checked
            } else {
                crate::ota::run::next_step(
                    directory,
                    named.status,
                    named.phase,
                    OtaReplyView::Text(Some(marked)),
                )
            };
            let outcome = if state.slot == booted {
                crate::ota::run::failure(
                    OtaErrorView::SystemRollback("Unable to switch slot"@),
                    crate::ota::run::kept_request(state),
                )
            } else if primary == marked {
                OtaStatusView::Success(crate::ota::run::kept_request(state))
            } else {
                crate::ota::run::failure(
                    OtaErrorView::Internal("Unable to mark slot"@),
                    crate::ota::run::kept_request(state),
                )
            };
            &&& done.action == OtaActionView::ClearState
            &&& done.phase == OtaPhaseView::Pending(PendingStageView::Clear(outcome))
            &&& state.slot != booted ==> checked.action == OtaActionView::GetPrimary
            &&& state.slot != booted ==> named.action == (OtaActionView::Mark {
                state: "good"@,
                slot: primary,
            })
        }),
{
}

proof fn lemma_kept_state(
    directory: Seq<char>,
    seen: OtaStatusView,
    data: Map<Seq<char>, AstarteType>,
    steps: Seq<OtaStep>,
    replies: Seq<OtaReplyView>,
    state: PersistentStateView,
    at: int,
)
    requires
        is_run(directory, steps, replies),
        steps[0] == crate::ota::run::first_step(directory, seen, OtaStatusView::Rebooted, data),
        forall|i: int|
            0 <= i < replies.len() && (#[trigger] replies[i]) is State ==> replies[i]
                == OtaReplyView::State(Some(state)),
        0 <= at < steps.len(),
    ensures
        match steps[at].phase {
            OtaPhaseView::Pending(stage) => match stage {
                PendingStageView::Exists | PendingStageView::Read => true,
                PendingStageView::BootSlot(s) => s == state,
                PendingStageView::Primary(s) => s == state,
                PendingStageView::Mark(s, _) => s == state,
                PendingStageView::Clear(status) => status.request() == Some(
                    crate::ota::run::kept_request(state),
                ),
            },
            OtaPhaseView::Remove(status) => status is NoPendingOta || status.request() == Some(
                crate::ota::run::kept_request(state),
            ),
            OtaPhaseView::Done => true,
            _ => false,
        },
        match steps[at].action {
            OtaActionView::Finish(status) => status is NoPendingOta || status.request() == Some(
                crate::ota::run::kept_request(state),
            ),
            _ => true,
        },
        steps[at].phase is Pending || steps[at].phase is Remove || steps[at].phase is Done,
        steps[at].phase.wf(),
    decreases at,
{
    if at > 0 {
        lemma_kept_state(directory, seen, data, steps, replies, state, at - 1);
        assert(follows(directory, steps, replies, at - 1));
        lemma_step_kept(
            directory,
            steps[at - 1].status,
            steps[at - 1].phase,
            replies[at - 1],
        );
    }
}

/// The outcome of an update is reported across the reboot: where the state that
/// an update kept is read back after the reboot, the check ends with a status
/// about the identifier of the request that the update was started with,
/// unless no state is found.
pub proof fn law_outcome_survives_reboot(
    directory: Seq<char>,
    seen: OtaStatusView,
    data: Map<Seq<char>, AstarteType>,
    request: OtaRequestView,
    before: Seq<OtaStep>,
    before_replies: Seq<OtaReplyView>,
    written: int,
    state: PersistentStateView,
    seen_after: OtaStatusView,
    after: Seq<OtaStep>,
    after_replies: Seq<OtaReplyView>,
    outcome: OtaStatusView,
)
    requires
        is_run(directory, before, before_replies),
        before[0] == crate::ota::run::first_step(directory, seen, OtaStatusView::Idle, data),
        crate::ota::run::acknowledged(data) == OtaStatusView::Acknowledged(request),
        0 <= written < before.len(),
        before[written].action == OtaActionView::WriteState(state),
        is_run(directory, after, after_replies),
        after[0] == crate::ota::run::first_step(
            directory,
            seen_after,
            OtaStatusView::Rebooted,
            Map::empty(),
        ),
        forall|i: int|
            0 <= i < after_replies.len() && (#[trigger] after_replies[i]) is State
                ==> after_replies[i] == OtaReplyView::State(Some(state)),
        after.last().action == OtaActionView::Finish(outcome),
    ensures
        outcome is NoPendingOta || outcome.request() == Some(
            OtaRequestView { uuid: request.uuid, url: Seq::empty() },
        ),
{
    lemma_request_kept(directory, seen, data, before, before_replies, request, written);
    lemma_kept_state(
        directory,
        seen_after,
        Map::empty(),
        after,
        after_replies,
        state,
        after.len() - 1,
    );
}

/// A request to update while another update is in progress is refused: an
/// event is published that is about the request, the request ends with
/// [`OtaErrorView::UpdateAlreadyInProgress`], and whether the update in
/// progress can be cancelled stays as it was.
pub proof fn law_one_update_at_a_time(
    cancellable: bool,
    uuid: u128,
    current: OtaStatusView,
    sent: Result<(), OtaErrorView>,
)
    requires
        !(current is Idle),
    ensures
        ({
            let refused = crate::ota::handler::next_step(
                cancellable,
                HandlerPhaseView::UpdateStatus(uuid),
                HandlerReplyView::Status(Some(current)),
            );
            let ended = crate::ota::handler::next_step(
                refused.cancellable,
                refused.phase,
                HandlerReplyView::Sent(sent),
            );
            &&& refused.action matches HandlerActionView::Publish(status)
            &&& status.request() matches Some(request)
            &&& request.uuid == uuid
            &&& ended.cancellable == cancellable
            &&& ended.action == HandlerActionView::Finish(
                Err(OtaErrorView::UpdateAlreadyInProgress),
            )
        }),
{
}

/// Whether the status is that of an update with the identifier.
pub open spec fn in_progress(status: Option<OtaStatusView>, uuid: u128) -> bool {
    match status {
        Some(current) => match current.request() {
            Some(request) => request.uuid == uuid,
            None => false,
        },
        None => false,
    }
}

/// Whether a reply in a phase makes the device start an update: one is asked
/// for, and none is known to be in progress.
pub open spec fn starts_update(phase: HandlerPhaseView, reply: HandlerReplyView) -> bool {
    phase is UpdateStatus && (reply == HandlerReplyView::Status(None) || reply
        == HandlerReplyView::Status(Some(OtaStatusView::Idle)))
}

/// A cancellation token comes only with an update that is started: whatever else
/// the device does for a request, what could not be cancelled still cannot, and
/// an update is started only while none is known to be in progress.
pub proof fn law_tokens_come_with_updates(
    cancellable: bool,
    phase: HandlerPhaseView,
    reply: HandlerReplyView,
)
    requires
        phase.accepts(reply),
    ensures
        ({
            let next = crate::ota::handler::next_step(cancellable, phase, reply);
            &&& next.action is StartUpdate <==> starts_update(phase, reply)
            &&& next.cancellable ==> cancellable || next.action is StartUpdate
        }),
{
}

/// Whether a cancellation token is kept after steps of the handling of any
/// requests, each a phase and the reply in it.
pub open spec fn after_handling(
    cancellable: bool,
    handled: Seq<(HandlerPhaseView, HandlerReplyView)>,
) -> bool
    decreases handled.len(),
{
    if handled.len() == 0 {
        cancellable
    } else {
        crate::ota::handler::next_step(
            after_handling(cancellable, handled.drop_last()),
            handled.last().0,
            handled.last().1,
        ).cancellable
    }
}

/// Whether the steps are ones that no update is started by.
pub open spec fn start_no_update(handled: Seq<(HandlerPhaseView, HandlerReplyView)>) -> bool {
    forall|i: int|
        0 <= i < handled.len() ==> (#[trigger] handled[i]).0.accepts(handled[i].1)
            && !starts_update(handled[i].0, handled[i].1)
}

proof fn lemma_no_token(handled: Seq<(HandlerPhaseView, HandlerReplyView)>)
    requires
        start_no_update(handled),
    ensures
        !after_handling(false, handled),
    decreases handled.len(),
{
    if handled.len() > 0 {
        let rest = handled.drop_last();
        assert forall|i: int| 0 <= i < rest.len() implies (#[trigger] rest[i]).0.accepts(rest[i].1)
            && !starts_update(rest[i].0, rest[i].1) by {
            assert(rest[i] == handled[i]);
        }
        lemma_no_token(rest);
        let last = handled[handled.len() - 1];
        law_tokens_come_with_updates(false, last.0, last.1);
    }
}

/// An update that is being deployed cannot be stopped: once its deployment was
/// reported, a request to cancel cancels nothing, whatever the device did for
/// other requests in between, as long as no update was started. While the
/// update is in progress the request is answered with an error.
pub proof fn law_deployed_updates_are_not_cancelled(
    cancellable: bool,
    request: OtaRequestView,
    handled: Seq<(HandlerPhaseView, HandlerReplyView)>,
    uuid: u128,
    status: Option<OtaStatusView>,
)
    requires
        start_no_update(handled),
    ensures
        ({
            let reported = crate::ota::handler::next_step(
                cancellable,
                HandlerPhaseView::UpdateReport(OtaStatusView::Deploying(request)),
                HandlerReplyView::Sent(Ok(())),
            );
            let answered = crate::ota::handler::next_step(
                after_handling(reported.cancellable, handled),
                HandlerPhaseView::CancelStatus(uuid),
                HandlerReplyView::Status(status),
            );
            &&& !(answered.action is CancelUpdate)
            &&& !answered.cancellable
            &&& in_progress(status, uuid) ==> answered.action == HandlerActionView::Publish(
                crate::ota::handler::answer(
                    OtaErrorView::Internal("Unable to cancel OTA request"@),
                    uuid,
                ),
            )
        }),
{
    lemma_no_token(handled);
}

/// A request to cancel cancels an update exactly when that update is the one in
/// progress and its token is kept; the token is then gone, so that a second
/// request cancels nothing. What is published is always about the identifier
/// that was asked for.
pub proof fn law_cancellation(
    cancellable: bool,
    uuid: u128,
    status: Option<OtaStatusView>,
    again: Option<OtaStatusView>,
)
    ensures
        ({
            let asked = crate::ota::handler::next_step(
                cancellable,
                HandlerPhaseView::CancelStatus(uuid),
                HandlerReplyView::Status(status),
            );
            let asked_again = crate::ota::handler::next_step(
                asked.cancellable,
                HandlerPhaseView::CancelStatus(uuid),
                HandlerReplyView::Status(again),
            );
            let cancelled = crate::ota::handler::next_step(
                asked.cancellable,
                asked.phase,
                HandlerReplyView::Done,
            );
            &&& asked.action is CancelUpdate <==> (cancellable && in_progress(status, uuid))
            &&& asked.action is CancelUpdate ==> !asked.cancellable && !(
            asked_again.action is CancelUpdate)
            &&& asked.action is CancelUpdate ==> cancelled.action == HandlerActionView::Publish(
                crate::ota::handler::answer(OtaErrorView::Cancelled, uuid),
            )
            &&& asked.action is CancelUpdate || (asked.action matches HandlerActionView::Publish(
                answer,
            ) && answer.request() matches Some(r) && r.uuid == uuid)
        }),
{
}

/// How a download stands after chunks of the given lengths came and were
/// written.
pub open spec fn after_chunks(
    download: DownloadView,
    phase: DownloadPhase,
    chunks: Seq<u64>,
) -> DownloadPhase
    decreases chunks.len(),
{
    if chunks.len() == 0 {
        phase
    } else {
        let before = after_chunks(download, phase, chunks.drop_last());
        let came = crate::ota::download::next_step(
            download,
            before,
            DownloadReply::Chunk(Some(chunks.last())),
        ).0;
        let written = crate::ota::download::next_step(
            download,
            came,
            DownloadReply::Outcome(true),
        ).0;
        crate::ota::download::next_step(download, written, DownloadReply::Done).0
    }
}

/// The sum of the lengths.
pub open spec fn total_length(chunks: Seq<u64>) -> nat
    decreases chunks.len(),
{
    if chunks.len() == 0 {
        0
    } else {
        total_length(chunks.drop_last()) + chunks.last() as nat
    }
}

proof fn lemma_chunks(download: DownloadView, total: u64, chunks: Seq<u64>)
    requires
        0 < total,
    ensures
        ({
            let length = total_length(chunks);
            after_chunks(download, DownloadPhase::Receive { total, downloaded: 0 }, chunks) == (
            DownloadPhase::Receive {
                total,
                downloaded: (if length < total {
                    length as u64
                } else {
                    total
                }),
            })
        }),
    decreases chunks.len(),
{
    if chunks.len() > 0 {
        lemma_chunks(download, total, chunks.drop_last());
    }
}

/// A download whose chunks all come and are written succeeds exactly when they
/// hold at least as many bytes as the response announced.
pub proof fn law_downloads_are_complete(download: DownloadView, total: u64, chunks: Seq<u64>)
    requires
        0 < total,
    ensures
        ({
            let received = after_chunks(
                download,
                DownloadPhase::Receive { total, downloaded: 0 },
                chunks,
            );
            let action = crate::ota::download::next_step(
                download,
                received,
                DownloadReply::End,
            ).1;
            action == DownloadActionView::Finish(
                if total_length(chunks) >= total {
                    Ok(())
                } else {
                    Err(OtaErrorView::Network("Unable to download file"@))
                },
            )
        }),
{
    lemma_chunks(download, total, chunks);
}

/// The progress that a download reports is 100 once everything came, and 0
/// before.
pub proof fn law_progress_is_all_or_nothing(
    download: DownloadView,
    total: u64,
    downloaded: u64,
    chunk: u64,
)
    requires
        0 < total,
        downloaded <= total,
    ensures
        ({
            let (phase, action) = crate::ota::download::next_step(
                download,
                DownloadPhase::Write { total, downloaded, chunk },
                DownloadReply::Outcome(true),
            );
            action == DownloadActionView::Publish(
                OtaStatusView::Downloading(
                    OtaRequestView { uuid: download.request_uuid, url: Seq::empty() },
                    if downloaded + chunk >= total {
                        100
                    } else {
                        0
                    },
                ),
            )
        }),
{
    crate::ota::download::lemma_percentage(
        total,
        crate::ota::download::received(total, downloaded, chunk),
    );
}

/// The file that an action reads or writes, where it is about the file of the
/// image.
pub open spec fn image_file(action: OtaActionView) -> Option<Seq<char>> {
    match action {
        OtaActionView::Download { path, .. } => Some(path),
        OtaActionView::BundleInfo(path) => Some(path),
        OtaActionView::RemoveFile(path) => Some(path),
        _ => None,
    }
}

/// Whether a path is that of the file `update.bin` in a directory.
pub open spec fn is_update_file(directory: Seq<char>, path: Seq<char>) -> bool {
    let name = seq!['u', 'p', 'd', 'a', 't', 'e', '.', 'b', 'i', 'n'];
    let separated = directory.len() > 0 && directory.last() != '/';
    &&& path.len() == directory.len() + name.len() + (if separated {
        1int
    } else {
        0
    })
    &&& forall|i: int| 0 <= i < directory.len() ==> #[trigger] path[i] == directory[i]
    &&& separated ==> path[directory.len() as int] == '/'
    &&& path.skip(path.len() - name.len()) == name
}

proof fn lemma_update_file(directory: Seq<char>)
    ensures
        is_update_file(directory, crate::ota::run::update_file(directory)),
{
    reveal_strlit("update.bin");
    reveal_strlit("/");
    let name = seq!['u', 'p', 'd', 'a', 't', 'e', '.', 'b', 'i', 'n'];
    let path = crate::ota::run::update_file(directory);
    assert("update.bin"@ =~= name);
    assert(path.skip(path.len() - name.len()) =~= name);
}

/// The image that is checked is the image that was downloaded, and it is the
/// one that is removed: every action of an update that is about a file is about
/// the file `update.bin` in the download directory.
pub proof fn law_one_image_file(
    directory: Seq<char>,
    steps: Seq<OtaStep>,
    replies: Seq<OtaReplyView>,
)
    requires
        is_run(directory, steps, replies),
        starts(directory, steps[0]),
    ensures
        forall|i: int|
            0 <= i < steps.len() ==> match image_file((#[trigger] steps[i]).action) {
                Some(path) => is_update_file(directory, path),
                None => true,
            },
        forall|i: int, j: int|
            0 <= i < steps.len() && 0 <= j < steps.len() ==> match (
                image_file((#[trigger] steps[i]).action),
                image_file((#[trigger] steps[j]).action),
            ) {
                (Some(one), Some(other)) => one == other,
                _ => true,
            },
{
    lemma_update_file(directory);
    assert forall|i: int| 0 <= i < steps.len() implies match image_file(
        (#[trigger] steps[i]).action,
    ) {
        Some(path) => path == crate::ota::run::update_file(directory),
        None => true,
    } by {
        if i > 0 {
            lemma_run_kept(directory, steps, replies, i - 1);
            assert(follows(directory, steps, replies, i - 1));
        }
    }
}

/// Whether a reply says that a download succeeded.
pub open spec fn download_succeeded(reply: OtaReplyView) -> bool {
    match reply {
        OtaReplyView::Downloaded(result) => result is Ok,
        _ => false,
    }
}

/// What came directly before a step, as far as the phase of the step tells.
pub proof fn lemma_before(
    directory: Seq<char>,
    seen: OtaStatusView,
    data: Map<Seq<char>, AstarteType>,
    steps: Seq<OtaStep>,
    replies: Seq<OtaReplyView>,
    request: OtaRequestView,
    at: int,
)
    requires
        is_run(directory, steps, replies),
        steps[0] == crate::ota::run::first_step(directory, seen, OtaStatusView::Idle, data),
        crate::ota::run::acknowledged(data) == OtaStatusView::Acknowledged(request),
        0 <= at < steps.len(),
    ensures
        match steps[at].phase {
            OtaPhaseView::Acknowledge(_) => at == 0 && steps[at].action
                == OtaActionView::Publish(OtaStatusView::Acknowledged(request)),
            OtaPhaseView::Announce(_) => {
                &&& at == 1
                &&& steps[at - 1].phase is Acknowledge
                &&& steps[at].action == OtaActionView::Publish(
                    OtaStatusView::Downloading(request, 0),
                )
            },
            OtaPhaseView::Deploy(_, DeployStageView::Download(n)) => {
                &&& at > 0
                &&& steps[at].action matches OtaActionView::Download { .. }
                &&& if n == 1 {
                    steps[at - 1].phase is Announce
                } else {
                    steps[at - 1].phase == OtaPhaseView::Deploy(
                        request,
                        DeployStageView::Backoff((n - 1) as u32),
                    )
                }
            },
            OtaPhaseView::Deploy(_, DeployStageView::Report(n)) => {
                &&& at > 0
                &&& steps[at - 1].phase == OtaPhaseView::Deploy(
                    request,
                    DeployStageView::Download(n),
                )
                &&& replies[at - 1] matches OtaReplyView::Downloaded(Err(error))
                &&& steps[at].action == OtaActionView::Publish(
                    OtaStatusView::Error(error, request),
                )
            },
            OtaPhaseView::Deploy(_, DeployStageView::Backoff(n)) => {
                &&& at > 0
                &&& steps[at - 1].phase == OtaPhaseView::Deploy(request, DeployStageView::Report(n))
                &&& steps[at].action == OtaActionView::Sleep(pow2(n as nat) as u64)
            },
            OtaPhaseView::Deploy(_, DeployStageView::Info) => {
                &&& at > 0
                &&& steps[at - 1].action is Download
                &&& download_succeeded(replies[at - 1])
                &&& steps[at].action is BundleInfo
            },
            OtaPhaseView::Deploy(_, DeployStageView::Compatible(bundle)) => {
                &&& at > 0
                &&& steps[at - 1].phase == OtaPhaseView::Deploy(request, DeployStageView::Info)
                &&& replies[at - 1] == OtaReplyView::Text(Some(bundle))
                &&& steps[at].action is Compatible
            },
            OtaPhaseView::Deploy(_, DeployStageView::BootSlot) => {
                &&& at > 0
                &&& steps[at - 1].phase matches OtaPhaseView::Deploy(
                    _,
                    DeployStageView::Compatible(bundle),
                )
                &&& replies[at - 1] == OtaReplyView::Text(Some(bundle))
                &&& steps[at].action is BootSlot
            },
            OtaPhaseView::Deploy(_, DeployStageView::Persist) => {
                &&& at > 0
                &&& steps[at - 1].phase == OtaPhaseView::Deploy(request, DeployStageView::BootSlot)
                &&& steps[at].action matches OtaActionView::WriteState(state)
                &&& state.uuid == request.uuid
                &&& replies[at - 1] == OtaReplyView::Text(Some(state.slot))
            },
            OtaPhaseView::Deploy(_, DeployStageView::Announce) => {
                &&& at > 0
                &&& steps[at - 1].phase == OtaPhaseView::Deploy(request, DeployStageView::Persist)
                &&& replies[at - 1] == OtaReplyView::Outcome(true)
                &&& steps[at].action == OtaActionView::Publish(OtaStatusView::Deploying(request))
            },
            OtaPhaseView::Install(_, InstallStage::Install) => {
                &&& at > 0
                &&& steps[at - 1].phase == OtaPhaseView::Deploy(request, DeployStageView::Announce)
                &&& steps[at].action == OtaActionView::InstallBundle(directory)
            },
            OtaPhaseView::Install(_, InstallStage::Operation) => {
                &&& at > 0
                &&& steps[at - 1].phase == OtaPhaseView::Install(request, InstallStage::Install)
                &&& replies[at - 1] == OtaReplyView::Outcome(true)
                &&& steps[at].action is Operation
            },
            OtaPhaseView::Install(_, InstallStage::Completed) => {
                &&& at > 0
                &&& steps[at - 1].phase == OtaPhaseView::Install(request, InstallStage::Operation)
                &&& replies[at - 1] == OtaReplyView::Outcome(true)
                &&& steps[at].action is ReceiveCompleted
            },
            OtaPhaseView::Install(_, InstallStage::Announce) => {
                &&& at > 0
                &&& steps[at - 1].phase == OtaPhaseView::Install(request, InstallStage::Completed)
                &&& replies[at - 1] == OtaReplyView::Signal(Some(0))
                &&& steps[at].action == OtaActionView::Publish(OtaStatusView::Deployed(request))
            },
            OtaPhaseView::Reboot(_, RebootStage::Announce) => {
                &&& at > 0
                &&& steps[at - 1].phase == OtaPhaseView::Install(request, InstallStage::Announce)
                &&& steps[at].action == OtaActionView::Publish(OtaStatusView::Rebooting(request))
            },
            OtaPhaseView::Reboot(_, RebootStage::Delay) => {
                &&& at > 0
                &&& steps[at - 1].phase == OtaPhaseView::Reboot(request, RebootStage::Announce)
                &&& steps[at].action == OtaActionView::Sleep(5)
            },
            OtaPhaseView::Reboot(_, RebootStage::Reboot) => {
                &&& at > 0
                &&& steps[at - 1].phase == OtaPhaseView::Reboot(request, RebootStage::Delay)
                &&& steps[at].action is Reboot
            },
            OtaPhaseView::Pending(stage) => {
                &&& at > 0
                &&& stage is Exists ==> steps[at - 1].action is Reboot && replies[at - 1]
                    == OtaReplyView::Outcome(true)
                &&& !(steps[at].action is Download || steps[at].action is InstallBundle
                    || steps[at].action is Reboot || steps[at].action is Publish)
            },
            OtaPhaseView::Remove(_) => steps[at].action is RemoveFile,
            OtaPhaseView::Done => steps[at].action is Finish,
        },
        phase_request(steps[at].phase) matches Some(r) ==> r == request,
{
    lemma_request_kept(directory, seen, data, steps, replies, request, at);
    if at > 0 {
        lemma_request_kept(directory, seen, data, steps, replies, request, at - 1);
        lemma_at_start(directory, seen, data, steps, replies, request, at - 1);
        assert(follows(directory, steps, replies, at - 1));
    }
}

/// An update acknowledges its request first, and announces the download next.
pub proof fn lemma_at_start(
    directory: Seq<char>,
    seen: OtaStatusView,
    data: Map<Seq<char>, AstarteType>,
    steps: Seq<OtaStep>,
    replies: Seq<OtaReplyView>,
    request: OtaRequestView,
    at: int,
)
    requires
        is_run(directory, steps, replies),
        steps[0] == crate::ota::run::first_step(directory, seen, OtaStatusView::Idle, data),
        crate::ota::run::acknowledged(data) == OtaStatusView::Acknowledged(request),
        0 <= at < steps.len(),
    ensures
        steps[at].phase is Acknowledge ==> at == 0,
        steps[at].phase is Pending ==> match steps[at].phase {
            OtaPhaseView::Pending(PendingStageView::Exists) => steps[at].action is StateExists,
            OtaPhaseView::Pending(PendingStageView::Read) => steps[at].action is ReadState,
            OtaPhaseView::Pending(PendingStageView::BootSlot(_)) => steps[at].action is BootSlot,
            OtaPhaseView::Pending(PendingStageView::Primary(_)) => steps[at].action is GetPrimary,
            OtaPhaseView::Pending(PendingStageView::Mark(_, _)) => steps[at].action is Mark,
            _ => steps[at].action is ClearState,
        },
        steps[at].phase == OtaPhaseView::Reboot(request, RebootStage::Reboot)
            ==> steps[at].action is Reboot,
        steps[at].phase matches OtaPhaseView::Deploy(_, DeployStageView::Download(_))
            ==> steps[at].action is Download,
    decreases at,
{
    if at > 0 {
        lemma_at_start(directory, seen, data, steps, replies, request, at - 1);
        lemma_request_kept(directory, seen, data, steps, replies, request, at - 1);
        assert(follows(directory, steps, replies, at - 1));
    }
}

/// What an update that starts from a request did directly before it installs:
/// it downloaded the image, read from the bundle in that file and from the
/// system that they are compatible with the same thing, read the booted slot,
/// kept that slot with the identifier of the request, and reported the
/// deployment. What is handed to the installer is the download directory.
pub proof fn law_installations_are_prepared(
    directory: Seq<char>,
    seen: OtaStatusView,
    data: Map<Seq<char>, AstarteType>,
    steps: Seq<OtaStep>,
    replies: Seq<OtaReplyView>,
    request: OtaRequestView,
    at: int,
    path: Seq<char>,
)
    requires
        is_run(directory, steps, replies),
        steps[0] == crate::ota::run::first_step(directory, seen, OtaStatusView::Idle, data),
        crate::ota::run::acknowledged(data) == OtaStatusView::Acknowledged(request),
        0 <= at < steps.len(),
        steps[at].action == OtaActionView::InstallBundle(path),
    ensures
        path == directory,
        at >= 6,
        steps[at - 6].action is Download,
        download_succeeded(replies[at - 6]),
        steps[at - 5].action is BundleInfo,
        steps[at - 4].action is Compatible,
        replies[at - 5] is Text && replies[at - 5] == replies[at - 4],
        replies[at - 5] != OtaReplyView::Text(None),
        steps[at - 3].action is BootSlot,
        steps[at - 2].action matches OtaActionView::WriteState(state) && state.uuid == request.uuid
            && replies[at - 3] == OtaReplyView::Text(Some(state.slot)),
        replies[at - 2] == OtaReplyView::Outcome(true),
        steps[at - 1].action == OtaActionView::Publish(OtaStatusView::Deploying(request)),
{
    lemma_before(directory, seen, data, steps, replies, request, at);
    lemma_before(directory, seen, data, steps, replies, request, at - 1);
    lemma_before(directory, seen, data, steps, replies, request, at - 2);
    lemma_before(directory, seen, data, steps, replies, request, at - 3);
    lemma_before(directory, seen, data, steps, replies, request, at - 4);
    lemma_before(directory, seen, data, steps, replies, request, at - 5);
}

/// What an update that starts from a request did directly before the device
/// reboots: it installed, asked what the installation was doing, received the
/// signal of success, reported the installation and the reboot, and let five
/// seconds pass.
pub proof fn law_reboots_are_prepared(
    directory: Seq<char>,
    seen: OtaStatusView,
    data: Map<Seq<char>, AstarteType>,
    steps: Seq<OtaStep>,
    replies: Seq<OtaReplyView>,
    request: OtaRequestView,
    at: int,
)
    requires
        is_run(directory, steps, replies),
        steps[0] == crate::ota::run::first_step(directory, seen, OtaStatusView::Idle, data),
        crate::ota::run::acknowledged(data) == OtaStatusView::Acknowledged(request),
        0 <= at < steps.len(),
        steps[at].action is Reboot,
    ensures
        at >= 6,
        steps[at - 6].action is InstallBundle,
        replies[at - 6] == OtaReplyView::Outcome(true),
        steps[at - 5].action is Operation,
        replies[at - 5] == OtaReplyView::Outcome(true),
        steps[at - 4].action is ReceiveCompleted,
        replies[at - 4] == OtaReplyView::Signal(Some(0)),
        steps[at - 3].action == OtaActionView::Publish(OtaStatusView::Deployed(request)),
        steps[at - 2].action == OtaActionView::Publish(OtaStatusView::Rebooting(request)),
        steps[at - 1].action == OtaActionView::Sleep(5),
{
    lemma_before(directory, seen, data, steps, replies, request, at);
    lemma_before(directory, seen, data, steps, replies, request, at - 1);
    lemma_before(directory, seen, data, steps, replies, request, at - 2);
    lemma_before(directory, seen, data, steps, replies, request, at - 3);
    lemma_before(directory, seen, data, steps, replies, request, at - 4);
    lemma_before(directory, seen, data, steps, replies, request, at - 5);
    lemma_before(directory, seen, data, steps, replies, request, at - 6);
}

} // verus!
