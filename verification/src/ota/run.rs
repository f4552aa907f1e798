//! The course of an update, from the request to the reboot and the check that
//! follows it.
//!
//! An update is a sequence of steps. Each step hands out one action for the
//! device to perform; the reply to it decides the next step.

use vstd::arithmetic::power2::*;
use vstd::pervasive::unreached;
use vstd::prelude::*;
use vstd::string::*;

use crate::data::{read_text, read_uuid, AstarteType};
use crate::ota::status::{
    OtaError, OtaErrorView, OtaRequest, OtaRequestView, OtaStatus, OtaStatusView, PersistentState,
    PersistentStateView,
};
use crate::string_map::StringMap;
use crate::text::{join, quoted_text, signed_decimal_text};

verus! {

/// How many times an image is downloaded before the update fails.
pub const DOWNLOAD_ATTEMPTS: u32 = 5;

/// How many seconds pass between the announcement of a reboot and the reboot.
pub const REBOOT_DELAY: u64 = 5;

/// What the device has to do next.
#[derive(Debug, PartialEq)]
pub enum OtaAction {
    /// Report the status to whoever asked for the update.
    Publish(OtaStatus),
    /// Download the image at the address into the file.
    Download { url: String, path: String, uuid: u128 },
    /// Let the seconds pass.
    Sleep(u64),
    /// Read which systems the bundle in the file is compatible with.
    BundleInfo(String),
    /// Read which bundles the system is compatible with.
    Compatible,
    /// Read which slot is booted.
    BootSlot,
    /// Keep the state across the reboot.
    WriteState(PersistentState),
    /// Start the installation.
    InstallBundle(String),
    /// Read what the installation is doing.
    Operation,
    /// Wait for the installation to complete.
    ReceiveCompleted,
    /// Reboot the device.
    Reboot,
    /// Find out whether a state was kept.
    StateExists,
    /// Read the state that was kept.
    ReadState,
    /// Drop the state that was kept.
    ClearState,
    /// Read which slot is the primary one.
    GetPrimary,
    /// Mark the slot.
    Mark { state: String, slot: String },
    /// Remove the file, if it is there.
    RemoveFile(String),
    /// Nothing: the update ended with the status.
    Finish(OtaStatus),
}

/// What came of an action.
#[derive(Debug, PartialEq)]
pub enum OtaReply {
    /// The action was performed, and nothing depends on how it went.
    Done,
    /// The download succeeded, or failed with the error.
    Downloaded(Result<(), OtaError>),
    /// The text that was asked for, unless reading it failed.
    Text(Option<String>),
    /// Whether the action succeeded, or the thing asked about exists.
    Outcome(bool),
    /// The signal of a completed installation, unless receiving it failed.
    Signal(Option<i32>),
    /// The kept state, unless reading it failed.
    State(Option<PersistentState>),
}

/// Where the download and the check of an image stand.
#[derive(Debug, PartialEq)]
pub enum DeployStage {
    /// The image is downloaded for the nth time.
    Download(u32),
    /// The failure of the nth download is reported.
    Report(u32),
    /// The time after the nth download passes.
    Backoff(u32),
    Info,
    /// The bundle is compatible with the given systems.
    Compatible(String),
    BootSlot,
    Persist,
    Announce,
}

/// Where the installation of an image stands.
#[derive(Debug, PartialEq)]
pub enum InstallStage {
    Install,
    Operation,
    Completed,
    Announce,
}

/// Where the reboot stands.
#[derive(Debug, PartialEq)]
pub enum RebootStage {
    Announce,
    Delay,
    Reboot,
}

/// Where the check of an update that survived a reboot stands.
#[derive(Debug, PartialEq)]
pub enum PendingStage {
    Exists,
    Read,
    BootSlot(PersistentState),
    Primary(PersistentState),
    /// The given primary slot is marked.
    Mark(PersistentState, String),
    /// The check came to the status.
    Clear(OtaStatus),
}

/// Where an update stands: which action it waits for.
#[derive(Debug, PartialEq)]
pub enum OtaPhase {
    Acknowledge(OtaRequest),
    Announce(OtaRequest),
    Deploy(OtaRequest, DeployStage),
    Install(OtaRequest, InstallStage),
    Reboot(OtaRequest, RebootStage),
    Pending(PendingStage),
    Remove(OtaStatus),
    Done,
}

/// What a part of an update comes to after a reply: another action to wait
/// for, or the status that the part ends with.
#[derive(Debug, PartialEq)]
pub enum Progress<S> {
    Await(S, OtaAction),
    Settled(OtaStatus),
}

/// An [`OtaAction`] as a mathematical value.
#[verifier::ext_equal]
pub enum OtaActionView {
    Publish(OtaStatusView),
    Download { url: Seq<char>, path: Seq<char>, uuid: u128 },
    Sleep(u64),
    BundleInfo(Seq<char>),
    Compatible,
    BootSlot,
    WriteState(PersistentStateView),
    InstallBundle(Seq<char>),
    Operation,
    ReceiveCompleted,
    Reboot,
    StateExists,
    ReadState,
    ClearState,
    GetPrimary,
    Mark { state: Seq<char>, slot: Seq<char> },
    RemoveFile(Seq<char>),
    Finish(OtaStatusView),
}

/// An [`OtaReply`] as a mathematical value.
#[verifier::ext_equal]
pub enum OtaReplyView {
    Done,
    Downloaded(Result<(), OtaErrorView>),
    Text(Option<Seq<char>>),
    Outcome(bool),
    Signal(Option<i32>),
    State(Option<PersistentStateView>),
}

/// A [`DeployStage`] as a mathematical value.
#[verifier::ext_equal]
pub enum DeployStageView {
    Download(u32),
    Report(u32),
    Backoff(u32),
    Info,
    Compatible(Seq<char>),
    BootSlot,
    Persist,
    Announce,
}

/// A [`PendingStage`] as a mathematical value.
#[verifier::ext_equal]
pub enum PendingStageView {
    Exists,
    Read,
    BootSlot(PersistentStateView),
    Primary(PersistentStateView),
    Mark(PersistentStateView, Seq<char>),
    Clear(OtaStatusView),
}

/// An [`OtaPhase`] as a mathematical value.
#[verifier::ext_equal]
pub enum OtaPhaseView {
    Acknowledge(OtaRequestView),
    Announce(OtaRequestView),
    Deploy(OtaRequestView, DeployStageView),
    Install(OtaRequestView, InstallStage),
    Reboot(OtaRequestView, RebootStage),
    Pending(PendingStageView),
    Remove(OtaStatusView),
    Done,
}

/// A [`Progress`] as a mathematical value.
#[verifier::ext_equal]
pub enum ProgressView<S> {
    Await(S, OtaActionView),
    Settled(OtaStatusView),
}

/// One step of an update: the status that others see from then on, where the
/// update stands, and what the device does next.
#[verifier::ext_equal]
pub struct OtaStep {
    pub status: OtaStatusView,
    pub phase: OtaPhaseView,
    pub action: OtaActionView,
}

impl View for OtaAction {
    type V = OtaActionView;

    open spec fn view(&self) -> OtaActionView {
        match self {
            OtaAction::Publish(s) => OtaActionView::Publish(s@),
            OtaAction::Download { url, path, uuid } => OtaActionView::Download {
                url: url@,
                path: path@,
                uuid: *uuid,
            },
            OtaAction::Sleep(n) => OtaActionView::Sleep(*n),
            OtaAction::BundleInfo(p) => OtaActionView::BundleInfo(p@),
            OtaAction::Compatible => OtaActionView::Compatible,
            OtaAction::BootSlot => OtaActionView::BootSlot,
            OtaAction::WriteState(s) => OtaActionView::WriteState(s@),
            OtaAction::InstallBundle(p) => OtaActionView::InstallBundle(p@),
            OtaAction::Operation => OtaActionView::Operation,
            OtaAction::ReceiveCompleted => OtaActionView::ReceiveCompleted,
            OtaAction::Reboot => OtaActionView::Reboot,
            OtaAction::StateExists => OtaActionView::StateExists,
            OtaAction::ReadState => OtaActionView::ReadState,
            OtaAction::ClearState => OtaActionView::ClearState,
            OtaAction::GetPrimary => OtaActionView::GetPrimary,
            OtaAction::Mark { state, slot } => OtaActionView::Mark { state: state@, slot: slot@ },
            OtaAction::RemoveFile(p) => OtaActionView::RemoveFile(p@),
            OtaAction::Finish(s) => OtaActionView::Finish(s@),
        }
    }
}

impl View for OtaReply {
    type V = OtaReplyView;

    open spec fn view(&self) -> OtaReplyView {
        match self {
            OtaReply::Done => OtaReplyView::Done,
            OtaReply::Downloaded(Ok(u)) => OtaReplyView::Downloaded(Ok(*u)),
            OtaReply::Downloaded(Err(e)) => OtaReplyView::Downloaded(Err(e@)),
            OtaReply::Text(Some(t)) => OtaReplyView::Text(Some(t@)),
            OtaReply::Text(None) => OtaReplyView::Text(None),
            OtaReply::Outcome(b) => OtaReplyView::Outcome(*b),
            OtaReply::Signal(s) => OtaReplyView::Signal(*s),
            OtaReply::State(Some(s)) => OtaReplyView::State(Some(s@)),
            OtaReply::State(None) => OtaReplyView::State(None),
        }
    }
}

impl View for DeployStage {
    type V = DeployStageView;

    open spec fn view(&self) -> DeployStageView {
        match self {
            DeployStage::Download(n) => DeployStageView::Download(*n),
            DeployStage::Report(n) => DeployStageView::Report(*n),
            DeployStage::Backoff(n) => DeployStageView::Backoff(*n),
            DeployStage::Info => DeployStageView::Info,
            DeployStage::Compatible(c) => DeployStageView::Compatible(c@),
            DeployStage::BootSlot => DeployStageView::BootSlot,
            DeployStage::Persist => DeployStageView::Persist,
            DeployStage::Announce => DeployStageView::Announce,
        }
    }
}

impl View for InstallStage {
    type V = InstallStage;

    open spec fn view(&self) -> InstallStage {
        *self
    }
}

impl View for RebootStage {
    type V = RebootStage;

    open spec fn view(&self) -> RebootStage {
        *self
    }
}

impl View for PendingStage {
    type V = PendingStageView;

    open spec fn view(&self) -> PendingStageView {
        match self {
            PendingStage::Exists => PendingStageView::Exists,
            PendingStage::Read => PendingStageView::Read,
            PendingStage::BootSlot(s) => PendingStageView::BootSlot(s@),
            PendingStage::Primary(s) => PendingStageView::Primary(s@),
            PendingStage::Mark(s, p) => PendingStageView::Mark(s@, p@),
            PendingStage::Clear(s) => PendingStageView::Clear(s@),
        }
    }
}

impl View for OtaPhase {
    type V = OtaPhaseView;

    open spec fn view(&self) -> OtaPhaseView {
        match self {
            OtaPhase::Acknowledge(r) => OtaPhaseView::Acknowledge(r@),
            OtaPhase::Announce(r) => OtaPhaseView::Announce(r@),
            OtaPhase::Deploy(r, s) => OtaPhaseView::Deploy(r@, s@),
            OtaPhase::Install(r, s) => OtaPhaseView::Install(r@, *s),
            OtaPhase::Reboot(r, s) => OtaPhaseView::Reboot(r@, *s),
            OtaPhase::Pending(s) => OtaPhaseView::Pending(s@),
            OtaPhase::Remove(s) => OtaPhaseView::Remove(s@),
            OtaPhase::Done => OtaPhaseView::Done,
        }
    }
}

impl<S: View> View for Progress<S> {
    type V = ProgressView<S::V>;

    open spec fn view(&self) -> ProgressView<S::V> {
        match self {
            Progress::Await(s, a) => ProgressView::Await(s@, a@),
            Progress::Settled(s) => ProgressView::Settled(s@),
        }
    }
}

/// Where the image is downloaded to: the file `update.bin` in the directory.
pub open spec fn update_file(directory: Seq<char>) -> Seq<char> {
    if directory.len() == 0 {
        "update.bin"@
    } else if directory.last() == '/' {
        directory + "update.bin"@
    } else {
        directory + "/"@ + "update.bin"@
    }
}

/// The failure of an update that is about a request.
pub open spec fn failure(error: OtaErrorView, request: OtaRequestView) -> OtaStatusView {
    OtaStatusView::Failure(error, Some(request))
}

/// The failure of an update whose request could not be read.
pub open spec fn request_failure(message: Seq<char>) -> OtaStatusView {
    OtaStatusView::Failure(OtaErrorView::Request(message), None)
}

/// What a request that came from Astarte is answered with, given the
/// identifier that was read from it: the request is acknowledged when it holds
/// the address of an image and an identifier.
pub open spec fn acknowledged_as(data: Map<Seq<char>, AstarteType>, uuid: Option<u128>) -> OtaStatusView {
    if !data.contains_key("url"@) || !data.contains_key("uuid"@) {
        request_failure("Unable to find data in the OTA request"@)
    } else {
        match (data["url"@].text(), data["uuid"@].text()) {
            (Some(url), Some(_)) => match uuid {
                Some(uuid) => OtaStatusView::Acknowledged(OtaRequestView { uuid, url }),
                None => request_failure("Unable to parse request_uuid"@),
            },
            _ => request_failure("Got invalid data in OTARequest"@),
        }
    }
}

/// What a request that came from Astarte is answered with.
pub open spec fn acknowledged(data: Map<Seq<char>, AstarteType>) -> OtaStatusView {
    acknowledged_as(data, crate::data::uuid_at(data, "uuid"@))
}

/// The download of the image of a request.
pub open spec fn download(directory: Seq<char>, request: OtaRequestView) -> OtaActionView {
    OtaActionView::Download {
        url: request.url,
        path: update_file(directory),
        uuid: request.uuid,
    }
}

/// How the download and the check of an image go on after a reply. After each
/// failed download but the last the failure is reported and twice as much time
/// passes as after the one before. The image has to be compatible with the
/// system, and the booted slot has to be known and kept, before the image is
/// deployed.
pub open spec fn deploying(
    directory: Seq<char>,
    request: OtaRequestView,
    stage: DeployStageView,
    reply: OtaReplyView,
) -> ProgressView<DeployStageView> {
    match (stage, reply) {
        (DeployStageView::Download(_), OtaReplyView::Downloaded(Ok(_))) => ProgressView::Await(
            DeployStageView::Info,
            OtaActionView::BundleInfo(update_file(directory)),
        ),
        (DeployStageView::Download(n), OtaReplyView::Downloaded(Err(e))) => if n
            < DOWNLOAD_ATTEMPTS {
            ProgressView::Await(
                DeployStageView::Report(n),
                OtaActionView::Publish(OtaStatusView::Error(e, request)),
            )
        } else {
            ProgressView::Settled(failure(e, request))
        },
        (DeployStageView::Report(n), _) => ProgressView::Await(
            DeployStageView::Backoff(n),
            OtaActionView::Sleep(pow2(n as nat) as u64),
        ),
        (DeployStageView::Backoff(n), _) => ProgressView::Await(
            DeployStageView::Download((n + 1) as u32),
            download(directory, request),
        ),
        (DeployStageView::Info, OtaReplyView::Text(Some(compatible))) => ProgressView::Await(
            DeployStageView::Compatible(compatible),
            OtaActionView::Compatible,
        ),
        (DeployStageView::Info, _) => ProgressView::Settled(
            failure(
                OtaErrorView::InvalidBaseImage(
                    "Unable to get info from ota_file in "@ + crate::text::quoted(
                        update_file(directory),
                    ),
                ),
                request,
            ),
        ),
        (DeployStageView::Compatible(bundle), OtaReplyView::Text(Some(system))) => if bundle
            == system {
            ProgressView::Await(DeployStageView::BootSlot, OtaActionView::BootSlot)
        } else {
            ProgressView::Settled(
                failure(
                    OtaErrorView::InvalidBaseImage(
                        "bundle "@ + bundle + " is not compatible with system "@ + system,
                    ),
                    request,
                ),
            )
        },
        (DeployStageView::Compatible(_), _) => ProgressView::Settled(
            failure(
                OtaErrorView::InvalidBaseImage("Unable to get info from current deployed image"@),
                request,
            ),
        ),
        (DeployStageView::BootSlot, OtaReplyView::Text(Some(slot))) => ProgressView::Await(
            DeployStageView::Persist,
            OtaActionView::WriteState(PersistentStateView { uuid: request.uuid, slot }),
        ),
        (DeployStageView::BootSlot, _) => ProgressView::Settled(
            failure(OtaErrorView::Internal("Unable to identify the booted slot"@), request),
        ),
        (DeployStageView::Persist, OtaReplyView::Outcome(true)) => ProgressView::Await(
            DeployStageView::Announce,
            OtaActionView::Publish(OtaStatusView::Deploying(request)),
        ),
        (DeployStageView::Persist, _) => ProgressView::Settled(
            failure(OtaErrorView::IO("Unable to persist ota state"@), request),
        ),
        (DeployStageView::Announce, _) => ProgressView::Settled(OtaStatusView::Deploying(request)),
        (DeployStageView::Download(_), _) => arbitrary(),
    }
}

/// How the installation of an image goes on after a reply.
pub open spec fn deployed(
    request: OtaRequestView,
    stage: InstallStage,
    reply: OtaReplyView,
) -> ProgressView<InstallStage> {
    match (stage, reply) {
        (InstallStage::Install, OtaReplyView::Outcome(true)) => ProgressView::Await(
            InstallStage::Operation,
            OtaActionView::Operation,
        ),
        (InstallStage::Install, _) => ProgressView::Settled(
            failure(OtaErrorView::InvalidBaseImage("Unable to install ota image"@), request),
        ),
        (InstallStage::Operation, OtaReplyView::Outcome(true)) => ProgressView::Await(
            InstallStage::Completed,
            OtaActionView::ReceiveCompleted,
        ),
        (InstallStage::Operation, _) => ProgressView::Settled(
            failure(OtaErrorView::Internal("Unable to get status of ota operation"@), request),
        ),
        (InstallStage::Completed, OtaReplyView::Signal(Some(signal))) => if signal == 0 {
            ProgressView::Await(
                InstallStage::Announce,
                OtaActionView::Publish(OtaStatusView::Deployed(request)),
            )
        } else {
            ProgressView::Settled(
                failure(
                    OtaErrorView::InvalidBaseImage(
                        "Update failed with signal "@ + crate::text::signed_decimal(signal as int),
                    ),
                    request,
                ),
            )
        },
        (InstallStage::Completed, _) => ProgressView::Settled(
            failure(
                OtaErrorView::Internal("Unable to receive the install completed event"@),
                request,
            ),
        ),
        (InstallStage::Announce, _) => ProgressView::Settled(OtaStatusView::Deployed(request)),
    }
}

/// How the reboot goes on after a reply.
pub open spec fn rebooting(
    request: OtaRequestView,
    stage: RebootStage,
    reply: OtaReplyView,
) -> ProgressView<RebootStage> {
    match (stage, reply) {
        (RebootStage::Announce, _) => ProgressView::Await(
            RebootStage::Delay,
            OtaActionView::Sleep(REBOOT_DELAY),
        ),
        (RebootStage::Delay, _) => ProgressView::Await(RebootStage::Reboot, OtaActionView::Reboot),
        (RebootStage::Reboot, OtaReplyView::Outcome(true)) => ProgressView::Settled(
            OtaStatusView::Rebooted,
        ),
        (RebootStage::Reboot, _) => ProgressView::Settled(
            failure(OtaErrorView::Internal("Unable to run reboot command"@), request),
        ),
    }
}

/// The request that a kept state stands for: the address of its image is not
/// kept.
pub open spec fn kept_request(state: PersistentStateView) -> OtaRequestView {
    OtaRequestView { uuid: state.uuid, url: Seq::empty() }
}

/// The end of the check of a kept update: the state is dropped, and the update
/// has the given outcome.
pub open spec fn concluded(
    state: PersistentStateView,
    outcome: Result<(), OtaErrorView>,
) -> ProgressView<PendingStageView> {
    ProgressView::Await(
        PendingStageView::Clear(
            match outcome {
                Ok(_) => OtaStatusView::Success(kept_request(state)),
                Err(e) => failure(e, kept_request(state)),
            },
        ),
        OtaActionView::ClearState,
    )
}

/// How the check of a kept update goes on after a reply. The update succeeded
/// when another slot than before was booted and the primary slot could be
/// marked good.
pub open spec fn success(stage: PendingStageView, reply: OtaReplyView) -> ProgressView<
    PendingStageView,
> {
    match (stage, reply) {
        (PendingStageView::Exists, OtaReplyView::Outcome(true)) => ProgressView::Await(
            PendingStageView::Read,
            OtaActionView::ReadState,
        ),
        (PendingStageView::Exists, _) => ProgressView::Settled(OtaStatusView::NoPendingOta),
        (PendingStageView::Read, OtaReplyView::State(Some(state))) => ProgressView::Await(
            PendingStageView::BootSlot(state),
            OtaActionView::BootSlot,
        ),
        (PendingStageView::Read, _) => ProgressView::Settled(
            OtaStatusView::Failure(OtaErrorView::IO("Unable to read pending ota state"@), None),
        ),
        (PendingStageView::BootSlot(state), OtaReplyView::Text(Some(booted))) => if state.slot
            == booted {
            concluded(state, Err(OtaErrorView::SystemRollback("Unable to switch slot"@)))
        } else {
            ProgressView::Await(PendingStageView::Primary(state), OtaActionView::GetPrimary)
        },
        (PendingStageView::BootSlot(state), _) => concluded(
            state,
            Err(OtaErrorView::Internal("Unable to identify the booted slot"@)),
        ),
        (PendingStageView::Primary(state), OtaReplyView::Text(Some(primary))) =>
            ProgressView::Await(
            PendingStageView::Mark(state, primary),
            OtaActionView::Mark { state: "good"@, slot: primary },
        ),
        (PendingStageView::Primary(state), _) => concluded(
            state,
            Err(OtaErrorView::Internal("Unable to get the current primary slot"@)),
        ),
        (PendingStageView::Mark(state, primary), OtaReplyView::Text(Some(marked))) => if primary
            == marked {
            concluded(state, Ok(()))
        } else {
            concluded(state, Err(OtaErrorView::Internal("Unable to mark slot"@)))
        },
        (PendingStageView::Mark(state, _), _) => concluded(
            state,
            Err(OtaErrorView::Internal("Unable to run marking slot operation"@)),
        ),
        (PendingStageView::Clear(status), _) => ProgressView::Settled(status),
    }
}

/// The step that follows when an update has come to a status other than
/// [`OtaStatusView::Idle`] and [`OtaStatusView::Init`].
pub open spec fn proceed(directory: Seq<char>, status: OtaStatusView) -> OtaStep {
    match status {
        OtaStatusView::Acknowledged(r) => OtaStep {
            status,
            phase: OtaPhaseView::Announce(r),
            action: OtaActionView::Publish(OtaStatusView::Downloading(r, 0)),
        },
        OtaStatusView::Downloading(r, _) => OtaStep {
            status,
            phase: OtaPhaseView::Deploy(r, DeployStageView::Download(1)),
            action: download(directory, r),
        },
        OtaStatusView::Deploying(r) => OtaStep {
            status,
            phase: OtaPhaseView::Install(r, InstallStage::Install),
            action: OtaActionView::InstallBundle(directory),
        },
        OtaStatusView::Deployed(r) => OtaStep {
            status,
            phase: OtaPhaseView::Reboot(r, RebootStage::Announce),
            action: OtaActionView::Publish(OtaStatusView::Rebooting(r)),
        },
        OtaStatusView::Rebooted => OtaStep {
            status,
            phase: OtaPhaseView::Pending(PendingStageView::Exists),
            action: OtaActionView::StateExists,
        },
        OtaStatusView::Error(e, r) => OtaStep {
            status: failure(e, r),
            phase: OtaPhaseView::Remove(failure(e, r)),
            action: OtaActionView::RemoveFile(update_file(directory)),
        },
        _ => OtaStep {
            status,
            phase: OtaPhaseView::Remove(status),
            action: OtaActionView::RemoveFile(update_file(directory)),
        },
    }
}

/// The first step of an update that starts from a status, while others see the
/// status `seen`.
pub open spec fn first_step(
    directory: Seq<char>,
    seen: OtaStatusView,
    from: OtaStatusView,
    data: Map<Seq<char>, AstarteType>,
) -> OtaStep {
    match from {
        OtaStatusView::Idle | OtaStatusView::Init => match acknowledged(data) {
            OtaStatusView::Acknowledged(r) => OtaStep {
                status: if from is Idle {
                    OtaStatusView::Init
                } else {
                    seen
                },
                phase: OtaPhaseView::Acknowledge(r),
                action: OtaActionView::Publish(OtaStatusView::Acknowledged(r)),
            },
            refused => proceed(directory, refused),
        },
        OtaStatusView::Error(_, _) => proceed(directory, from),
        _ => OtaStep { status: seen, ..proceed(directory, from) },
    }
}

/// The step that follows a part of an update.
pub open spec fn after<S>(
    directory: Seq<char>,
    seen: OtaStatusView,
    progress: ProgressView<S>,
    phase: spec_fn(S) -> OtaPhaseView,
) -> OtaStep {
    match progress {
        ProgressView::Await(stage, action) => OtaStep { status: seen, phase: phase(stage), action },
        ProgressView::Settled(status) => proceed(directory, status),
    }
}

/// The step that follows a reply, while others see the status `seen`.
pub open spec fn next_step(
    directory: Seq<char>,
    seen: OtaStatusView,
    phase: OtaPhaseView,
    reply: OtaReplyView,
) -> OtaStep {
    match phase {
        OtaPhaseView::Acknowledge(r) => proceed(directory, OtaStatusView::Acknowledged(r)),
        OtaPhaseView::Announce(r) => proceed(directory, OtaStatusView::Downloading(r, 0)),
        OtaPhaseView::Deploy(r, stage) => after(
            directory,
            seen,
            deploying(directory, r, stage, reply),
            |s: DeployStageView| OtaPhaseView::Deploy(r, s),
        ),
        OtaPhaseView::Install(r, stage) => after(
            directory,
            seen,
            deployed(r, stage, reply),
            |s: InstallStage| OtaPhaseView::Install(r, s),
        ),
        OtaPhaseView::Reboot(r, stage) => after(
            directory,
            seen,
            rebooting(r, stage, reply),
            |s: RebootStage| OtaPhaseView::Reboot(r, s),
        ),
        OtaPhaseView::Pending(stage) => after(
            directory,
            seen,
            success(stage, reply),
            |s: PendingStageView| OtaPhaseView::Pending(s),
        ),
        OtaPhaseView::Remove(status) => OtaStep {
            status: OtaStatusView::Idle,
            phase: OtaPhaseView::Done,
            action: OtaActionView::Finish(status),
        },
        OtaPhaseView::Done => arbitrary(),
    }
}

impl DeployStageView {
    /// Whether the number of the download is one that occurs.
    pub open spec fn wf(self) -> bool {
        match self {
            DeployStageView::Download(n) => 1 <= n <= DOWNLOAD_ATTEMPTS,
            DeployStageView::Report(n) | DeployStageView::Backoff(n) => 1 <= n < DOWNLOAD_ATTEMPTS,
            _ => true,
        }
    }

    /// Whether a reply is one to the action that the stage waits for.
    pub open spec fn accepts(self, reply: OtaReplyView) -> bool {
        match self {
            DeployStageView::Download(_) => reply is Downloaded,
            DeployStageView::Info | DeployStageView::Compatible(_) | DeployStageView::BootSlot =>
                reply is Text,
            DeployStageView::Persist => reply is Outcome,
            DeployStageView::Report(_) | DeployStageView::Backoff(_) | DeployStageView::Announce =>
                reply is Done,
        }
    }
}

impl InstallStage {
    /// Whether a reply is one to the action that the stage waits for.
    pub open spec fn accepts(self, reply: OtaReplyView) -> bool {
        match self {
            InstallStage::Install | InstallStage::Operation => reply is Outcome,
            InstallStage::Completed => reply is Signal,
            InstallStage::Announce => reply is Done,
        }
    }
}

impl RebootStage {
    /// Whether a reply is one to the action that the stage waits for.
    pub open spec fn accepts(self, reply: OtaReplyView) -> bool {
        match self {
            RebootStage::Announce | RebootStage::Delay => reply is Done,
            RebootStage::Reboot => reply is Outcome,
        }
    }
}

impl PendingStageView {
    /// Whether a reply is one to the action that the stage waits for.
    pub open spec fn accepts(self, reply: OtaReplyView) -> bool {
        match self {
            PendingStageView::Exists => reply is Outcome,
            PendingStageView::Read => reply is State,
            PendingStageView::BootSlot(_) | PendingStageView::Primary(_) | PendingStageView::Mark(
                _,
                _,
            ) => reply is Text,
            PendingStageView::Clear(_) => reply is Done,
        }
    }
}

impl OtaPhaseView {
    /// Whether the phase is one that an update can be in.
    pub open spec fn wf(self) -> bool {
        match self {
            OtaPhaseView::Deploy(_, stage) => stage.wf(),
            OtaPhaseView::Pending(PendingStageView::Clear(status)) => status.terminal(),
            OtaPhaseView::Remove(status) => status.terminal(),
            _ => true,
        }
    }

    /// Whether a reply is one to the action that the phase waits for.
    pub open spec fn accepts(self, reply: OtaReplyView) -> bool {
        match self {
            OtaPhaseView::Acknowledge(_) | OtaPhaseView::Announce(_) | OtaPhaseView::Remove(_) =>
                reply is Done,
            OtaPhaseView::Deploy(_, stage) => stage.accepts(reply),
            OtaPhaseView::Install(_, stage) => stage.accepts(reply),
            OtaPhaseView::Reboot(_, stage) => stage.accepts(reply),
            OtaPhaseView::Pending(stage) => stage.accepts(reply),
            OtaPhaseView::Done => false,
        }
    }
}

impl OtaActionView {
    /// Whether a reply is one to the action.
    pub open spec fn answered_by(self, reply: OtaReplyView) -> bool {
        match self {
            OtaActionView::Publish(_)
            | OtaActionView::Sleep(_)
            | OtaActionView::ClearState
            | OtaActionView::RemoveFile(_) => reply is Done,
            OtaActionView::Download { .. } => reply is Downloaded,
            OtaActionView::BundleInfo(_)
            | OtaActionView::Compatible
            | OtaActionView::BootSlot
            | OtaActionView::GetPrimary
            | OtaActionView::Mark { .. } => reply is Text,
            OtaActionView::WriteState(_)
            | OtaActionView::InstallBundle(_)
            | OtaActionView::Operation
            | OtaActionView::Reboot
            | OtaActionView::StateExists => reply is Outcome,
            OtaActionView::ReceiveCompleted => reply is Signal,
            OtaActionView::ReadState => reply is State,
            OtaActionView::Finish(_) => false,
        }
    }
}

/// Whether an update in the phase can be gone on with by any reply to the
/// action.
pub open spec fn waits_for(phase: OtaPhaseView, action: OtaActionView) -> bool {
    &&& phase.wf()
    &&& forall|reply: OtaReplyView| #[trigger]
        phase.accepts(reply) <==> action.answered_by(reply)
}

/// The update of the device: where images are downloaded to, and the status
/// that others see.
#[derive(Debug)]
pub struct Ota {
    pub download_file_path: String,
    pub ota_status: OtaStatus,
}

/// What the update of the device is asked.
#[derive(Debug)]
pub enum OtaMessage {
    GetOtaStatus,
    EnsurePendingOta,
    HandleOtaEvent(StringMap<AstarteType>),
}

/// What the update of the device answers: its status, or the first step of an
/// update.
#[derive(Debug)]
pub enum OtaAnswer {
    Status(OtaStatus),
    Started(OtaPhase, OtaAction),
}

/// The seconds to let pass after the nth failed download.
fn backoff(attempt: u32) -> (wait: u64)
    requires
        attempt < DOWNLOAD_ATTEMPTS,
    ensures
        wait == pow2(attempt as nat),
{
    let mut wait: u64 = 1;
    let mut i: u32 = 0;
    proof {
        lemma2_to64();
    }
    while i < attempt
        invariant
            i <= attempt < DOWNLOAD_ATTEMPTS,
            wait == pow2(i as nat),
            wait <= 0x10,
            i < 4 ==> wait <= 0x8,
            i < 3 ==> wait <= 0x4,
            i < 2 ==> wait <= 0x2,
            i < 1 ==> wait <= 0x1,
        decreases attempt - i,
    {
        proof {
            lemma_pow2_unfold((i + 1) as nat);
        }
        wait = wait * 2;
        i += 1;
    }
    wait
}

/// The failure of an update that is about a request.
fn failed<S>(error: OtaError, request: &OtaRequest) -> (progress: Progress<S>)
    ensures
        progress matches Progress::Settled(status) && status@ == failure(error@, request@),
{
    Progress::Settled(OtaStatus::Failure(error, Some(request.clone())))
}

impl Ota {
    /// An update that waits for a request, with images downloaded to the
    /// directory.
    pub fn new(download_directory: String) -> (ota: Ota)
        ensures
            ota.download_file_path == download_directory,
            ota.ota_status@ == OtaStatusView::Idle,
    {
        Ota { download_file_path: download_directory, ota_status: OtaStatus::Idle }
    }

    /// Where the image is downloaded to.
    pub fn get_update_file_path(&self) -> (path: String)
        ensures
            path@ == update_file(self.download_file_path@),
    {
        let directory = self.download_file_path.as_str();
        let length: usize = directory.unicode_len();
        if length == 0 {
            "update.bin".to_owned()
        } else if directory.get_char(length - 1) == '/' {
            join(directory, "update.bin")
        } else {
            join(join(directory, "/").as_str(), "update.bin")
        }
    }

    /// Answers a request that came from Astarte, given the identifier that was
    /// read from it.
    pub fn acknowledged_as(data: &StringMap<AstarteType>, uuid: Option<u128>) -> (status: OtaStatus)
        ensures
            status@ == acknowledged_as(data@, uuid),
    {
        if !data.contains_key("url") || !data.contains_key("uuid") {
            return OtaStatus::Failure(
                OtaError::Request("Unable to find data in the OTA request"),
                None,
            );
        }
        match (read_text(data, "url"), read_text(data, "uuid")) {
            (Some(url), Some(_)) => match uuid {
                Some(uuid) => OtaStatus::Acknowledged(OtaRequest { uuid, url: url.clone() }),
                None => OtaStatus::Failure(OtaError::Request("Unable to parse request_uuid"), None),
            },
            _ => OtaStatus::Failure(OtaError::Request("Got invalid data in OTARequest"), None),
        }
    }

    /// Answers a request that came from Astarte.
    pub fn acknowledged(data: &StringMap<AstarteType>) -> (status: OtaStatus)
        ensures
            status@ == acknowledged(data@),
    {
        Self::acknowledged_as(data, read_uuid(data, "uuid"))
    }

    /// The status of an update whose download is about to begin.
    pub fn downloading(ota_request: OtaRequest) -> (status: OtaStatus)
        ensures
            status@ == OtaStatusView::Downloading(ota_request@, 0),
    {
        OtaStatus::Downloading(ota_request, 0)
    }

    fn download(&self, ota_request: &OtaRequest) -> (action: OtaAction)
        ensures
            action@ == download(self.download_file_path@, ota_request@),
    {
        OtaAction::Download {
            url: ota_request.url.clone(),
            path: self.get_update_file_path(),
            uuid: ota_request.uuid,
        }
    }

    /// Goes on with the download and the check of an image after a reply.
    pub fn deploying(
        &self,
        ota_request: &OtaRequest,
        stage: DeployStage,
        reply: OtaReply,
    ) -> (progress: Progress<DeployStage>)
        requires
            stage@.wf(),
            stage@.accepts(reply@),
        ensures
            progress@ == deploying(self.download_file_path@, ota_request@, stage@, reply@),
    {
        match stage {
            DeployStage::Download(attempt) => match reply {
                OtaReply::Downloaded(Err(error)) => {
                    if attempt < DOWNLOAD_ATTEMPTS {
                        Progress::Await(
                            DeployStage::Report(attempt),
                            OtaAction::Publish(OtaStatus::Error(error, ota_request.clone())),
                        )
                    } else {
                        failed(error, ota_request)
                    }
                },
                _ => Progress::Await(
                    DeployStage::Info,
                    OtaAction::BundleInfo(self.get_update_file_path()),
                ),
            },
            DeployStage::Report(attempt) => Progress::Await(
                DeployStage::Backoff(attempt),
                OtaAction::Sleep(backoff(attempt)),
            ),
            DeployStage::Backoff(attempt) => Progress::Await(
                DeployStage::Download(attempt + 1),
                self.download(ota_request),
            ),
            DeployStage::Info => match reply {
                OtaReply::Text(Some(compatible)) => Progress::Await(
                    DeployStage::Compatible(compatible),
                    OtaAction::Compatible,
                ),
                _ => {
                    let file = quoted_text(self.get_update_file_path().as_str());
                    let message = join("Unable to get info from ota_file in ", file.as_str());
                    failed(OtaError::InvalidBaseImage(message), ota_request)
                },
            },
            DeployStage::Compatible(bundle) => match reply {
                OtaReply::Text(Some(system)) => {
                    if bundle == system {
                        Progress::Await(DeployStage::BootSlot, OtaAction::BootSlot)
                    } else {
                        let message = join("bundle ", bundle.as_str()).concat(
                            " is not compatible with system ",
                        ).concat(system.as_str());
                        failed(OtaError::InvalidBaseImage(message), ota_request)
                    }
                },
                _ => failed(
                    OtaError::InvalidBaseImage(
                        "Unable to get info from current deployed image".to_owned(),
                    ),
                    ota_request,
                ),
            },
            DeployStage::BootSlot => match reply {
                OtaReply::Text(Some(slot)) => Progress::Await(
                    DeployStage::Persist,
                    OtaAction::WriteState(PersistentState { uuid: ota_request.uuid, slot }),
                ),
                _ => failed(OtaError::Internal("Unable to identify the booted slot"), ota_request),
            },
            DeployStage::Persist => match reply {
                OtaReply::Outcome(true) => Progress::Await(
                    DeployStage::Announce,
                    OtaAction::Publish(OtaStatus::Deploying(ota_request.clone())),
                ),
                _ => failed(OtaError::IO("Unable to persist ota state".to_owned()), ota_request),
            },
            DeployStage::Announce => Progress::Settled(OtaStatus::Deploying(ota_request.clone())),
        }
    }

    /// Goes on with the installation of an image after a reply.
    pub fn deployed(ota_request: &OtaRequest, stage: InstallStage, reply: OtaReply) -> (progress:
        Progress<InstallStage>)
        requires
            stage.accepts(reply@),
        ensures
            progress@ == deployed(ota_request@, stage, reply@),
    {
        match stage {
            InstallStage::Install => match reply {
                OtaReply::Outcome(true) => Progress::Await(
                    InstallStage::Operation,
                    OtaAction::Operation,
                ),
                _ => failed(
                    OtaError::InvalidBaseImage("Unable to install ota image".to_owned()),
                    ota_request,
                ),
            },
            InstallStage::Operation => match reply {
                OtaReply::Outcome(true) => Progress::Await(
                    InstallStage::Completed,
                    OtaAction::ReceiveCompleted,
                ),
                _ => failed(
                    OtaError::Internal("Unable to get status of ota operation"),
                    ota_request,
                ),
            },
            InstallStage::Completed => match reply {
                OtaReply::Signal(Some(signal)) => {
                    if signal == 0 {
                        Progress::Await(
                            InstallStage::Announce,
                            OtaAction::Publish(OtaStatus::Deployed(ota_request.clone())),
                        )
                    } else {
                        let message = join(
                            "Update failed with signal ",
                            signed_decimal_text(signal).as_str(),
                        );
                        failed(OtaError::InvalidBaseImage(message), ota_request)
                    }
                },
                _ => failed(
                    OtaError::Internal("Unable to receive the install completed event"),
                    ota_request,
                ),
            },
            InstallStage::Announce => Progress::Settled(OtaStatus::Deployed(ota_request.clone())),
        }
    }

    /// Goes on with the reboot after a reply.
    pub fn rebooting(ota_request: &OtaRequest, stage: RebootStage, reply: OtaReply) -> (progress:
        Progress<RebootStage>)
        requires
            stage.accepts(reply@),
        ensures
            progress@ == rebooting(ota_request@, stage, reply@),
    {
        match stage {
            RebootStage::Announce => Progress::Await(
                RebootStage::Delay,
                OtaAction::Sleep(REBOOT_DELAY),
            ),
            RebootStage::Delay => Progress::Await(RebootStage::Reboot, OtaAction::Reboot),
            RebootStage::Reboot => match reply {
                OtaReply::Outcome(true) => Progress::Settled(OtaStatus::Rebooted),
                _ => failed(OtaError::Internal("Unable to run reboot command"), ota_request),
            },
        }
    }

    fn conclude(state: PersistentState, outcome: Result<(), OtaError>) -> (progress: Progress<
        PendingStage,
    >)
        ensures
            match outcome {
                Ok(_) => progress@ == concluded(state@, Ok(())),
                Err(e) => progress@ == concluded(state@, Err(e@)),
            },
    {
        let ota_request = OtaRequest { uuid: state.uuid, url: String::new() };
        let status = match outcome {
            Ok(_) => OtaStatus::Success(ota_request),
            Err(error) => OtaStatus::Failure(error, Some(ota_request)),
        };
        Progress::Await(PendingStage::Clear(status), OtaAction::ClearState)
    }

    /// Checks whether an update that survived a reboot took effect.
    pub fn do_pending_ota(stage: PendingStage, reply: OtaReply) -> (progress: Progress<PendingStage>)
        requires
            stage is BootSlot || stage is Primary || stage is Mark,
            stage@.accepts(reply@),
        ensures
            progress@ == success(stage@, reply@),
    {
        match (stage, reply) {
            (PendingStage::BootSlot(state), OtaReply::Text(Some(booted))) => {
                if state.slot == booted {
                    Self::conclude(state, Err(OtaError::SystemRollback("Unable to switch slot")))
                } else {
                    Progress::Await(PendingStage::Primary(state), OtaAction::GetPrimary)
                }
            },
            (PendingStage::BootSlot(state), _) => Self::conclude(
                state,
                Err(OtaError::Internal("Unable to identify the booted slot")),
            ),
            (PendingStage::Primary(state), OtaReply::Text(Some(primary))) => {
                let slot = primary.clone();
                Progress::Await(
                    PendingStage::Mark(state, primary),
                    OtaAction::Mark { state: "good".to_owned(), slot },
                )
            },
            (PendingStage::Primary(state), _) => Self::conclude(
                state,
                Err(OtaError::Internal("Unable to get the current primary slot")),
            ),
            (PendingStage::Mark(state, primary), OtaReply::Text(Some(marked))) => {
                if primary == marked {
                    Self::conclude(state, Ok(()))
                } else {
                    Self::conclude(state, Err(OtaError::Internal("Unable to mark slot")))
                }
            },
            (PendingStage::Mark(state, _), _) => Self::conclude(
                state,
                Err(OtaError::Internal("Unable to run marking slot operation")),
            ),
            _ => unreached(),
        }
    }

    /// Goes on with the check of a kept update after a reply.
    pub fn success(stage: PendingStage, reply: OtaReply) -> (progress: Progress<PendingStage>)
        requires
            stage@.accepts(reply@),
        ensures
            progress@ == success(stage@, reply@),
    {
        match stage {
            PendingStage::Exists => match reply {
                OtaReply::Outcome(true) => Progress::Await(
                    PendingStage::Read,
                    OtaAction::ReadState,
                ),
                _ => Progress::Settled(OtaStatus::NoPendingOta),
            },
            PendingStage::Read => match reply {
                OtaReply::State(Some(state)) => Progress::Await(
                    PendingStage::BootSlot(state),
                    OtaAction::BootSlot,
                ),
                _ => Progress::Settled(
                    OtaStatus::Failure(
                        OtaError::IO("Unable to read pending ota state".to_owned()),
                        None,
                    ),
                ),
            },
            PendingStage::Clear(status) => Progress::Settled(status),
            stage => Self::do_pending_ota(stage, reply),
        }
    }

    fn remove_file(&self, status: OtaStatus) -> (step: (OtaPhase, OtaAction))
        ensures
            step.0@ == OtaPhaseView::Remove(status@),
            step.1@ == OtaActionView::RemoveFile(update_file(self.download_file_path@)),
    {
        (OtaPhase::Remove(status), OtaAction::RemoveFile(self.get_update_file_path()))
    }

    fn proceed(&self, status: OtaStatus) -> (step: (OtaPhase, OtaAction))
        requires
            !(status is Idle || status is Init || status is Error),
        ensures
            step.0@ == proceed(self.download_file_path@, status@).phase,
            step.1@ == proceed(self.download_file_path@, status@).action,
    {
        match status {
            OtaStatus::Acknowledged(r) => {
                let announced = Self::downloading(r.clone());
                (OtaPhase::Announce(r), OtaAction::Publish(announced))
            },
            OtaStatus::Downloading(r, _) => {
                let action = self.download(&r);
                (OtaPhase::Deploy(r, DeployStage::Download(1)), action)
            },
            OtaStatus::Deploying(r) => (
                OtaPhase::Install(r, InstallStage::Install),
                OtaAction::InstallBundle(self.download_file_path.clone()),
            ),
            OtaStatus::Deployed(r) => {
                let announced = OtaStatus::Rebooting(r.clone());
                (OtaPhase::Reboot(r, RebootStage::Announce), OtaAction::Publish(announced))
            },
            OtaStatus::Rebooted => (OtaPhase::Pending(PendingStage::Exists), OtaAction::StateExists),
            status => self.remove_file(status),
        }
    }

    fn settle(&mut self, status: OtaStatus) -> (step: (OtaPhase, OtaAction))
        requires
            !(status is Idle || status is Init || status is Error),
        ensures
            final(self).download_file_path == old(self).download_file_path,
            final(self).ota_status@ == status@,
            step.0@ == proceed(old(self).download_file_path@, status@).phase,
            step.1@ == proceed(old(self).download_file_path@, status@).action,
    {
        self.ota_status = status.clone();
        self.proceed(status)
    }

    /// Starts an update from a status.
    pub fn handle_ota_event(
        &mut self,
        ota_status: OtaStatus,
        data: &StringMap<AstarteType>,
    ) -> (step: (OtaPhase, OtaAction))
        ensures
            final(self).download_file_path == old(self).download_file_path,
            (OtaStep {
                status: final(self).ota_status@,
                phase: step.0@,
                action: step.1@,
            }) == first_step(
                old(self).download_file_path@,
                old(self).ota_status@,
                ota_status@,
                data@,
            ),
            waits_for(step.0@, step.1@),
    {
        match ota_status {
            OtaStatus::Idle | OtaStatus::Init => {
                let idle = matches!(ota_status, OtaStatus::Idle);
                match Self::acknowledged(data) {
                    OtaStatus::Acknowledged(r) => {
                        if idle {
                            self.ota_status = OtaStatus::Init;
                        }
                        let announced = OtaStatus::Acknowledged(r.clone());
                        (OtaPhase::Acknowledge(r), OtaAction::Publish(announced))
                    },
                    refused => self.settle(refused),
                }
            },
            OtaStatus::Error(error, r) => self.settle(OtaStatus::Failure(error, Some(r))),
            status => self.proceed(status),
        }
    }

    /// Goes on with an update after a reply.
    pub fn resume(&mut self, phase: OtaPhase, reply: OtaReply) -> (step: (OtaPhase, OtaAction))
        requires
            phase@.wf(),
            phase@.accepts(reply@),
        ensures
            final(self).download_file_path == old(self).download_file_path,
            (OtaStep {
                status: final(self).ota_status@,
                phase: step.0@,
                action: step.1@,
            }) == next_step(
                old(self).download_file_path@,
                old(self).ota_status@,
                phase@,
                reply@,
            ),
            waits_for(step.0@, step.1@),
    {
        match phase {
            OtaPhase::Acknowledge(r) => self.settle(OtaStatus::Acknowledged(r)),
            OtaPhase::Announce(r) => self.settle(OtaStatus::Downloading(r, 0)),
            OtaPhase::Deploy(r, stage) => match self.deploying(&r, stage, reply) {
                Progress::Await(stage, action) => (OtaPhase::Deploy(r, stage), action),
                Progress::Settled(status) => self.settle(status),
            },
            OtaPhase::Install(r, stage) => match Self::deployed(&r, stage, reply) {
                Progress::Await(stage, action) => (OtaPhase::Install(r, stage), action),
                Progress::Settled(status) => self.settle(status),
            },
            OtaPhase::Reboot(r, stage) => match Self::rebooting(&r, stage, reply) {
                Progress::Await(stage, action) => (OtaPhase::Reboot(r, stage), action),
                Progress::Settled(status) => self.settle(status),
            },
            OtaPhase::Pending(stage) => match Self::success(stage, reply) {
                Progress::Await(stage, action) => (OtaPhase::Pending(stage), action),
                Progress::Settled(status) => self.settle(status),
            },
            OtaPhase::Remove(status) => {
                self.ota_status = OtaStatus::Idle;
                (OtaPhase::Done, OtaAction::Finish(status))
            },
            OtaPhase::Done => unreached(),
        }
    }

    /// Answers what the update of the device is asked.
    pub fn handle_message(&mut self, msg: OtaMessage) -> (answer: OtaAnswer)
        ensures
            final(self).download_file_path == old(self).download_file_path,
            msg is GetOtaStatus ==> final(self).ota_status == old(self).ota_status,
            msg is EnsurePendingOta ==> final(self).ota_status@ == old(self).ota_status@,
            msg is HandleOtaEvent ==> final(self).ota_status is Init
                || final(self).ota_status is Failure,
            match (msg, answer) {
                (OtaMessage::GetOtaStatus, OtaAnswer::Status(status)) => status
                    == old(self).ota_status,
                (OtaMessage::EnsurePendingOta, OtaAnswer::Started(phase, action)) => (OtaStep {
                    status: final(self).ota_status@,
                    phase: phase@,
                    action: action@,
                }) == first_step(
                    old(self).download_file_path@,
                    old(self).ota_status@,
                    OtaStatusView::Rebooted,
                    Map::empty(),
                ),
                (OtaMessage::HandleOtaEvent(data), OtaAnswer::Started(phase, action)) => (OtaStep {
                    status: final(self).ota_status@,
                    phase: phase@,
                    action: action@,
                }) == first_step(
                    old(self).download_file_path@,
                    old(self).ota_status@,
                    OtaStatusView::Idle,
                    data@,
                ),
                _ => false,
            },
            answer matches OtaAnswer::Started(phase, action) ==> waits_for(phase@, action@),
    {
        match msg {
            OtaMessage::GetOtaStatus => OtaAnswer::Status(self.ota_status.clone()),
            OtaMessage::EnsurePendingOta => {
                let data = StringMap::new();
                let (phase, action) = self.handle_ota_event(OtaStatus::Rebooted, &data);
                OtaAnswer::Started(phase, action)
            },
            OtaMessage::HandleOtaEvent(data) => {
                let (phase, action) = self.handle_ota_event(OtaStatus::Idle, &data);
                OtaAnswer::Started(phase, action)
            },
        }
    }
}

} // verus!
