//! The download of an image.
//!
//! A download is a sequence of steps. Each step hands out one action for the
//! device to perform; the reply to it decides the next step.

use vstd::pervasive::unreached;
use vstd::prelude::*;

use crate::ota::status::{OtaError, OtaErrorView, OtaRequest, OtaRequestView, OtaStatus, OtaStatusView};
use crate::text::{join, quoted_text};

verus! {

/// What the device has to do next for a download.
#[derive(Debug, PartialEq)]
pub enum DownloadAction {
    /// Remove the file, if it is there.
    RemoveStale(String),
    /// Request the address.
    Get(String),
    /// Create the file.
    CreateFile(String),
    /// Receive the next chunk of the response.
    NextChunk,
    /// Write the chunk to the file.
    WriteChunk,
    /// Report the status to whoever asked for the update.
    Publish(OtaStatus),
    /// Nothing: the download ended.
    Finish(Result<(), OtaError>),
}

/// What came of an action.
#[derive(Debug, PartialEq)]
pub enum DownloadReply {
    /// The action was performed, and nothing depends on how it went.
    Done,
    /// The length that the response announces, if it announces one, unless the
    /// request failed.
    Response(Option<Option<u64>>),
    /// Whether the action succeeded.
    Outcome(bool),
    /// The length of the next chunk, or that the chunk could not be received.
    Chunk(Option<u64>),
    /// The response has no more chunks.
    End,
}

/// Where a download stands: which action it waits for.
#[derive(Debug, PartialEq)]
pub enum DownloadPhase {
    RemoveStale,
    Get,
    /// The response announces a total length.
    Create { total: u64 },
    /// Part of the total was received and written.
    Receive { total: u64, downloaded: u64 },
    /// A chunk was received.
    Write { total: u64, downloaded: u64, chunk: u64 },
    /// The part that was written is reported.
    Report { total: u64, downloaded: u64 },
    Done,
}

/// A [`DownloadAction`] as a mathematical value.
#[verifier::ext_equal]
pub enum DownloadActionView {
    RemoveStale(Seq<char>),
    Get(Seq<char>),
    CreateFile(Seq<char>),
    NextChunk,
    WriteChunk,
    Publish(OtaStatusView),
    Finish(Result<(), OtaErrorView>),
}

impl View for DownloadAction {
    type V = DownloadActionView;

    open spec fn view(&self) -> DownloadActionView {
        match self {
            DownloadAction::RemoveStale(p) => DownloadActionView::RemoveStale(p@),
            DownloadAction::Get(u) => DownloadActionView::Get(u@),
            DownloadAction::CreateFile(p) => DownloadActionView::CreateFile(p@),
            DownloadAction::NextChunk => DownloadActionView::NextChunk,
            DownloadAction::WriteChunk => DownloadActionView::WriteChunk,
            DownloadAction::Publish(s) => DownloadActionView::Publish(s@),
            DownloadAction::Finish(Ok(u)) => DownloadActionView::Finish(Ok(*u)),
            DownloadAction::Finish(Err(e)) => DownloadActionView::Finish(Err(e@)),
        }
    }
}

/// A download: the address of the image, the file it goes to, and the
/// identifier of the request.
#[derive(Debug)]
pub struct Download {
    pub url: String,
    pub file_path: String,
    pub request_uuid: u128,
}

/// A [`Download`] as a mathematical value.
#[verifier::ext_equal]
pub struct DownloadView {
    pub url: Seq<char>,
    pub file_path: Seq<char>,
    pub request_uuid: u128,
}

impl View for Download {
    type V = DownloadView;

    open spec fn view(&self) -> DownloadView {
        DownloadView {
            url: self.url@,
            file_path: self.file_path@,
            request_uuid: self.request_uuid,
        }
    }
}

/// How much of the total was downloaded once another chunk has come: bytes
/// beyond the total do not count.
pub open spec fn received(total: u64, downloaded: u64, chunk: u64) -> u64 {
    if downloaded + chunk < total {
        (downloaded + chunk) as u64
    } else {
        total
    }
}

/// The progress that is reported: the whole parts of the total that were
/// downloaded, in percent.
pub open spec fn percentage(total: u64, downloaded: u64) -> int {
    (downloaded as int / total as int) * 100
}

/// The end of a download with an error.
pub open spec fn refused(error: OtaErrorView) -> (DownloadPhase, DownloadActionView) {
    (DownloadPhase::Done, DownloadActionView::Finish(Err(error)))
}

/// The step that follows a reply.
pub open spec fn next_step(download: DownloadView, phase: DownloadPhase, reply: DownloadReply) -> (
    DownloadPhase,
    DownloadActionView,
) {
    match (phase, reply) {
        (DownloadPhase::RemoveStale, _) => (
            DownloadPhase::Get,
            DownloadActionView::Get(download.url),
        ),
        (DownloadPhase::Get, DownloadReply::Response(Some(length))) => match length {
            Some(total) if total != 0 => (
                DownloadPhase::Create { total },
                DownloadActionView::CreateFile(download.file_path),
            ),
            _ => refused(
                OtaErrorView::Network("Unable to get content length from: "@ + download.url),
            ),
        },
        (DownloadPhase::Get, _) => refused(OtaErrorView::Network("Error downloading update"@)),
        (DownloadPhase::Create { total }, DownloadReply::Outcome(true)) => (
            DownloadPhase::Receive { total, downloaded: 0 },
            DownloadActionView::NextChunk,
        ),
        (DownloadPhase::Create { .. }, _) => refused(
            OtaErrorView::IO(
                "Unable to create ota_file in "@ + crate::text::quoted(download.file_path),
            ),
        ),
        (
            DownloadPhase::Receive { total, downloaded },
            DownloadReply::Chunk(Some(chunk)),
        ) => (
            DownloadPhase::Write { total, downloaded, chunk },
            DownloadActionView::WriteChunk,
        ),
        (DownloadPhase::Receive { total, downloaded }, DownloadReply::End) => if total
            == downloaded {
            (DownloadPhase::Done, DownloadActionView::Finish(Ok(())))
        } else {
            refused(OtaErrorView::Network("Unable to download file"@))
        },
        (DownloadPhase::Receive { .. }, _) => refused(
            OtaErrorView::Network("Unable to parse response"@),
        ),
        (
            DownloadPhase::Write { total, downloaded, chunk },
            DownloadReply::Outcome(true),
        ) => (
            DownloadPhase::Report { total, downloaded: received(total, downloaded, chunk) },
            DownloadActionView::Publish(
                OtaStatusView::Downloading(
                    OtaRequestView { uuid: download.request_uuid, url: Seq::empty() },
                    percentage(total, received(total, downloaded, chunk)) as i32,
                ),
            ),
        ),
        (DownloadPhase::Write { .. }, _) => refused(
            OtaErrorView::IO(
                "Unable to write chunk to ota_file in "@ + crate::text::quoted(download.file_path),
            ),
        ),
        (DownloadPhase::Report { total, downloaded }, _) => (
            DownloadPhase::Receive { total, downloaded },
            DownloadActionView::NextChunk,
        ),
        (DownloadPhase::Done, _) => arbitrary(),
    }
}

impl DownloadPhase {
    /// Whether the phase is one that a download can be in: no more than the
    /// total is downloaded, and there is something to download.
    pub open spec fn wf(self) -> bool {
        match self {
            DownloadPhase::Create { total } => 0 < total,
            DownloadPhase::Receive { total, downloaded } => 0 < total && downloaded <= total,
            DownloadPhase::Write { total, downloaded, .. } => 0 < total && downloaded <= total,
            DownloadPhase::Report { total, downloaded } => 0 < total && downloaded <= total,
            _ => true,
        }
    }

    /// Whether a reply is one to the action that the phase waits for.
    pub open spec fn accepts(self, reply: DownloadReply) -> bool {
        match self {
            DownloadPhase::RemoveStale | DownloadPhase::Report { .. } => reply is Done,
            DownloadPhase::Get => reply is Response,
            DownloadPhase::Create { .. } | DownloadPhase::Write { .. } => reply is Outcome,
            DownloadPhase::Receive { .. } => reply is Chunk || reply is End,
            DownloadPhase::Done => false,
        }
    }
}

impl DownloadActionView {
    /// Whether a reply is one to the action.
    pub open spec fn answered_by(self, reply: DownloadReply) -> bool {
        match self {
            DownloadActionView::RemoveStale(_) | DownloadActionView::Publish(_) => reply is Done,
            DownloadActionView::Get(_) => reply is Response,
            DownloadActionView::CreateFile(_) | DownloadActionView::WriteChunk => reply is Outcome,
            DownloadActionView::NextChunk => reply is Chunk || reply is End,
            DownloadActionView::Finish(_) => false,
        }
    }
}

/// Whether a download in the phase can be gone on with by any reply to the
/// action.
pub open spec fn waits_for(phase: DownloadPhase, action: DownloadActionView) -> bool {
    &&& phase.wf()
    &&& forall|reply: DownloadReply| #[trigger]
        phase.accepts(reply) <==> action.answered_by(reply)
}

fn refuse(error: OtaError) -> (step: (DownloadPhase, DownloadAction))
    ensures
        (step.0, step.1@) == refused(error@),
{
    (DownloadPhase::Done, DownloadAction::Finish(Err(error)))
}

impl Download {
    /// Starts the download.
    pub fn wget(&self) -> (step: (DownloadPhase, DownloadAction))
        ensures
            step.0 == DownloadPhase::RemoveStale,
            step.1@ == DownloadActionView::RemoveStale(self.file_path@),
            waits_for(step.0, step.1@),
    {
        (DownloadPhase::RemoveStale, DownloadAction::RemoveStale(self.file_path.clone()))
    }

    /// Goes on with the download after a reply.
    pub fn resume(&self, phase: DownloadPhase, reply: DownloadReply) -> (step: (
        DownloadPhase,
        DownloadAction,
    ))
        requires
            phase.wf(),
            phase.accepts(reply),
        ensures
            (step.0, step.1@) == next_step(self@, phase, reply),
            waits_for(step.0, step.1@),
    {
        match phase {
            DownloadPhase::RemoveStale => (
                DownloadPhase::Get,
                DownloadAction::Get(self.url.clone()),
            ),
            DownloadPhase::Get => match reply {
                DownloadReply::Response(Some(length)) => {
                    let total: u64 = match length {
                        Some(total) => total,
                        None => 0,
                    };
                    if total == 0 {
                        let message = join("Unable to get content length from: ", self.url.as_str());
                        refuse(OtaError::Network(message))
                    } else {
                        (
                            DownloadPhase::Create { total },
                            DownloadAction::CreateFile(self.file_path.clone()),
                        )
                    }
                },
                _ => refuse(OtaError::Network("Error downloading update".to_owned())),
            },
            DownloadPhase::Create { total } => match reply {
                DownloadReply::Outcome(true) => (
                    DownloadPhase::Receive { total, downloaded: 0 },
                    DownloadAction::NextChunk,
                ),
                _ => {
                    let file = quoted_text(self.file_path.as_str());
                    refuse(OtaError::IO(join("Unable to create ota_file in ", file.as_str())))
                },
            },
            DownloadPhase::Receive { total, downloaded } => match reply {
                DownloadReply::Chunk(Some(chunk)) => (
                    DownloadPhase::Write { total, downloaded, chunk },
                    DownloadAction::WriteChunk,
                ),
                DownloadReply::End => {
                    if total != downloaded {
                        refuse(OtaError::Network("Unable to download file".to_owned()))
                    } else {
                        (DownloadPhase::Done, DownloadAction::Finish(Ok(())))
                    }
                },
                _ => refuse(OtaError::Network("Unable to parse response".to_owned())),
            },
            DownloadPhase::Write { total, downloaded, chunk } => match reply {
                DownloadReply::Outcome(true) => {
                    let downloaded: u64 = if chunk < total - downloaded {
                        downloaded + chunk
                    } else {
                        total
                    };
                    proof {
                        lemma_percentage(total, downloaded);
                    }
                    let progress: i32 = ((downloaded / total) * 100) as i32;
                    let request = OtaRequest { uuid: self.request_uuid, url: String::new() };
                    (
                        DownloadPhase::Report { total, downloaded },
                        DownloadAction::Publish(OtaStatus::Downloading(request, progress)),
                    )
                },
                _ => {
                    let file = quoted_text(self.file_path.as_str());
                    refuse(
                        OtaError::IO(join("Unable to write chunk to ota_file in ", file.as_str())),
                    )
                },
            },
            DownloadPhase::Report { total, downloaded } => (
                DownloadPhase::Receive { total, downloaded },
                DownloadAction::NextChunk,
            ),
            DownloadPhase::Done => unreached(),
        }
    }
}

/// The reported progress is 100 once everything was downloaded, and 0 before.
pub proof fn lemma_percentage(total: u64, downloaded: u64)
    requires
        0 < total,
        downloaded <= total,
    ensures
        percentage(total, downloaded) == (if downloaded == total {
            100int
        } else {
            0
        }),
{
    if downloaded == total {
        vstd::arithmetic::div_mod::lemma_div_by_self(total as int);
    } else {
        vstd::arithmetic::div_mod::lemma_basic_div(downloaded as int, total as int);
    }
}

} // verus!
