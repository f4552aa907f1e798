//! What holds of downloads, over all their steps.

use vstd::prelude::*;

use crate::ota::download::{DownloadActionView, DownloadPhase, DownloadReply, DownloadView};
use crate::ota::status::OtaStatusView;

verus! {

/// A download asks for its own address, writes to its own file and reports
/// about its own request, whatever comes back.
pub proof fn law_downloads_keep_to_themselves(
    download: DownloadView,
    phase: DownloadPhase,
    reply: DownloadReply,
)
    requires
        phase.wf(),
        phase.accepts(reply),
    ensures
        match crate::ota::download::next_step(download, phase, reply).1 {
            DownloadActionView::RemoveStale(path) => path == download.file_path,
            DownloadActionView::Get(url) => url == download.url,
            DownloadActionView::CreateFile(path) => path == download.file_path,
            DownloadActionView::Publish(OtaStatusView::Downloading(request, _)) => request.uuid
                == download.request_uuid && request.url.len() == 0,
            DownloadActionView::Publish(_) => false,
            _ => true,
        },
{
}

/// A download first removes what an earlier one left, then asks for the image.
/// It goes on exactly where the response announces a length that is not 0, and
/// then this length is what has to come.
pub proof fn law_lengths_have_to_be_announced(
    download: DownloadView,
    response: Option<Option<u64>>,
)
    ensures
        ({
            let asked = crate::ota::download::next_step(
                download,
                DownloadPhase::RemoveStale,
                DownloadReply::Done,
            );
            let answered = crate::ota::download::next_step(
                download,
                asked.0,
                DownloadReply::Response(response),
            );
            let created = crate::ota::download::next_step(
                download,
                answered.0,
                DownloadReply::Outcome(true),
            );
            &&& asked.1 is Get
            &&& match response {
                Some(Some(length)) if length > 0 => {
                    &&& answered.1 is CreateFile
                    &&& created.1 is NextChunk
                    &&& created.0 == (DownloadPhase::Receive { total: length, downloaded: 0 })
                },
                _ => ends_with_network_error(answered.1),
            }
        }),
{
}

/// Whether an action ends a download with an error of the network.
pub open spec fn ends_with_network_error(action: DownloadActionView) -> bool {
    match action {
        DownloadActionView::Finish(Err(error)) => error is Network,
        _ => false,
    }
}

/// Whether an action ends a download with an error of the device.
pub open spec fn ends_with_io_error(action: DownloadActionView) -> bool {
    match action {
        DownloadActionView::Finish(Err(error)) => error is IO,
        _ => false,
    }
}

/// A chunk is written before it counts: once it came it is written, once it was
/// written the progress is reported, and then the next one is received. A file
/// that cannot be created or written ends the download with an error of the
/// device, a chunk that cannot be received with one of the network.
pub proof fn law_chunks_are_written(
    download: DownloadView,
    total: u64,
    downloaded: u64,
    chunk: u64,
)
    requires
        0 < total,
        downloaded <= total,
    ensures
        ({
            let waiting = DownloadPhase::Receive { total, downloaded };
            let came = crate::ota::download::next_step(
                download,
                waiting,
                DownloadReply::Chunk(Some(chunk)),
            );
            let lost = crate::ota::download::next_step(
                download,
                waiting,
                DownloadReply::Chunk(None),
            );
            let written = crate::ota::download::next_step(
                download,
                came.0,
                DownloadReply::Outcome(true),
            );
            let unwritten = crate::ota::download::next_step(
                download,
                came.0,
                DownloadReply::Outcome(false),
            );
            let reported = crate::ota::download::next_step(
                download,
                written.0,
                DownloadReply::Done,
            );
            let uncreated = crate::ota::download::next_step(
                download,
                DownloadPhase::Create { total },
                DownloadReply::Outcome(false),
            );
            &&& came.1 is WriteChunk
            &&& written.1 is Publish
            &&& reported.1 is NextChunk
            &&& reported.0 matches DownloadPhase::Receive { total: left, downloaded: now }
            &&& left == total
            &&& now == (if downloaded + chunk < total {
                downloaded + chunk
            } else {
                total as int
            })
            &&& ends_with_network_error(lost.1)
            &&& ends_with_io_error(unwritten.1)
            &&& ends_with_io_error(uncreated.1)
        }),
{
}

/// A download never succeeds before the response has ended.
pub proof fn law_downloads_succeed_at_the_end(
    download: DownloadView,
    phase: DownloadPhase,
    reply: DownloadReply,
)
    requires
        phase.wf(),
        phase.accepts(reply),
    ensures
        match crate::ota::download::next_step(download, phase, reply).1 {
            DownloadActionView::Finish(Ok(_)) => {
                &&& reply is End
                &&& phase matches DownloadPhase::Receive { total, downloaded }
                &&& total == downloaded
            },
            DownloadActionView::Finish(Err(error)) => error is Network || error is IO,
            _ => true,
        },
{
}

} // verus!
