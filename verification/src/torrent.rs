//! Torrent downloads: where they are saved and how they are reported.
use vstd::prelude::*;

use crate::events::{DownloadStatus, ProgressEvent, event_is};
use crate::text::concat;

verus! {

broadcast use vstd::string::group_string_axioms;

/// The folder torrents are saved in: the destination's parent directory, or
/// `C:\Downloads` when it has none.
pub fn output_folder(parent: Option<String>) -> (r: String)
    ensures
        r@ == match parent {
            Some(p) => p@,
            None => "C:\\Downloads"@,
        },
{
    match parent {
        Some(p) => p,
        None => String::from_str("C:\\Downloads"),
    }
}

/// The message when the torrent session could not be created.
pub fn session_failure_message(error: &str) -> (r: String)
    ensures
        r@ == "Failed to create librqbit session: "@ + error@,
{
    concat("Failed to create librqbit session: ", error)
}

/// The report once a torrent is handed to the session (peers are being
/// looked for).
pub fn started_event(task_id: &str) -> (e: ProgressEvent)
    ensures
        event_is(e, task_id@, DownloadStatus::Downloading, None, None, 0, 0, 0),
{
    ProgressEvent::new(task_id, DownloadStatus::Downloading, None, None, 0, 0, 0)
}

/// The report when the session refused the torrent (it carries no message).
pub fn add_failed_event(task_id: &str) -> (e: ProgressEvent)
    ensures
        event_is(e, task_id@, DownloadStatus::Error, None, None, 0, 0, 0),
{
    ProgressEvent::new(task_id, DownloadStatus::Error, None, None, 0, 0, 0)
}

/// The periodic report while a torrent runs: the session's live figures,
/// bytes downloaded so far, the torrent's size (0 while its metadata is
/// still unknown) and the download speed in bytes per second.
pub fn running_event(task_id: &str, downloaded: u64, total: u64, speed: u64) -> (e: ProgressEvent)
    ensures
        event_is(e, task_id@, DownloadStatus::Downloading, None, None, total, downloaded, speed),
{
    ProgressEvent::new(task_id, DownloadStatus::Downloading, None, None, total, downloaded, speed)
}

/// The report of a completed torrent: one of one byte, whatever its size,
/// so that the interface shows it as complete.
pub fn completed_event(task_id: &str) -> (e: ProgressEvent)
    ensures
        event_is(e, task_id@, DownloadStatus::Completed, None, None, 1, 1, 0),
{
    ProgressEvent::new(task_id, DownloadStatus::Completed, None, None, 1, 1, 0)
}

} // verus!
