//! Progress events reported to the user interface for every download.
use vstd::prelude::*;

verus! {

/// The state a download is reported in.
#[derive(Clone, Copy, Debug, PartialEq, Eq, Structural)]
pub enum DownloadStatus {
    Queued,
    Downloading,
    Paused,
    Completed,
    Error,
}

/// One `download_progress` notification.
#[derive(Clone, Debug)]
pub struct ProgressEvent {
    pub task_id: String,
    pub status: DownloadStatus,
    /// Present on the events that name the file being written.
    pub filename: Option<String>,
    /// Present on error events.
    pub error_message: Option<String>,
    pub total_bytes: u64,
    pub downloaded_bytes: u64,
    pub speed_bytes_per_sec: u64,
}

/// Whether `e` is the event with exactly these fields.
pub open spec fn event_is(
    e: ProgressEvent,
    task_id: Seq<char>,
    status: DownloadStatus,
    filename: Option<Seq<char>>,
    error_message: Option<Seq<char>>,
    total: u64,
    downloaded: u64,
    speed: u64,
) -> bool {
    &&& e.task_id@ == task_id
    &&& e.status == status
    &&& (match e.filename {
        Some(f) => filename == Some(f@),
        None => filename is None,
    })
    &&& (match e.error_message {
        Some(m) => error_message == Some(m@),
        None => error_message is None,
    })
    &&& e.total_bytes == total
    &&& e.downloaded_bytes == downloaded
    &&& e.speed_bytes_per_sec == speed
}

/// What the laws on a run's reports look at in one event.
pub struct EventSummary {
    pub task_id: Seq<char>,
    pub status: DownloadStatus,
    pub downloaded: u64,
}

pub open spec fn summary(e: ProgressEvent) -> EventSummary {
    EventSummary { task_id: e.task_id@, status: e.status, downloaded: e.downloaded_bytes }
}

/// The log after a step that reported `r`, if anything.
pub open spec fn logged(before: Seq<EventSummary>, r: Option<ProgressEvent>) -> Seq<EventSummary> {
    match r {
        Some(e) => before.push(summary(e)),
        None => before,
    }
}

/// A report after which nothing more is reported for the download.
pub open spec fn is_final_status(s: DownloadStatus) -> bool {
    ||| s is Paused
    ||| s is Completed
    ||| s is Error
}

/// Every event of `log` is about the task `task_id`.
pub open spec fn all_for_task(log: Seq<EventSummary>, task_id: Seq<char>) -> bool {
    forall|i: int| 0 <= i < log.len() ==> (#[trigger] log[i]).task_id == task_id
}

/// The downloaded count never falls from one event to a later one.
pub open spec fn downloaded_never_falls(log: Seq<EventSummary>) -> bool {
    forall|i: int, j: int| 0 <= i <= j < log.len() ==> log[i].downloaded <= log[j].downloaded
}

/// No event of `log` is final.
pub open spec fn none_final(log: Seq<EventSummary>) -> bool {
    forall|i: int| 0 <= i < log.len() ==> !is_final_status((#[trigger] log[i]).status)
}

/// `log` is not empty, its last event is final, and no other is.
pub open spec fn ends_with_only_final(log: Seq<EventSummary>) -> bool {
    &&& log.len() > 0
    &&& is_final_status(log.last().status)
    &&& none_final(log.drop_last())
}

impl ProgressEvent {
    /// The event with every field given.
    pub fn new(
        task_id: &str,
        status: DownloadStatus,
        filename: Option<String>,
        error_message: Option<String>,
        total_bytes: u64,
        downloaded_bytes: u64,
        speed_bytes_per_sec: u64,
    ) -> (e: ProgressEvent)
        ensures
            e.task_id@ == task_id@,
            e.status == status,
            e.filename == filename,
            e.error_message == error_message,
            e.total_bytes == total_bytes,
            e.downloaded_bytes == downloaded_bytes,
            e.speed_bytes_per_sec == speed_bytes_per_sec,
    {
        ProgressEvent {
            task_id: String::from_str(task_id),
            status,
            filename,
            error_message,
            total_bytes,
            downloaded_bytes,
            speed_bytes_per_sec,
        }
    }

    /// A download waiting for a free slot in the queue.
    pub fn queued(task_id: &str) -> (e: ProgressEvent)
        ensures
            event_is(e, task_id@, DownloadStatus::Queued, None, None, 0, 0, 0),
    {
        Self::new(task_id, DownloadStatus::Queued, None, None, 0, 0, 0)
    }

    /// A download that failed with `message`.
    pub fn failed(task_id: &str, message: &str, total_bytes: u64, downloaded_bytes: u64) -> (e:
        ProgressEvent)
        ensures
            event_is(
                e,
                task_id@,
                DownloadStatus::Error,
                None,
                Some(message@),
                total_bytes,
                downloaded_bytes,
                0,
            ),
    {
        Self::new(
            task_id,
            DownloadStatus::Error,
            None,
            Some(String::from_str(message)),
            total_bytes,
            downloaded_bytes,
            0,
        )
    }

    /// A download whose queue slot could not be obtained because the queue closed.
    pub fn queue_shut_down(task_id: &str) -> (e: ProgressEvent)
        ensures
            event_is(
                e,
                task_id@,
                DownloadStatus::Error,
                None,
                Some("Download queue was shut down"@),
                0,
                0,
                0,
            ),
    {
        Self::failed(task_id, "Download queue was shut down", 0, 0)
    }

    /// A download that has started transferring, before any figures are known.
    pub fn started(task_id: &str) -> (e: ProgressEvent)
        ensures
            event_is(e, task_id@, DownloadStatus::Downloading, None, None, 0, 0, 0),
    {
        Self::new(task_id, DownloadStatus::Downloading, None, None, 0, 0, 0)
    }
}

} // verus!
