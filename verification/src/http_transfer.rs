//! HTTP downloads: resuming from a `.part` file, reading the response
//! headers, and accounting for every received chunk (progress reporting and
//! the per-second speed cap). The network and file work is done by the
//! caller, which hands each outcome to these functions.
use vstd::prelude::*;

use crate::events::{
    DownloadStatus, EventSummary, ProgressEvent, all_for_task, downloaded_never_falls, ends_with_only_final,
    event_is, logged, none_final, summary,
};
use crate::text::{
    chars_of, concat, decimal_spec, is_digit_char, is_whitespace_char, lemma_decimal_digits, parse_decimal_u64,
    parse_u64_spec, push_decimal, str_eq, string_from, string_push, trim, trim_end_spec,
    trim_spec, trim_start_spec,
};

verus! {

// ---------------------------------------------------------------------------
// Request planning
// ---------------------------------------------------------------------------

pub open spec fn part_path_spec(destination: Seq<char>) -> Seq<char> {
    destination + ".part"@
}

/// A step of an HTTP download that can fail on the network or the disk.
#[derive(Clone, Copy, Debug, PartialEq, Eq, Structural)]
pub enum TransferFailure {
    /// Sending the request.
    StartRequest,
    /// Opening the `.part` file to append to it.
    OpenPartial,
    /// Creating the `.part` file.
    CreateFile,
    /// Writing a received chunk.
    WriteFile,
    /// Reading the response body.
    Stream,
    /// Renaming the finished `.part` file to the destination.
    Finalize,
}

/// What each failing step is reported as, before the system's description.
pub open spec fn failure_prefix(step: TransferFailure) -> Seq<char> {
    match step {
        TransferFailure::StartRequest => "Failed to start request: "@,
        TransferFailure::OpenPartial => "Failed to open partial file: "@,
        TransferFailure::CreateFile => "Failed to create file: "@,
        TransferFailure::WriteFile => "Failed to write file: "@,
        TransferFailure::Stream => "Stream error: "@,
        TransferFailure::Finalize => "Downloaded but could not finalize file: "@,
    }
}

/// The message of a failed step; `error` is the system's description.
pub fn failure_message(step: TransferFailure, error: &str) -> (r: String)
    ensures
        r@ == failure_prefix(step) + error@,
{
    match step {
        TransferFailure::StartRequest => concat("Failed to start request: ", error),
        TransferFailure::OpenPartial => concat("Failed to open partial file: ", error),
        TransferFailure::CreateFile => concat("Failed to create file: ", error),
        TransferFailure::WriteFile => concat("Failed to write file: ", error),
        TransferFailure::Stream => concat("Stream error: ", error),
        TransferFailure::Finalize => concat("Downloaded but could not finalize file: ", error),
    }
}

/// Where an unfinished download is written: the destination plus `.part`.
pub fn part_path(destination: &str) -> (r: String)
    ensures
        r@ == part_path_spec(destination@),
{
    concat(destination, ".part")
}

pub open spec fn range_header_spec(n: nat) -> Seq<char> {
    "bytes="@ + decimal_spec(n) + "-"@
}

/// The `Range` header to send, given the size of an existing `.part` file:
/// `bytes=N-` when the file holds `N > 0` bytes, and none otherwise.
pub fn range_request(existing_part: Option<u64>) -> (r: Option<String>)
    ensures
        r is Some <==> (existing_part matches Some(n) && n > 0),
        r matches Some(h) ==> h@ == range_header_spec(existing_part.unwrap() as nat),
{
    match existing_part {
        Some(n) => {
            if n > 0 {
                let mut h = String::from_str("bytes=");
                push_decimal(&mut h, n);
                h.append("-");
                Some(h)
            } else {
                None
            }
        },
        None => None,
    }
}

/// The byte count a download starts from: the size of an existing `.part`
/// file, or zero.
pub fn initial_downloaded(existing_part: Option<u64>) -> (r: u64)
    ensures
        r == match existing_part {
            Some(n) => n,
            None => 0,
        },
{
    match existing_part {
        Some(n) => n,
        None => 0,
    }
}

// ---------------------------------------------------------------------------
// Response headers
// ---------------------------------------------------------------------------

/// A header byte that `HeaderValue::to_str` accepts: visible ASCII or tab.
pub open spec fn is_visible_header_byte(b: u8) -> bool {
    (32 <= b && b < 127) || b == 9
}

/// The text of a header value (`HeaderValue::to_str`): present only when every
/// byte is visible ASCII or a tab.
pub open spec fn header_text_spec(bytes: Seq<u8>) -> Option<Seq<char>> {
    if forall|i: int| 0 <= i < bytes.len() ==> is_visible_header_byte(#[trigger] bytes[i]) {
        Some(bytes.map_values(|b: u8| b as char))
    } else {
        None
    }
}

/// The text of a raw header value, if it is made of visible ASCII.
pub fn header_text(bytes: &[u8]) -> (r: Option<String>)
    ensures
        match header_text_spec(bytes@) {
            Some(t) => r matches Some(s) && s@ == t,
            None => r is None,
        },
{
    let mut s = String::new();
    let mut i: usize = 0;
    while i < bytes.len()
        invariant
            i <= bytes@.len(),
            s@ == bytes@.take(i as int).map_values(|b: u8| b as char),
            forall|k: int| 0 <= k < i ==> is_visible_header_byte(#[trigger] bytes@[k]),
        decreases bytes@.len() - i,
    {
        let b = bytes[i];
        if !((32 <= b && b < 127) || b == 9) {
            return None;
        }
        string_push(&mut s, b as char);
        i = i + 1;
        assert(s@ == bytes@.take(i as int).map_values(|b: u8| b as char));
    }
    assert(bytes@.take(i as int) == bytes@);
    Some(s)
}

/// The text after the last `/` (all of `s` when it has none):
/// the first item of `str::rsplit('/')`.
pub open spec fn after_last_slash(s: Seq<char>) -> Seq<char>
    decreases s.len(),
{
    if s.len() == 0 {
        s
    } else if s.last() == '/' {
        Seq::empty()
    } else {
        after_last_slash(s.drop_last()).push(s.last())
    }
}

/// The complete length announced by a `Content-Range` value such as
/// `bytes 100-199/1000`: the trimmed text after the last `/`, unless it is
/// `*` (unknown) or not a number.
pub open spec fn content_range_total_spec(value: Seq<char>) -> Option<u64> {
    let t = trim_spec(after_last_slash(value));
    if t == "*"@ {
        None
    } else {
        parse_u64_spec(t)
    }
}

/// Index where the text after the last `/` starts.
fn after_last_slash_start(v: &Vec<char>) -> (r: usize)
    ensures
        r <= v@.len(),
        v@.skip(r as int) == after_last_slash(v@),
{
    let mut j = v.len();
    assert(v@.subrange(j as int, v@.len() as int) =~= Seq::<char>::empty());
    assert(v@.take(j as int) == v@);
    while j > 0 && v[j - 1] != '/'
        invariant
            j <= v@.len(),
            after_last_slash(v@) == after_last_slash(v@.take(j as int)) + v@.subrange(
                j as int,
                v@.len() as int,
            ),
        decreases j,
    {
        let ghost pre = v@.take(j as int);
        assert(pre.drop_last() == v@.take(j - 1));
        assert(pre.last() == v@[j - 1]);
        assert(v@.subrange(j - 1, v@.len() as int) == seq![v@[j - 1]] + v@.subrange(
            j as int,
            v@.len() as int,
        ));
        j = j - 1;
    }
    assert(after_last_slash(v@.take(j as int)) == Seq::<char>::empty());
    assert(v@.skip(j as int) == v@.subrange(j as int, v@.len() as int));
    assert(v@.take(v@.len() as int) == v@);
    j
}

/// The complete length announced by a `Content-Range` value.
pub fn content_range_total(value: &str) -> (r: Option<u64>)
    ensures
        r == content_range_total_spec(value@),
{
    let v = chars_of(value);
    let start = after_last_slash_start(&v);
    let tail = string_from(&v, start, v.len());
    assert(tail@ == after_last_slash(value@));
    let t = trim(tail.as_str());
    if str_eq(t.as_str(), "*") {
        None
    } else {
        parse_decimal_u64(t.as_str())
    }
}

/// `Content-Length` read from its raw header bytes.
pub open spec fn content_length_spec(header: Option<Seq<u8>>) -> Option<u64> {
    match header {
        Some(b) => match header_text_spec(b) {
            Some(t) => parse_u64_spec(t),
            None => None,
        },
        None => None,
    }
}

/// `Content-Range` total read from its raw header bytes.
pub open spec fn content_range_header_total_spec(header: Option<Seq<u8>>) -> Option<u64> {
    match header {
        Some(b) => match header_text_spec(b) {
            Some(t) => content_range_total_spec(t),
            None => None,
        },
        None => None,
    }
}

/// The value of a `Content-Length` header given as raw bytes.
pub fn content_length(header: Option<&[u8]>) -> (r: Option<u64>)
    ensures
        r == content_length_spec(
            match header {
                Some(b) => Some(b@),
                None => None,
            },
        ),
{
    match header {
        Some(b) => match header_text(b) {
            Some(t) => parse_decimal_u64(t.as_str()),
            None => None,
        },
        None => None,
    }
}

/// The total of a `Content-Range` header given as raw bytes.
pub fn content_range_header_total(header: Option<&[u8]>) -> (r: Option<u64>)
    ensures
        r == content_range_header_total_spec(
            match header {
                Some(b) => Some(b@),
                None => None,
            },
        ),
{
    match header {
        Some(b) => match header_text(b) {
            Some(t) => content_range_total(t.as_str()),
            None => None,
        },
        None => None,
    }
}

// ---------------------------------------------------------------------------
// Response and transfer accounting
// ---------------------------------------------------------------------------

/// The accounting of a transfer: bytes written, the expected total, bytes
/// since the last progress report, and bytes in the current one-second
/// window of the speed cap.
pub struct TransferState {
    pub downloaded: nat,
    pub total: nat,
    pub since_emit: nat,
    pub in_window: nat,
}

/// What the speed cap asks for after a chunk.
#[derive(Clone, Copy, Debug, PartialEq, Eq, Structural)]
pub enum RateAction {
    /// Nothing to do.
    Continue,
    /// The cap was exceeded inside the current window: wait for the rest of
    /// the window, then start a new one.
    Throttle,
    /// The window is over: start a new one counting this chunk.
    NewWindow,
}

/// The speed-cap decision: `limit` is in bytes per second, 0 meaning
/// unlimited; `in_window` counts the chunk just received.
pub open spec fn rate_action_spec(in_window: nat, limit: nat, window_elapsed_nanos: nat) -> RateAction {
    if limit == 0 {
        RateAction::Continue
    } else if window_elapsed_nanos < 1_000_000_000 {
        if in_window > limit {
            RateAction::Throttle
        } else {
            RateAction::Continue
        }
    } else {
        RateAction::NewWindow
    }
}

/// The accounting after a chunk of `len` bytes was written.
pub open spec fn after_chunk(st: TransferState, len: nat, limit: nat, window_elapsed_nanos: nat) -> TransferState {
    let in_window = st.in_window + len;
    TransferState {
        downloaded: st.downloaded + len,
        total: st.total,
        since_emit: st.since_emit + len,
        in_window: match rate_action_spec(in_window, limit, window_elapsed_nanos) {
            RateAction::Continue => in_window,
            RateAction::Throttle => 0,
            RateAction::NewWindow => len,
        },
    }
}

/// Minimum time between two progress reports, in milliseconds.
pub open spec fn progress_interval_ms() -> nat {
    200
}

/// A transfer in progress.
pub struct HttpTransfer {
    downloaded: u64,
    total: u64,
    since_emit: u64,
    in_window: u64,
}

impl View for HttpTransfer {
    type V = TransferState;

    closed spec fn view(&self) -> TransferState {
        TransferState {
            downloaded: self.downloaded as nat,
            total: self.total as nat,
            since_emit: self.since_emit as nat,
            in_window: self.in_window as nat,
        }
    }
}

/// How a response is handled.
pub enum ResponsePlan {
    /// The server refused the range of an existing `.part` file: the part
    /// file already holds the whole download.
    FinishFromPart { downloaded: u64 },
    /// Stream the body; `resuming` when the server sent the requested range
    /// (206), so the body is appended to the `.part` file.
    Transfer { resuming: bool, transfer: HttpTransfer },
}

/// A ghost description of a [`ResponsePlan`].
pub enum ResponseOutcome {
    FinishFromPart(nat),
    Transfer(bool, TransferState),
}

impl ResponsePlan {
    pub open spec fn outcome(&self) -> ResponseOutcome {
        match self {
            ResponsePlan::FinishFromPart { downloaded } => ResponseOutcome::FinishFromPart(
                *downloaded as nat,
            ),
            ResponsePlan::Transfer { resuming, transfer } => ResponseOutcome::Transfer(
                *resuming,
                transfer@,
            ),
        }
    }
}

pub open spec fn opt_bytes(h: Option<&[u8]>) -> Option<Seq<u8>> {
    match h {
        Some(b) => Some(b@),
        None => None,
    }
}

/// The size the whole download is expected to have.
pub open spec fn expected_total_spec(
    resuming: bool,
    start: nat,
    content_range: Option<Seq<u8>>,
    content_length: Option<Seq<u8>>,
) -> nat {
    let remaining: nat = match content_length_spec(content_length) {
        Some(n) => n as nat,
        None => 0,
    };
    if resuming {
        match content_range_header_total_spec(content_range) {
            Some(t) => t as nat,
            None => if start + remaining > u64::MAX {
                u64::MAX as nat
            } else {
                start + remaining
            },
        }
    } else {
        remaining
    }
}

/// How a response with HTTP status `status` is handled, given the size of
/// the `.part` file found before the request (if any) and the raw
/// `Content-Range` and `Content-Length` headers.
pub open spec fn response_outcome_spec(
    existing_part: Option<u64>,
    status: u16,
    content_range: Option<Seq<u8>>,
    content_length: Option<Seq<u8>>,
) -> ResponseOutcome {
    let start: nat = match existing_part {
        Some(n) => n as nat,
        None => 0,
    };
    if status == 416 && existing_part is Some {
        ResponseOutcome::FinishFromPart(start)
    } else {
        let resuming = status == 206;
        ResponseOutcome::Transfer(
            resuming,
            TransferState {
                downloaded: if resuming {
                    start
                } else {
                    0
                },
                total: expected_total_spec(resuming, start, content_range, content_length),
                since_emit: 0,
                in_window: 0,
            },
        )
    }
}

/// Decides how to handle the response to a download request.
pub fn plan_response(
    existing_part: Option<u64>,
    status: u16,
    content_range_header: Option<&[u8]>,
    content_length_header: Option<&[u8]>,
) -> (r: ResponsePlan)
    ensures
        r.outcome() == response_outcome_spec(
            existing_part,
            status,
            opt_bytes(content_range_header),
            opt_bytes(content_length_header),
        ),
{
    let start = initial_downloaded(existing_part);
    if status == 416 && existing_part.is_some() {
        return ResponsePlan::FinishFromPart { downloaded: start };
    }
    let resuming = status == 206;
    let length = content_length(content_length_header);
    let remaining: u64 = match length {
        Some(n) => n,
        None => 0,
    };
    let total: u64 = if resuming {
        match content_range_header_total(content_range_header) {
            Some(t) => t,
            None => start.saturating_add(remaining),
        }
    } else {
        remaining
    };
    let downloaded: u64 = if resuming {
        start
    } else {
        0
    };
    ResponsePlan::Transfer {
        resuming,
        transfer: HttpTransfer { downloaded, total, since_emit: 0, in_window: 0 },
    }
}

impl HttpTransfer {
    #[verifier::type_invariant]
    spec fn counters_bounded(&self) -> bool {
        &&& self.since_emit <= self.downloaded
        &&& self.in_window <= self.downloaded
    }

    pub fn downloaded(&self) -> (r: u64)
        ensures
            r == self@.downloaded,
    {
        self.downloaded
    }

    pub fn total(&self) -> (r: u64)
        ensures
            r == self@.total,
    {
        self.total
    }

    /// Accounts for a chunk of `len` bytes just written to the file and
    /// returns what the speed cap asks for. `limit` is the cap in bytes per
    /// second (0: unlimited); `window_elapsed_nanos` is the time since the
    /// current window started.
    pub fn record_chunk(&mut self, len: u64, limit: u64, window_elapsed_nanos: u128) -> (a:
        RateAction)
        requires
            old(self)@.downloaded + len <= u64::MAX,
        ensures
            a == rate_action_spec(
                old(self)@.in_window + len as nat,
                limit as nat,
                window_elapsed_nanos as nat,
            ),
            final(self)@ == after_chunk(
                old(self)@,
                len as nat,
                limit as nat,
                window_elapsed_nanos as nat,
            ),
    {
        proof {
            use_type_invariant(&*self);
        }
        let in_window = self.in_window + len;
        let action = if limit == 0 {
            RateAction::Continue
        } else if window_elapsed_nanos < 1_000_000_000 {
            if in_window > limit {
                RateAction::Throttle
            } else {
                RateAction::Continue
            }
        } else {
            RateAction::NewWindow
        };
        let new_window = match action {
            RateAction::Continue => in_window,
            RateAction::Throttle => 0,
            RateAction::NewWindow => len,
        };
        *self = HttpTransfer {
            downloaded: self.downloaded + len,
            total: self.total,
            since_emit: self.since_emit + len,
            in_window: new_window,
        };
        action
    }

    /// Whether a progress report is due `elapsed_ms` milliseconds after the
    /// previous one; if so, returns the bytes received since then (for the
    /// speed figure) and starts counting anew.
    pub fn take_progress(&mut self, elapsed_ms: u128) -> (r: Option<u64>)
        ensures
            elapsed_ms >= progress_interval_ms() ==> r == Some(old(self)@.since_emit as u64)
                && final(self)@ == (TransferState { since_emit: 0, ..old(self)@ }),
            elapsed_ms < progress_interval_ms() ==> r is None && final(self)@ == old(self)@,
    {
        proof {
            use_type_invariant(&*self);
        }
        if elapsed_ms >= 200 {
            let bytes = self.since_emit;
            *self = HttpTransfer {
                downloaded: self.downloaded,
                total: self.total,
                since_emit: 0,
                in_window: self.in_window,
            };
            Some(bytes)
        } else {
            None
        }
    }

    /// The first report of a transfer, naming the file being written.
    pub fn start_event(&self, task_id: &str, filename: String) -> (e: ProgressEvent)
        ensures
            event_is(
                e,
                task_id@,
                DownloadStatus::Downloading,
                Some(filename@),
                None,
                self@.total as u64,
                self@.downloaded as u64,
                0,
            ),
    {
        ProgressEvent::new(
            task_id,
            DownloadStatus::Downloading,
            Some(filename),
            None,
            self.total,
            self.downloaded,
            0,
        )
    }

    /// A periodic progress report at `speed` bytes per second.
    pub fn progress_event(&self, task_id: &str, speed: u64) -> (e: ProgressEvent)
        ensures
            event_is(
                e,
                task_id@,
                DownloadStatus::Downloading,
                None,
                None,
                self@.total as u64,
                self@.downloaded as u64,
                speed,
            ),
    {
        ProgressEvent::new(
            task_id,
            DownloadStatus::Downloading,
            None,
            None,
            self.total,
            self.downloaded,
            speed,
        )
    }

    /// The report when the user pauses the transfer.
    pub fn paused_event(&self, task_id: &str) -> (e: ProgressEvent)
        ensures
            event_is(
                e,
                task_id@,
                DownloadStatus::Paused,
                None,
                None,
                self@.total as u64,
                self@.downloaded as u64,
                0,
            ),
    {
        ProgressEvent::new(
            task_id,
            DownloadStatus::Paused,
            None,
            None,
            self.total,
            self.downloaded,
            0,
        )
    }

    /// The report when the file is complete and in place.
    pub fn completed_event(&self, task_id: &str, filename: String) -> (e: ProgressEvent)
        ensures
            event_is(
                e,
                task_id@,
                DownloadStatus::Completed,
                Some(filename@),
                None,
                self@.total as u64,
                self@.downloaded as u64,
                0,
            ),
    {
        ProgressEvent::new(
            task_id,
            DownloadStatus::Completed,
            Some(filename),
            None,
            self.total,
            self.downloaded,
            0,
        )
    }

    /// The report when the transfer fails with `message`.
    pub fn error_event(&self, task_id: &str, message: &str) -> (e: ProgressEvent)
        ensures
            event_is(
                e,
                task_id@,
                DownloadStatus::Error,
                None,
                Some(message@),
                0,
                self@.downloaded as u64,
                0,
            ),
    {
        ProgressEvent::failed(task_id, message, 0, self.downloaded)
    }
}

/// The report when the `.part` file turned out to be the whole download.
pub fn completed_from_part_event(task_id: &str, filename: String, downloaded: u64) -> (e:
    ProgressEvent)
    ensures
        event_is(
            e,
            task_id@,
            DownloadStatus::Completed,
            Some(filename@),
            None,
            downloaded,
            downloaded,
            0,
        ),
{
    ProgressEvent::new(
        task_id,
        DownloadStatus::Completed,
        Some(filename),
        None,
        downloaded,
        downloaded,
        0,
    )
}

// ---------------------------------------------------------------------------
// A whole download
// ---------------------------------------------------------------------------

/// Where an HTTP download stands.
pub enum HttpPhase {
    /// The request is being sent.
    Requesting,
    /// The server answered with a body; the `.part` file is being opened.
    Opening,
    /// The body is being written.
    Streaming,
    /// A final report was made; nothing more is reported.
    Done,
}

/// One HTTP download from request to final report. The caller does the
/// network and file work and hands each outcome to a method, which returns
/// the report to send, if any. A ghost log keeps every report made.
pub struct HttpDownload {
    task_id: String,
    filename: String,
    existing_part: Option<u64>,
    phase: HttpPhase,
    transfer: HttpTransfer,
    log: Ghost<Seq<EventSummary>>,
}

/// The outcome of the server's answer.
pub enum ResponseStep {
    /// The `.part` file already held the whole download: move it into place,
    /// then send this report.
    FinishFromPart(ProgressEvent),
    /// Open the `.part` file (appending to it when `resuming`) and stream
    /// the body.
    Open { resuming: bool },
    /// The download was not waiting for an answer.
    Ignored,
}

impl HttpDownload {
    pub closed spec fn task(&self) -> Seq<char> {
        self.task_id@
    }

    /// The name reported for the destination file.
    pub closed spec fn file_name(&self) -> Seq<char> {
        self.filename@
    }

    pub closed spec fn existing(&self) -> Option<u64> {
        self.existing_part
    }

    pub closed spec fn phase(&self) -> HttpPhase {
        self.phase
    }

    /// The accounting of the body being transferred.
    pub closed spec fn transfer_state(&self) -> TransferState {
        self.transfer@
    }

    /// Every report made so far, in order.
    pub closed spec fn events(&self) -> Seq<EventSummary> {
        self.log@
    }

    /// What every download in progress satisfies.
    pub closed spec fn wf(&self) -> bool {
        &&& all_for_task(self.log@, self.task_id@)
        &&& downloaded_never_falls(self.log@)
        &&& match self.phase {
            HttpPhase::Requesting => self.log@.len() == 0,
            HttpPhase::Opening => self.log@.len() == 0,
            HttpPhase::Streaming => {
                &&& self.log@.len() > 0
                &&& none_final(self.log@)
                &&& self.log@.last().downloaded <= self.transfer@.downloaded
            },
            HttpPhase::Done => ends_with_only_final(self.log@),
        }
    }

    /// A download for the task `task_id` of the file reported as `filename`
    /// (the destination's file name), with `existing_part` bytes already in
    /// its `.part` file, if any.
    pub fn new(task_id: &str, filename: String, existing_part: Option<u64>) -> (r: HttpDownload)
        ensures
            r.wf(),
            r.task() == task_id@,
            r.file_name() == filename@,
            r.existing() == existing_part,
            r.phase() is Requesting,
            r.events() == Seq::<EventSummary>::empty(),
    {
        HttpDownload {
            task_id: String::from_str(task_id),
            filename,
            existing_part,
            phase: HttpPhase::Requesting,
            transfer: HttpTransfer { downloaded: 0, total: 0, since_emit: 0, in_window: 0 },
            log: Ghost(Seq::empty()),
        }
    }

    /// The download, its file and its `.part` file are the same in `other`.
    pub open spec fn same_download(&self, other: &HttpDownload) -> bool {
        &&& other.task() == self.task()
        &&& other.file_name() == self.file_name()
        &&& other.existing() == self.existing()
    }

    /// Bytes written so far.
    pub fn downloaded(&self) -> (r: u64)
        ensures
            r == self.transfer_state().downloaded,
    {
        self.transfer.downloaded()
    }

    /// Records the report `e` in the log.
    fn record(&mut self, e: &ProgressEvent)
        requires
            all_for_task(old(self).log@, old(self).task_id@),
            downloaded_never_falls(old(self).log@),
            e.task_id@ == old(self).task_id@,
            old(self).log@.len() > 0 ==> old(self).log@.last().downloaded <= e.downloaded_bytes,
        ensures
            final(self).log@ == old(self).log@.push(summary(*e)),
            final(self).log@.drop_last() == old(self).log@,
            all_for_task(final(self).log@, final(self).task_id@),
            downloaded_never_falls(final(self).log@),
            final(self).task_id == old(self).task_id,
            final(self).filename == old(self).filename,
            final(self).existing_part == old(self).existing_part,
            final(self).phase == old(self).phase,
            final(self).transfer@ == old(self).transfer@,
    {
        let ghost before = self.log@;
        self.log = Ghost(before.push(summary(*e)));
        proof {
            let after = self.log@;
            assert(after.drop_last() =~= before);
            assert forall|i: int, j: int| 0 <= i <= j < after.len() implies after[i].downloaded
                <= after[j].downloaded by {
                if j == after.len() - 1 && i < j {
                    assert(before[i].downloaded <= before.last().downloaded);
                }
            }
        }
    }

    /// A failure with `message` (sending the request, opening the `.part`
    /// file, writing, reading the body or moving the file into place): the
    /// error report, after which the download is over. Before the server
    /// answered it counts the bytes already in the `.part` file; afterwards
    /// the bytes written; the total is reported as 0.
    pub fn fail(&mut self, message: &str) -> (r: Option<ProgressEvent>)
        requires
            old(self).wf(),
        ensures
            final(self).wf(),
            old(self).same_download(final(self)),
            final(self).transfer_state() == old(self).transfer_state(),
            final(self).events() == logged(old(self).events(), r),
            final(self).phase() is Done,
            match old(self).phase() {
                HttpPhase::Done => r is None,
                HttpPhase::Requesting => r matches Some(e) && event_is(
                    e,
                    old(self).task(),
                    DownloadStatus::Error,
                    None,
                    Some(message@),
                    0,
                    match old(self).existing() {
                        Some(n) => n,
                        None => 0,
                    },
                    0,
                ),
                _ => r matches Some(e) && event_is(
                    e,
                    old(self).task(),
                    DownloadStatus::Error,
                    None,
                    Some(message@),
                    0,
                    old(self).transfer_state().downloaded as u64,
                    0,
                ),
            },
    {
        let e = match self.phase {
            HttpPhase::Done => {
                return None;
            },
            HttpPhase::Requesting => ProgressEvent::failed(
                self.task_id.as_str(),
                message,
                0,
                initial_downloaded(self.existing_part),
            ),
            _ => self.transfer.error_event(self.task_id.as_str(), message),
        };
        self.record(&e);
        self.phase = HttpPhase::Done;
        Some(e)
    }

    /// The server's answer: its status and its `Content-Range` and
    /// `Content-Length` headers (see [`plan_response`]).
    pub fn respond(
        &mut self,
        status: u16,
        content_range: Option<&[u8]>,
        content_length: Option<&[u8]>,
    ) -> (r: ResponseStep)
        requires
            old(self).wf(),
        ensures
            final(self).wf(),
            old(self).same_download(final(self)),
            !(old(self).phase() is Requesting) ==> {
                &&& r is Ignored
                &&& final(self).phase() == old(self).phase()
                &&& final(self).transfer_state() == old(self).transfer_state()
                &&& final(self).events() == old(self).events()
            },
            old(self).phase() is Requesting ==> match response_outcome_spec(
                old(self).existing(),
                status,
                opt_bytes(content_range),
                opt_bytes(content_length),
            ) {
                ResponseOutcome::FinishFromPart(n) => r matches ResponseStep::FinishFromPart(e)
                    && event_is(
                    e,
                    old(self).task(),
                    DownloadStatus::Completed,
                    Some(old(self).file_name()),
                    None,
                    n as u64,
                    n as u64,
                    0,
                ) && final(self).phase() is Done && final(self).events() == old(self).events().push(
                    summary(e),
                ),
                ResponseOutcome::Transfer(resuming, st) => r matches ResponseStep::Open {
                    resuming: x,
                } && x == resuming && final(self).phase() is Opening && final(self).transfer_state()
                    == st && final(self).events() == old(self).events(),
            },
    {
        match self.phase {
            HttpPhase::Requesting => {},
            _ => {
                return ResponseStep::Ignored;
            },
        }
        match plan_response(self.existing_part, status, content_range, content_length) {
            ResponsePlan::FinishFromPart { downloaded } => {
                let e = completed_from_part_event(
                    self.task_id.as_str(),
                    self.filename.clone(),
                    downloaded,
                );
                self.record(&e);
                self.phase = HttpPhase::Done;
                ResponseStep::FinishFromPart(e)
            },
            ResponsePlan::Transfer { resuming, transfer } => {
                self.transfer = transfer;
                self.phase = HttpPhase::Opening;
                ResponseStep::Open { resuming }
            },
        }
    }

    /// The `.part` file is open: the first report, naming the file.
    pub fn opened(&mut self) -> (r: Option<ProgressEvent>)
        requires
            old(self).wf(),
        ensures
            final(self).wf(),
            old(self).same_download(final(self)),
            final(self).transfer_state() == old(self).transfer_state(),
            final(self).events() == logged(old(self).events(), r),
            old(self).phase() is Opening ==> final(self).phase() is Streaming && (r matches Some(e)
                && event_is(
                e,
                old(self).task(),
                DownloadStatus::Downloading,
                Some(old(self).file_name()),
                None,
                old(self).transfer_state().total as u64,
                old(self).transfer_state().downloaded as u64,
                0,
            )),
            !(old(self).phase() is Opening) ==> r is None && final(self).phase() == old(self).phase(),
    {
        match self.phase {
            HttpPhase::Opening => {},
            _ => {
                return None;
            },
        }
        let e = self.transfer.start_event(self.task_id.as_str(), self.filename.clone());
        self.record(&e);
        self.phase = HttpPhase::Streaming;
        Some(e)
    }

    /// A chunk of `len` bytes was written; `limit` is the speed cap and
    /// `window_elapsed_nanos` the age of the cap's window. Returns what the
    /// cap asks for (see [`HttpTransfer::record_chunk`]).
    pub fn chunk(&mut self, len: u64, limit: u64, window_elapsed_nanos: u128) -> (r: Option<
        RateAction,
    >)
        requires
            old(self).wf(),
            old(self).phase() is Streaming ==> old(self).transfer_state().downloaded + len
                <= u64::MAX,
        ensures
            final(self).wf(),
            old(self).same_download(final(self)),
            final(self).phase() == old(self).phase(),
            final(self).events() == old(self).events(),
            old(self).phase() is Streaming ==> r == Some(
                rate_action_spec(
                    old(self).transfer_state().in_window + len as nat,
                    limit as nat,
                    window_elapsed_nanos as nat,
                ),
            ) && final(self).transfer_state() == after_chunk(
                old(self).transfer_state(),
                len as nat,
                limit as nat,
                window_elapsed_nanos as nat,
            ),
            !(old(self).phase() is Streaming) ==> r is None && final(self).transfer_state() == old(
                self,
            ).transfer_state(),
    {
        match self.phase {
            HttpPhase::Streaming => Some(self.transfer.record_chunk(len, limit, window_elapsed_nanos)),
            _ => None,
        }
    }

    /// Whether a progress report is due `elapsed_ms` milliseconds after the
    /// previous one (see [`HttpTransfer::take_progress`]).
    pub fn take_progress(&mut self, elapsed_ms: u128) -> (r: Option<u64>)
        requires
            old(self).wf(),
        ensures
            final(self).wf(),
            old(self).same_download(final(self)),
            final(self).phase() == old(self).phase(),
            final(self).events() == old(self).events(),
            old(self).phase() is Streaming && elapsed_ms >= progress_interval_ms() ==> r == Some(
                old(self).transfer_state().since_emit as u64,
            ) && final(self).transfer_state() == (TransferState {
                since_emit: 0,
                ..old(self).transfer_state()
            }),
            !(old(self).phase() is Streaming && elapsed_ms >= progress_interval_ms()) ==> r is None
                && final(self).transfer_state() == old(self).transfer_state(),
    {
        match self.phase {
            HttpPhase::Streaming => self.transfer.take_progress(elapsed_ms),
            _ => None,
        }
    }

    /// A periodic progress report at `speed` bytes per second.
    pub fn progress_event(&mut self, speed: u64) -> (r: Option<ProgressEvent>)
        requires
            old(self).wf(),
        ensures
            final(self).wf(),
            old(self).same_download(final(self)),
            final(self).phase() == old(self).phase(),
            final(self).transfer_state() == old(self).transfer_state(),
            final(self).events() == logged(old(self).events(), r),
            old(self).phase() is Streaming ==> (r matches Some(e) && event_is(
                e,
                old(self).task(),
                DownloadStatus::Downloading,
                None,
                None,
                old(self).transfer_state().total as u64,
                old(self).transfer_state().downloaded as u64,
                speed,
            )),
            !(old(self).phase() is Streaming) ==> r is None,
    {
        match self.phase {
            HttpPhase::Streaming => {},
            _ => {
                return None;
            },
        }
        let e = self.transfer.progress_event(self.task_id.as_str(), speed);
        self.record(&e);
        Some(e)
    }

    /// The user paused the download while it streamed: the paused report,
    /// after which the download is over.
    pub fn cancelled(&mut self) -> (r: Option<ProgressEvent>)
        requires
            old(self).wf(),
        ensures
            final(self).wf(),
            old(self).same_download(final(self)),
            final(self).transfer_state() == old(self).transfer_state(),
            final(self).events() == logged(old(self).events(), r),
            old(self).phase() is Streaming ==> final(self).phase() is Done && (r matches Some(e)
                && event_is(
                e,
                old(self).task(),
                DownloadStatus::Paused,
                None,
                None,
                old(self).transfer_state().total as u64,
                old(self).transfer_state().downloaded as u64,
                0,
            )),
            !(old(self).phase() is Streaming) ==> r is None && final(self).phase() == old(
                self,
            ).phase(),
    {
        match self.phase {
            HttpPhase::Streaming => {},
            _ => {
                return None;
            },
        }
        let e = self.transfer.paused_event(self.task_id.as_str());
        self.record(&e);
        self.phase = HttpPhase::Done;
        Some(e)
    }

    /// The body ended and the file is in place: the completed report, after
    /// which the download is over.
    pub fn completed(&mut self) -> (r: Option<ProgressEvent>)
        requires
            old(self).wf(),
        ensures
            final(self).wf(),
            old(self).same_download(final(self)),
            final(self).transfer_state() == old(self).transfer_state(),
            final(self).events() == logged(old(self).events(), r),
            old(self).phase() is Streaming ==> final(self).phase() is Done && (r matches Some(e)
                && event_is(
                e,
                old(self).task(),
                DownloadStatus::Completed,
                Some(old(self).file_name()),
                None,
                old(self).transfer_state().total as u64,
                old(self).transfer_state().downloaded as u64,
                0,
            )),
            !(old(self).phase() is Streaming) ==> r is None && final(self).phase() == old(
                self,
            ).phase(),
    {
        match self.phase {
            HttpPhase::Streaming => {},
            _ => {
                return None;
            },
        }
        let e = self.transfer.completed_event(self.task_id.as_str(), self.filename.clone());
        self.record(&e);
        self.phase = HttpPhase::Done;
        Some(e)
    }
}

/// Every report of an HTTP download is about its own task; the downloaded
/// count never falls from one report to a later one; while the download
/// runs no report is final; and once it is over it has made at least one
/// report, the last one final (completed, paused or failed) and no other.
/// No method reports anything once the download is over.
pub proof fn law_http_run_reports(run: HttpDownload)
    requires
        run.wf(),
    ensures
        all_for_task(run.events(), run.task()),
        downloaded_never_falls(run.events()),
        !(run.phase() is Done) ==> none_final(run.events()),
        run.phase() is Done ==> ends_with_only_final(run.events()),
{
}

// ---------------------------------------------------------------------------
// Laws
// ---------------------------------------------------------------------------

/// One received chunk, with the speed cap and window age at that moment.
pub struct Chunk {
    pub len: nat,
    pub limit: nat,
    pub window_elapsed_nanos: nat,
}

/// The accounting after a sequence of chunks, in order.
pub open spec fn after_chunks(st: TransferState, chunks: Seq<Chunk>) -> TransferState
    decreases chunks.len(),
{
    if chunks.len() == 0 {
        st
    } else {
        after_chunks(
            after_chunk(st, chunks[0].len, chunks[0].limit, chunks[0].window_elapsed_nanos),
            chunks.drop_first(),
        )
    }
}

pub open spec fn total_len(chunks: Seq<Chunk>) -> nat
    decreases chunks.len(),
{
    if chunks.len() == 0 {
        0
    } else {
        chunks[0].len + total_len(chunks.drop_first())
    }
}

/// Whatever precedes the last `/`, the text after it is what follows it.
proof fn lemma_after_last_slash(p: Seq<char>, d: Seq<char>)
    requires
        !d.contains('/'),
    ensures
        after_last_slash(p.push('/') + d) == d,
    decreases d.len(),
{
    let s = p.push('/') + d;
    if d.len() == 0 {
        assert(s =~= p.push('/'));
    } else {
        let q = d.drop_last();
        assert(!q.contains('/')) by {
            if q.contains('/') {
                let j = choose|j: int| 0 <= j < q.len() && q[j] == '/';
                assert(d[j] == '/');
            }
        }
        assert(d[d.len() - 1] != '/');
        lemma_after_last_slash(p, q);
        assert(s.drop_last() =~= p.push('/') + q);
        assert(q.push(d.last()) =~= d);
    }
}

/// Text that neither starts nor ends with whitespace is its own trim.
proof fn lemma_trim_unchanged(t: Seq<char>)
    requires
        t.len() > 0,
        !is_whitespace_char(t[0]),
        !is_whitespace_char(t.last()),
    ensures
        trim_spec(t) == t,
{
    assert(trim_start_spec(t) == t);
    assert(trim_end_spec(t) == t);
}

/// Reading back a `Content-Range` value written from numbers gives the
/// complete length that was written; with the length written as `*`
/// (unknown) it gives none.
pub proof fn law_content_range_round_trip(a: u64, b: u64, n: u64)
    ensures
        content_range_total_spec(
            "bytes "@ + decimal_spec(a as nat) + "-"@ + decimal_spec(b as nat) + "/"@ + decimal_spec(
                n as nat,
            ),
        ) == Some(n),
        content_range_total_spec(
            "bytes "@ + decimal_spec(a as nat) + "-"@ + decimal_spec(b as nat) + "/*"@,
        ) == None::<u64>,
{
    reveal_strlit("/");
    reveal_strlit("/*");
    reveal_strlit("*");
    let head = "bytes "@ + decimal_spec(a as nat) + "-"@ + decimal_spec(b as nat);
    let d = decimal_spec(n as nat);
    lemma_decimal_digits(n as nat);
    assert(!d.contains('/')) by {
        if d.contains('/') {
            let j = choose|j: int| 0 <= j < d.len() && d[j] == '/';
            assert(is_digit_char(d[j]));
        }
    }
    assert(head + "/"@ + d =~= head.push('/') + d);
    lemma_after_last_slash(head, d);
    lemma_trim_unchanged(d);
    assert(d != "*"@) by {
        assert(is_digit_char(d[0]));
    }
    let star = seq!['*'];
    assert(!star.contains('/')) by {
        if star.contains('/') {
            let j = choose|j: int| 0 <= j < star.len() && star[j] == '/';
            assert(star[j] == '*');
        }
    }
    assert(head + "/*"@ =~= head.push('/') + star);
    lemma_after_last_slash(head, star);
    assert(!is_whitespace_char('*'));
    lemma_trim_unchanged(star);
    assert(star =~= "*"@);
}

/// Resuming: when a `.part` file of `n > 0` bytes exists, the request asks
/// for `bytes=n-`; if the server answers with the range (206), the transfer
/// continues from `n` bytes and appends; if it ignores the range with any
/// other status than 416, the download starts over from zero; if it answers
/// 416, the part file is taken as the finished download.
pub proof fn law_resume_from_part(
    n: u64,
    status: u16,
    content_range: Option<Seq<u8>>,
    content_length: Option<Seq<u8>>,
)
    requires
        n > 0,
    ensures
        status == 206 ==> (response_outcome_spec(Some(n), status, content_range, content_length) matches ResponseOutcome::Transfer(resuming, st)
            && resuming && st.downloaded == n),
        status != 206 && status != 416 ==> (response_outcome_spec(Some(n), status, content_range, content_length) matches ResponseOutcome::Transfer(resuming, st)
            && !resuming && st.downloaded == 0),
        status == 416 ==> response_outcome_spec(Some(n), status, content_range, content_length)
            == ResponseOutcome::FinishFromPart(n as nat),
{
}

/// A fresh download (no `.part` file) always starts from zero bytes.
pub proof fn law_fresh_download_starts_at_zero(
    status: u16,
    content_range: Option<Seq<u8>>,
    content_length: Option<Seq<u8>>,
)
    ensures
        response_outcome_spec(None, status, content_range, content_length) matches ResponseOutcome::Transfer(_, st)
            && st.downloaded == 0 && st.since_emit == 0 && st.in_window == 0,
{
}

/// Every chunk is counted exactly once: after any sequence of chunks the
/// downloaded count has grown by their total length, and the expected total
/// is unchanged.
pub proof fn law_chunks_add_up(st: TransferState, chunks: Seq<Chunk>)
    ensures
        after_chunks(st, chunks).downloaded == st.downloaded + total_len(chunks),
        after_chunks(st, chunks).total == st.total,
    decreases chunks.len(),
{
    if chunks.len() > 0 {
        law_chunks_add_up(
            after_chunk(st, chunks[0].len, chunks[0].limit, chunks[0].window_elapsed_nanos),
            chunks.drop_first(),
        );
    }
}

/// A speed limit of 0 means unlimited: the cap never throttles.
pub proof fn law_zero_limit_is_unlimited(st: TransferState, len: nat, window_elapsed_nanos: nat)
    ensures
        rate_action_spec(st.in_window + len, 0, window_elapsed_nanos) == RateAction::Continue,
        after_chunk(st, len, 0, window_elapsed_nanos).in_window == st.in_window + len,
{
}

/// Within a running one-second window the bytes counted against a cap never
/// exceed it: going over the cap throttles and restarts the window.
pub proof fn law_window_within_cap(
    st: TransferState,
    len: nat,
    limit: nat,
    window_elapsed_nanos: nat,
)
    requires
        limit > 0,
        window_elapsed_nanos < 1_000_000_000,
    ensures
        after_chunk(st, len, limit, window_elapsed_nanos).in_window <= limit,
        rate_action_spec(st.in_window + len, limit, window_elapsed_nanos) == RateAction::Throttle
            <==> st.in_window + len > limit,
{
}

} // verus!
