//! YouTube downloads through the `yt-dlp` command-line tool: the command
//! line it is given, the reading of its progress output, and the final
//! report. Running the process is the caller's work.
use vstd::prelude::*;

use crate::events::{
    DownloadStatus, EventSummary, ProgressEvent, all_for_task, ends_with_only_final, event_is, logged,
    none_final, summary,
};
use crate::text::{
    chars_of, concat, contains_spec, decimal_spec, find, find_spec, lemma_find_spec_first,
    occurs_at, has_prefix, has_suffix,
    parse_decimal_u64, parse_u64_spec, push_decimal, push_string, signed_decimal,
    signed_decimal_spec, str_eq, string_from, strings_view, trim, trim_spec, from_utf8_lossy,
    utf8_lossy,
};

verus! {

broadcast use vstd::string::group_string_axioms;

// ---------------------------------------------------------------------------
// Output names
// ---------------------------------------------------------------------------

pub open spec fn strip_mp4_ext_spec(path: Seq<char>) -> Seq<char> {
    if ".mp4"@.is_suffix_of(path) {
        path.take(path.len() - ".mp4"@.len())
    } else {
        path
    }
}

/// Strips a trailing `.mp4` (the extension the frontend assumes) so that
/// yt-dlp can choose the real extension itself.
pub fn strip_mp4_ext(path: &str) -> (r: String)
    ensures
        r@ == strip_mp4_ext_spec(path@),
{
    let v = chars_of(path);
    let ext = chars_of(".mp4");
    if has_suffix(&v, &ext) {
        string_from(&v, 0, v.len() - ext.len())
    } else {
        String::from_str(path)
    }
}

pub open spec fn output_template_spec(outbase: Seq<char>) -> Seq<char> {
    outbase + ".%(ext)s"@
}

/// The `-o` template: the output base followed by yt-dlp's extension field.
pub fn output_template(outbase: &str) -> (r: String)
    ensures
        r@ == output_template_spec(outbase@),
{
    concat(outbase, ".%(ext)s")
}

pub open spec fn progress_template_spec() -> Seq<char> {
    "download:DL:D=%(progress.downloaded_bytes)s|T=%(progress.total_bytes)s|E=%(progress.total_bytes_estimate)s|S=%(progress.speed)s"@
}

/// The `--progress-template` that makes yt-dlp print one `DL:` line per update.
pub fn progress_template() -> (r: String)
    ensures
        r@ == progress_template_spec(),
{
    String::from_str(
        "download:DL:D=%(progress.downloaded_bytes)s|T=%(progress.total_bytes)s|E=%(progress.total_bytes_estimate)s|S=%(progress.speed)s",
    )
}

/// yt-dlp's `--limit-rate` value for a cap in bytes per second: whole
/// mebibytes with `M` from 1 MiB/s up, whole kibibytes with `K` below.
pub open spec fn rate_limit_spec(limit_bps: nat) -> Seq<char> {
    if limit_bps >= 1024 * 1024 {
        decimal_spec(limit_bps / (1024 * 1024)) + "M"@
    } else {
        decimal_spec(limit_bps / 1024) + "K"@
    }
}

pub fn rate_limit_arg(limit_bps: u64) -> (r: String)
    ensures
        r@ == rate_limit_spec(limit_bps as nat),
{
    let mut r = String::new();
    if limit_bps >= 1024 * 1024 {
        push_decimal(&mut r, limit_bps / (1024 * 1024));
        r.append("M");
    } else {
        push_decimal(&mut r, limit_bps / 1024);
        r.append("K");
    }
    r
}

/// The shape of a download command line: the twelve fixed arguments, then
/// `--ffmpeg-location` and the directory when ffmpeg is bundled, then
/// `--limit-rate` and the cap's value whenever there is a cap (with or
/// without ffmpeg), and the URL last.
pub proof fn law_download_args_shape(
    outbase: Seq<char>,
    ffmpeg_dir: Option<Seq<char>>,
    limit_bps: nat,
    url: Seq<char>,
)
    ensures
        ({
            let a = download_args_spec(outbase, ffmpeg_dir, limit_bps, url);
            let f: int = if ffmpeg_dir is Some { 2 } else { 0 };
            let c: int = if limit_bps > 0 { 2 } else { 0 };
            &&& a.len() == 12 + f + c + 1
            &&& a[0] == "--no-playlist"@
            &&& a[a.len() - 1] == url
            &&& (ffmpeg_dir matches Some(d) ==> a[12] == "--ffmpeg-location"@ && a[13] == d)
            &&& (limit_bps > 0 ==> a[a.len() - 3] == "--limit-rate"@ && a[a.len() - 2]
                == rate_limit_spec(limit_bps))
        }),
{
}

/// The arguments of a yt-dlp download run.
pub open spec fn download_args_spec(
    outbase: Seq<char>,
    ffmpeg_dir: Option<Seq<char>>,
    limit_bps: nat,
    url: Seq<char>,
) -> Seq<Seq<char>> {
    let base = seq![
        "--no-playlist"@,
        "--newline"@,
        "-f"@,
        "bestvideo*+bestaudio/best"@,
        "--merge-output-format"@,
        "mp4"@,
        "-o"@,
        output_template_spec(outbase),
        "--progress-template"@,
        progress_template_spec(),
        "--print"@,
        "after_move:filepath"@,
    ];
    let with_ffmpeg = match ffmpeg_dir {
        Some(d) => base + seq!["--ffmpeg-location"@, d],
        None => base,
    };
    let with_limit = if limit_bps > 0 {
        with_ffmpeg + seq!["--limit-rate"@, rate_limit_spec(limit_bps)]
    } else {
        with_ffmpeg
    };
    with_limit.push(url)
}

/// The command line for downloading `url` to `outbase` (without extension),
/// telling yt-dlp where a bundled ffmpeg is and applying the speed cap
/// (`limit_bps == 0`: none).
pub fn download_args(outbase: &str, ffmpeg_dir: Option<&str>, limit_bps: u64, url: &str) -> (r:
    Vec<String>)
    ensures
        strings_view(r@) == download_args_spec(
            outbase@,
            match ffmpeg_dir {
                Some(d) => Some(d@),
                None => None,
            },
            limit_bps as nat,
            url@,
        ),
{
    let mut args: Vec<String> = Vec::new();
    push_string(&mut args, "--no-playlist");
    push_string(&mut args, "--newline");
    push_string(&mut args, "-f");
    push_string(&mut args, "bestvideo*+bestaudio/best");
    push_string(&mut args, "--merge-output-format");
    push_string(&mut args, "mp4");
    push_string(&mut args, "-o");
    let template = output_template(outbase);
    push_string(&mut args, template.as_str());
    push_string(&mut args, "--progress-template");
    let progress = progress_template();
    push_string(&mut args, progress.as_str());
    push_string(&mut args, "--print");
    push_string(&mut args, "after_move:filepath");
    let ghost base = strings_view(args@);
    match ffmpeg_dir {
        Some(d) => {
            push_string(&mut args, "--ffmpeg-location");
            push_string(&mut args, d);
        },
        None => {},
    }
    if limit_bps > 0 {
        push_string(&mut args, "--limit-rate");
        let rate = rate_limit_arg(limit_bps);
        push_string(&mut args, rate.as_str());
    }
    push_string(&mut args, url);
    assert(strings_view(args@) =~= download_args_spec(
        outbase@,
        match ffmpeg_dir {
            Some(d) => Some(d@),
            None => None,
        },
        limit_bps as nat,
        url@,
    ));
    args
}

pub open spec fn info_args_spec(url: Seq<char>) -> Seq<Seq<char>> {
    seq!["--no-playlist"@, "--print"@, "title"@, url]
}

/// The command line that asks yt-dlp for a video's title only.
pub fn info_args(url: &str) -> (r: Vec<String>)
    ensures
        strings_view(r@) == info_args_spec(url@),
{
    let mut args: Vec<String> = Vec::new();
    push_string(&mut args, "--no-playlist");
    push_string(&mut args, "--print");
    push_string(&mut args, "title");
    push_string(&mut args, url);
    assert(strings_view(args@) =~= info_args_spec(url@));
    args
}

// ---------------------------------------------------------------------------
// Progress lines
// ---------------------------------------------------------------------------

/// A progress figure: `NA` and the empty string mean "not known"; otherwise
/// the text is read as `str::parse::<u64>` reads it.
pub open spec fn parse_u64_field_spec(v: Seq<char>) -> Option<u64> {
    if v == "NA"@ || v.len() == 0 {
        None
    } else {
        parse_u64_spec(v)
    }
}

/// Reads one progress figure printed by yt-dlp.
pub fn parse_u64(v: &str) -> (r: Option<u64>)
    ensures
        r == parse_u64_field_spec(v@),
{
    if str_eq(v, "NA") || v.is_empty() {
        None
    } else {
        parse_decimal_u64(v)
    }
}

/// `s` split at every `sep` (what `str::split` yields).
pub open spec fn split_spec(s: Seq<char>, sep: char) -> Seq<Seq<char>>
    decreases s.len(),
{
    if s.len() == 0 {
        seq![Seq::empty()]
    } else if s.last() == sep {
        split_spec(s.drop_last(), sep).push(Seq::empty())
    } else {
        let p = split_spec(s.drop_last(), sep);
        p.update(p.len() - 1, p.last().push(s.last()))
    }
}

/// Text without the separator splits into itself alone.
pub proof fn lemma_split_without_sep(s: Seq<char>, sep: char)
    requires
        !s.contains(sep),
    ensures
        split_spec(s, sep) == seq![s],
    decreases s.len(),
{
    if s.len() > 0 {
        let p = s.drop_last();
        assert(!p.contains(sep)) by {
            if p.contains(sep) {
                let j = choose|j: int| 0 <= j < p.len() && p[j] == sep;
                assert(s[j] == sep);
            }
        }
        assert(s[s.len() - 1] != sep);
        lemma_split_without_sep(p, sep);
        assert(p.push(s.last()) =~= s);
        assert(seq![p].update(0, p.push(s.last())) =~= seq![s]);
    } else {
        assert(s =~= Seq::<char>::empty());
    }
}

pub proof fn lemma_split_nonempty(s: Seq<char>, sep: char)
    ensures
        split_spec(s, sep).len() >= 1,
    decreases s.len(),
{
    if s.len() > 0 {
        lemma_split_nonempty(s.drop_last(), sep);
    }
}

/// The figures read from a progress line so far. `speed` is kept as text.
pub struct ProgressFields {
    pub downloaded: Option<u64>,
    pub total: Option<u64>,
    pub estimate: Option<u64>,
    pub speed: Option<Seq<char>>,
}

pub open spec fn no_fields() -> ProgressFields {
    ProgressFields { downloaded: None, total: None, estimate: None, speed: None }
}

/// `seg` starts with the one-letter key `k` followed by `=`.
pub open spec fn has_key(seg: Seq<char>, k: char) -> bool {
    seg.len() >= 2 && seg[0] == k && seg[1] == '='
}

/// Reads one `|`-separated segment: `D=`, `T=`, `E=` and `S=` set their
/// figure (a later segment overriding an earlier one); others are ignored.
pub open spec fn apply_segment(f: ProgressFields, seg: Seq<char>) -> ProgressFields {
    let v = seg.skip(2);
    if has_key(seg, 'D') {
        ProgressFields { downloaded: parse_u64_field_spec(v), ..f }
    } else if has_key(seg, 'T') {
        ProgressFields { total: parse_u64_field_spec(v), ..f }
    } else if has_key(seg, 'E') {
        ProgressFields { estimate: parse_u64_field_spec(v), ..f }
    } else if has_key(seg, 'S') {
        ProgressFields { speed: Some(v), ..f }
    } else {
        f
    }
}

pub open spec fn apply_segments(f: ProgressFields, segs: Seq<Seq<char>>) -> ProgressFields
    decreases segs.len(),
{
    if segs.len() == 0 {
        f
    } else {
        apply_segment(apply_segments(f, segs.drop_last()), segs.last())
    }
}

/// The marker yt-dlp prints (through our template) on progress lines.
pub open spec fn progress_marker() -> Seq<char> {
    "DL:D="@
}

/// Where the figures start within the marker: after `DL:`, so that the
/// marker's own `D=` opens the first segment, the downloaded count.
pub open spec fn figures_offset() -> int {
    3
}

/// The figures of a progress line: everything after the `DL:` of the first
/// `DL:D=`, split at `|` (`D=…|T=…|E=…|S=…`). `None` when the line carries
/// no marker.
pub open spec fn progress_line_spec(line: Seq<char>) -> Option<ProgressFields> {
    match find_spec(line, progress_marker()) {
        Some(i) => Some(
            apply_segments(no_fields(), split_spec(line.skip(i + figures_offset()), '|')),
        ),
        None => None,
    }
}

/// The figures read from one progress line: the downloaded count (`D=`),
/// the exact total (`T=`), the estimated total (`E=`) and the speed (`S=`),
/// each absent when the line does not carry it as a whole number.
pub struct ProgressLine {
    pub downloaded: Option<u64>,
    pub total: Option<u64>,
    pub estimate: Option<u64>,
    /// The raw text of the speed figure (bytes per second, possibly fractional).
    pub speed_text: Option<String>,
}

impl View for ProgressLine {
    type V = ProgressFields;

    open spec fn view(&self) -> ProgressFields {
        ProgressFields {
            downloaded: self.downloaded,
            total: self.total,
            estimate: self.estimate,
            speed: match self.speed_text {
                Some(t) => Some(t@),
                None => None,
            },
        }
    }
}

/// Reads the segment `v[from..to]` into `f`.
fn read_segment(f: &mut ProgressLine, v: &Vec<char>, from: usize, to: usize)
    requires
        from <= to <= v@.len(),
    ensures
        final(f)@ == apply_segment(old(f)@, v@.subrange(from as int, to as int)),
{
    let ghost seg = v@.subrange(from as int, to as int);
    if to - from >= 2 && v[from + 1] == '=' {
        let key = v[from];
        assert(seg[0] == key && seg[1] == '=');
        let value = string_from(v, from + 2, to);
        assert(value@ == seg.skip(2));
        if key == 'D' {
            f.downloaded = parse_u64(value.as_str());
        } else if key == 'T' {
            f.total = parse_u64(value.as_str());
        } else if key == 'E' {
            f.estimate = parse_u64(value.as_str());
        } else if key == 'S' {
            f.speed_text = Some(value);
        }
    }
}

/// Reads a yt-dlp progress line (see [`progress_line_spec`]).
pub fn parse_progress_line(line: &str) -> (r: Option<ProgressLine>)
    ensures
        match progress_line_spec(line@) {
            Some(p) => r matches Some(l) && l@ == p,
            None => r is None,
        },
{
    let v = chars_of(line);
    let marker = chars_of("DL:D=");
    let at = match find(&v, &marker) {
        Some(i) => i,
        None => {
            return None;
        },
    };
    assert(at + marker@.len() <= v@.len());
    assert(at + marker.len() <= v.len());
    proof {
        reveal_strlit("DL:D=");
    }
    let start = at + 3;
    let ghost rest = v@.skip(start as int);
    let mut f = ProgressLine { downloaded: None, total: None, estimate: None, speed_text: None };
    let mut seg_start = start;
    let mut k = start;
    proof {
        assert(v@.subrange(start as int, start as int) =~= rest.take(0));
        assert(rest.take(0) =~= Seq::<char>::empty());
    }
    while k < v.len()
        invariant
            start <= seg_start <= k <= v@.len(),
            rest == v@.skip(start as int),
            split_spec(rest.take(k - start), '|').len() >= 1,
            f@ == apply_segments(no_fields(), split_spec(rest.take(k - start), '|').drop_last()),
            split_spec(rest.take(k - start), '|').last() == v@.subrange(
                seg_start as int,
                k as int,
            ),
        decreases v@.len() - k,
    {
        let ghost pre = rest.take(k - start);
        let ghost next = rest.take(k + 1 - start);
        let ghost sp = split_spec(pre, '|');
        proof {
            assert(next.drop_last() == pre);
            assert(next.last() == v@[k as int]);
            lemma_split_nonempty(next, '|');
        }
        if v[k] == '|' {
            read_segment(&mut f, &v, seg_start, k);
            proof {
                assert(split_spec(next, '|') == sp.push(Seq::<char>::empty()));
                assert(split_spec(next, '|').drop_last() == sp);
                assert(v@.subrange(k + 1, k + 1) =~= Seq::<char>::empty());
            }
            seg_start = k + 1;
        } else {
            proof {
                let sp2 = split_spec(next, '|');
                assert(sp2 == sp.update(sp.len() - 1, sp.last().push(v@[k as int])));
                assert(sp2.drop_last() =~= sp.drop_last());
                assert(v@.subrange(seg_start as int, k + 1) =~= v@.subrange(
                    seg_start as int,
                    k as int,
                ).push(v@[k as int]));
            }
        }
        k = k + 1;
    }
    read_segment(&mut f, &v, seg_start, v.len());
    proof {
        assert(rest.take(v@.len() - start) == rest);
        let sp = split_spec(rest, '|');
        assert(sp == sp.drop_last().push(sp.last()));
    }
    Some(f)
}

// ---------------------------------------------------------------------------
// A running download
// ---------------------------------------------------------------------------

/// What a yt-dlp run has reported so far.
pub struct RunState {
    pub downloaded: u64,
    pub total: u64,
    pub last_error: Option<Seq<char>>,
}

/// How one line of yt-dlp's error stream is read.
pub enum LineKind {
    Progress(ProgressFields),
    Error,
    Other,
}

pub open spec fn line_kind_spec(line: Seq<char>) -> LineKind {
    match progress_line_spec(line) {
        Some(p) => LineKind::Progress(p),
        None => if "ERROR:"@.is_prefix_of(line) {
            LineKind::Error
        } else {
            LineKind::Other
        },
    }
}

/// The state after one line: a progress line updates the downloaded count
/// when it carries one, and the total from the exact total or else the
/// estimate; an `ERROR:` line is remembered; anything else is ignored.
pub open spec fn after_line(st: RunState, line: Seq<char>) -> RunState {
    match line_kind_spec(line) {
        LineKind::Progress(p) => RunState {
            downloaded: match p.downloaded {
                Some(d) => d,
                None => st.downloaded,
            },
            total: match p.total {
                Some(t) => t,
                None => match p.estimate {
                    Some(e) => e,
                    None => st.total,
                },
            },
            last_error: st.last_error,
        },
        LineKind::Error => RunState { last_error: Some(line), ..st },
        LineKind::Other => st,
    }
}

/// What the caller does after a line.
pub enum LineAction {
    /// A progress line; `report` when a progress event is due, with the
    /// speed figure's raw text.
    Progress { report: bool, speed_text: Option<String> },
    /// An error line, remembered for the final report.
    Error,
    /// Nothing to do.
    Ignore,
}

/// The accounting of a running yt-dlp download.
pub struct YtdlpRun {
    downloaded: u64,
    total: u64,
    last_error: Option<String>,
}

impl View for YtdlpRun {
    type V = RunState;

    closed spec fn view(&self) -> RunState {
        RunState {
            downloaded: self.downloaded,
            total: self.total,
            last_error: match self.last_error {
                Some(e) => Some(e@),
                None => None,
            },
        }
    }
}

impl YtdlpRun {
    /// A run with nothing reported yet.
    pub fn new() -> (r: YtdlpRun)
        ensures
            r@ == (RunState { downloaded: 0, total: 0, last_error: None }),
    {
        YtdlpRun { downloaded: 0, total: 0, last_error: None }
    }

    pub fn downloaded(&self) -> (r: u64)
        ensures
            r == self@.downloaded,
    {
        self.downloaded
    }

    pub fn total(&self) -> (r: u64)
        ensures
            r == self@.total,
    {
        self.total
    }

    /// Reads one line of yt-dlp's error stream, received `elapsed_ms`
    /// milliseconds after the previous progress event.
    pub fn on_stderr_line(&mut self, line: &str, elapsed_ms: u128) -> (a: LineAction)
        ensures
            final(self)@ == after_line(old(self)@, line@),
            match line_kind_spec(line@) {
                LineKind::Progress(p) => a matches LineAction::Progress { report, speed_text }
                    && report == (elapsed_ms >= 200) && match speed_text {
                    Some(t) => p.speed == Some(t@),
                    None => p.speed is None,
                },
                LineKind::Error => a is Error,
                LineKind::Other => a is Ignore,
            },
    {
        match parse_progress_line(line) {
            Some(p) => {
                if let Some(d) = p.downloaded {
                    self.downloaded = d;
                }
                self.total = match p.total {
                    Some(t) => t,
                    None => match p.estimate {
                        Some(e) => e,
                        None => self.total,
                    },
                };
                LineAction::Progress { report: elapsed_ms >= 200, speed_text: p.speed_text }
            },
            None => {
                let v = chars_of(line);
                let prefix = chars_of("ERROR:");
                if has_prefix(&v, &prefix) {
                    self.last_error = Some(String::from_str(line));
                    LineAction::Error
                } else {
                    LineAction::Ignore
                }
            },
        }
    }

    /// A periodic progress report at `speed` bytes per second.
    pub fn progress_event(&self, task_id: &str, speed: u64) -> (e: ProgressEvent)
        ensures
            event_is(
                e,
                task_id@,
                DownloadStatus::Downloading,
                None,
                None,
                self@.total,
                self@.downloaded,
                speed,
            ),
    {
        ProgressEvent::new(
            task_id,
            DownloadStatus::Downloading,
            None,
            None,
            self.total,
            self.downloaded,
            speed,
        )
    }

    /// The report when the user pauses the download.
    pub fn paused_event(&self, task_id: &str) -> (e: ProgressEvent)
        ensures
            event_is(
                e,
                task_id@,
                DownloadStatus::Paused,
                None,
                None,
                self@.total,
                self@.downloaded,
                0,
            ),
    {
        ProgressEvent::new(
            task_id,
            DownloadStatus::Paused,
            None,
            None,
            self.total,
            self.downloaded,
            0,
        )
    }

    /// The report of a finished download saved as `filename`; when yt-dlp
    /// never announced a total, the downloaded count stands for it.
    pub fn completed_event(&self, task_id: &str, filename: String) -> (e: ProgressEvent)
        ensures
            event_is(
                e,
                task_id@,
                DownloadStatus::Completed,
                Some(filename@),
                None,
                if self@.total == 0 {
                    self@.downloaded
                } else {
                    self@.total
                },
                self@.downloaded,
                0,
            ),
    {
        let total = if self.total == 0 {
            self.downloaded
        } else {
            self.total
        };
        ProgressEvent::new(
            task_id,
            DownloadStatus::Completed,
            Some(filename),
            None,
            total,
            self.downloaded,
            0,
        )
    }

    /// Why a run that exited unsuccessfully failed: the last `ERROR:` line,
    /// or else the exit code.
    pub fn failure_message(&self, code: Option<i32>) -> (r: String)
        ensures
            r@ == match self@.last_error {
                Some(e) => e,
                None => exit_code_message_spec(code),
            },
    {
        match &self.last_error {
            Some(e) => e.clone(),
            None => exit_code_message(code),
        }
    }

    /// The report of a failed run.
    pub fn error_event(&self, task_id: &str, message: &str) -> (e: ProgressEvent)
        ensures
            event_is(
                e,
                task_id@,
                DownloadStatus::Error,
                None,
                Some(message@),
                self@.total,
                0,
                0,
            ),
    {
        ProgressEvent::failed(task_id, message, self.total, 0)
    }
}

/// Where a yt-dlp download stands.
pub enum YtdlpPhase {
    /// yt-dlp is being started.
    Spawning,
    /// yt-dlp runs; its error stream is being read.
    Running,
    /// A final report was made; nothing more is reported.
    Done,
}

/// One yt-dlp download from start to final report. The caller runs the
/// process and hands each outcome to a method, which returns the report to
/// send, if any. A ghost log keeps every report made.
pub struct YtdlpDownload {
    task_id: String,
    phase: YtdlpPhase,
    run: YtdlpRun,
    log: Ghost<Seq<EventSummary>>,
}

impl YtdlpDownload {
    pub closed spec fn task(&self) -> Seq<char> {
        self.task_id@
    }

    pub closed spec fn phase(&self) -> YtdlpPhase {
        self.phase
    }

    /// What yt-dlp has reported so far.
    pub closed spec fn state(&self) -> RunState {
        self.run@
    }

    /// Every report made so far, in order.
    pub closed spec fn events(&self) -> Seq<EventSummary> {
        self.log@
    }

    /// What every download in progress satisfies.
    pub closed spec fn wf(&self) -> bool {
        &&& all_for_task(self.log@, self.task_id@)
        &&& match self.phase {
            YtdlpPhase::Spawning => self.log@.len() == 0,
            YtdlpPhase::Running => self.log@.len() > 0 && none_final(self.log@),
            YtdlpPhase::Done => ends_with_only_final(self.log@),
        }
    }

    /// A download for the task `task_id`, before yt-dlp is started.
    pub fn new(task_id: &str) -> (r: YtdlpDownload)
        ensures
            r.wf(),
            r.task() == task_id@,
            r.phase() is Spawning,
            r.state() == (RunState { downloaded: 0, total: 0, last_error: None }),
            r.events() == Seq::<EventSummary>::empty(),
    {
        YtdlpDownload {
            task_id: String::from_str(task_id),
            phase: YtdlpPhase::Spawning,
            run: YtdlpRun::new(),
            log: Ghost(Seq::empty()),
        }
    }

    /// Records the report `e` in the log.
    fn record(&mut self, e: &ProgressEvent)
        requires
            all_for_task(old(self).log@, old(self).task_id@),
            e.task_id@ == old(self).task_id@,
        ensures
            final(self).log@ == old(self).log@.push(summary(*e)),
            final(self).log@.drop_last() == old(self).log@,
            all_for_task(final(self).log@, final(self).task_id@),
            final(self).task_id == old(self).task_id,
            final(self).phase == old(self).phase,
            final(self).run@ == old(self).run@,
    {
        let ghost before = self.log@;
        self.log = Ghost(before.push(summary(*e)));
        assert(self.log@.drop_last() =~= before);
    }

    /// yt-dlp could not be started (`message` says why): the error report,
    /// with no figures, after which the download is over.
    pub fn spawn_failed(&mut self, message: &str) -> (r: Option<ProgressEvent>)
        requires
            old(self).wf(),
        ensures
            final(self).wf(),
            final(self).task() == old(self).task(),
            final(self).state() == old(self).state(),
            final(self).events() == logged(old(self).events(), r),
            old(self).phase() is Spawning ==> final(self).phase() is Done && (r matches Some(e)
                && event_is(e, old(self).task(), DownloadStatus::Error, None, Some(message@), 0, 0, 0)),
            !(old(self).phase() is Spawning) ==> r is None && final(self).phase() == old(self).phase(),
    {
        match self.phase {
            YtdlpPhase::Spawning => {},
            _ => {
                return None;
            },
        }
        let e = ProgressEvent::failed(self.task_id.as_str(), message, 0, 0);
        self.record(&e);
        self.phase = YtdlpPhase::Done;
        Some(e)
    }

    /// yt-dlp started: the first report, before any figures are known.
    pub fn spawned(&mut self) -> (r: Option<ProgressEvent>)
        requires
            old(self).wf(),
        ensures
            final(self).wf(),
            final(self).task() == old(self).task(),
            final(self).state() == old(self).state(),
            final(self).events() == logged(old(self).events(), r),
            old(self).phase() is Spawning ==> final(self).phase() is Running && (r matches Some(e)
                && event_is(e, old(self).task(), DownloadStatus::Downloading, None, None, 0, 0, 0)),
            !(old(self).phase() is Spawning) ==> r is None && final(self).phase() == old(self).phase(),
    {
        match self.phase {
            YtdlpPhase::Spawning => {},
            _ => {
                return None;
            },
        }
        let e = ProgressEvent::started(self.task_id.as_str());
        self.record(&e);
        self.phase = YtdlpPhase::Running;
        Some(e)
    }

    /// One line of yt-dlp's error stream, received `elapsed_ms` milliseconds
    /// after the previous progress report (see [`YtdlpRun::on_stderr_line`]).
    pub fn line(&mut self, line: &str, elapsed_ms: u128) -> (r: Option<LineAction>)
        requires
            old(self).wf(),
        ensures
            final(self).wf(),
            final(self).task() == old(self).task(),
            final(self).phase() == old(self).phase(),
            final(self).events() == old(self).events(),
            old(self).phase() is Running ==> final(self).state() == after_line(
                old(self).state(),
                line@,
            ) && (r matches Some(a) && match line_kind_spec(line@) {
                LineKind::Progress(p) => a matches LineAction::Progress { report, speed_text }
                    && report == (elapsed_ms >= 200) && match speed_text {
                    Some(t) => p.speed == Some(t@),
                    None => p.speed is None,
                },
                LineKind::Error => a is Error,
                LineKind::Other => a is Ignore,
            }),
            !(old(self).phase() is Running) ==> r is None && final(self).state() == old(
                self,
            ).state(),
    {
        match self.phase {
            YtdlpPhase::Running => Some(self.run.on_stderr_line(line, elapsed_ms)),
            _ => None,
        }
    }

    /// A periodic progress report at `speed` bytes per second.
    pub fn progress_event(&mut self, speed: u64) -> (r: Option<ProgressEvent>)
        requires
            old(self).wf(),
        ensures
            final(self).wf(),
            final(self).task() == old(self).task(),
            final(self).phase() == old(self).phase(),
            final(self).state() == old(self).state(),
            final(self).events() == logged(old(self).events(), r),
            old(self).phase() is Running ==> (r matches Some(e) && event_is(
                e,
                old(self).task(),
                DownloadStatus::Downloading,
                None,
                None,
                old(self).state().total,
                old(self).state().downloaded,
                speed,
            )),
            !(old(self).phase() is Running) ==> r is None,
    {
        match self.phase {
            YtdlpPhase::Running => {},
            _ => {
                return None;
            },
        }
        let e = self.run.progress_event(self.task_id.as_str(), speed);
        self.record(&e);
        Some(e)
    }

    /// The user paused the download while yt-dlp ran: the paused report,
    /// after which the download is over.
    pub fn cancelled(&mut self) -> (r: Option<ProgressEvent>)
        requires
            old(self).wf(),
        ensures
            final(self).wf(),
            final(self).task() == old(self).task(),
            final(self).state() == old(self).state(),
            final(self).events() == logged(old(self).events(), r),
            old(self).phase() is Running ==> final(self).phase() is Done && (r matches Some(e)
                && event_is(
                e,
                old(self).task(),
                DownloadStatus::Paused,
                None,
                None,
                old(self).state().total,
                old(self).state().downloaded,
                0,
            )),
            !(old(self).phase() is Running) ==> r is None && final(self).phase() == old(self).phase(),
    {
        match self.phase {
            YtdlpPhase::Running => {},
            _ => {
                return None;
            },
        }
        let e = self.run.paused_event(self.task_id.as_str());
        self.record(&e);
        self.phase = YtdlpPhase::Done;
        Some(e)
    }

    /// yt-dlp succeeded and saved `filename`: the completed report (see
    /// [`YtdlpRun::completed_event`]), after which the download is over.
    pub fn completed(&mut self, filename: String) -> (r: Option<ProgressEvent>)
        requires
            old(self).wf(),
        ensures
            final(self).wf(),
            final(self).task() == old(self).task(),
            final(self).state() == old(self).state(),
            final(self).events() == logged(old(self).events(), r),
            old(self).phase() is Running ==> final(self).phase() is Done && (r matches Some(e)
                && event_is(
                e,
                old(self).task(),
                DownloadStatus::Completed,
                Some(filename@),
                None,
                if old(self).state().total == 0 {
                    old(self).state().downloaded
                } else {
                    old(self).state().total
                },
                old(self).state().downloaded,
                0,
            )),
            !(old(self).phase() is Running) ==> r is None && final(self).phase() == old(self).phase(),
    {
        match self.phase {
            YtdlpPhase::Running => {},
            _ => {
                return None;
            },
        }
        let e = self.run.completed_event(self.task_id.as_str(), filename);
        self.record(&e);
        self.phase = YtdlpPhase::Done;
        Some(e)
    }

    /// Why yt-dlp failed (see [`YtdlpRun::failure_message`]).
    pub fn failure_message(&self, code: Option<i32>) -> (r: String)
        ensures
            r@ == match self.state().last_error {
                Some(e) => e,
                None => exit_code_message_spec(code),
            },
    {
        self.run.failure_message(code)
    }

    /// yt-dlp failed or could not be waited for (`message` says why): the
    /// error report (see [`YtdlpRun::error_event`]), after which the
    /// download is over.
    pub fn failed(&mut self, message: &str) -> (r: Option<ProgressEvent>)
        requires
            old(self).wf(),
        ensures
            final(self).wf(),
            final(self).task() == old(self).task(),
            final(self).state() == old(self).state(),
            final(self).events() == logged(old(self).events(), r),
            old(self).phase() is Running ==> final(self).phase() is Done && (r matches Some(e)
                && event_is(
                e,
                old(self).task(),
                DownloadStatus::Error,
                None,
                Some(message@),
                old(self).state().total,
                0,
                0,
            )),
            !(old(self).phase() is Running) ==> r is None && final(self).phase() == old(self).phase(),
    {
        match self.phase {
            YtdlpPhase::Running => {},
            _ => {
                return None;
            },
        }
        let e = self.run.error_event(self.task_id.as_str(), message);
        self.record(&e);
        self.phase = YtdlpPhase::Done;
        Some(e)
    }
}

/// Every report of a yt-dlp download is about its own task; while the
/// download runs no report is final; and once it is over it has made at
/// least one report, the last one final (completed, paused or failed) and
/// no other. No method reports anything once the download is over.
pub proof fn law_ytdlp_run_reports(run: YtdlpDownload)
    requires
        run.wf(),
    ensures
        all_for_task(run.events(), run.task()),
        !(run.phase() is Done) ==> none_final(run.events()),
        run.phase() is Done ==> ends_with_only_final(run.events()),
{
}

/// `format!("{:?}", code)` for an exit code.
pub open spec fn exit_code_debug_spec(code: Option<i32>) -> Seq<char> {
    match code {
        Some(c) => "Some("@ + signed_decimal_spec(c as int) + ")"@,
        None => "None"@,
    }
}

pub open spec fn exit_code_message_spec(code: Option<i32>) -> Seq<char> {
    "yt-dlp exited with code "@ + exit_code_debug_spec(code)
}

/// The message for a run that exited unsuccessfully without an `ERROR:` line.
pub fn exit_code_message(code: Option<i32>) -> (r: String)
    ensures
        r@ == exit_code_message_spec(code),
{
    let mut r = String::from_str("yt-dlp exited with code ");
    match code {
        Some(c) => {
            r.append("Some(");
            let d = signed_decimal(c);
            r.append(d.as_str());
            r.append(")");
        },
        None => {
            r.append("None");
        },
    }
    r
}

// ---------------------------------------------------------------------------
// After the run
// ---------------------------------------------------------------------------

/// The last non-empty line (yt-dlp prints the final file path last).
pub open spec fn last_nonempty_spec(lines: Seq<Seq<char>>) -> Option<Seq<char>>
    decreases lines.len(),
{
    if lines.len() == 0 {
        None
    } else if lines.last().len() > 0 {
        Some(lines.last())
    } else {
        last_nonempty_spec(lines.drop_last())
    }
}

/// The final file path printed on yt-dlp's output stream, if any.
pub fn final_path(lines: &Vec<String>) -> (r: Option<String>)
    ensures
        match last_nonempty_spec(strings_view(lines@)) {
            Some(p) => r matches Some(s) && s@ == p,
            None => r is None,
        },
{
    let mut i = lines.len();
    assert(lines@.take(i as int) == lines@);
    while i > 0
        invariant
            i <= lines@.len(),
            last_nonempty_spec(strings_view(lines@)) == last_nonempty_spec(
                strings_view(lines@.take(i as int)),
            ),
        decreases i,
    {
        proof {
            assert(strings_view(lines@.take(i as int)).drop_last() =~= strings_view(
                lines@.take(i - 1),
            ));
        }
        assert(strings_view(lines@.take(i as int)).last() == lines@[i - 1]@);
        if !lines[i - 1].as_str().is_empty() {
            return Some(lines[i - 1].clone());
        }
        i = i - 1;
    }
    None
}

/// `fname` is the finished output for the name prefix `prefix` (the output
/// base's file name and a dot): what follows is non-empty and is not a
/// temporary `.part`, `.temp` or `.ytdl` file.
pub open spec fn is_saved_output(prefix: Seq<char>, fname: Seq<char>) -> bool {
    &&& prefix.is_prefix_of(fname)
    &&& fname.len() > prefix.len()
    &&& !".part"@.is_suffix_of(fname.skip(prefix.len() as int))
    &&& !".temp"@.is_suffix_of(fname.skip(prefix.len() as int))
    &&& !".ytdl"@.is_suffix_of(fname.skip(prefix.len() as int))
}

pub open spec fn opt_strings_view(v: Seq<Option<String>>) -> Seq<Option<Seq<char>>> {
    v.map_values(
        |o: Option<String>|
            match o {
                Some(s) => Some(s@),
                None => None,
            },
    )
}

/// The first directory entry that is the finished output. Entries whose
/// names are not valid Unicode are `None` and never match.
pub open spec fn first_saved_output(prefix: Seq<char>, entries: Seq<Option<Seq<char>>>) -> Option<
    Seq<char>,
>
    decreases entries.len(),
{
    if entries.len() == 0 {
        None
    } else {
        match entries[0] {
            Some(f) => if is_saved_output(prefix, f) {
                Some(f)
            } else {
                first_saved_output(prefix, entries.drop_first())
            },
            None => first_saved_output(prefix, entries.drop_first()),
        }
    }
}

/// The file name a download was saved under when yt-dlp did not print it:
/// the first matching entry of the destination directory, or the output
/// base's name with `.mp4`; `video.mp4` when the output base has no name.
pub open spec fn saved_basename_spec(name: Option<Seq<char>>, entries: Seq<Option<Seq<char>>>) -> Seq<
    char,
> {
    match name {
        None => "video.mp4"@,
        Some(n) => match first_saved_output(n + "."@, entries) {
            Some(f) => f,
            None => n + ".mp4"@,
        },
    }
}

fn is_saved_output_exec(prefix: &Vec<char>, fname: &str) -> (r: bool)
    ensures
        r == is_saved_output(prefix@, fname@),
{
    let f = chars_of(fname);
    if !(f.len() > prefix.len() && has_prefix(&f, prefix)) {
        return false;
    }
    let rest = string_from(&f, prefix.len(), f.len());
    assert(rest@ == f@.skip(prefix@.len() as int));
    let r = chars_of(rest.as_str());
    let part = chars_of(".part");
    let temp = chars_of(".temp");
    let ytdl = chars_of(".ytdl");
    !has_suffix(&r, &part) && !has_suffix(&r, &temp) && !has_suffix(&r, &ytdl)
}

/// Picks the saved file name (see [`saved_basename_spec`]).
pub fn saved_basename(name: Option<&str>, entries: &Vec<Option<String>>) -> (r: String)
    ensures
        r@ == saved_basename_spec(
            match name {
                Some(n) => Some(n@),
                None => None,
            },
            opt_strings_view(entries@),
        ),
{
    let n = match name {
        Some(n) => n,
        None => {
            return String::from_str("video.mp4");
        },
    };
    let prefix_s = concat(n, ".");
    let prefix = chars_of(prefix_s.as_str());
    let ghost es = opt_strings_view(entries@);
    let mut i: usize = 0;
    assert(es.skip(0) == es);
    while i < entries.len()
        invariant
            i <= entries@.len(),
            es == opt_strings_view(entries@),
            name == Some(n),
            prefix@ == n@ + "."@,
            first_saved_output(prefix@, es) == first_saved_output(prefix@, es.skip(i as int)),
        decreases entries@.len() - i,
    {
        let ghost tail = es.skip(i as int);
        assert(tail.drop_first() == es.skip(i + 1));
        assert(tail[0] == es[i as int]);
        assert(es[i as int] == match entries@[i as int] {
            Some(s) => Some(s@),
            None => None,
        });
        match &entries[i] {
            Some(f) => {
                if is_saved_output_exec(&prefix, f.as_str()) {
                    let c = f.clone();
                    proof {
                        assert(entries@[i as int] == Some(*f));
                        assert(tail[0] == Some(f@));
                        assert(first_saved_output(prefix@, tail) == Some(f@));
                    }
                    return c;
                }
            },
            None => {},
        }
        i = i + 1;
    }
    assert(es.skip(i as int) =~= Seq::<Option<Seq<char>>>::empty());
    concat(n, ".mp4")
}

// ---------------------------------------------------------------------------
// Messages
// ---------------------------------------------------------------------------

/// A line of the downloader's log.
pub fn log_line(msg: &str) -> (r: String)
    ensures
        r@ == "[YouTube Downloader] "@ + msg@,
{
    concat("[YouTube Downloader] ", msg)
}

/// The log line that announces a download of `url`.
pub fn start_log_message(url: &str) -> (r: String)
    ensures
        r@ == "Starting yt-dlp for "@ + url@,
{
    concat("Starting yt-dlp for ", url)
}

/// The message when yt-dlp could not be started from `bin` to read a
/// video's title; `error` is the system's description.
pub fn title_spawn_failure_message(bin: &str, error: &str) -> (r: String)
    ensures
        r@ == "Failed to spawn yt-dlp at \""@ + bin@ + "\": "@ + error@,
{
    let mut r = String::from_str("Failed to spawn yt-dlp at \"");
    r.append(bin);
    r.append("\": ");
    r.append(error);
    r
}

/// The message when yt-dlp could not be started from `bin`; `error` is the
/// system's description.
pub fn spawn_failure_message(bin: &str, error: &str) -> (r: String)
    ensures
        r@ == "Failed to spawn yt-dlp at \""@ + bin@ + "\" \u{2014} bundled it? install it on PATH? ("@
            + error@ + ")"@,
{
    let mut r = String::from_str("Failed to spawn yt-dlp at \"");
    r.append(bin);
    r.append("\" \u{2014} bundled it? install it on PATH? (");
    r.append(error);
    r.append(")");
    r
}

/// The message when waiting for yt-dlp to exit failed.
pub fn wait_failure_message(error: &str) -> (r: String)
    ensures
        r@ == "Failed to wait for yt-dlp: "@ + error@,
{
    concat("Failed to wait for yt-dlp: ", error)
}

/// The title query's result from yt-dlp's output, decoded as text: an error
/// with the trimmed error output when yt-dlp failed, an error when the
/// trimmed title is empty, and the trimmed title otherwise.
pub open spec fn title_result_spec(success: bool, stdout: Seq<char>, stderr: Seq<char>) -> Result<
    Seq<char>,
    Seq<char>,
> {
    if !success {
        Err("yt-dlp failed: "@ + trim_spec(stderr))
    } else if trim_spec(stdout).len() == 0 {
        Err("yt-dlp returned an empty title"@)
    } else {
        Ok(trim_spec(stdout))
    }
}

pub open spec fn result_view(r: Result<String, String>) -> Result<Seq<char>, Seq<char>> {
    match r {
        Ok(s) => Ok(s@),
        Err(e) => Err(e@),
    }
}

/// The title query's result from its decoded output.
pub fn title_from_text(success: bool, stdout: &str, stderr: &str) -> (r: Result<String, String>)
    ensures
        result_view(r) == title_result_spec(success, stdout@, stderr@),
{
    if !success {
        let e = trim(stderr);
        return Err(concat("yt-dlp failed: ", e.as_str()));
    }
    let title = trim(stdout);
    if title.as_str().is_empty() {
        Err(String::from_str("yt-dlp returned an empty title"))
    } else {
        Ok(title)
    }
}

/// The title query's result from yt-dlp's raw output streams.
pub fn title_from_output(success: bool, stdout: &[u8], stderr: &[u8]) -> (r: Result<
    String,
    String,
>)
    ensures
        result_view(r) == title_result_spec(success, utf8_lossy(stdout@), utf8_lossy(stderr@)),
{
    let out = from_utf8_lossy(stdout);
    let err = from_utf8_lossy(stderr);
    title_from_text(success, out.as_str(), err.as_str())
}

// ---------------------------------------------------------------------------
// Laws
// ---------------------------------------------------------------------------

/// The state after reading `lines` in order.
pub open spec fn after_lines(st: RunState, lines: Seq<Seq<char>>) -> RunState
    decreases lines.len(),
{
    if lines.len() == 0 {
        st
    } else {
        after_line(after_lines(st, lines.drop_last()), lines.last())
    }
}

/// The last line of `lines` that is an error line.
pub open spec fn last_error_line(lines: Seq<Seq<char>>) -> Option<Seq<char>>
    decreases lines.len(),
{
    if lines.len() == 0 {
        None
    } else if line_kind_spec(lines.last()) is Error {
        Some(lines.last())
    } else {
        last_error_line(lines.drop_last())
    }
}

/// A failed run is explained by the last `ERROR:` line yt-dlp printed, when
/// it printed one; otherwise by what was known before.
pub proof fn law_last_error_explains_failure(st: RunState, lines: Seq<Seq<char>>)
    ensures
        after_lines(st, lines).last_error == match last_error_line(lines) {
            Some(l) => Some(l),
            None => st.last_error,
        },
    decreases lines.len(),
{
    if lines.len() > 0 {
        law_last_error_explains_failure(st, lines.drop_last());
    }
}

/// Lines that carry neither the progress marker nor `ERROR:` change nothing.
pub proof fn law_other_lines_ignored(st: RunState, line: Seq<char>)
    requires
        find_spec(line, progress_marker()) is None,
        !"ERROR:"@.is_prefix_of(line),
    ensures
        after_line(st, line) == st,
{
}

/// The total follows the exact size when yt-dlp knows it, else its
/// estimate, else stays as it was; a progress line never touches the
/// remembered error.
pub proof fn law_total_prefers_exact_size(st: RunState, line: Seq<char>)
    requires
        progress_line_spec(line) is Some,
    ensures
        ({
            let p = progress_line_spec(line)->0;
            &&& after_line(st, line).total == match p.total {
                Some(t) => t,
                None => match p.estimate {
                    Some(e) => e,
                    None => st.total,
                },
            }
            &&& after_line(st, line).last_error == st.last_error
        }),
{
}

/// The downloaded count follows the latest progress line that carries one,
/// up or down (yt-dlp counts each stream it fetches from zero); a progress
/// line without it leaves the count as it was.
pub proof fn law_downloaded_follows_latest_line(st: RunState, line: Seq<char>)
    requires
        progress_line_spec(line) is Some,
    ensures
        (progress_line_spec(line)->0).downloaded matches Some(n) ==> after_line(st, line).downloaded
            == n,
        (progress_line_spec(line)->0).downloaded is None ==> after_line(st, line).downloaded
            == st.downloaded,
{
}

/// No proper suffix of the marker is also a prefix of it, so an occurrence
/// cannot start partway into another one.
proof fn lemma_marker_no_overlap(s: Seq<char>, n: int, j: int)
    requires
        0 <= j < n < j + 5,
        occurs_at(s, progress_marker(), n),
    ensures
        !occurs_at(s, progress_marker(), j),
{
    reveal_strlit("DL:D=");
    let m = progress_marker();
    let k = n - j;
    if occurs_at(s, m, j) {
        assert(s.subrange(j, j + 5)[k] == s[n]);
        assert(s.subrange(n, n + 5)[0] == s[n]);
        if k == 3 {
            assert(s.subrange(j, j + 5)[4] == s[n + 1]);
            assert(s.subrange(n, n + 5)[1] == s[n + 1]);
        }
    }
}

proof fn lemma_marker_found_after_prefix(prefix: Seq<char>, rest: Seq<char>)
    requires
        !contains_spec(prefix, progress_marker()),
    ensures
        find_spec(prefix + progress_marker() + rest, progress_marker()) == Some(prefix.len() as int),
{
    reveal_strlit("DL:D=");
    let m = progress_marker();
    let s = prefix + m + rest;
    let n = prefix.len() as int;
    assert(s.subrange(n, n + 5) =~= m);
    assert forall|j: int| 0 <= j < n implies !occurs_at(s, m, j) by {
        if occurs_at(s, m, j) {
            if j + 5 <= n {
                assert(prefix.subrange(j, j + 5) =~= s.subrange(j, j + 5));
                assert(occurs_at(prefix, m, j));
            } else {
                lemma_marker_no_overlap(s, n, j);
            }
        }
    }
    lemma_find_spec_first(s, m, n);
}

/// A line that starts with the marker has it at its start.
proof fn lemma_marker_at_start(rest: Seq<char>)
    ensures
        find_spec(progress_marker() + rest, progress_marker()) == Some(0int),
{
    let m = progress_marker();
    let empty = Seq::<char>::empty();
    assert(!contains_spec(empty, m)) by {
        reveal_strlit("DL:D=");
    }
    lemma_marker_found_after_prefix(empty, rest);
    assert(empty + m + rest == m + rest);
}

/// The figures of two texts that agree after their `DL:`.
proof fn lemma_same_figures(a: Seq<char>, i: int, b: Seq<char>, j: int)
    requires
        find_spec(a, progress_marker()) == Some(i),
        find_spec(b, progress_marker()) == Some(j),
        a.skip(i + figures_offset()) == b.skip(j + figures_offset()),
    ensures
        progress_line_spec(a) == progress_line_spec(b),
{
}

/// After the `DL:` the figures of a line do not depend on what comes before
/// the marker.
proof fn lemma_figures_after_prefix(prefix: Seq<char>, rest: Seq<char>)
    ensures
        (prefix + progress_marker() + rest).skip(prefix.len() + figures_offset())
            == (progress_marker() + rest).skip(0int + figures_offset()),
{
    reveal_strlit("DL:D=");
    assert((prefix + progress_marker() + rest).skip(prefix.len() + figures_offset())
        =~= (progress_marker() + rest).skip(0int + figures_offset()));
}

/// The marker is found anywhere on a line, so whatever yt-dlp prints before
/// it does not matter: a line made of any text free of the marker, then the
/// marker and the figures, reads like the marker and figures alone.
pub proof fn law_prefix_before_marker_ignored(prefix: Seq<char>, rest: Seq<char>)
    requires
        !contains_spec(prefix, progress_marker()),
    ensures
        progress_line_spec(prefix + progress_marker() + rest) == progress_line_spec(
            progress_marker() + rest,
        ),
        progress_line_spec(progress_marker() + rest) is Some,
{
    let m = progress_marker();
    let a = prefix + m + rest;
    let b = m + rest;
    let n = prefix.len() as int;
    lemma_marker_found_after_prefix(prefix, rest);
    lemma_marker_at_start(rest);
    lemma_figures_after_prefix(prefix, rest);
    lemma_same_figures(a, n, b, 0);
}

proof fn lemma_downloaded_segment(d: Seq<char>)
    requires
        !d.contains('|'),
    ensures
        apply_segments(no_fields(), split_spec(seq!['D', '='] + d, '|')) == (ProgressFields {
            downloaded: parse_u64_field_spec(d),
            ..no_fields()
        }),
{
    let x = seq!['D', '='] + d;
    assert(!x.contains('|')) by {
        if x.contains('|') {
            let j = choose|j: int| 0 <= j < x.len() && x[j] == '|';
            assert(j >= 2);
            assert(d[j - 2] == '|');
        }
    }
    lemma_split_without_sep(x, '|');
    assert(seq![x].drop_last() =~= Seq::<Seq<char>>::empty());
    assert(apply_segments(no_fields(), seq![x]) == apply_segment(no_fields(), x)) by {
        reveal_with_fuel(apply_segments, 2);
    }
    assert(has_key(x, 'D'));
    assert(x.skip(2) =~= d);
}

/// After its `DL:`, the marker itself opens a `D=` segment.
proof fn lemma_figures_open_with_d(d: Seq<char>)
    ensures
        (progress_marker() + d).skip(0int + figures_offset()) == seq!['D', '='] + d,
{
    reveal_strlit("DL:D=");
    assert((progress_marker() + d).skip(0int + figures_offset()) =~= seq!['D', '='] + d);
}

/// The figure right after the marker is the downloaded count: the marker
/// followed by a figure without `|` reads that figure as the downloaded
/// count and carries no other figure.
pub proof fn law_marker_figure_is_downloaded(d: Seq<char>)
    requires
        !d.contains('|'),
    ensures
        progress_line_spec(progress_marker() + d) == Some(
            ProgressFields { downloaded: parse_u64_field_spec(d), ..no_fields() },
        ),
{
    lemma_marker_at_start(d);
    lemma_figures_open_with_d(d);
    lemma_downloaded_segment(d);
}

} // verus!
