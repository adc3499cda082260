use vanguard::events::DownloadStatus;
use vanguard::http_transfer::{
    HttpDownload, ResponseStep,
    failure_message, TransferFailure,
    completed_from_part_event, content_length, content_range_header_total, content_range_total,
    header_text, part_path, plan_response, range_request, RateAction, ResponsePlan,
};

#[test]
fn part_file_and_range_header() {
    assert_eq!(part_path("C:/dl/file.zip"), "C:/dl/file.zip.part");
    assert_eq!(range_request(Some(1024)), Some("bytes=1024-".to_string()));
    assert_eq!(range_request(Some(0)), None);
    assert_eq!(range_request(None), None);
}

#[test]
fn content_range_totals() {
    assert_eq!(content_range_total("bytes 100-199/1000"), Some(1000));
    assert_eq!(content_range_total("bytes 100-199/*"), None);
    assert_eq!(content_range_total("bytes 100-199/ 77 "), Some(77));
    assert_eq!(content_range_total("5000"), Some(5000));
    assert_eq!(content_range_total("bytes 1-2/x"), None);
    assert_eq!(content_range_total("bytes 1-2/"), None);
}

#[test]
fn header_values_must_be_visible_ascii() {
    assert_eq!(header_text(b"abc\tdef"), Some("abc\tdef".to_string()));
    assert_eq!(header_text(b"abc\x01"), None);
    assert_eq!(header_text(b"caf\xc3\xa9"), None);
    assert_eq!(content_length(Some(b"2048")), Some(2048));
    assert_eq!(content_length(Some(b"20x")), None);
    assert_eq!(content_length(None), None);
    assert_eq!(content_range_header_total(Some(b"bytes 0-9/10")), Some(10));
}

#[test]
fn refused_range_finishes_from_part() {
    match plan_response(Some(500), 416, None, None) {
        ResponsePlan::FinishFromPart { downloaded } => assert_eq!(downloaded, 500),
        _ => panic!("expected the part file to be taken as complete"),
    }
    let e = completed_from_part_event("t1", "file.zip".to_string(), 500);
    assert_eq!(e.status, DownloadStatus::Completed);
    assert_eq!(e.total_bytes, 500);
    assert_eq!(e.downloaded_bytes, 500);
    assert_eq!(e.filename.as_deref(), Some("file.zip"));
}

#[test]
fn resume_with_partial_content() {
    match plan_response(Some(500), 206, Some(b"bytes 500-999/1000"), Some(b"500")) {
        ResponsePlan::Transfer { resuming, transfer } => {
            assert!(resuming);
            assert_eq!(transfer.downloaded(), 500);
            assert_eq!(transfer.total(), 1000);
        }
        _ => panic!("expected a transfer"),
    }
    // Without a usable Content-Range the total is the part plus the remaining length.
    match plan_response(Some(500), 206, Some(b"bytes 500-999/*"), Some(b"500")) {
        ResponsePlan::Transfer { transfer, .. } => assert_eq!(transfer.total(), 1000),
        _ => panic!("expected a transfer"),
    }
    match plan_response(Some(u64::MAX - 1), 206, None, Some(b"10")) {
        ResponsePlan::Transfer { transfer, .. } => assert_eq!(transfer.total(), u64::MAX),
        _ => panic!("expected a transfer"),
    }
}

#[test]
fn ignored_range_restarts_from_zero() {
    match plan_response(Some(500), 200, None, Some(b"1000")) {
        ResponsePlan::Transfer { resuming, transfer } => {
            assert!(!resuming);
            assert_eq!(transfer.downloaded(), 0);
            assert_eq!(transfer.total(), 1000);
        }
        _ => panic!("expected a transfer"),
    }
    match plan_response(None, 416, None, None) {
        ResponsePlan::Transfer { resuming, transfer } => {
            assert!(!resuming);
            assert_eq!(transfer.downloaded(), 0);
            assert_eq!(transfer.total(), 0);
        }
        _ => panic!("a fresh download is never finished from a part file"),
    }
}

fn fresh(total: &[u8]) -> vanguard::http_transfer::HttpTransfer {
    match plan_response(None, 200, None, Some(total)) {
        ResponsePlan::Transfer { transfer, .. } => transfer,
        _ => panic!("expected a transfer"),
    }
}

#[test]
fn chunks_add_up_and_progress_every_200ms() {
    let mut t = fresh(b"300");
    assert_eq!(t.record_chunk(100, 0, 5), RateAction::Continue);
    assert_eq!(t.take_progress(150), None);
    assert_eq!(t.record_chunk(50, 0, 5), RateAction::Continue);
    assert_eq!(t.take_progress(200), Some(150));
    assert_eq!(t.record_chunk(150, 0, 5), RateAction::Continue);
    assert_eq!(t.take_progress(250), Some(150));
    assert_eq!(t.downloaded(), 300);
    let e = t.completed_event("t", "f.bin".to_string());
    assert_eq!(e.status, DownloadStatus::Completed);
    assert_eq!(e.downloaded_bytes, 300);
    assert_eq!(e.total_bytes, 300);
    let p = t.progress_event("t", 42);
    assert_eq!(p.speed_bytes_per_sec, 42);
    assert_eq!(p.filename, None);
}

#[test]
fn speed_cap_throttles_within_the_window() {
    let mut t = fresh(b"10000");
    // 1000 bytes/s cap: 600 then 600 inside the first second exceeds it.
    assert_eq!(t.record_chunk(600, 1000, 100_000_000), RateAction::Continue);
    assert_eq!(t.record_chunk(600, 1000, 200_000_000), RateAction::Throttle);
    // Window restarted empty: another 600 fits.
    assert_eq!(t.record_chunk(600, 1000, 10_000_000), RateAction::Continue);
    // After a full second a new window starts counting this chunk.
    assert_eq!(t.record_chunk(600, 1000, 1_000_000_000), RateAction::NewWindow);
    assert_eq!(t.record_chunk(400, 1000, 1_000), RateAction::Continue);
    assert_eq!(t.record_chunk(1, 1000, 1_000), RateAction::Throttle);
    assert_eq!(t.downloaded(), 2801);
}

#[test]
fn error_and_pause_reports() {
    let mut t = fresh(b"10");
    t.record_chunk(4, 0, 0);
    let e = t.error_event("t9", "Stream error: reset");
    assert_eq!(e.status, DownloadStatus::Error);
    assert_eq!(e.error_message.as_deref(), Some("Stream error: reset"));
    assert_eq!(e.total_bytes, 0);
    assert_eq!(e.downloaded_bytes, 4);
    let p = t.paused_event("t9");
    assert_eq!(p.status, DownloadStatus::Paused);
    assert_eq!(p.total_bytes, 10);
    assert_eq!(p.downloaded_bytes, 4);
    let s = t.start_event("t9", "x.iso".to_string());
    assert_eq!(s.status, DownloadStatus::Downloading);
    assert_eq!(s.filename.as_deref(), Some("x.iso"));
}

fn reference_content_range_total(value: &str) -> Option<u64> {
    let after_slash = value.rsplit('/').next()?;
    let trimmed = after_slash.trim();
    if trimmed == "*" {
        None
    } else {
        trimmed.parse::<u64>().ok()
    }
}

#[test]
fn content_range_total_matches_rsplit_reading() {
    for v in [
        "", "/", "//", "a/b/c", "bytes 0-1/2", "bytes 0-1/ *", "bytes */100", "12/34/56",
        "bytes 0-1/+5", "bytes 0-1/-5", " 9 ", "x/\u{3000}42\u{a0}",
    ] {
        assert_eq!(content_range_total(v), reference_content_range_total(v), "value {:?}", v);
    }
}

#[test]
fn failure_messages_name_the_step() {
    assert_eq!(failure_message(TransferFailure::StartRequest, "dns"), "Failed to start request: dns");
    assert_eq!(failure_message(TransferFailure::OpenPartial, "denied"), "Failed to open partial file: denied");
    assert_eq!(failure_message(TransferFailure::CreateFile, "denied"), "Failed to create file: denied");
    assert_eq!(failure_message(TransferFailure::WriteFile, "full"), "Failed to write file: full");
    assert_eq!(failure_message(TransferFailure::Stream, "reset"), "Stream error: reset");
    assert_eq!(
        failure_message(TransferFailure::Finalize, "busy"),
        "Downloaded but could not finalize file: busy"
    );
}

#[test]
fn content_range_round_trip() {
    for &(a, b, n) in &[(0u64, 0u64, 0u64), (100, 199, 1000), (7, 8, u64::MAX)] {
        assert_eq!(content_range_total(&format!("bytes {}-{}/{}", a, b, n)), Some(n));
        assert_eq!(content_range_total(&format!("bytes {}-{}/*", a, b)), None);
    }
}

#[test]
fn http_download_reports_in_order() {
    let mut run = HttpDownload::new("t", "f.zip".to_string(), None);
    let open = run.respond(200, None, Some(&b"100"[..]));
    assert!(matches!(open, ResponseStep::Open { resuming: false }));
    let start = run.opened().unwrap();
    assert_eq!((start.status, start.total_bytes, start.downloaded_bytes), (DownloadStatus::Downloading, 100, 0));
    assert_eq!(start.filename.as_deref(), Some("f.zip"));
    assert_eq!(run.chunk(40, 0, 0), Some(RateAction::Continue));
    assert_eq!(run.take_progress(100), None);
    assert_eq!(run.take_progress(250), Some(40));
    let p = run.progress_event(160).unwrap();
    assert_eq!((p.downloaded_bytes, p.speed_bytes_per_sec), (40, 160));
    assert_eq!(run.chunk(60, 0, 0), Some(RateAction::Continue));
    let done = run.completed().unwrap();
    assert_eq!((done.status, done.total_bytes, done.downloaded_bytes), (DownloadStatus::Completed, 100, 100));
    // Nothing is reported once the download is over.
    assert!(run.fail("late").is_none());
    assert!(run.cancelled().is_none());
    assert!(run.progress_event(1).is_none());
    assert_eq!(run.chunk(1, 0, 0), None);
}

#[test]
fn http_download_failures_and_pause() {
    let mut early = HttpDownload::new("t", "f".to_string(), Some(30));
    let e = early.fail("Failed to start request: dns").unwrap();
    assert_eq!((e.status, e.total_bytes, e.downloaded_bytes), (DownloadStatus::Error, 0, 30));
    assert!(early.opened().is_none());

    let mut whole = HttpDownload::new("t", "f".to_string(), Some(500));
    match whole.respond(416, None, None) {
        ResponseStep::FinishFromPart(e) => {
            assert_eq!((e.status, e.total_bytes, e.downloaded_bytes), (DownloadStatus::Completed, 500, 500));
        }
        _ => panic!("expected the part file to be complete"),
    }
    assert!(matches!(whole.respond(200, None, None), ResponseStep::Ignored));

    let mut paused = HttpDownload::new("t", "f".to_string(), Some(10));
    assert!(matches!(paused.respond(206, Some(&b"bytes 10-99/100"[..]), Some(&b"90"[..])), ResponseStep::Open { resuming: true }));
    let start = paused.opened().unwrap();
    assert_eq!(start.downloaded_bytes, 10);
    paused.chunk(5, 0, 0);
    let p = paused.cancelled().unwrap();
    assert_eq!((p.status, p.downloaded_bytes), (DownloadStatus::Paused, 15));
    assert!(paused.completed().is_none());
}
