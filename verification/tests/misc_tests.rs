use vanguard::clipboard::ClipboardWatcher;
use vanguard::commands::{
    classify_download, default_client_unsupported, needs_local_file_check, open_command,
    start_failed_event, torrent_client_writes, validate_max_concurrent, DownloadKind,
};
use vanguard::events::{DownloadStatus, ProgressEvent};
use vanguard::media::{execute_failure_message, MediaGrabber};
use vanguard::native_messaging::{frame, frame_length, handle_incoming, payload_text, IncomingMessage};
use vanguard::paths::{file_basename, file_name_of};
use vanguard::queue::{queue_capacity, QueueManager};
use vanguard::registry::TaskRegistry;
use vanguard::security::SecurityScanner;
use vanguard::tools::{bundled_dir_name, resolve_tool, tool_file_name, tool_location};
use vanguard::torrent;

#[test]
fn routing() {
    assert_eq!(classify_download("magnet:?xt=urn:btih:abc", false), DownloadKind::Torrent);
    assert_eq!(classify_download("C:/x/file.torrent", true), DownloadKind::Torrent);
    assert_eq!(classify_download("https://example.com/file.torrent", false), DownloadKind::Http);
    assert_eq!(classify_download("https://www.youtube.com/watch?v=1", false), DownloadKind::Youtube);
    assert_eq!(classify_download("https://youtu.be/1", false), DownloadKind::Youtube);
    assert_eq!(classify_download("https://example.com/a.zip", false), DownloadKind::Http);
    assert!(needs_local_file_check("a.torrent"));
    assert!(!needs_local_file_check("a.torrents"));
}

#[test]
fn commands() {
    assert_eq!(
        validate_max_concurrent(0),
        Err("Max concurrent downloads must be at least 1".to_string())
    );
    assert_eq!(validate_max_concurrent(3), Ok(3));
    let e = start_failed_event("t", "nope");
    assert_eq!(e.status, DownloadStatus::Error);
    assert_eq!(e.error_message.as_deref(), Some("nope"));
    assert_eq!(
        default_client_unsupported(),
        "Setting the default torrent client is only supported on Windows."
    );
    assert_eq!(open_command("C:\\V.exe"), "\"C:\\V.exe\" \"%1\"");
    let w = torrent_client_writes("C:\\V.exe");
    let triples: Vec<(String, String, String)> =
        w.into_iter().map(|x| (x.subkey, x.name, x.value)).collect();
    assert_eq!(triples.len(), 5);
    assert_eq!(triples[0], ("Software\\Classes\\.torrent".into(), "".into(), "Vanguard.Torrent".into()));
    assert_eq!(triples[3], ("Software\\Classes\\magnet".into(), "URL Protocol".into(), "".into()));
    assert_eq!(
        triples[4],
        ("Software\\Classes\\magnet\\shell\\open\\command".into(), "".into(), "\"C:\\V.exe\" \"%1\"".into())
    );
}

#[test]
fn registry_pause_after_start() {
    let mut r: TaskRegistry<u32> = TaskRegistry::new();
    assert_eq!(r.insert("a".to_string(), 1), None);
    assert_eq!(r.insert("b".to_string(), 2), None);
    assert_eq!(r.insert("a".to_string(), 3), Some(1));
    assert_eq!(r.remove("a"), Some(3));
    assert_eq!(r.remove("a"), None);
    assert_eq!(r.remove("b"), Some(2));
}

#[test]
fn clipboard_reports_new_urls_once() {
    let mut w = ClipboardWatcher::new();
    assert_eq!(w.poll(true, Some("  https://a.com/x  ")), Some("https://a.com/x".to_string()));
    assert_eq!(w.poll(true, Some("https://a.com/x")), None);
    assert_eq!(w.poll(true, Some("hello")), None);
    assert_eq!(w.poll(true, Some("https://a.com/x")), Some("https://a.com/x".to_string()));
    assert_eq!(w.poll(true, None), None);
    assert_eq!(w.poll(false, Some("magnet:?x")), None);
    assert_eq!(w.poll(true, Some("https://a.com/x")), Some("https://a.com/x".to_string()));
    assert_eq!(w.poll(true, Some("   ")), None);
    assert_eq!(w.poll(true, Some("ftp://f")), Some("ftp://f".to_string()));
}

#[test]
fn native_messaging_frames() {
    let msg = IncomingMessage {
        action: "add_download".into(),
        url: "https://x".into(),
        filename: "x".into(),
        referrer: None,
    };
    let reply = handle_incoming(&msg).unwrap();
    assert_eq!(reply.status, "success");
    assert_eq!(reply.message, "Added to Best Download Manager queue");
    let other = IncomingMessage { action: "ping".into(), ..msg };
    assert!(handle_incoming(&other).is_none());
    let f = frame(b"{\"a\":1}");
    assert_eq!(f.len(), 11);
    assert_eq!(&f[..4], &7u32.to_ne_bytes());
    assert_eq!(&f[4..], b"{\"a\":1}");
    assert_eq!(frame_length(7u32.to_ne_bytes()), 7);
    assert_eq!(payload_text(b"ok".to_vec()), Some("ok".to_string()));
    assert_eq!(payload_text(vec![0xff]), None);
}

#[test]
fn media_from_ytdlp_json() {
    let ok = MediaGrabber::media_info_from_output(
        true,
        br#"{"title":"T","url":"https://cdn/x","ext":"webm"}"#,
        b"",
    )
    .unwrap();
    assert_eq!((ok.title.as_str(), ok.direct_url.as_str(), ok.ext.as_str()), ("T", "https://cdn/x", "webm"));
    let defaults = MediaGrabber::media_info_from_output(true, br#"{"url":"u","title":5}"#, b"").unwrap();
    assert_eq!((defaults.title.as_str(), defaults.ext.as_str()), ("unknown_video", "mp4"));
    match MediaGrabber::media_info_from_output(true, br#"{"title":"T"}"#, b"") {
        Err(e) => assert_eq!(e, "Could not extract direct stream URL"),
        Ok(_) => panic!("no url"),
    }
    match MediaGrabber::media_info_from_output(true, b"not json", b"") {
        Err(e) => assert!(e.starts_with("Failed to parse yt-dlp JSON: ")),
        Ok(_) => panic!("not json"),
    }
    match MediaGrabber::media_info_from_output(false, b"", b"bad url") {
        Err(e) => assert_eq!(e, "yt-dlp error: bad url"),
        Ok(_) => panic!("failed run"),
    }
}

#[test]
fn queue_capacity_is_at_least_one() {
    assert_eq!(queue_capacity(0), 1);
    assert_eq!(queue_capacity(5), 5);
    let q = QueueManager::new(0);
    assert_eq!(q.permits().read().unwrap().available_permits(), 1);
    q.set_max(4);
    assert_eq!(q.permits().read().unwrap().available_permits(), 4);
    let q5 = QueueManager::new(5);
    assert_eq!(q5.permits().read().unwrap().available_permits(), 5);
}

#[test]
fn security_and_tools() {
    assert_eq!(SecurityScanner::scan_file("/tmp/x"), Ok(true));
    assert_eq!(SecurityScanner::defender_verdict(false), Ok(false));
    assert_eq!(SecurityScanner::defender_args("f"), vec!["-Scan", "-ScanType", "3", "-File", "f"]);
    assert_eq!(
        SecurityScanner::defender_failure("denied"),
        Err("Failed to invoke Windows Defender: denied".to_string())
    );
    assert_eq!(SecurityScanner::defender_program(), "C:\\Program Files\\Windows Defender\\MpCmdRun.exe");
    assert_eq!(tool_file_name("yt-dlp", true), "yt-dlp.exe");
    assert_eq!(tool_file_name("yt-dlp", false), "yt-dlp");
    assert_eq!(bundled_dir_name(), "binaries");
    assert_eq!(resolve_tool(None, Some("/app/yt-dlp".into()), "yt-dlp"), "/app/yt-dlp");
    assert_eq!(resolve_tool(Some("/res/yt-dlp".into()), Some("/app/yt-dlp".into()), "yt-dlp"), "/res/yt-dlp");
    assert_eq!(resolve_tool(None, None, "yt-dlp"), "yt-dlp");
    assert_eq!(tool_location(None, Some("/app".into())), Some("/app".to_string()));
    assert_eq!(tool_location(None, None), None);
}

#[test]
fn torrent_reports_and_names() {
    assert_eq!(torrent::output_folder(None), "C:\\Downloads");
    assert_eq!(torrent::output_folder(Some("/d".into())), "/d");
    assert_eq!(torrent::session_failure_message("x"), "Failed to create librqbit session: x");
    let c = torrent::completed_event("t");
    assert_eq!((c.total_bytes, c.downloaded_bytes, c.speed_bytes_per_sec), (1, 1, 0));
    assert_eq!(c.status, DownloadStatus::Completed);
    let r = torrent::running_event("t", 10, 100, 500000);
    assert_eq!((r.total_bytes, r.downloaded_bytes, r.speed_bytes_per_sec), (100, 10, 500000));
    assert_eq!(r.status, DownloadStatus::Downloading);
    let m = torrent::running_event("t", 0, 0, 0);
    assert_eq!((m.total_bytes, m.downloaded_bytes), (0, 0));
    let f = torrent::add_failed_event("t");
    assert_eq!(f.status, DownloadStatus::Error);
    assert_eq!(f.error_message, None);
    assert_eq!(torrent::started_event("t").status, DownloadStatus::Downloading);
}

#[test]
fn media_execute_failure() {
    assert_eq!(execute_failure_message("not found"), "Failed to execute yt-dlp: not found");
}

#[test]
fn file_names_skip_separators_and_dots() {
    assert_eq!(file_basename("a//b/"), "b");
    assert_eq!(file_basename("./"), "");
    assert_eq!(file_basename(".hidden"), ".hidden");
    assert_eq!(file_name_of("a/b/../"), None);
    assert_eq!(file_name_of("downloads/video.part"), Some("video.part".to_string()));
}

#[test]
fn file_names_and_events() {
    assert_eq!(file_basename("/a/b/c.mp4"), "c.mp4");
    assert_eq!(file_basename("/a/b/.."), "");
    assert_eq!(file_basename("/"), "");
    assert_eq!(file_name_of("dir/x.txt/."), Some("x.txt".to_string()));
    assert_eq!(file_name_of(""), None);
    let q = ProgressEvent::queued("t");
    assert_eq!(q.status, DownloadStatus::Queued);
    let s = ProgressEvent::queue_shut_down("t");
    assert_eq!(s.error_message.as_deref(), Some("Download queue was shut down"));
    assert_eq!(ProgressEvent::started("t").status, DownloadStatus::Downloading);
}

#[test]
fn clipboard_read_sequence() {
    let mut w = ClipboardWatcher::new();
    let reads = ["https://a/f", " https://a/f ", "memo", "https://a/f"];
    let reported: Vec<Option<String>> = reads.iter().map(|r| w.poll(true, Some(r))).collect();
    assert_eq!(
        reported,
        vec![Some("https://a/f".to_string()), None, None, Some("https://a/f".to_string())]
    );
    // A failed read changes nothing.
    assert_eq!(w.poll(true, None), None);
    assert_eq!(w.poll(true, Some("https://a/f")), None);
    // Empty text is not remembered.
    assert_eq!(w.poll(true, Some("   ")), None);
    assert_eq!(w.poll(true, Some("https://a/f")), None);
}
