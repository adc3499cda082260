use vanguard::events::DownloadStatus;
use vanguard::ytdlp::{
    YtdlpDownload,
    start_log_message, title_spawn_failure_message,
    download_args, exit_code_message, final_path, info_args, log_line, output_template,
    parse_progress_line, parse_u64, rate_limit_arg, saved_basename, spawn_failure_message,
    strip_mp4_ext, title_from_output, title_from_text, wait_failure_message, LineAction, YtdlpRun,
};

#[test]
fn strip_mp4() {
    assert_eq!(strip_mp4_ext("C:\\Downloads\\My Video.mp4"), "C:\\Downloads\\My Video");
    assert_eq!(strip_mp4_ext("clip.mkv"), "clip.mkv");
    assert_eq!(strip_mp4_ext(".mp4"), "");
    assert_eq!(strip_mp4_ext("a.mp4.mp4"), "a.mp4");
    assert_eq!(output_template("/tmp/v"), "/tmp/v.%(ext)s");
}

#[test]
fn progress_figures() {
    assert_eq!(parse_u64("NA"), None);
    assert_eq!(parse_u64(""), None);
    assert_eq!(parse_u64("1234"), Some(1234));
    assert_eq!(parse_u64("12.5"), None);
}

#[test]
fn progress_line_fields() {
    let p = parse_progress_line("download:DL:D=100|T=200|E=NA|S=1536.5").unwrap();
    // The `D=` that ends the marker opens the first figure: the downloaded count.
    assert_eq!(p.downloaded, Some(100));
    assert_eq!(p.total, Some(200));
    assert_eq!(p.estimate, None);
    assert_eq!(p.speed_text.as_deref(), Some("1536.5"));
    // The prefix before the marker does not matter.
    let q = parse_progress_line("DL:D=100|T=200|E=NA|S=1536.5").unwrap();
    assert_eq!(q.downloaded, Some(100));
    assert_eq!(q.total, Some(200));
    let r = parse_progress_line("xx DL:D=0|D=77|E=900|T=NA").unwrap();
    assert_eq!(r.downloaded, Some(77));
    assert_eq!(r.estimate, Some(900));
    assert_eq!(r.total, None);
    assert!(parse_progress_line("[download] 10% of 5MiB").is_none());
}

#[test]
fn run_state_follows_lines() {
    let mut run = YtdlpRun::new();
    match run.on_stderr_line("download:DL:D=5|T=NA|E=1000|S=NA", 250) {
        LineAction::Progress { report, speed_text } => {
            assert!(report);
            assert_eq!(speed_text.as_deref(), Some("NA"));
        }
        _ => panic!("expected progress"),
    }
    assert_eq!(run.total(), 1000);
    assert_eq!(run.downloaded(), 5);
    match run.on_stderr_line("DL:D=x|T=2000|D=700", 10) {
        LineAction::Progress { report, .. } => assert!(!report),
        _ => panic!("expected progress"),
    }
    assert_eq!(run.total(), 2000);
    assert_eq!(run.downloaded(), 700);
    assert!(matches!(run.on_stderr_line("WARNING: slow", 0), LineAction::Ignore));
    assert!(matches!(run.on_stderr_line("ERROR: video unavailable", 0), LineAction::Error));
    assert!(matches!(run.on_stderr_line("ERROR: second", 0), LineAction::Error));
    assert_eq!(run.failure_message(Some(1)), "ERROR: second");
    let e = run.error_event("t", "ERROR: second");
    assert_eq!(e.total_bytes, 2000);
    assert_eq!(e.downloaded_bytes, 0);
    let p = run.paused_event("t");
    assert_eq!(p.status, DownloadStatus::Paused);
    assert_eq!(p.downloaded_bytes, 700);
}

#[test]
fn progress_line_reads_downloaded_and_estimate() {
    let mut run = YtdlpRun::new();
    match run.on_stderr_line("DL:D=1000|T=NA|E=5000|S=250.7", 250) {
        LineAction::Progress { report, speed_text } => {
            assert!(report);
            assert_eq!(speed_text.as_deref(), Some("250.7"));
        }
        _ => panic!("expected progress"),
    }
    assert_eq!(run.downloaded(), 1000);
    assert_eq!(run.total(), 5000);
}

#[test]
fn completed_total_falls_back_to_downloaded() {
    let mut run = YtdlpRun::new();
    run.on_stderr_line("DL:D=|D=4096|T=NA|E=NA", 0);
    let e = run.completed_event("t", "v.mp4".to_string());
    assert_eq!(e.total_bytes, 4096);
    assert_eq!(e.downloaded_bytes, 4096);
    assert_eq!(e.status, DownloadStatus::Completed);
}

#[test]
fn exit_messages() {
    assert_eq!(exit_code_message(Some(1)), format!("yt-dlp exited with code {:?}", Some(1)));
    assert_eq!(exit_code_message(Some(-9)), format!("yt-dlp exited with code {:?}", Some(-9)));
    assert_eq!(exit_code_message(None), format!("yt-dlp exited with code {:?}", None::<i32>));
    assert_eq!(YtdlpRun::new().failure_message(Some(2)), "yt-dlp exited with code Some(2)");
    assert_eq!(wait_failure_message("boom"), "Failed to wait for yt-dlp: boom");
    assert_eq!(
        spawn_failure_message("yt-dlp", "not found"),
        "Failed to spawn yt-dlp at \"yt-dlp\" \u{2014} bundled it? install it on PATH? (not found)"
    );
    assert_eq!(log_line("hi"), "[YouTube Downloader] hi");
    assert_eq!(start_log_message("https://v"), "Starting yt-dlp for https://v");
    assert_eq!(title_spawn_failure_message("yt-dlp", "gone"), "Failed to spawn yt-dlp at \"yt-dlp\": gone");
}

#[test]
fn command_lines() {
    assert_eq!(rate_limit_arg(500), "0K");
    assert_eq!(rate_limit_arg(2048), "2K");
    assert_eq!(rate_limit_arg(3 * 1024 * 1024 + 5), "3M");
    let args = download_args("/d/v", Some("/opt/ff"), 2 * 1024 * 1024, "https://youtu.be/x");
    assert_eq!(
        args,
        vec![
            "--no-playlist", "--newline", "-f", "bestvideo*+bestaudio/best",
            "--merge-output-format", "mp4", "-o", "/d/v.%(ext)s", "--progress-template",
            "download:DL:D=%(progress.downloaded_bytes)s|T=%(progress.total_bytes)s|E=%(progress.total_bytes_estimate)s|S=%(progress.speed)s",
            "--print", "after_move:filepath", "--ffmpeg-location", "/opt/ff", "--limit-rate", "2M",
            "https://youtu.be/x",
        ]
    );
    let plain = download_args("/d/v", None, 0, "u");
    assert_eq!(plain.len(), 13);
    assert_eq!(plain.last().unwrap(), "u");
    assert_eq!(info_args("u"), vec!["--no-playlist", "--print", "title", "u"]);
}

#[test]
fn saved_file_name() {
    let entries = vec![
        Some("My Video.mp4.part".to_string()),
        None,
        Some("Other.mp4".to_string()),
        Some("My Video.".to_string()),
        Some("My Video.webm".to_string()),
    ];
    assert_eq!(saved_basename(Some("My Video"), &entries), "My Video.webm");
    assert_eq!(saved_basename(Some("Nothing"), &entries), "Nothing.mp4");
    assert_eq!(saved_basename(None, &entries), "video.mp4");
    assert_eq!(
        final_path(&vec!["/d/a.mp4".to_string(), "".to_string()]),
        Some("/d/a.mp4".to_string())
    );
    assert_eq!(final_path(&vec!["".to_string()]), None);
}

#[test]
fn video_title() {
    assert_eq!(title_from_text(true, "  Title \n", ""), Ok("Title".to_string()));
    assert_eq!(
        title_from_text(true, " \n", ""),
        Err("yt-dlp returned an empty title".to_string())
    );
    assert_eq!(
        title_from_text(false, "x", " boom \n"),
        Err("yt-dlp failed: boom".to_string())
    );
    assert_eq!(title_from_output(true, b"Caf\xc3\xa9\n", b""), Ok("Caf\u{e9}".to_string()));
    assert_eq!(title_from_output(true, b"A\xffB", b""), Ok("A\u{fffd}B".to_string()));
}

#[test]
fn ytdlp_download_reports_in_order() {
    let mut d = YtdlpDownload::new("t");
    assert!(d.line("DL:D=1|T=2", 0).is_none());
    let s = d.spawned().unwrap();
    assert_eq!((s.status, s.total_bytes, s.downloaded_bytes), (DownloadStatus::Downloading, 0, 0));
    match d.line("DL:D=1000|T=NA|E=5000|S=250.7", 300) {
        Some(LineAction::Progress { report: true, .. }) => {}
        _ => panic!("expected a progress line"),
    }
    let p = d.progress_event(250).unwrap();
    assert_eq!((p.total_bytes, p.downloaded_bytes, p.speed_bytes_per_sec), (5000, 1000, 250));
    let c = d.completed("v.mp4".to_string()).unwrap();
    assert_eq!((c.status, c.total_bytes, c.downloaded_bytes), (DownloadStatus::Completed, 5000, 1000));
    assert!(d.failed("late").is_none());
    assert!(d.cancelled().is_none());

    let mut f = YtdlpDownload::new("t");
    let e = f.spawn_failed("no binary").unwrap();
    assert_eq!((e.status, e.downloaded_bytes), (DownloadStatus::Error, 0));
    assert!(f.spawned().is_none());

    let mut g = YtdlpDownload::new("t");
    g.spawned();
    g.line("ERROR: gone", 0);
    let m = g.failure_message(Some(1));
    assert_eq!(m, "ERROR: gone");
    let e = g.failed(&m).unwrap();
    assert_eq!(e.error_message.as_deref(), Some("ERROR: gone"));
    assert!(g.progress_event(1).is_none());
}
