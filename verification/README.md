# vanguard

The core of the Vanguard download manager (HTTP downloads with resume and a
speed cap, BitTorrent, YouTube through yt-dlp, a download queue, clipboard
monitoring and a browser-extension channel), written in Verus with its
behaviour stated in contracts and proved.

- `src/` is the verified library:
  - `http_transfer` — resuming from `.part` files, reading `Content-Range` /
    `Content-Length`, per-chunk accounting, progress pacing and the
    per-second speed cap;
  - `ytdlp` — yt-dlp command lines, progress-line parsing, the run's state
    and its final report, the saved file name, the title query;
  - `commands` — URL routing, the concurrency setting, the registry values
    of the default torrent client;
  - `registry` — running downloads by task id; `clipboard` — the clipboard
    monitor; `native_messaging` — framing and handling of extension messages;
  - `media`, `queue`, `security`, `tools`, `torrent`, `events`, `paths`,
    `text` — the rest of the logic and the text utilities it rests on.
- `app/` is the desktop shell around it (Tauri commands, processes, files,
  network, timers), which calls the library for every decision.
- `tests/` exercises the library on concrete values.
