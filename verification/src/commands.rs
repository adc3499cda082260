//! Decisions behind the user-facing commands: which downloader takes a URL,
//! the concurrency setting, and the file associations of the torrent client.
use vstd::prelude::*;

use crate::events::{DownloadStatus, ProgressEvent, event_is};
use crate::text::{chars_of, concat3, contains, contains_spec, has_prefix, has_suffix};

verus! {

broadcast use vstd::string::group_string_axioms;

/// Which downloader handles a URL.
#[derive(Clone, Copy, Debug, PartialEq, Eq, Structural)]
pub enum DownloadKind {
    Torrent,
    Youtube,
    Http,
}

/// Whether deciding on `url` needs to know if it names a local file: only a
/// URL ending in `.torrent` does.
pub open spec fn needs_local_file_check_spec(url: Seq<char>) -> bool {
    ".torrent"@.is_suffix_of(url)
}

/// A magnet link, or a `.torrent` that is a local file, goes to the torrent
/// client; a YouTube address to yt-dlp; everything else, a remote `.torrent`
/// included, is downloaded over HTTP.
pub open spec fn download_kind_spec(url: Seq<char>, is_local_file: bool) -> DownloadKind {
    let is_local_torrent = ".torrent"@.is_suffix_of(url) && is_local_file;
    if "magnet:"@.is_prefix_of(url) || is_local_torrent {
        DownloadKind::Torrent
    } else if contains_spec(url, "youtube.com"@) || contains_spec(url, "youtu.be"@) {
        DownloadKind::Youtube
    } else {
        DownloadKind::Http
    }
}

pub fn needs_local_file_check(url: &str) -> (r: bool)
    ensures
        r == needs_local_file_check_spec(url@),
{
    let v = chars_of(url);
    let ext = chars_of(".torrent");
    has_suffix(&v, &ext)
}

/// Chooses the downloader for `url`; `is_local_file` tells whether `url`
/// names a file on disk (consulted only when the URL ends in `.torrent`).
pub fn classify_download(url: &str, is_local_file: bool) -> (r: DownloadKind)
    ensures
        r == download_kind_spec(url@, is_local_file),
{
    let v = chars_of(url);
    let is_local_torrent = needs_local_file_check(url) && is_local_file;
    let magnet = chars_of("magnet:");
    if has_prefix(&v, &magnet) || is_local_torrent {
        DownloadKind::Torrent
    } else {
        let yt = chars_of("youtube.com");
        let short = chars_of("youtu.be");
        if contains(&v, &yt) || contains(&v, &short) {
            DownloadKind::Youtube
        } else {
            DownloadKind::Http
        }
    }
}

/// The report for a download that could not be started.
pub fn start_failed_event(task_id: &str, message: &str) -> (e: ProgressEvent)
    ensures
        event_is(e, task_id@, DownloadStatus::Error, None, Some(message@), 0, 0, 0),
{
    ProgressEvent::failed(task_id, message, 0, 0)
}

/// Checks a new maximum of concurrent downloads: at least one.
pub fn validate_max_concurrent(n: usize) -> (r: Result<usize, String>)
    ensures
        n == 0 ==> (r matches Err(e) && e@ == "Max concurrent downloads must be at least 1"@),
        n > 0 ==> r == Ok::<usize, String>(n),
{
    if n == 0 {
        Err(String::from_str("Max concurrent downloads must be at least 1"))
    } else {
        Ok(n)
    }
}

// ---------------------------------------------------------------------------
// Default torrent client
// ---------------------------------------------------------------------------

/// The message on systems where the default torrent client cannot be set.
pub fn default_client_unsupported() -> (r: String)
    ensures
        r@ == "Setting the default torrent client is only supported on Windows."@,
{
    String::from_str("Setting the default torrent client is only supported on Windows.")
}

/// The shell command that opens a file or link with the application.
pub open spec fn open_command_spec(exe: Seq<char>) -> Seq<char> {
    "\""@ + exe + "\" \"%1\""@
}

pub fn open_command(exe: &str) -> (r: String)
    ensures
        r@ == open_command_spec(exe@),
{
    concat3("\"", exe, "\" \"%1\"")
}

/// One registry value to write: under the key `subkey` of the current user,
/// the value `name` (empty: the key's default value) set to `value`.
pub struct RegistryWrite {
    pub subkey: String,
    pub name: String,
    pub value: String,
}

pub open spec fn registry_writes_view(v: Seq<RegistryWrite>) -> Seq<(Seq<char>, Seq<char>, Seq<char>)> {
    v.map_values(|w: RegistryWrite| (w.subkey@, w.name@, w.value@))
}

/// The registry values, in order, that make the application open `.torrent`
/// files and `magnet:` links.
pub open spec fn torrent_client_writes_spec(exe: Seq<char>) -> Seq<(Seq<char>, Seq<char>, Seq<char>)> {
    seq![
        ("Software\\Classes\\.torrent"@, ""@, "Vanguard.Torrent"@),
        ("Software\\Classes\\Vanguard.Torrent\\shell\\open\\command"@, ""@, open_command_spec(exe)),
        ("Software\\Classes\\magnet"@, ""@, "URL:magnet"@),
        ("Software\\Classes\\magnet"@, "URL Protocol"@, ""@),
        ("Software\\Classes\\magnet\\shell\\open\\command"@, ""@, open_command_spec(exe)),
    ]
}

fn push_write(v: &mut Vec<RegistryWrite>, subkey: &str, name: &str, value: String)
    ensures
        registry_writes_view(final(v)@) == registry_writes_view(old(v)@).push(
            (subkey@, name@, value@),
        ),
{
    let ghost val = value@;
    v.push(
        RegistryWrite {
            subkey: String::from_str(subkey),
            name: String::from_str(name),
            value,
        },
    );
    assert(registry_writes_view(v@) =~= registry_writes_view(old(v)@).push((subkey@, name@, val)));
}

/// The registry writes for the executable at `exe`.
pub fn torrent_client_writes(exe: &str) -> (r: Vec<RegistryWrite>)
    ensures
        registry_writes_view(r@) == torrent_client_writes_spec(exe@),
{
    let mut v: Vec<RegistryWrite> = Vec::new();
    push_write(&mut v, "Software\\Classes\\.torrent", "", String::from_str("Vanguard.Torrent"));
    push_write(
        &mut v,
        "Software\\Classes\\Vanguard.Torrent\\shell\\open\\command",
        "",
        open_command(exe),
    );
    push_write(&mut v, "Software\\Classes\\magnet", "", String::from_str("URL:magnet"));
    push_write(&mut v, "Software\\Classes\\magnet", "URL Protocol", String::from_str(""));
    push_write(&mut v, "Software\\Classes\\magnet\\shell\\open\\command", "", open_command(exe));
    assert(registry_writes_view(v@) =~= torrent_client_writes_spec(exe@));
    v
}

// ---------------------------------------------------------------------------
// Laws
// ---------------------------------------------------------------------------

/// A `.torrent` is treated as a torrent only when it is a local file: a
/// remote URL ending in `.torrent` is never handed to the torrent client
/// unless it is a magnet link.
pub proof fn law_remote_torrent_is_http(url: Seq<char>)
    ensures
        download_kind_spec(url, false) == DownloadKind::Torrent <==> "magnet:"@.is_prefix_of(url),
{
}

/// Routing by address: a magnet link goes to the torrent client; any other
/// address that is not a local `.torrent` file goes to yt-dlp exactly when it
/// mentions `youtube.com` or `youtu.be` anywhere (any subdomain, any path),
/// and is downloaded over HTTP otherwise.
pub proof fn law_route_by_address(link: Seq<char>, local: bool)
    ensures
        "magnet:"@.is_prefix_of(link) ==> download_kind_spec(link, local) == DownloadKind::Torrent,
        !"magnet:"@.is_prefix_of(link) && !(local && ".torrent"@.is_suffix_of(link)) ==> {
            let youtube = contains_spec(link, "youtube.com"@) || contains_spec(link, "youtu.be"@);
            &&& youtube ==> download_kind_spec(link, local) == DownloadKind::Youtube
            &&& !youtube ==> download_kind_spec(link, local) == DownloadKind::Http
        },
{
}

/// Whether the URL names a local file matters only for URLs ending in
/// `.torrent`.
pub proof fn law_local_check_only_for_torrent_files(url: Seq<char>)
    requires
        !needs_local_file_check_spec(url),
    ensures
        download_kind_spec(url, true) == download_kind_spec(url, false),
{
}

} // verus!
