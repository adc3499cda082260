//! Media sniffing: the direct stream of a page, as described by the JSON
//! that `yt-dlp --dump-json` prints.
use vstd::prelude::*;

use crate::text::{concat, from_utf8_lossy, utf8_lossy};

verus! {

broadcast use vstd::string::group_string_axioms;

/// The message when yt-dlp could not be run; `error` is the system's
/// description.
pub fn execute_failure_message(error: &str) -> (r: String)
    ensures
        r@ == "Failed to execute yt-dlp: "@ + error@,
{
    concat("Failed to execute yt-dlp: ", error)
}

/// What a media page resolves to.
pub struct MediaInfo {
    pub title: String,
    pub direct_url: String,
    pub ext: String,
}

/// Resolves media pages to their direct stream.
pub struct MediaGrabber;

/// `text` parses as JSON (`serde_json::from_str::<Value>` succeeds).
pub uninterp spec fn json_parses(text: Seq<char>) -> bool;

/// The string stored under `key` in the JSON object `text`
/// (`value[key].as_str()`): `None` when absent or not a string.
pub uninterp spec fn json_str_field(text: Seq<char>, key: Seq<char>) -> Option<Seq<char>>;

#[verifier::external_type_specification]
#[verifier::external_body]
pub struct ExJsonError(serde_json::Error);

pub open spec fn opt_view(o: Option<String>) -> Option<Seq<char>> {
    match o {
        Some(s) => Some(s@),
        None => None,
    }
}

/// Parses `text` with `serde_json::from_str::<serde_json::Value>` and reads
/// the string under `key` with `Value`'s indexing and `as_str`.
///
/// Trusted: claims that success depends on the text alone (`json_parses`)
/// and that the field read depends on the text and key alone
/// (`json_str_field`).
#[verifier::external_body]
fn json_string_field(text: &str, key: &str) -> (r: Result<Option<String>, serde_json::Error>)
    ensures
        (r is Ok) == json_parses(text@),
        r matches Ok(f) ==> opt_view(f) == json_str_field(text@, key@),
{
    match serde_json::from_str::<serde_json::Value>(text) {
        Ok(v) => Ok(v[key].as_str().map(|s| s.to_string())),
        Err(e) => Err(e),
    }
}

/// The description of a JSON error (its `Display` text).
///
/// Trusted only to return some text: nothing is stated about it.
#[verifier::external_body]
fn json_error_text(e: &serde_json::Error) -> String {
    e.to_string()
}

pub open spec fn media_result_view(r: Result<MediaInfo, String>) -> Result<
    (Seq<char>, Seq<char>, Seq<char>),
    Seq<char>,
> {
    match r {
        Ok(m) => Ok((m.title@, m.direct_url@, m.ext@)),
        Err(e) => Err(e@),
    }
}

/// The media description from the fields read: the title defaults to
/// `unknown_video` and the extension to `mp4`; without a non-empty stream
/// URL there is nothing to download.
pub open spec fn media_from_fields_spec(
    title: Option<Seq<char>>,
    direct_url: Option<Seq<char>>,
    ext: Option<Seq<char>>,
) -> Result<(Seq<char>, Seq<char>, Seq<char>), Seq<char>> {
    let url = match direct_url {
        Some(u) => u,
        None => Seq::empty(),
    };
    if url.len() == 0 {
        Err("Could not extract direct stream URL"@)
    } else {
        Ok(
            (
                match title {
                    Some(t) => t,
                    None => "unknown_video"@,
                },
                url,
                match ext {
                    Some(e) => e,
                    None => "mp4"@,
                },
            ),
        )
    }
}

/// The message for output that is not JSON.
fn json_failure(e: &serde_json::Error) -> (r: String)
    ensures
        "Failed to parse yt-dlp JSON: "@.is_prefix_of(r@),
{
    let msg = json_error_text(e);
    let r = concat("Failed to parse yt-dlp JSON: ", msg.as_str());
    assert(r@.take("Failed to parse yt-dlp JSON: "@.len() as int) =~= "Failed to parse yt-dlp JSON: "@);
    r
}

impl MediaGrabber {
    /// The media description from the `title`, `url` and `ext` fields.
    pub fn media_info_from_fields(
        title: Option<String>,
        direct_url: Option<String>,
        ext: Option<String>,
    ) -> (r: Result<MediaInfo, String>)
        ensures
            media_result_view(r) == media_from_fields_spec(
                opt_view(title),
                opt_view(direct_url),
                opt_view(ext),
            ),
    {
        let url = match direct_url {
            Some(u) => u,
            None => String::new(),
        };
        if url.as_str().is_empty() {
            return Err(String::from_str("Could not extract direct stream URL"));
        }
        let title = match title {
            Some(t) => t,
            None => String::from_str("unknown_video"),
        };
        let ext = match ext {
            Some(e) => e,
            None => String::from_str("mp4"),
        };
        Ok(MediaInfo { title, direct_url: url, ext })
    }

    /// The media description from a `yt-dlp --dump-json` run: its success and
    /// raw output streams.
    pub fn media_info_from_output(success: bool, stdout: &[u8], stderr: &[u8]) -> (r: Result<
        MediaInfo,
        String,
    >)
        ensures
            !success ==> media_result_view(r) == Err::<(Seq<char>, Seq<char>, Seq<char>), Seq<char>>(
                "yt-dlp error: "@ + utf8_lossy(stderr@),
            ),
            success && !json_parses(utf8_lossy(stdout@)) ==> (r matches Err(e)
                && "Failed to parse yt-dlp JSON: "@.is_prefix_of(e@)),
            success && json_parses(utf8_lossy(stdout@)) ==> media_result_view(r)
                == media_from_fields_spec(
                json_str_field(utf8_lossy(stdout@), "title"@),
                json_str_field(utf8_lossy(stdout@), "url"@),
                json_str_field(utf8_lossy(stdout@), "ext"@),
            ),
    {
        if !success {
            let err = from_utf8_lossy(stderr);
            return Err(concat("yt-dlp error: ", err.as_str()));
        }
        let text = from_utf8_lossy(stdout);
        let title = match json_string_field(text.as_str(), "title") {
            Ok(f) => f,
            Err(e) => {
                return Err(json_failure(&e));
            },
        };
        let url = match json_string_field(text.as_str(), "url") {
            Ok(f) => f,
            Err(e) => {
                return Err(json_failure(&e));
            },
        };
        let ext = match json_string_field(text.as_str(), "ext") {
            Ok(f) => f,
            Err(e) => {
                return Err(json_failure(&e));
            },
        };
        Self::media_info_from_fields(title, url, ext)
    }
}

} // verus!
