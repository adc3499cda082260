//! Locating the external tools (yt-dlp, ffmpeg) the downloads rely on.
use vstd::prelude::*;

use crate::text::concat;

verus! {

broadcast use vstd::string::group_string_axioms;

/// The file name of a tool: `<base>.exe` on Windows, `<base>` elsewhere.
pub fn tool_file_name(base: &str, windows: bool) -> (r: String)
    ensures
        windows ==> r@ == base@ + ".exe"@,
        !windows ==> r@ == base@,
{
    if windows {
        concat(base, ".exe")
    } else {
        String::from_str(base)
    }
}

/// The directory, inside the application's resources, holding bundled tools.
pub fn bundled_dir_name() -> (r: String)
    ensures
        r@ == "binaries"@,
{
    String::from_str("binaries")
}

/// How to invoke a tool, in order of preference: the copy bundled with the
/// application, the copy next to the executable, or the bare name to be
/// found on `PATH`. Each candidate is given only if that file exists.
pub fn resolve_tool(bundled: Option<String>, beside_exe: Option<String>, base: &str) -> (r: String)
    ensures
        r@ == match bundled {
            Some(p) => p@,
            None => match beside_exe {
                Some(p) => p@,
                None => base@,
            },
        },
{
    match bundled {
        Some(p) => p,
        None => match beside_exe {
            Some(p) => p,
            None => String::from_str(base),
        },
    }
}

/// The directory holding a tool when it is not on `PATH`: the bundled
/// directory if the tool is there, else the executable's directory if it is
/// there, else none.
pub fn tool_location(bundled_dir: Option<String>, exe_dir: Option<String>) -> (r: Option<String>)
    ensures
        r == match bundled_dir {
            Some(d) => Some(d),
            None => exe_dir,
        },
{
    match bundled_dir {
        Some(d) => Some(d),
        None => exe_dir,
    }
}

} // verus!
