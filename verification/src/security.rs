//! Scanning finished downloads for threats.
use vstd::prelude::*;

use crate::text::{concat, push_string, strings_view};

verus! {

broadcast use vstd::string::group_string_axioms;

/// Scans downloaded files.
pub struct SecurityScanner;

impl SecurityScanner {
    /// The scan on systems without a supported scanner: every file is
    /// reported safe (`Ok(true)`).
    pub fn scan_file(file_path: &str) -> (r: Result<bool, String>)
        ensures
            r == Ok::<bool, String>(true),
    {
        Ok(true)
    }

    /// Where Windows Defender's command-line scanner lives.
    pub fn defender_program() -> (r: String)
        ensures
            r@ == "C:\\Program Files\\Windows Defender\\MpCmdRun.exe"@,
    {
        String::from_str("C:\\Program Files\\Windows Defender\\MpCmdRun.exe")
    }

    /// The arguments of a Windows Defender scan of one file.
    pub fn defender_args(file_path: &str) -> (r: Vec<String>)
        ensures
            strings_view(r@) == seq!["-Scan"@, "-ScanType"@, "3"@, "-File"@, file_path@],
    {
        let mut args: Vec<String> = Vec::new();
        push_string(&mut args, "-Scan");
        push_string(&mut args, "-ScanType");
        push_string(&mut args, "3");
        push_string(&mut args, "-File");
        push_string(&mut args, file_path);
        assert(strings_view(args@) =~= seq!["-Scan"@, "-ScanType"@, "3"@, "-File"@, file_path@]);
        args
    }

    /// The verdict of a scan from the scanner's exit: it exits successfully
    /// when no threat was found; a file is safe exactly then.
    pub fn defender_verdict(exit_success: bool) -> (safe: Result<bool, String>)
        ensures
            safe == Ok::<bool, String>(exit_success),
    {
        Ok(exit_success)
    }

    /// The error when the scanner could not be run; `error` is the system's
    /// description.
    pub fn defender_failure(error: &str) -> (r: Result<bool, String>)
        ensures
            r matches Err(e) && e@ == "Failed to invoke Windows Defender: "@ + error@,
    {
        Err(concat("Failed to invoke Windows Defender: ", error))
    }
}

} // verus!
