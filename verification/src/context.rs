//! The data the resolver works on: the environment snapshot taken once per
//! resolution, the probed candidates, and the terminal outcome.

use vstd::prelude::*;

verus! {

/// The operating-system family the process runs on.
#[derive(Clone, Copy, PartialEq, Eq, Structural, Debug)]
pub enum OsFamily {
    Windows,
    MacOs,
    Linux,
    Other,
}

/// The label under which an operating-system family is reported.
pub open spec fn spec_os_label(os: OsFamily) -> Seq<char> {
    match os {
        OsFamily::Windows => "windows"@,
        OsFamily::MacOs => "macos"@,
        OsFamily::Linux => "linux"@,
        OsFamily::Other => "unknown"@,
    }
}

impl OsFamily {
    /// The label under which this family is reported in diagnostics.
    pub fn label(&self) -> (r: &'static str)
        ensures
            r@ == spec_os_label(*self),
    {
        match self {
            OsFamily::Windows => "windows",
            OsFamily::MacOs => "macos",
            OsFamily::Linux => "linux",
            OsFamily::Other => "unknown",
        }
    }
}

/// An immutable snapshot of the environment facts a resolution reads:
/// home directory, Windows-style profile directory, working directory,
/// path of the running executable, and the operating-system family.
/// A variable that is not set in the environment is `None`.
pub struct PlatformContext {
    pub home: Option<String>,
    pub user_profile: Option<String>,
    pub cwd: String,
    pub exe_path: String,
    pub os: OsFamily,
}

/// One probed location: a candidate path together with whether a file
/// existed there when the caller checked.
pub struct Candidate {
    pub path: String,
    pub exists: bool,
}

/// The terminal result of one resolution: the first existing candidate
/// path, or the full probed candidate list for diagnostic rendering.
pub enum SearchOutcome {
    Found(String),
    NotFound(Vec<Candidate>),
}

} // verus!
