//! The log file: where it is, and what is said where there can be none.
//!
//! What goes wrong while the screen is drawn is logged to a file, since anything else written to
//! the terminal would show up in the picture. The file is `yttui/yttui.log` in the directory for
//! caches. Where it cannot be had the program says so before the picture is there, and goes on
//! without one.

use crate::config;
use crate::config::join_path;
use crate::text;
use vstd::prelude::*;
use vstd::string::*;

verus! {

/// What is to be done next.
#[derive(Debug, PartialEq, Eq)]
pub enum LogSetup {
    /// Create a directory, with those above it.
    CreateDirectory(Vec<u8>),
    /// Open a file to write at its end; create it where it is not there.
    OpenFile(Vec<u8>),
    /// Log to the file that was opened.
    Ready,
    /// Say this, and go on without a log.
    Disabled(String),
}

/// The directory of the log.
pub open spec fn directory_in(cache: Seq<u8>) -> Seq<u8> {
    config::path_in(cache, "yttui"@)
}

/// The log in its directory.
pub open spec fn file_in(directory: Seq<u8>) -> Seq<u8> {
    config::path_in(directory, "yttui.log"@)
}

/// What is said where something on the way to a log failed.
pub open spec fn failure(what: Seq<char>, path: Seq<u8>, error: Seq<char>) -> Seq<char> {
    "yttui: warning: "@ + what + " "@ + text::lossy(path) + ": "@ + error + "; logs disabled"@
}

fn make_failure(what: &str, path: &[u8], error: &str) -> (r: String)
    ensures
        r@ == failure(what@, path@, error@),
{
    let mut out = "yttui: warning: ".to_owned();
    out.append(what);
    out.append(" ");
    out.append(text::read_lossy(path).as_str());
    out.append(": ");
    out.append(error);
    out.append("; logs disabled");
    out
}

impl LogSetup {
    /// What is done first, given the directory for caches, if there is one.
    pub fn begin(cache: Option<Vec<u8>>) -> (r: Self)
        ensures
            cache matches Some(cache) ==> (r matches LogSetup::CreateDirectory(path) && path@
                == directory_in(cache@)),
            cache is None ==> (r matches LogSetup::Disabled(text) && text@
                == "yttui: warning: no cache directory available; logs disabled"@),
    {
        match cache {
            Some(cache) => LogSetup::CreateDirectory(join_path(cache.as_slice(), "yttui")),
            None => LogSetup::Disabled(
                "yttui: warning: no cache directory available; logs disabled".to_owned(),
            ),
        }
    }

    /// What is done after the step that was asked for was done, or failed with `error`. A setup
    /// that is over stays as it is.
    pub fn next(self, error: Option<String>) -> (r: Self)
        ensures
            self matches LogSetup::CreateDirectory(path) ==> match error {
                None => r matches LogSetup::OpenFile(file) && file@ == file_in(path@),
                Some(error) => r matches LogSetup::Disabled(text) && text@ == failure(
                    "cannot create log dir"@,
                    path@,
                    error@,
                ),
            },
            self matches LogSetup::OpenFile(path) ==> match error {
                None => r is Ready,
                Some(error) => r matches LogSetup::Disabled(text) && text@ == failure(
                    "cannot open log file"@,
                    path@,
                    error@,
                ),
            },
            self is Ready || self is Disabled ==> r == self,
    {
        match self {
            LogSetup::CreateDirectory(path) => match error {
                None => LogSetup::OpenFile(join_path(path.as_slice(), "yttui.log")),
                Some(error) => LogSetup::Disabled(
                    make_failure("cannot create log dir", path.as_slice(), error.as_str()),
                ),
            },
            LogSetup::OpenFile(path) => match error {
                None => LogSetup::Ready,
                Some(error) => LogSetup::Disabled(
                    make_failure("cannot open log file", path.as_slice(), error.as_str()),
                ),
            },
            LogSetup::Ready => LogSetup::Ready,
            LogSetup::Disabled(text) => LogSetup::Disabled(text),
        }
    }
}

/// The log stands in `yttui` in the directory for caches, and what goes wrong on the way to it is
/// said with the path and the cause, whatever they are.
pub proof fn law_where_the_log_is(cache: Seq<u8>, what: Seq<char>, path: Seq<u8>, error: Seq<char>)
    ensures
        file_in(directory_in(cache)) == config::path_in(
            config::path_in(cache, "yttui"@),
            "yttui.log"@,
        ),
        directory_in(cache) == config::path_in(cache, "yttui"@),
        failure(what, path, error) == "yttui: warning: "@ + what + " "@ + text::lossy(path) + ": "@
            + error + "; logs disabled"@,
{
}

} // verus!
