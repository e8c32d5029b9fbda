//! The two log files of nginx: where they lie, how they are listed, and what
//! is shown of one that was read or could not be read.

use vstd::prelude::*;
use crate::gateway::texts;

verus! {

/// The number of log files.
pub const LOG_COUNT: usize = 2;

/// Where the two log files lie.
#[derive(Debug)]
pub struct LogLocation {
    pub access_log: String,
    pub error_log: String,
}

/// The pane that shows one log file in full: the file to read, and whether
/// white space at the start of a wrapped line is dropped.
#[derive(Debug)]
pub struct LogPane {
    pub path: String,
    pub trim: bool,
}

/// The path of the access log.
pub open spec fn access_log_path() -> Seq<char> {
    "/var/log/nginx/access.log"@
}

/// The path of the error log.
pub open spec fn error_log_path() -> Seq<char> {
    "/var/log/nginx/error.log"@
}

/// The paths of the log files, by their row in the log list.
pub open spec fn log_paths() -> Seq<Seq<char>> {
    seq![access_log_path(), error_log_path()]
}

/// What is shown in place of a log file that could not be read.
pub open spec fn read_failure_text() -> Seq<char> {
    "Failed to read log file."@
}

/// What is shown of a log file: its contents where it was read, the failure
/// text where it was not.
pub open spec fn log_text(read: Option<String>) -> Seq<char> {
    match read {
        Some(contents) => contents@,
        None => read_failure_text(),
    }
}

/// Where the two log files lie.
pub fn get_log_locations() -> (locations: LogLocation)
    ensures
        locations.access_log@ == access_log_path(),
        locations.error_log@ == error_log_path(),
{
    LogLocation {
        access_log: String::from_str("/var/log/nginx/access.log"),
        error_log: String::from_str("/var/log/nginx/error.log"),
    }
}

/// The rows of the log list: the paths of the access log and of the error log.
pub fn log_locations_component() -> (rows: Vec<String>)
    ensures
        texts(rows@) == log_paths(),
{
    let locations = get_log_locations();
    let mut rows: Vec<String> = Vec::new();
    rows.push(locations.access_log);
    rows.push(locations.error_log);
    assert(texts(rows@) =~= log_paths());
    rows
}

/// The pane that shows the access log, wrapped without trimming.
pub fn access_log() -> (pane: LogPane)
    ensures
        pane.path@ == access_log_path(),
        !pane.trim,
{
    LogPane { path: get_log_locations().access_log, trim: false }
}

/// The pane that shows the error log, wrapped without trimming.
pub fn error_log() -> (pane: LogPane)
    ensures
        pane.path@ == error_log_path(),
        !pane.trim,
{
    LogPane { path: get_log_locations().error_log, trim: false }
}

/// What is shown of a log file: its contents where it was read, the failure
/// text where it was not.
pub fn read_log(read: Option<String>) -> (shown: String)
    ensures
        shown@ == log_text(read),
{
    match read {
        Some(contents) => contents,
        None => String::from_str("Failed to read log file."),
    }
}

} // verus!
