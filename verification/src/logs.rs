//! Server log directories: which names are accepted, what a listing reports, which
//! directory holds the newest console log, and the checks before a log is read or removed.
use vstd::prelude::*;

use crate::bindings::regex_is_match;
use crate::error::ArsaError;
use crate::paths::{
    get_crash_log_path, get_logs_path, path_view, spec_crash_log_path, spec_logs_path, LogType,
};

verus! {

/// The pattern that a log directory name must match.
pub const LOG_DIR_PATTERN: &'static str =
    "^logs_([0-9]{4})-([0-9]{2})-([0-9]{2})_([0-9]{2})-([0-9]{2})-([0-9]{2})$";

/// Whether `c` is one of the ASCII digits `0-9`.
pub open spec fn is_ascii_digit(c: char) -> bool {
    '0' <= c && c <= '9'
}

/// A log directory name: exactly `logs_YYYY-MM-DD_hh-mm-ss` with ASCII digits.
pub open spec fn spec_log_dir_name(s: Seq<char>) -> bool {
    &&& s.len() == 24
    &&& s.subrange(0, 5) == seq!['l', 'o', 'g', 's', '_']
    &&& forall|i: int|
        5 <= i < 24 ==> if i == 9 || i == 12 || i == 18 || i == 21 {
            s[i] == '-'
        } else if i == 15 {
            s[i] == '_'
        } else {
            is_ascii_digit(#[trigger] s[i])
        }
}

/// Whether `name` is the name of a log directory written by the game server.
pub fn is_valid_log_dir_name(name: &str) -> (r: bool)
    ensures
        r == spec_log_dir_name(name@),
{
    match regex_is_match(LOG_DIR_PATTERN, name) {
        Some(b) => b,
        None => false,
    }
}

/// What a log directory holds.
#[derive(Debug)]
pub struct Log {
    pub dir: String,
    pub contains_console_log: bool,
    pub contains_script_log: bool,
    pub contains_error_log: bool,
    pub contains_crash_log: bool,
}

/// The log directories of a server.
#[derive(Debug)]
pub struct ResultLogs {
    pub success: bool,
    pub contains_crash_report_log: bool,
    pub logs: Vec<Log>,
}

impl ResultLogs {
    /// The answer to a listing of a server's log directories: `None` when the server has no
    /// logs directory yet, else the directories found and whether a crash report log exists.
    pub fn from_listing(listing: Option<(Vec<Log>, bool)>) -> (r: ResultLogs)
        ensures
            match listing {
                None => !r.success && !r.contains_crash_report_log && r.logs@.len() == 0,
                Some((logs, crash)) => r.success && r.contains_crash_report_log == crash
                    && r.logs@ == logs@,
            },
    {
        match listing {
            None => ResultLogs { success: false, contains_crash_report_log: false, logs: Vec::new() },
            Some((logs, crash)) => ResultLogs { success: true, contains_crash_report_log: crash, logs },
        }
    }
}

/// An entry of a server's logs directory, as far as the search for the newest console
/// log reads it.
#[derive(Debug)]
pub struct LogDirCandidate {
    pub name: String,
    pub is_dir: bool,
    /// Modification time in nanoseconds after the Unix epoch; `None` when it could not be
    /// read or lies before the epoch.
    pub modified_nanos: Option<u128>,
    pub has_console_log: bool,
}

/// One step of the search for the newest log directory: the chosen index so far and the
/// newest modification time seen so far.
pub open spec fn latest_step(acc: (Option<int>, nat), c: LogDirCandidate, i: int) -> (
    Option<int>,
    nat,
) {
    if c.is_dir && spec_log_dir_name(c.name@) && c.modified_nanos is Some
        && c.modified_nanos->0 > acc.1 {
        (if c.has_console_log { Some(i) } else { acc.0 }, c.modified_nanos->0 as nat)
    } else {
        acc
    }
}

/// The search for the newest log directory over the entries in the order they were read:
/// a directory counts when it is newer than every counted one before it, and becomes the
/// answer when it holds a console log.
pub open spec fn spec_latest_log_dir(cands: Seq<LogDirCandidate>) -> (Option<int>, nat)
    decreases cands.len(),
{
    if cands.len() == 0 {
        (None, 0)
    } else {
        latest_step(
            spec_latest_log_dir(cands.drop_last()),
            cands.last(),
            cands.len() - 1,
        )
    }
}

/// Whether a log directory is one that holds a console log and has an accepted name.
pub open spec fn is_console_log_dir(c: LogDirCandidate) -> bool {
    c.is_dir && spec_log_dir_name(c.name@) && c.has_console_log
}

/// The directory chosen by the search is always a log directory holding a console log.
pub proof fn lemma_latest_log_dir_is_console_dir(cands: Seq<LogDirCandidate>)
    ensures
        spec_latest_log_dir(cands).0 matches Some(i) ==> 0 <= i < cands.len()
            && is_console_log_dir(cands[i]),
    decreases cands.len(),
{
    if cands.len() > 0 {
        lemma_latest_log_dir_is_console_dir(cands.drop_last());
        let prev = spec_latest_log_dir(cands.drop_last());
        if let Some(i) = prev.0 {
            assert(cands.drop_last()[i] == cands[i]);
        }
    }
}

/// Whether an entry takes part in the search: a directory with an accepted name and a
/// known modification time.
pub open spec fn counts_as_log_dir(c: LogDirCandidate) -> bool {
    c.is_dir && spec_log_dir_name(c.name@) && c.modified_nanos is Some
}

/// Whether entry `k` is strictly newer than every other entry that takes part, and holds
/// a console log.
pub open spec fn is_newest_console_dir(cands: Seq<LogDirCandidate>, k: int) -> bool {
    &&& 0 <= k < cands.len()
    &&& counts_as_log_dir(cands[k])
    &&& cands[k].has_console_log
    &&& forall|j: int|
        0 <= j < cands.len() && j != k && counts_as_log_dir(#[trigger] cands[j])
            ==> cands[j].modified_nanos->0 < cands[k].modified_nanos->0
}

proof fn lemma_latest_before_newest(cands: Seq<LogDirCandidate>, k: int, n: int)
    requires
        is_newest_console_dir(cands, k),
        cands[k].modified_nanos->0 > 0,
        0 <= n <= k,
    ensures
        spec_latest_log_dir(cands.subrange(0, n)).1 < cands[k].modified_nanos->0,
    decreases n,
{
    if n > 0 {
        lemma_latest_before_newest(cands, k, n - 1);
        assert(cands.subrange(0, n).drop_last() =~= cands.subrange(0, n - 1));
        assert(cands.subrange(0, n).last() == cands[n - 1]);
        if counts_as_log_dir(cands[n - 1]) {
            assert(cands[n - 1].modified_nanos->0 < cands[k].modified_nanos->0);
        }
    }
}

proof fn lemma_latest_after_newest(cands: Seq<LogDirCandidate>, k: int, n: int)
    requires
        is_newest_console_dir(cands, k),
        cands[k].modified_nanos->0 > 0,
        k < n <= cands.len(),
    ensures
        spec_latest_log_dir(cands.subrange(0, n)) == (Some(k), cands[k].modified_nanos->0 as nat),
    decreases n,
{
    assert(cands.subrange(0, n).drop_last() =~= cands.subrange(0, n - 1));
    assert(cands.subrange(0, n).last() == cands[n - 1]);
    if n == k + 1 {
        lemma_latest_before_newest(cands, k, k);
    } else {
        lemma_latest_after_newest(cands, k, n - 1);
        if counts_as_log_dir(cands[n - 1]) {
            assert(cands[n - 1].modified_nanos->0 < cands[k].modified_nanos->0);
        }
    }
}

/// The newest directory wins wherever it stands in the listing: when one entry holding a
/// console log is strictly newer (and after the epoch) than every other directory that
/// takes part, the search chooses it.
pub proof fn lemma_newest_console_dir_chosen(cands: Seq<LogDirCandidate>, k: int)
    requires
        is_newest_console_dir(cands, k),
        cands[k].modified_nanos->0 > 0,
    ensures
        spec_latest_log_dir(cands).0 == Some(k),
{
    lemma_latest_after_newest(cands, k, cands.len() as int);
    assert(cands.subrange(0, cands.len() as int) =~= cands);
}

/// The index of the log directory whose console log is the newest one to follow.
pub fn find_latest_log_dir(cands: &Vec<LogDirCandidate>) -> (r: Option<usize>)
    ensures
        match r {
            Some(i) => spec_latest_log_dir(cands@).0 == Some(i as int),
            None => spec_latest_log_dir(cands@).0 is None,
        },
        r matches Some(i) ==> i < cands@.len() && is_console_log_dir(cands@[i as int]),
{
    let mut chosen: Option<usize> = None;
    let mut latest: u128 = 0;
    let mut k: usize = 0;
    while k < cands.len()
        invariant
            k <= cands@.len(),
            spec_latest_log_dir(cands@.subrange(0, k as int)) == (
                match chosen {
                    Some(i) => Some(i as int),
                    None => None::<int>,
                },
                latest as nat,
            ),
        decreases cands@.len() - k,
    {
        let c = &cands[k];
        proof {
            assert(cands@.subrange(0, k + 1).drop_last() =~= cands@.subrange(0, k as int));
        }
        if c.is_dir && is_valid_log_dir_name(c.name.as_str()) {
            match c.modified_nanos {
                Some(m) => {
                    if m > latest {
                        latest = m;
                        if c.has_console_log {
                            chosen = Some(k);
                        }
                    }
                },
                None => {},
            }
        }
        k = k + 1;
    }
    proof {
        assert(cands@.subrange(0, cands@.len() as int) =~= cands@);
        lemma_latest_log_dir_is_console_dir(cands@);
    }
    chosen
}

/// The file of a log directory that a request asks for: the server must exist and the
/// directory name must be a log directory name.
pub fn log_file_path(server_found: bool, id: u128, log: String, log_type: LogType) -> (r: Result<
    Vec<String>,
    ArsaError,
>)
    ensures
        !server_found ==> r matches Err(ArsaError::NotFound),
        server_found && !spec_log_dir_name(log@) ==> r matches Err(ArsaError::BadRequest),
        server_found && spec_log_dir_name(log@) ==> (r matches Ok(p) && path_view(p@)
            == spec_logs_path(id, Some(log@), Some(log_type))),
{
    if !server_found {
        return Err(ArsaError::NotFound);
    }
    if !is_valid_log_dir_name(log.as_str()) {
        return Err(ArsaError::BadRequest);
    }
    Ok(get_logs_path(id, Some(log), Some(log_type)))
}

/// The log directory that a delete request asks for: the server must exist and the
/// directory name must be a log directory name.
pub fn log_dir_to_delete(server_found: bool, id: u128, log: String) -> (r: Result<
    Vec<String>,
    ArsaError,
>)
    ensures
        !server_found ==> r matches Err(ArsaError::NotFound),
        server_found && !spec_log_dir_name(log@) ==> r matches Err(ArsaError::BadRequest),
        server_found && spec_log_dir_name(log@) ==> (r matches Ok(p) && path_view(p@)
            == spec_logs_path(id, Some(log@), None)),
{
    if !server_found {
        return Err(ArsaError::NotFound);
    }
    if !is_valid_log_dir_name(log.as_str()) {
        return Err(ArsaError::BadRequest);
    }
    Ok(get_logs_path(id, Some(log), None))
}

/// A log directory can be removed only when it exists and is a directory.
pub fn confirm_log_dir(dir_exists: bool, is_dir: bool) -> (r: Result<(), ArsaError>)
    ensures
        dir_exists && is_dir ==> r is Ok,
        !(dir_exists && is_dir) ==> r matches Err(ArsaError::NotFound),
{
    if !dir_exists || !is_dir {
        Err(ArsaError::NotFound)
    } else {
        Ok(())
    }
}

/// The crash report log that a request asks for: the server must exist.
pub fn crash_log_file(server_found: bool, id: u128) -> (r: Result<Vec<String>, ArsaError>)
    ensures
        !server_found ==> r matches Err(ArsaError::NotFound),
        server_found ==> (r matches Ok(p) && path_view(p@) == spec_crash_log_path(id)),
{
    if !server_found {
        return Err(ArsaError::NotFound);
    }
    Ok(get_crash_log_path(id))
}

/// A log file (a server's log or its crash report log) can be read only when it exists.
pub fn confirm_log_file(file_exists: bool) -> (r: Result<(), ArsaError>)
    ensures
        file_exists ==> r is Ok,
        !file_exists ==> r matches Err(ArsaError::NotFound),
{
    if file_exists {
        Ok(())
    } else {
        Err(ArsaError::NotFound)
    }
}

} // verus!
