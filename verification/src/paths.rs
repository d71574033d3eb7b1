//! Where a server keeps its files, as path components below the servers directory.
use vstd::prelude::*;

use crate::ids::{lemma_uuid_text_round_trip, is_lower_hex, spec_uuid_text, uuid_text};
use crate::logs::{is_ascii_digit, spec_log_dir_name};

verus! {

/// The kinds of log files a log directory holds.
#[derive(Debug, Clone, Copy, PartialEq, Eq, Structural)]
pub enum LogType {
    Console,
    Error,
    Script,
    Crash,
}

/// Parameters naming one log file of a server.
#[derive(Debug)]
pub struct LogFileParams {
    pub log: String,
    pub log_type: LogType,
}

/// The file name of a kind of log file.
pub open spec fn spec_log_file_name(t: LogType) -> Seq<char> {
    match t {
        LogType::Console => "console.log"@,
        LogType::Error => "error.log"@,
        LogType::Script => "script.log"@,
        LogType::Crash => "crash.log"@,
    }
}

impl LogType {
    /// The file name of this kind of log file, as it is written in requests.
    pub fn file_name(&self) -> (r: String)
        ensures
            r@ == spec_log_file_name(*self),
    {
        match self {
            LogType::Console => "console.log".to_owned(),
            LogType::Error => "error.log".to_owned(),
            LogType::Script => "script.log".to_owned(),
            LogType::Crash => "crash.log".to_owned(),
        }
    }
}

/// The characters of each path component.
pub open spec fn path_view(v: Seq<String>) -> Seq<Seq<char>> {
    v.map_values(|s: String| s@)
}

/// The directory of a server.
pub open spec fn spec_server_path(id: u128) -> Seq<Seq<char>> {
    seq![spec_uuid_text(id)]
}

/// The directory holding a server's configuration.
pub open spec fn spec_config_path(id: u128) -> Seq<Seq<char>> {
    spec_server_path(id).push("config"@)
}

/// The configuration file of a server.
pub open spec fn spec_config_json_path(id: u128) -> Seq<Seq<char>> {
    spec_config_path(id).push("config.json"@)
}

/// The directory holding a server's profiles.
pub open spec fn spec_profiles_path(id: u128) -> Seq<Seq<char>> {
    spec_server_path(id).push("profiles"@)
}

/// The profile directory of a server.
pub open spec fn spec_profile_path(id: u128) -> Seq<Seq<char>> {
    spec_profiles_path(id).push("profile"@)
}

/// The directory of a server's mods.
pub open spec fn spec_addons_path(id: u128) -> Seq<Seq<char>> {
    spec_profiles_path(id).push("addons"@)
}

/// The directory holding a server's log directories.
pub open spec fn spec_log_path(id: u128) -> Seq<Seq<char>> {
    spec_profiles_path(id).push("logs"@)
}

/// The crash report log of a server.
pub open spec fn spec_crash_log_path(id: u128) -> Seq<Seq<char>> {
    spec_log_path(id).push("CrashReports.log"@)
}

/// A log directory, or a file in it, or the directory of all log directories.
pub open spec fn spec_logs_path(id: u128, log: Option<Seq<char>>, log_type: Option<LogType>) -> Seq<
    Seq<char>,
> {
    match log {
        None => spec_log_path(id),
        Some(l) => match log_type {
            None => spec_log_path(id).push(l),
            Some(t) => spec_log_path(id).push(l).push(spec_log_file_name(t)),
        },
    }
}

fn push_component(v: &mut Vec<String>, c: String)
    ensures
        path_view(final(v)@) == path_view(old(v)@).push(c@),
{
    let ghost before = v@;
    v.push(c);
    proof {
        assert(path_view(v@) =~= path_view(before).push(c@));
    }
}

/// The directory of a server.
pub fn get_server_path(id: u128) -> (r: Vec<String>)
    ensures
        path_view(r@) == spec_server_path(id),
{
    let mut v: Vec<String> = Vec::new();
    push_component(&mut v, uuid_text(id));
    proof {
        assert(path_view(v@) =~= spec_server_path(id));
    }
    v
}

/// The directory holding a server's configuration.
pub fn get_config_path(id: u128) -> (r: Vec<String>)
    ensures
        path_view(r@) == spec_config_path(id),
{
    let mut v = get_server_path(id);
    push_component(&mut v, "config".to_owned());
    v
}

/// The configuration file of a server.
pub fn get_config_json_path(id: u128) -> (r: Vec<String>)
    ensures
        path_view(r@) == spec_config_json_path(id),
{
    let mut v = get_config_path(id);
    push_component(&mut v, "config.json".to_owned());
    v
}

/// The directory holding a server's profiles.
pub fn get_profiles_path(id: u128) -> (r: Vec<String>)
    ensures
        path_view(r@) == spec_profiles_path(id),
{
    let mut v = get_server_path(id);
    push_component(&mut v, "profiles".to_owned());
    v
}

/// The profile directory of a server.
pub fn get_profile_path(id: u128) -> (r: Vec<String>)
    ensures
        path_view(r@) == spec_profile_path(id),
{
    let mut v = get_profiles_path(id);
    push_component(&mut v, "profile".to_owned());
    v
}

/// The directory of a server's mods.
pub fn get_addons_path(id: u128) -> (r: Vec<String>)
    ensures
        path_view(r@) == spec_addons_path(id),
{
    let mut v = get_profiles_path(id);
    push_component(&mut v, "addons".to_owned());
    v
}

/// The directory holding a server's log directories.
pub fn get_log_path(id: u128) -> (r: Vec<String>)
    ensures
        path_view(r@) == spec_log_path(id),
{
    let mut v = get_profiles_path(id);
    push_component(&mut v, "logs".to_owned());
    v
}

/// The crash report log of a server.
pub fn get_crash_log_path(id: u128) -> (r: Vec<String>)
    ensures
        path_view(r@) == spec_crash_log_path(id),
{
    let mut v = get_log_path(id);
    push_component(&mut v, "CrashReports.log".to_owned());
    v
}

/// The log directories of a server; with a directory name, that directory; with a kind of
/// log file too, that file. A kind without a directory is ignored.
pub fn get_logs_path(id: u128, log: Option<String>, log_type: Option<LogType>) -> (r: Vec<String>)
    ensures
        path_view(r@) == spec_logs_path(
            id,
            match log {
                Some(l) => Some(l@),
                None => None,
            },
            log_type,
        ),
{
    let mut v = get_log_path(id);
    match log {
        Some(l) => {
            push_component(&mut v, l);
            match log_type {
                Some(t) => push_component(&mut v, t.file_name()),
                None => {},
            }
        },
        None => {},
    }
    v
}

/// A path component that stays below the directory it is joined to: not empty, without
/// `/`, and neither `.` nor `..`.
pub open spec fn safe_component(c: Seq<char>) -> bool {
    &&& c.len() > 0
    &&& forall|i: int| 0 <= i < c.len() ==> #[trigger] c[i] != '/'
    &&& c != seq!['.']
    &&& c != seq!['.', '.']
}

proof fn lemma_literal_components_safe()
    ensures
        safe_component("profiles"@),
        safe_component("logs"@),
        safe_component("console.log"@),
        safe_component("error.log"@),
        safe_component("script.log"@),
        safe_component("crash.log"@),
{
    reveal_strlit("profiles");
    reveal_strlit("logs");
    reveal_strlit("console.log");
    reveal_strlit("error.log");
    reveal_strlit("script.log");
    reveal_strlit("crash.log");
}

/// The directory of a server is a single safe component.
proof fn lemma_uuid_component_safe(id: u128)
    ensures
        safe_component(spec_uuid_text(id)),
{
    lemma_uuid_text_round_trip(id);
    let t = spec_uuid_text(id);
    assert forall|i: int| 0 <= i < t.len() implies #[trigger] t[i] != '/' by {
        if !(i == 8 || i == 13 || i == 18 || i == 23) {
            assert(is_lower_hex(t[i]));
        }
    }
}

/// A log directory name is a single safe component.
proof fn lemma_log_dir_name_safe(log: Seq<char>)
    requires
        spec_log_dir_name(log),
    ensures
        safe_component(log),
{
    assert forall|i: int| 0 <= i < log.len() implies #[trigger] log[i] != '/' by {
        if i < 5 {
            assert(log[i] == log.subrange(0, 5)[i]);
        } else if !(i == 9 || i == 12 || i == 18 || i == 21 || i == 15) {
            assert(is_ascii_digit(log[i]));
        }
    }
}

/// Every file path built for a log request whose directory name is accepted stays inside
/// the server's logs directory: each component is safe, so `..` or an absolute name can
/// never be smuggled in through the request.
pub proof fn lemma_log_file_path_safe(id: u128, log: Seq<char>, t: Option<LogType>)
    requires
        spec_log_dir_name(log),
    ensures
        forall|i: int|
            0 <= i < spec_logs_path(id, Some(log), t).len() ==> safe_component(
                #[trigger] spec_logs_path(id, Some(log), t)[i],
            ),
        spec_logs_path(id, Some(log), t).subrange(0, 3) == spec_log_path(id),
{
    lemma_literal_components_safe();
    lemma_uuid_component_safe(id);
    lemma_log_dir_name_safe(log);
    let p = spec_logs_path(id, Some(log), t);
    assert forall|i: int| 0 <= i < p.len() implies safe_component(#[trigger] p[i]) by {
        if i == 0 {
            assert(p[i] == spec_uuid_text(id));
        } else if i == 1 {
            assert(p[i] == "profiles"@);
        } else if i == 2 {
            assert(p[i] == "logs"@);
        } else if i == 3 {
            assert(p[i] == log);
        } else {
            assert(p[i] == spec_log_file_name(t->0));
        }
    }
    assert(p.subrange(0, 3) =~= spec_log_path(id));
}

/// The default base directory when `ARSA_BASE_PATH` is not set.
pub const DEFAULT_ARS_PATH: &'static str = "./ars";

/// The base directory of the application: the configured one, or `./ars`.
pub fn get_ars_path(configured: Option<String>) -> (r: String)
    ensures
        r@ == match configured {
            Some(p) => p@,
            None => DEFAULT_ARS_PATH@,
        },
{
    match configured {
        Some(p) => p,
        None => DEFAULT_ARS_PATH.to_owned(),
    }
}

/// The directory below the base directory that holds one directory per server.
pub fn servers_dir_name() -> (r: String)
    ensures
        r@ == "servers"@,
{
    "servers".to_owned()
}

} // verus!
