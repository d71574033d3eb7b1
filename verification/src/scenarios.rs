//! The scenario list of a server image: what its listing run prints, and when the run has
//! printed everything.
use vstd::prelude::*;

use crate::bindings::{captures_view, regex_captures2, spec_regex_captures2};
use crate::text::{parse_u32, spec_parse_u32};
use crate::workshop::pairs_view;

verus! {

/// The line of a listing run that announces how many scenarios follow.
pub const SCENARIO_COUNT_PATTERN: &'static str = "Missions found: (?P<MissionCount>[0-9]+)";

/// The line of a listing run that names one scenario: its resource path, then its name in
/// parentheses.
pub const SCENARIO_ENTRY_PATTERN: &'static str =
    "(?P<Path>\\{[0-9A-F]{16}\\}[^ ]+\\.conf) \\((?P<Name>[^)]*)\\)";

/// The number of scenarios a line announces, if it announces one that fits in 32 bits.
pub open spec fn spec_scenario_count(line: Seq<char>) -> Option<u32> {
    match spec_regex_captures2(
        SCENARIO_COUNT_PATTERN@,
        line,
        "MissionCount"@,
        "MissionCount"@,
    ) {
        Some((Some(d), _)) => spec_parse_u32(d),
        _ => None,
    }
}

/// The path and name of the scenario a line names, if it names one.
pub open spec fn spec_scenario_entry(line: Seq<char>) -> Option<(Seq<char>, Seq<char>)> {
    match spec_regex_captures2(SCENARIO_ENTRY_PATTERN@, line, "Path"@, "Name"@) {
        Some((Some(p), Some(n))) => Some((p, n)),
        _ => None,
    }
}

/// Reads one printed line of a listing run. Until a count is known (`expected` is 0), a
/// line that announces one sets it; a line that names a scenario adds its path and name to
/// `found`. Returns the count now expected.
pub fn scan_scenario_line(expected: u32, found: &mut Vec<(String, String)>, line: &str) -> (r:
    u32)
    ensures
        r == (if expected == 0 {
            match spec_scenario_count(line@) {
                Some(c) => c,
                None => 0,
            }
        } else {
            expected
        }),
        pairs_view(final(found)@) == match spec_scenario_entry(line@) {
            Some(e) => pairs_view(old(found)@).push(e),
            None => pairs_view(old(found)@),
        },
{
    let mut count = expected;
    if expected == 0 {
        let caps = regex_captures2(SCENARIO_COUNT_PATTERN, line, "MissionCount", "MissionCount");
        match caps {
            Some((Some(d), _)) => match parse_u32(d.as_str()) {
                Some(c) => {
                    count = c;
                },
                None => {},
            },
            _ => {},
        }
    }
    let caps = regex_captures2(SCENARIO_ENTRY_PATTERN, line, "Path", "Name");
    match caps {
        Some((Some(p), Some(n))) => {
            let ghost before = found@;
            found.push((p, n));
            proof {
                assert(pairs_view(found@) =~= pairs_view(before).push((p@, n@)));
            }
        },
        _ => {},
    }
    count
}

/// Whether a listing run has printed every scenario it announced: a count is known and
/// as many scenarios were found (the number found taken modulo 2^32).
pub fn scenario_scan_done(expected: u32, found: usize) -> (r: bool)
    ensures
        r == (expected > 0 && expected == found as u32),
{
    #[verifier::truncate]
    let n = found as u32;
    expected > 0 && expected == n
}

} // verus!
