//! The calls into outside crates, each with the contract that the library relies on.
//!
//! Nothing here is proved: every function is a thin wrapper whose contract restates
//! what the called crate documents.
use vstd::prelude::*;

use crate::ids::{hyphenated_uuid_value, is_hyphenated_uuid_text, is_v4_uuid, spec_uuid_text};
use crate::logs::{spec_log_dir_name, LOG_DIR_PATTERN};
use crate::players::{spec_player_captures, PLAYER_PATTERN};
use crate::text::opt_text;

verus! {

/// What `regex::Regex::new(pattern)` followed by `is_match(text)` gives:
/// `None` when the pattern does not compile.
pub uninterp spec fn spec_regex_is_match(pattern: Seq<char>, text: Seq<char>) -> Option<bool>;

/// What `regex::Regex::new(pattern)` followed by `captures(text)` and the lookups of the
/// two named groups gives: `None` when the pattern does not compile or nothing matches.
pub uninterp spec fn spec_regex_captures2(
    pattern: Seq<char>,
    text: Seq<char>,
    first: Seq<char>,
    second: Seq<char>,
) -> Option<(Option<Seq<char>>, Option<Seq<char>>)>;

/// What `uuid::Uuid::parse_str(text)` gives, the UUID taken as its `u128` value.
pub uninterp spec fn spec_uuid_parse(text: Seq<char>) -> Option<u128>;

/// What `StatusCode::from_u16(code)` rendered with `Display` gives.
pub uninterp spec fn spec_status_line(code: u16) -> Option<Seq<char>>;

/// The characters of the two captured groups, as plain values.
pub open spec fn captures_view(r: Option<(Option<String>, Option<String>)>) -> Option<
    (Option<Seq<char>>, Option<Seq<char>>),
> {
    match r {
        Some((a, b)) => Some(
            (
                match a {
                    Some(x) => Some(x@),
                    None => None,
                },
                match b {
                    Some(x) => Some(x@),
                    None => None,
                },
            ),
        ),
        None => None,
    }
}

/// Compiles `pattern` with `regex::Regex::new` and runs `Regex::is_match` on `text`.
///
/// Trusted: the result is the named `spec_regex_is_match`, and for the log directory
/// pattern it is what the regex syntax documentation of that pattern says: an anchored
/// `logs_YYYY-MM-DD_hh-mm-ss` of ASCII digits.
#[verifier::external_body]
pub(crate) fn regex_is_match(pattern: &str, text: &str) -> (r: Option<bool>)
    ensures
        r == spec_regex_is_match(pattern@, text@),
        pattern@ == LOG_DIR_PATTERN@ ==> r == Some(spec_log_dir_name(text@)),
{
    match regex::Regex::new(pattern) {
        Ok(re) => Some(re.is_match(text)),
        Err(_) => None,
    }
}

/// Compiles `pattern` with `regex::Regex::new`, runs `Regex::captures` on `text` and reads
/// the groups named `first` and `second` with `Captures::name`.
///
/// Trusted: the result is the named `spec_regex_captures2`, and for the player pattern with
/// its groups `uuid` and `name` it is the leftmost match that the regex documentation
/// describes: `identityId=`, a lowercase hyphenated UUID, ` name=`, then everything up to
/// the next line feed (`.` does not match `\n`).
#[verifier::external_body]
pub(crate) fn regex_captures2(pattern: &str, text: &str, first: &str, second: &str) -> (r: Option<
    (Option<String>, Option<String>),
>)
    ensures
        captures_view(r) == spec_regex_captures2(pattern@, text@, first@, second@),
        pattern@ == PLAYER_PATTERN@ && first@ == seq!['u', 'u', 'i', 'd'] && second@ == seq![
            'n',
            'a',
            'm',
            'e',
        ] ==> captures_view(r) == spec_player_captures(text@),
{
    let re = match regex::Regex::new(pattern) { Ok(re) => re, Err(_) => return None };
    let caps = match re.captures(text) { Some(c) => c, None => return None };
    let a = match caps.name(first) { Some(m) => Some(m.as_str().to_string()), None => None };
    let b = match caps.name(second) { Some(m) => Some(m.as_str().to_string()), None => None };
    Some((a, b))
}

/// Parses `text` with `uuid::Uuid::parse_str` and returns the UUID as `Uuid::as_u128`.
///
/// Trusted: the result is the named `spec_uuid_parse`; a lowercase hyphenated UUID text
/// always parses, to the number its 32 hexadecimal digits write (as the crate documents
/// for `as_u128`).
#[verifier::external_body]
pub(crate) fn uuid_parse(text: &str) -> (r: Option<u128>)
    ensures
        r == spec_uuid_parse(text@),
        is_hyphenated_uuid_text(text@) ==> r == Some(hyphenated_uuid_value(text@) as u128),
{
    match uuid::Uuid::parse_str(text) {
        Ok(u) => Some(u.as_u128()),
        Err(_) => None,
    }
}

/// Renders `uuid::Uuid::from_u128(u)` with `to_string`.
///
/// Trusted: the text is the hyphenated lowercase form that `Uuid`'s `Display` produces,
/// the 32 hexadecimal digits of `u` split 8-4-4-4-12.
#[verifier::external_body]
pub(crate) fn uuid_hyphenated(u: u128) -> (r: String)
    ensures
        r@ == spec_uuid_text(u),
{
    uuid::Uuid::from_u128(u).to_string()
}

/// A fresh random identifier from `uuid::Uuid::new_v4`, as its `u128` value.
///
/// Trusted: the crate masks a random value so that the version nibble is 4 and the
/// variant bits are `10`; the remaining bits are random and nothing is promised of them.
#[verifier::external_body]
pub(crate) fn uuid_new_v4() -> (r: u128)
    ensures
        is_v4_uuid(r),
{
    uuid::Uuid::new_v4().as_u128()
}

/// The current time from `chrono::Utc::now`, as `DateTime::timestamp` (seconds since the
/// Unix epoch).
///
/// Nothing is promised of the value: it is the clock.
#[verifier::external_body]
pub(crate) fn unix_timestamp_now() -> (r: i64) {
    chrono::Utc::now().timestamp()
}

/// `axum::http::StatusCode::from_u16(code)` rendered with `to_string`, `None` when the code
/// is refused.
///
/// Trusted: codes from 100 to 999 are accepted, and the text is the code, a space and the
/// canonical reason, as `StatusCode`'s `Display` writes it (the three codes the library
/// answers with are spelled out).
#[verifier::external_body]
pub(crate) fn status_line(code: u16) -> (r: Option<String>)
    ensures
        opt_text(r) == spec_status_line(code),
        (100 <= code <= 999) == r is Some,
        code == 400 ==> opt_text(r) == Some("400 Bad Request"@),
        code == 401 ==> opt_text(r) == Some("401 Unauthorized"@),
        code == 404 ==> opt_text(r) == Some("404 Not Found"@),
        code == 500 ==> opt_text(r) == Some("500 Internal Server Error"@),
{
    match axum::http::StatusCode::from_u16(code) {
        Ok(status) => Some(status.to_string()),
        Err(_) => None,
    }
}

} // verus!
