//! Helpers shared by the services: the wall clock, symbol validation, dates,
//! and what may be shown of a text in a log.

use crate::utils::json::{json_member, json_member_of};
use crate::utils::text::{index_from, prefix_before};
use chrono::TimeZone;
use vstd::prelude::*;
use vstd::string::StrSliceExecFns;

verus! {

/// The wall clock: the milliseconds from the Unix epoch to now, or, on a
/// clock that stands before the epoch, the milliseconds from now to the
/// epoch as the error.
///
/// Trusted: the body reads `std::time::SystemTime::now`, takes its distance to
/// `UNIX_EPOCH` with `SystemTime::duration_since` and converts with
/// `Duration::as_millis`. Nothing is promised of the value: two calls may
/// return anything, in any order.
#[verifier::external_body]
fn system_clock() -> Result<u128, u128> {
    match std::time::SystemTime::now().duration_since(std::time::UNIX_EPOCH) {
        Ok(since) => Ok(since.as_millis()),
        Err(before) => Err(before.duration().as_millis()),
    }
}

/// A reading of the wall clock as a timestamp: milliseconds since the Unix
/// epoch, negative before it, and at the ends of the 64-bit range for what
/// lies beyond them.
pub open spec fn timestamp_of(reading: Result<u128, u128>) -> i64 {
    match reading {
        Ok(since) => if since <= i64::MAX {
            since as i64
        } else {
            i64::MAX
        },
        Err(before) => if before <= i64::MAX {
            (-(before as int)) as i64
        } else {
            i64::MIN
        },
    }
}

/// The timestamp that a reading of the wall clock stands for.
pub fn timestamp_from(reading: Result<u128, u128>) -> (r: i64)
    ensures
        r == timestamp_of(reading),
{
    match reading {
        Ok(since) => {
            if since <= i64::MAX as u128 {
                since as i64
            } else {
                i64::MAX
            }
        },
        Err(before) => {
            if before <= i64::MAX as u128 {
                -(before as i64)
            } else {
                i64::MIN
            }
        },
    }
}

/// The wall clock in milliseconds since the Unix epoch, negative before it.
pub fn current_timestamp_ms() -> (r: i64)
    ensures
        exists|reading: Result<u128, u128>| r == timestamp_of(reading),
{
    let reading = system_clock();
    let r = timestamp_from(reading);
    assert(r == timestamp_of(reading));
    r
}

/// A clock reading as unsigned milliseconds: readings before the epoch count
/// as the epoch itself.
pub open spec fn clamp_millis(t: i64) -> u64 {
    if t < 0 {
        0
    } else {
        t as u64
    }
}

/// Turns a clock reading into unsigned milliseconds.
pub fn millis_of(t: i64) -> (r: u64)
    ensures
        r == clamp_millis(t),
{
    if t < 0 {
        0
    } else {
        t as u64
    }
}

/// Turns a clock reading into whole seconds since the epoch.
pub fn seconds_of(t: i64) -> (r: u64)
    ensures
        r == clamp_millis(t) / 1000,
{
    millis_of(t) / 1000
}

/// The pattern under which a timestamp is written: year, month and day, then
/// hour, minute and second, then the name of the zone.
pub open spec fn timestamp_pattern() -> Seq<char> {
    "%Y-%m-%d %H:%M:%S UTC"@
}

/// The instant `timestamp_ms` milliseconds after the Unix epoch as a date and
/// a time of day in UTC, written under `pattern`; `None` for an instant that
/// the calendar in use does not reach.
pub uninterp spec fn utc_text_of(timestamp_ms: i64, pattern: Seq<char>) -> Option<Seq<char>>;

/// A timestamp in milliseconds as a date and a time of day in UTC, written
/// under [`timestamp_pattern`].
///
/// Trusted: the instant is made with `chrono::Utc.timestamp_millis_opt`, which
/// has no result for a number of milliseconds out of its range, and written
/// with `DateTime::format` under `pattern`. Writing fails on a pattern that
/// chrono does not know; the one pattern that is admitted is known to it. The
/// contract only says that the answer is fixed by the timestamp and the
/// pattern.
#[verifier::external_body]
fn utc_text(timestamp_ms: i64, pattern: &str) -> (r: Option<String>)
    requires
        pattern@ == timestamp_pattern(),
    ensures
        match r {
            Some(text) => utc_text_of(timestamp_ms, pattern@) == Some(text@),
            None => utc_text_of(timestamp_ms, pattern@) is None,
        },
{
    match chrono::Utc.timestamp_millis_opt(timestamp_ms) {
        chrono::LocalResult::Single(instant) => Some(instant.format(pattern).to_string()),
        _ => None,
    }
}

/// The timestamp `timestamp_ms` as a date and a time of day in UTC, in the
/// form `2024-01-15 10:30:00 UTC`; `None` for a timestamp that the calendar
/// does not reach.
pub fn format_timestamp(timestamp_ms: i64) -> (r: Option<String>)
    ensures
        match r {
            Some(text) => utc_text_of(timestamp_ms, timestamp_pattern()) == Some(text@),
            None => utc_text_of(timestamp_ms, timestamp_pattern()) is None,
        },
{
    utc_text(timestamp_ms, "%Y-%m-%d %H:%M:%S UTC")
}

/// `text` with every match of the regular expression `pattern` replaced by
/// `replacement`, matches taken from left to right without overlap; `None`
/// where `pattern` is no regular expression.
pub uninterp spec fn regex_replaced(
    pattern: Seq<char>,
    text: Seq<char>,
    replacement: Seq<char>,
) -> Option<Seq<char>>;

/// Replaces every match of `pattern` in `text`.
///
/// Trusted: the pattern is compiled with `regex::Regex::new`, which fails on
/// what is no regular expression, and applied with `Regex::replace_all`. The
/// contract only says that the answer is fixed by the three texts.
#[verifier::external_body]
fn regex_replace_all(pattern: &str, text: &str, replacement: &str) -> (r: Option<String>)
    ensures
        match r {
            Some(out) => regex_replaced(pattern@, text@, replacement@) == Some(out@),
            None => regex_replaced(pattern@, text@, replacement@) is None,
        },
{
    match regex::Regex::new(pattern) {
        Ok(compiled) => Some(compiled.replace_all(text, replacement).into_owned()),
        Err(_) => None,
    }
}

/// What stands for an account number in a log: a word of 5 to 15 letters and
/// digits.
pub open spec fn account_pattern() -> Seq<char> {
    "\\b[A-Za-z0-9]{5,15}\\b"@
}

/// What stands for a key or a token in a log: a word of 20 or more letters,
/// digits, underscores and hyphens.
pub open spec fn token_pattern() -> Seq<char> {
    "\\b[A-Za-z0-9_-]{20,}\\b"@
}

/// One replacement: `text` where the pattern is no regular expression.
pub open spec fn replaced_or_same(pattern: Seq<char>, text: Seq<char>, replacement: Seq<char>) -> Seq<char> {
    match regex_replaced(pattern, text, replacement) {
        Some(out) => out,
        None => text,
    }
}

/// `input` as it may be logged: first what looks like an account number gives
/// way to `[ACCOUNT]`, then what looks like a token to `[TOKEN]`.
pub open spec fn sanitized(input: Seq<char>) -> Seq<char> {
    replaced_or_same(
        token_pattern(),
        replaced_or_same(account_pattern(), input, "[ACCOUNT]"@),
        "[TOKEN]"@,
    )
}

/// The result of the second replacement, given that of the first.
pub fn sanitize_tokens(masked: String) -> (r: String)
    ensures
        r@ == replaced_or_same(token_pattern(), masked@, "[TOKEN]"@),
{
    match regex_replace_all("\\b[A-Za-z0-9_-]{20,}\\b", masked.as_str(), "[TOKEN]") {
        Some(out) => out,
        None => masked,
    }
}

/// `input` as it may be logged.
pub fn sanitize_for_logging(input: &str) -> (r: String)
    ensures
        r@ == sanitized(input@),
{
    let masked = match regex_replace_all("\\b[A-Za-z0-9]{5,15}\\b", input, "[ACCOUNT]") {
        Some(out) => out,
        None => input.to_owned(),
    };
    sanitize_tokens(masked)
}

/// The value that `path` leads to in the JSON object in `text`, as JSON text.
/// A path is a chain of member names with dots between them: the part before
/// the first dot names a member of the object, the rest leads on from there.
pub open spec fn field_at(text: Seq<char>, path: Seq<char>) -> Option<Seq<char>>
    decreases path.len(),
{
    let dot = index_from(path, '.', 0);
    match json_member_of(text, path.take(dot)) {
        None => None,
        Some(member) => if 0 <= dot < path.len() {
            field_at(member, path.skip(dot + 1))
        } else {
            Some(member)
        },
    }
}

/// The step from one part of a path to the next: the value found under the
/// first part, and with it the rest of the path if a dot follows.
pub fn descend(member: Option<String>, path: &str) -> (r: Option<(String, Option<String>)>)
    ensures
        match r {
            None => member is None,
            Some((found, rest)) => member is Some && found@ == member->0@ && match rest {
                Some(tail) => 0 <= index_from(path@, '.', 0) < path@.len() && tail@ == path@.skip(
                    index_from(path@, '.', 0) + 1,
                ),
                None => index_from(path@, '.', 0) >= path@.len(),
            },
        },
{
    let found = match member {
        Some(found) => found,
        None => {
            return None;
        },
    };
    let head = prefix_before(path, '.');
    let dot = head.as_str().unicode_len();
    let len = path.unicode_len();
    proof {
        lemma_index_from_bounds(path@, '.', 0);
    }
    if dot < len {
        let tail = path.substring_char(dot + 1, len).to_owned();
        assert(tail@ =~= path@.skip(dot as int + 1));
        Some((found, Some(tail)))
    } else {
        Some((found, None))
    }
}

/// The first position of a character lies within the text or at its end.
pub proof fn lemma_index_from_bounds(s: Seq<char>, c: char, i: int)
    requires
        0 <= i <= s.len(),
    ensures
        i <= index_from(s, c, i) <= s.len(),
    decreases s.len() - i,
{
    if i < s.len() && s[i] != c {
        lemma_index_from_bounds(s, c, i + 1);
    }
}

/// The value that `field_path` leads to in the JSON object in `json`, as JSON
/// text; `None` if a member on the way is missing.
pub fn extract_json_field(json: &str, field_path: &str) -> (r: Option<String>)
    ensures
        match r {
            Some(found) => field_at(json@, field_path@) == Some(found@),
            None => field_at(json@, field_path@) is None,
        },
{
    let mut current = json.to_owned();
    let mut path = field_path.to_owned();
    loop
        invariant
            field_at(json@, field_path@) == field_at(current@, path@),
        decreases path@.len(),
    {
        let head = prefix_before(path.as_str(), '.');
        let member = json_member(current.as_str(), head.as_str());
        proof {
            lemma_index_from_bounds(path@, '.', 0);
        }
        match descend(member, path.as_str()) {
            None => {
                return None;
            },
            Some((found, rest)) => match rest {
                Some(tail) => {
                    current = found;
                    path = tail;
                },
                None => {
                    return Some(found);
                },
            },
        }
    }
}

/// The characters a ticker symbol may hold: ASCII letters, digits and the dot.
pub open spec fn symbol_char(c: char) -> bool {
    ('a' <= c && c <= 'z') || ('A' <= c && c <= 'Z') || ('0' <= c && c <= '9') || c == '.'
}

/// A symbol is valid when it has between 1 and 12 characters, each of them a
/// symbol character.
pub open spec fn valid_symbol(s: Seq<char>) -> bool {
    &&& 1 <= s.len() <= 12
    &&& forall|i: int| 0 <= i < s.len() ==> symbol_char(#[trigger] s[i])
}

/// Whether `symbol` is a valid ticker symbol.
pub fn is_valid_symbol(symbol: &str) -> (r: bool)
    ensures
        r == valid_symbol(symbol@),
{
    let mut count: usize = 0;
    let mut ok = true;
    for c in it: symbol.chars()
        invariant
            it.seq() == symbol@,
            count == if it.index() <= 13 {
                it.index()
            } else {
                13
            },
            ok == (forall|i: int| 0 <= i < it.index() ==> symbol_char(#[trigger] symbol@[i])),
    {
        if count < 13 {
            count = count + 1;
        }
        if !(('a' <= c && c <= 'z') || ('A' <= c && c <= 'Z') || ('0' <= c && c <= '9') || c
            == '.') {
            ok = false;
        }
    }
    ok && 1 <= count && count <= 12
}

} // verus!
