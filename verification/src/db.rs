//! What the history store computes itself: the word count kept with each
//! recording, its creation time as text, the search pattern for the
//! history, the time windows of the statistics, and the shape of the overall
//! statistics. Dates are formatted by chrono, in UTC.
use vstd::prelude::*;
use crate::models::joined;
use crate::text::{trim, trimmed, word_count, word_count_of};

verus! {

broadcast use vstd::string::group_string_axioms;

/// Totals over the history.
#[derive(Debug, Clone, Copy, PartialEq, Eq)]
pub struct OverallStats {
    pub total_ms_today: i64,
    pub total_ms_week: i64,
    pub total_ms_all: i64,
    pub words_today: i64,
    pub words_all: i64,
    pub sessions_today: i64,
    pub sessions_all: i64,
}

/// Number of words stored with a recording's text: its white-space
/// separated words, as a 64-bit signed count.
pub fn recording_word_count(text: &str) -> (r: i64)
    ensures
        r == word_count_of(text@) as i64,
{
    let n = word_count(text);
    #[verifier::truncate]
    (n as i64)
}

/// The `LIKE` pattern that finds the recordings whose text contains the
/// search query, trimmed of surrounding white space.
pub fn like_pattern(query: &str) -> (r: String)
    ensures
        r@ == "%"@ + trimmed(query@) + "%"@,
{
    let t = trim(query);
    let s = joined("%", t);
    s.concat("%")
}

/// The `LIKE` pattern that finds the recordings created on `day`
/// (`YYYY-MM-DD`), whose creation times start with it.
pub fn day_pattern(day: &str) -> (r: String)
    ensures
        r@ == day@ + "%"@,
{
    joined(day, "%")
}

/// chrono's RFC 3339 text of the UTC instant `secs` seconds and `nanos`
/// nanoseconds after the Unix epoch.
pub uninterp spec fn utc_rfc3339_text(secs: i64, nanos: u32) -> Seq<char>;

/// chrono's `%Y-%m-%d` text of the UTC date of the instant `secs` seconds and
/// `nanos` nanoseconds after the Unix epoch.
pub uninterp spec fn utc_date_text(secs: i64, nanos: u32) -> Seq<char>;

/// Whether chrono can represent the UTC instant `secs` seconds and `nanos`
/// nanoseconds after the Unix epoch (what `DateTime::from_timestamp` answers).
pub uninterp spec fn utc_representable(secs: i64, nanos: u32) -> bool;

/// Calls `chrono::DateTime::<Utc>::from_timestamp` and, on success,
/// `to_rfc3339`: `None` exactly when chrono cannot represent the instant,
/// else the RFC 3339 text of the instant.
#[verifier::external_body]
fn utc_rfc3339(secs: i64, nanos: u32) -> (r: Option<String>)
    ensures
        r is Some <==> utc_representable(secs, nanos),
        r matches Some(t) ==> t@ == utc_rfc3339_text(secs, nanos),
{
    match chrono::DateTime::from_timestamp(secs, nanos) {
        Some(d) => Some(d.to_rfc3339()),
        None => None,
    }
}

/// Calls `chrono::DateTime::<Utc>::from_timestamp` and, on success, formats
/// the date with `%Y-%m-%d`: `None` exactly when chrono cannot represent the
/// instant, else the text of its UTC date.
#[verifier::external_body]
fn utc_date(secs: i64, nanos: u32) -> (r: Option<String>)
    ensures
        r is Some <==> utc_representable(secs, nanos),
        r matches Some(t) ==> t@ == utc_date_text(secs, nanos),
{
    match chrono::DateTime::from_timestamp(secs, nanos) {
        Some(d) => Some(d.format("%Y-%m-%d").to_string()),
        None => None,
    }
}

/// The creation time stored with a recording made at the instant `secs`,
/// `nanos` (UTC, since the Unix epoch): its RFC 3339 text; `None` where
/// chrono cannot represent the instant.
pub fn created_at_text(secs: i64, nanos: u32) -> (r: Option<String>)
    ensures
        r is Some <==> utc_representable(secs, nanos),
        r matches Some(t) ==> t@ == utc_rfc3339_text(secs, nanos),
{
    utc_rfc3339(secs, nanos)
}

/// Seconds in a day.
pub const SECS_PER_DAY: i64 = 86400;

/// Largest number of days that chrono's `TimeDelta::days` accepts: its
/// bound is `i64::MAX` milliseconds.
pub const MAX_DELTA_DAYS: i64 = 106751991167;

/// The time windows of the overall statistics, as compared with the stored
/// creation times.
#[derive(Debug)]
pub struct StatsWindow {
    /// `LIKE` pattern of the creation times of today (UTC).
    pub today_pattern: String,
    /// Creation time from which a recording counts for the last seven days.
    pub week_since: String,
}

/// The windows of the overall statistics at the instant `now_secs`,
/// `now_nanos`: today's date pattern and the time seven days earlier.
/// `None` where chrono cannot represent one of the two instants.
pub fn stats_window(now_secs: i64, now_nanos: u32) -> (r: Option<StatsWindow>)
    ensures
        r is Some <==> (now_secs >= i64::MIN + 7 * SECS_PER_DAY && utc_representable(now_secs, now_nanos)
            && utc_representable((now_secs - 7 * SECS_PER_DAY) as i64, now_nanos)),
        r matches Some(w) ==> {
            &&& w.today_pattern@ == utc_date_text(now_secs, now_nanos) + "%"@
            &&& w.week_since@ == utc_rfc3339_text((now_secs - 7 * SECS_PER_DAY) as i64, now_nanos)
        },
{
    let week_secs = match now_secs.checked_sub(7 * SECS_PER_DAY) {
        Some(s) => s,
        None => return None,
    };
    let today = match utc_date(now_secs, now_nanos) {
        Some(t) => t,
        None => return None,
    };
    let week_since = match utc_rfc3339(week_secs, now_nanos) {
        Some(t) => t,
        None => return None,
    };
    Some(StatsWindow { today_pattern: day_pattern(today.as_str()), week_since })
}

/// Creation time from which a recording counts for the daily statistics of
/// the last `days` days, at the instant `now_secs`, `now_nanos`; `None` where
/// chrono cannot represent that time.
pub fn daily_stats_since(now_secs: i64, now_nanos: u32, days: i64) -> (r: Option<String>)
    requires
        -MAX_DELTA_DAYS <= days <= MAX_DELTA_DAYS,
    ensures
        r is Some <==> (i64::MIN <= now_secs - days * SECS_PER_DAY <= i64::MAX && utc_representable(
            (now_secs - days * SECS_PER_DAY) as i64,
            now_nanos,
        )),
        r matches Some(t) ==> t@ == utc_rfc3339_text((now_secs - days * SECS_PER_DAY) as i64, now_nanos),
{
    let delta = days * SECS_PER_DAY;
    match now_secs.checked_sub(delta) {
        Some(s) => utc_rfc3339(s, now_nanos),
        None => None,
    }
}

} // verus!
