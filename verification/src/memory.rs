//! Ages of memory files as the memory panel shows them.
use vstd::prelude::*;
use crate::text::{append_str, decimal, u64_to_decimal};

verus! {

/// The UTC calendar date of a Unix timestamp in seconds, written
/// "YYYY-MM-DD" the way chrono formats `%Y-%m-%d` (none when chrono cannot
/// represent the instant).
pub uninterp spec fn utc_date_text(secs: i64) -> Option<Seq<char>>;

/// `chrono::DateTime::<Utc>::from_timestamp_secs`, formatted with
/// `%Y-%m-%d`.
#[verifier::external_body]
fn utc_date(secs: i64) -> (r: Option<String>)
    ensures
        match r {
            Some(s) => utc_date_text(secs) == Some(s@),
            None => utc_date_text(secs) is None,
        },
{
    match chrono::DateTime::from_timestamp_secs(secs) {
        Some(dt) => Some(dt.format("%Y-%m-%d").to_string()),
        None => None,
    }
}

/// `chrono::Utc::now()`: the current instant as whole seconds since the Unix
/// epoch and the nanoseconds past that second.
#[verifier::external_body]
fn utc_now() -> (r: (i64, u32)) {
    let n = chrono::Utc::now();
    (n.timestamp(), n.timestamp_subsec_nanos())
}

/// Whole seconds from instant `ts` to instant `now`, rounded toward zero
/// (as chrono's `TimeDelta::num_seconds` counts them); each instant is
/// seconds since the Unix epoch plus nanoseconds.
pub open spec fn whole_seconds_between(ts_secs: i64, ts_nanos: u32, now_secs: i64, now_nanos: u32) -> int {
    let d: int = (now_secs - ts_secs) * 1_000_000_000 + (now_nanos - ts_nanos);
    if d >= 0 { d / 1_000_000_000 } else { -((-d) / 1_000_000_000) }
}

/// How old something is, in the unit the panel shows.
pub open spec fn age_label(ts_secs: i64, ts_nanos: u32, now_secs: i64, now_nanos: u32) -> Seq<char> {
    let secs = whole_seconds_between(ts_secs, ts_nanos, now_secs, now_nanos);
    if secs < 60 {
        "just now"@
    } else if secs / 60 < 60 {
        decimal((secs / 60) as nat) + "m ago"@
    } else if secs / 3600 < 24 {
        decimal((secs / 3600) as nat) + "h ago"@
    } else if secs / 86400 < 30 {
        decimal((secs / 86400) as nat) + "d ago"@
    } else {
        match utc_date_text(ts_secs) {
            Some(d) => d,
            None => Seq::empty(),
        }
    }
}

/// The age of instant `ts` at instant `now` (each as Unix seconds plus
/// nanoseconds): "just now" under a whole minute, then whole minutes, hours
/// or days ("5m ago", "2h ago", "29d ago"), and the UTC date from 30 days on.
pub fn format_relative_time(ts_secs: i64, ts_nanos: u32, now_secs: i64, now_nanos: u32) -> (r: String)
    ensures
        r@ == age_label(ts_secs, ts_nanos, now_secs, now_nanos),
{
    let ds: i128 = now_secs as i128 - ts_secs as i128;
    proof {
        assert(-0x1_0000_0000_0000_0000 * 1_000_000_000 <= ds * 1_000_000_000 <= 0x1_0000_0000_0000_0000 * 1_000_000_000) by (nonlinear_arith)
            requires -0x1_0000_0000_0000_0000 <= ds <= 0x1_0000_0000_0000_0000;
    }
    let d: i128 = ds * 1_000_000_000 + (now_nanos as i128 - ts_nanos as i128);
    let secs: i128 = if d >= 0 { d / 1_000_000_000 } else { -((-d) / 1_000_000_000) };
    proof {
        assert(secs == whole_seconds_between(ts_secs, ts_nanos, now_secs, now_nanos));
    }
    if secs < 60 {
        return "just now".to_string();
    }
    let mins = secs / 60;
    proof {
        assert(secs / 3600 == mins / 60) by (nonlinear_arith) requires mins == secs / 60, secs >= 60;
        assert(secs / 86400 == (mins / 60) / 24) by (nonlinear_arith) requires mins == secs / 60, secs >= 60;
    }
    if mins < 60 {
        let mut s = u64_to_decimal(mins as u64);
        append_str(&mut s, "m ago");
        return s;
    }
    let hours = mins / 60;
    if hours < 24 {
        let mut s = u64_to_decimal(hours as u64);
        append_str(&mut s, "h ago");
        return s;
    }
    let days = hours / 24;
    if days < 30 {
        let mut s = u64_to_decimal(days as u64);
        append_str(&mut s, "d ago");
        return s;
    }
    match utc_date(ts_secs) {
        Some(d) => d,
        None => String::new(),
    }
}

/// The age of an instant now.
pub fn format_relative_time_now(ts_secs: i64, ts_nanos: u32) -> (r: String)
    ensures
        exists|now_secs: i64, now_nanos: u32| r@ == age_label(ts_secs, ts_nanos, now_secs, now_nanos),
{
    let (now_secs, now_nanos) = utc_now();
    format_relative_time(ts_secs, ts_nanos, now_secs, now_nanos)
}

} // verus!
