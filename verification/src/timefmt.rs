use vstd::prelude::*;
use crate::search::SearchDuration;

verus! {

/// The calendar day named by a source timestamp of the form
/// `YYYY-MM-DDTHH:mm:ss.sssZ`, as a `YYYY-MM-DD` string; absent when the
/// string does not parse in that form.  The outcome depends on the string
/// alone.
pub uninterp spec fn parsed_day_of(s: Seq<char>) -> Option<Seq<char>>;

/// Relies on chrono's `NaiveDateTime::parse_from_str` with the source
/// timestamp format, truncated to its date: the day is a function of the
/// input string alone, absent exactly when parsing fails.
#[verifier::external_body]
pub(crate) fn parse_timestamp_day(s: &str) -> (r: Option<String>)
    ensures
        r.deep_view() == parsed_day_of(s@),
{
    chrono::NaiveDateTime::parse_from_str(s, "%Y-%m-%dT%H:%M:%S%.3fZ")
        .map(|dt| dt.date().to_string())
        .ok()
}

/// Relies on chrono's `Utc::now`, formatted as `YYYY-MM-DDTHH:mm:ss.sssZ`.
/// The result follows the wall clock, so nothing is promised of it.
#[verifier::external_body]
pub(crate) fn now_timestamp() -> String {
    chrono::Utc::now().format("%Y-%m-%dT%H:%M:%S.%3fZ").to_string()
}

/// Relies on chrono's `Utc::now` and `TimeDelta::days`: the instant the given
/// number of days before now, formatted as `YYYY-MM-DDTHH:mm:ss.sssZ`.  The
/// result follows the wall clock, so nothing is promised of it; the day count
/// is kept small enough that chrono cannot overflow.
#[verifier::external_body]
pub(crate) fn timestamp_days_before_now(days: i64) -> String
    requires
        1 <= days <= 3650,
{
    (chrono::Utc::now() - chrono::TimeDelta::days(days))
        .format("%Y-%m-%dT%H:%M:%S.%3fZ")
        .to_string()
}

/// The publish-date bounds of a search: the upper bound is the current time;
/// the lower bound is the window's day count before now, and it is present
/// exactly when the window has one (the `Max` window sends none, so the
/// remote API applies no floor).
pub fn request_bounds(duration: &SearchDuration) -> (b: (Option<String>, String))
    ensures
        b.0 is Some <==> duration.days_spec() != 0,
{
    let days = duration.to_days();
    let from = if days != 0 {
        Some(timestamp_days_before_now(days))
    } else {
        None
    };
    let to = now_timestamp();
    (from, to)
}

} // verus!
