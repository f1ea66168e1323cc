//! How times are shown in answers: `%Y-%m-%d %H:%M:%S`, in UTC.
use vstd::prelude::*;

verus! {

/// What `chrono::DateTime::from_timestamp(ts, 0)` formatted with
/// `%Y-%m-%d %H:%M:%S` renders; `None` when the timestamp is out of chrono's
/// range.
pub uninterp spec fn date_time_text(ts: i64) -> Option<Seq<char>>;

/// Calls `chrono::DateTime::from_timestamp(ts, 0)` and formats the time
/// with `%Y-%m-%d %H:%M:%S`. The rendering is named; it is a function of the
/// timestamp alone (UTC, no locale).
#[verifier::external_body]
fn render_utc(ts: i64) -> (r: Option<String>)
    ensures
        match r {
            Some(t) => date_time_text(ts) == Some(t@),
            None => date_time_text(ts) is None,
        },
{
    chrono::DateTime::from_timestamp(ts, 0).map(|d| d.format("%Y-%m-%d %H:%M:%S").to_string())
}

/// The text of a time given as a UTC timestamp in seconds; `None` when it
/// lies beyond the dates that can be shown.
pub fn format_date_time(ts: i64) -> (r: Option<String>)
    ensures
        match r {
            Some(t) => date_time_text(ts) == Some(t@),
            None => date_time_text(ts) is None,
        },
{
    render_utc(ts)
}

/// The text of an optional time: none when there is no time or it cannot be
/// shown.
pub fn format_option_date_time(ts: Option<i64>) -> (r: Option<String>)
    ensures
        match ts {
            None => r is None,
            Some(t) => match r {
                Some(s) => date_time_text(t) == Some(s@),
                None => date_time_text(t) is None,
            },
        },
{
    match ts {
        Some(t) => format_date_time(t),
        None => None,
    }
}

} // verus!
