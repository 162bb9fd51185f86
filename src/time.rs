//! Timestamps are whole seconds since the Unix epoch; durations are whole
//! seconds too, held in `i128` so that sums of many of them cannot overflow.
use vstd::prelude::*;

verus! {

/// Every timestamp that chrono can represent lies within this many seconds of
/// the epoch (its years run from -262143 to 262142).
pub const TIME_BOUND: i64 = 8_796_093_022_208;

/// A timestamp in the range that chrono's `DateTime<Utc>` can hold.
pub open spec fn valid_time(t: i64) -> bool {
    -TIME_BOUND <= t <= TIME_BOUND
}

/// An optional timestamp that is absent or valid.
pub open spec fn valid_opt_time(t: Option<i64>) -> bool {
    match t {
        Some(v) => valid_time(v),
        None => true,
    }
}

/// The instant that `NaiveDateTime::parse_from_str(s, "%Y-%m-%dT%H:%M")` reads
/// from a form field, as seconds since the epoch; `None` where chrono rejects it.
pub uninterp spec fn form_time_of(s: Seq<char>) -> Option<i64>;

/// Relies on chrono's `Utc::now` and `DateTime::timestamp`: the current time in
/// whole seconds, within chrono's representable range.
#[verifier::external_body]
pub fn now_naive() -> (r: i64)
    ensures
        valid_time(r),
{
    chrono::Utc::now().timestamp()
}

/// Relies on chrono's `NaiveDateTime::parse_from_str` with the form format
/// `%Y-%m-%dT%H:%M` and on `and_utc().timestamp()`: the result depends on the
/// text alone and lies within chrono's range.
#[verifier::external_body]
pub fn parse_form_time(s: &str) -> (r: Option<i64>)
    ensures
        r == form_time_of(s@),
        valid_opt_time(r),
{
    match chrono::NaiveDateTime::parse_from_str(s, "%Y-%m-%dT%H:%M") {
        Ok(d) => Some(d.and_utc().timestamp()),
        Err(_) => None,
    }
}

} // verus!
