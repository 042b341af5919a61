use vstd::prelude::*;

verus! {

/// The point in time `std::time::SystemTime`.
#[verifier::external_type_specification]
#[verifier::external_body]
pub struct ExSystemTime(std::time::SystemTime);

/// The error `std::time::SystemTime::duration_since` gives when the time is
/// before the one it is measured from.
#[verifier::external_type_specification]
#[verifier::external_body]
pub struct ExSystemTimeError(std::time::SystemTimeError);

/// `std::time::SystemTime::now`: the current system time. It depends on the
/// clock, so nothing is stated of it.
#[verifier::external_body]
fn system_now() -> (r: std::time::SystemTime) {
    std::time::SystemTime::now()
}

/// `std::time::UNIX_EPOCH`: 1970-01-01 00:00:00 UTC.
#[verifier::external_body]
fn unix_epoch() -> (r: std::time::SystemTime) {
    std::time::UNIX_EPOCH
}

/// `std::time::SystemTime::duration_since`: how long after `earlier` the time
/// `t` is, or an error when `t` is before `earlier`. Both are opaque here, so
/// nothing is stated of the result.
#[verifier::external_body]
fn duration_since(t: &std::time::SystemTime, earlier: std::time::SystemTime) -> (r: Result<
    core::time::Duration,
    std::time::SystemTimeError,
>) {
    t.duration_since(earlier)
}

/// `core::time::Duration::as_secs`: the whole seconds of `d`, which is opaque
/// here, so nothing is stated of the result.
#[verifier::external_body]
fn whole_seconds(d: &core::time::Duration) -> (r: u64) {
    d.as_secs()
}

/// The current time in whole seconds since the Unix epoch; `None` when the
/// system clock reads a time before the epoch.
pub fn current_timestamp() -> (r: Option<u64>) {
    let now = system_now();
    match duration_since(&now, unix_epoch()) {
        Ok(d) => Some(whole_seconds(&d)),
        Err(_) => None,
    }
}

/// The layout dates are shown in: year-month-day hour:minute.
pub const DATE_FORMAT: &'static str = "%Y-%m-%d %H:%M";

/// Names the text that `chrono` gives for the UTC date `secs` seconds after
/// the Unix epoch, laid out by the format string `fmt`; `None` where `chrono`
/// has no date for `secs` (far outside the years it can represent).
pub uninterp spec fn utc_date_text(secs: i64, fmt: Seq<char>) -> Option<Seq<char>>;

/// `chrono::DateTime::<Utc>::from_timestamp(secs, 0)` rendered with
/// `format(fmt).to_string()`. The text is a function of `secs` and `fmt`
/// alone and is named by `utc_date_text`; the calendar arithmetic is not
/// restated. Only the date format of this library is admitted: rendering a
/// format string that `chrono` cannot parse panics in `to_string`.
#[verifier::external_body]
fn format_utc(secs: i64, fmt: &str) -> (r: Option<String>)
    requires
        fmt@ == DATE_FORMAT@,
    ensures
        match r {
            Some(s) => utc_date_text(secs, fmt@) == Some(s@),
            None => utc_date_text(secs, fmt@) is None,
        },
{
    chrono::DateTime::from_timestamp(secs, 0).map(|dt| dt.format(fmt).to_string())
}

/// The seconds value a timestamp is handed to `chrono` as: the `u64` read as
/// an `i64` (values above `i64::MAX` wrap to negative ones).
pub open spec fn timestamp_secs(timestamp: u64) -> i64 {
    timestamp as i64
}

/// Shows `timestamp` (seconds since the Unix epoch) as a UTC date laid out as
/// `DATE_FORMAT`, for timestamps that `chrono` can represent.
pub fn format_date(timestamp: u64) -> (r: String)
    requires
        utc_date_text(timestamp_secs(timestamp), DATE_FORMAT@) is Some,
    ensures
        Some(r@) == utc_date_text(timestamp_secs(timestamp), DATE_FORMAT@),
{
    let secs: i64 = #[verifier::truncate] (timestamp as i64);
    match format_utc(secs, DATE_FORMAT) {
        Some(s) => s,
        None => String::new(),
    }
}

/// `format_date` where `chrono` can represent `timestamp`, `None` elsewhere.
pub fn try_format_date(timestamp: u64) -> (r: Option<String>)
    ensures
        match r {
            Some(s) => Some(s@) == utc_date_text(timestamp_secs(timestamp), DATE_FORMAT@),
            None => utc_date_text(timestamp_secs(timestamp), DATE_FORMAT@) is None,
        },
{
    let secs: i64 = #[verifier::truncate] (timestamp as i64);
    match format_utc(secs, DATE_FORMAT) {
        Some(_) => Some(format_date(timestamp)),
        None => None,
    }
}

} // verus!
