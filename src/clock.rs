//! Wall-clock time, through chrono.
use vstd::prelude::*;
use crate::store::text_less;

verus! {

#[verifier::external_type_specification]
#[verifier::external_body]
pub struct ExTimeDelta(chrono::TimeDelta);

/// The pattern of stored timestamps: `YYYY-MM-DD HH:MM:SS`, UTC.
pub const TIMESTAMP_FORMAT: &'static str = "%Y-%m-%d %H:%M:%S";

/// 0000-01-01 00:00:00 UTC, in seconds since the Unix epoch.
pub const MIN_TEXT_SECONDS: i64 = -62_167_219_200;

/// 9999-12-31 23:59:59 UTC, in seconds since the Unix epoch.
pub const MAX_TEXT_SECONDS: i64 = 253_402_300_799;

/// The largest magnitude, in seconds, of a chrono `TimeDelta`.
pub const MAX_DELTA_SECONDS: i64 = 9_223_372_036_854_775;

/// The text that chrono writes for the UTC instant `secs` seconds after the
/// Unix epoch, in the pattern `TIMESTAMP_FORMAT`.
pub uninterp spec fn timestamp_text(secs: int) -> Seq<char>;

/// The `TimeDelta` that chrono builds from `secs` seconds.
pub uninterp spec fn delta_of_seconds(secs: int) -> chrono::TimeDelta;

/// The `Duration` that std builds from `secs` whole seconds.
pub uninterp spec fn duration_of_secs(secs: int) -> core::time::Duration;

/// Whether `secs` lies in the years 0 to 9999, which chrono writes with a
/// four-digit year.
pub open spec fn in_text_range(secs: int) -> bool {
    MIN_TEXT_SECONDS <= secs <= MAX_TEXT_SECONDS
}

/// Whether `text` sorts after the text of every instant in range before
/// `secs`, and before the text of every instant in range after it.
pub open spec fn sorts_as_instant(text: Seq<char>, secs: int) -> bool {
    forall|b: int|
        #![trigger timestamp_text(b)]
        in_text_range(b) ==> (b < secs ==> text_less(timestamp_text(b), text)) && (secs < b
            ==> text_less(text, timestamp_text(b)))
}

/// Whether the text of `secs` sorts in time order against every instant in
/// range.
pub open spec fn text_ordered_at(secs: int) -> bool {
    sorts_as_instant(timestamp_text(secs), secs)
}

/// Relies on chrono's `TimeDelta::seconds`, which panics beyond
/// `i64::MAX / 1000` seconds either way; the delta depends on `seconds` alone.
pub assume_specification[ chrono::TimeDelta::seconds ](seconds: i64) -> (r: chrono::TimeDelta)
    requires
        -MAX_DELTA_SECONDS <= seconds <= MAX_DELTA_SECONDS,
    ensures
        r == delta_of_seconds(seconds as int),
;

/// Relies on `Duration::from_secs`, which takes every `u64` and depends on it
/// alone.
pub assume_specification[ core::time::Duration::from_secs ](secs: u64) -> (r: core::time::Duration)
    ensures
        r == duration_of_secs(secs as int),
;

/// Relies on chrono's `From<SystemTime> for DateTime<Utc>` and
/// `DateTime::timestamp`: the current time of the system clock in whole
/// seconds since the Unix epoch, before 1970 too. Nothing is known of the
/// value.
#[verifier::external_body]
pub(crate) fn now_seconds() -> (r: i64) {
    chrono::DateTime::<chrono::Utc>::from(std::time::SystemTime::now()).timestamp()
}

/// Relies on chrono's `DateTime::from_timestamp` and `DateTime::format`: the
/// instant `secs` seconds after the Unix epoch written in `pattern`.
/// `from_timestamp` covers every instant from the year -262143 to 262142, so
/// all of years 0 to 9999 give text. There `%Y` is four digits, zero-padded,
/// and every other field of the pattern has a fixed width and is zero-padded,
/// so the text is 19 characters long and sorts in time order. `pattern` is
/// held to the library's one pattern, since `to_string` panics on a pattern
/// that fails to render.
#[verifier::external_body]
pub(crate) fn format_utc(secs: i64, pattern: &str) -> (r: Option<String>)
    requires
        pattern@ == TIMESTAMP_FORMAT@,
    ensures
        r matches Some(t) ==> t@ == timestamp_text(secs as int),
        in_text_range(secs as int) ==> r is Some,
        in_text_range(secs as int) ==> r.unwrap()@.len() == 19,
        in_text_range(secs as int) ==> sorts_as_instant(r.unwrap()@, secs as int),
{
    match chrono::DateTime::from_timestamp(secs, 0) {
        Some(t) => Some(t.format(pattern).to_string()),
        None => None,
    }
}

/// The text of the instant `secs`, or `None` where chrono has no date for it.
pub fn timestamp_at(secs: i64) -> (r: Option<String>)
    ensures
        r matches Some(t) ==> t@ == timestamp_text(secs as int),
        in_text_range(secs as int) ==> r is Some,
        in_text_range(secs as int) ==> r.unwrap()@.len() == 19,
        in_text_range(secs as int) ==> text_ordered_at(secs as int),
{
    format_utc(secs, TIMESTAMP_FORMAT)
}

} // verus!
