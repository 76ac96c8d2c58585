//! The system clock and the calendar.

use crate::shared::Timestamp;
use std::fmt::Write;
use vstd::prelude::*;

verus! {

/// The time on the system clock: `chrono::Utc::now`, in milliseconds since
/// the Unix epoch as `DateTime::timestamp_millis` gives them. Nothing is
/// claimed of the value. `Utc::now` stops the process where the clock stands
/// before the epoch.
#[verifier::external_body]
pub(crate) fn utc_now() -> (now: Timestamp) {
    chrono::Utc::now().timestamp_millis()
}

/// The text that `chrono` writes for a point in time, given in milliseconds
/// since the Unix epoch and taken in UTC, under a `strftime` pattern; `None`
/// where the time lies outside the calendar or the pattern cannot be
/// written.
pub uninterp spec fn chrono_format(millis: int, pattern: Seq<char>) -> Option<Seq<char>>;

/// What an optional text holds.
pub open spec fn text_view(text: Option<String>) -> Option<Seq<char>> {
    match text {
        Some(written) => Some(written@),
        None => None,
    }
}

/// Writes a point in time under a pattern: `chrono::DateTime::from_timestamp_millis`
/// makes the time, `DateTime::format` writes it. The text is a function of
/// the two arguments alone and goes by the name `chrono_format`.
#[verifier::external_body]
pub(crate) fn format_instant(millis: Timestamp, pattern: &str) -> (text: Option<String>)
    ensures
        text_view(text) == chrono_format(millis as int, pattern@),
{
    match chrono::DateTime::from_timestamp_millis(millis) {
        Some(at) => {
            let mut text = String::new();
            match write!(text, "{}", at.format(pattern)) {
                Ok(()) => Some(text),
                Err(_) => None,
            }
        },
        None => None,
    }
}

} // verus!
