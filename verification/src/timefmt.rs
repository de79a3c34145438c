//! Calendar rendering of ledger timestamps.

use chrono::NaiveDateTime;
use vstd::prelude::*;

verus! {

/// The date and the time of day, in UTC, of the moment that lies `secs`
/// seconds after the epoch, written as year, month and day joined by
/// hyphens, a space, and hours, minutes and seconds joined by colons; `None`
/// where the calendar cannot hold that moment.
pub uninterp spec fn utc_text(secs: int) -> Option<Seq<char>>;

/// Renders a timestamp with `chrono::NaiveDateTime::from_timestamp_opt` and
/// `format("%Y-%m-%d %H:%M:%S")`. The contract names the rendered text.
#[verifier::external_body]
pub(crate) fn format_utc(secs: i64) -> (text: Option<String>)
    ensures
        match text {
            Some(t) => utc_text(secs as int) == Some(t@),
            None => utc_text(secs as int).is_none(),
        },
{
    match NaiveDateTime::from_timestamp_opt(secs, 0) {
        Some(t) => Some(t.format("%Y-%m-%d %H:%M:%S").to_string()),
        None => None,
    }
}

/// Reads a ledger timestamp as a signed count of seconds, in two's complement.
pub open spec fn signed_seconds(timestamp: u64) -> int {
    if timestamp <= 0x7fff_ffff_ffff_ffff {
        timestamp as int
    } else {
        timestamp as int - 0x1_0000_0000_0000_0000
    }
}

/// The calendar text of a ledger timestamp, where the calendar can hold it.
pub fn timestamp_text(timestamp: u64) -> (text: Option<String>)
    ensures
        match text {
            Some(t) => utc_text(signed_seconds(timestamp)) == Some(t@),
            None => utc_text(signed_seconds(timestamp)).is_none(),
        },
{
    let secs: i64 = if timestamp <= 0x7fff_ffff_ffff_ffff {
        timestamp as i64
    } else {
        let low: u64 = timestamp - 0x8000_0000_0000_0000;
        (low as i64) + i64::MIN
    };
    format_utc(secs)
}

} // verus!
