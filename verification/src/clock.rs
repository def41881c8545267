//! The local time, as text.

use crate::archive::is_minute_stamp;
use vstd::prelude::*;

verus! {

/// A time to the minute: year, month, day, hour, minute.
pub(crate) const TO_THE_MINUTE: &'static str = "%Y-%m-%d %H:%M";

/// Calls `chrono::Local::now` and renders the result with
/// `DateTime::format`. Which time the text gives depends on the clock and
/// on the machine's time zone, and nothing is claimed of that. Its shape
/// is what `chrono` documents for the one pattern admitted: the year in
/// four digits (a sign and at least four digits, where it is before 0 or
/// after 9999), then month, day, hour and minute, each in two digits and
/// within its range.
/// The pattern is well-formed: `chrono` fails to render one that is not.
#[verifier::external_body]
fn local_time(pattern: &str) -> (text: String)
    requires
        pattern@ == TO_THE_MINUTE@,
    ensures
        is_minute_stamp(text@),
{
    chrono::Local::now().format(pattern).to_string()
}

/// The local time to the minute, as a stamp.
pub(crate) fn local_minute() -> (text: String)
    ensures
        is_minute_stamp(text@),
{
    local_time(TO_THE_MINUTE)
}

} // verus!
