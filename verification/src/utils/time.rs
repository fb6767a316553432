//! Reading and writing instants of time.

use vstd::prelude::*;
use chrono::{DateTime, Utc};
use crate::utils::text::opt_text;

verus! {

/// The layout in which the report shows an instant: day, month and year
/// with dots between them, then the time of day.
pub const DEFAULT_TIME_FORMAT: &'static str = "%d.%m.%Y %H:%M:%S";

/// The milliseconds between the start of 1970 and the start of 2015, from
/// which the upstream service counts the age of an identifier.
pub const SNOWFLAKE_EPOCH_MS: i64 = 1420070400000;

/// The instant that `text` writes, as chrono reads it into a UTC date and
/// time: whole seconds since the start of 1970, and the nanoseconds beyond
/// them. `None` where chrono reads no instant from the text.
pub uninterp spec fn parsed_instant(text: Seq<char>) -> Option<(i64, u32)>;

/// The instant of `secs` seconds and `nanos` nanoseconds since the start of
/// 1970, UTC, written in `layout` as chrono writes it. `None` where chrono
/// has no such instant or cannot apply the layout.
pub uninterp spec fn formatted_instant(
    secs: i64,
    nanos: u32,
    layout: Seq<char>,
) -> Option<Seq<char>>;

/// The parser of `DateTime<Utc>` in chrono, reached through `str::parse`:
/// the instant comes back as its seconds and nanoseconds.
#[verifier::external_body]
pub(crate) fn parse_instant(text: &str) -> (instant: Option<(i64, u32)>)
    ensures
        instant == parsed_instant(text@),
{
    match text.parse::<DateTime<Utc>>() {
        Ok(moment) => Some((moment.timestamp(), moment.timestamp_subsec_nanos())),
        Err(_) => None,
    }
}

/// `DateTime::format` of chrono, on the instant that
/// `DateTime::from_timestamp` makes of the seconds and nanoseconds.
#[verifier::external_body]
pub(crate) fn format_instant(secs: i64, nanos: u32, layout: &str) -> (shown: Option<String>)
    ensures
        opt_text(shown) == formatted_instant(secs, nanos, layout@),
{
    let moment = DateTime::from_timestamp(secs, nanos)?;
    let mut shown = String::new();
    match moment.format(layout).write_to(&mut shown) {
        Ok(()) => Some(shown),
        Err(_) => None,
    }
}

/// `a / b` as the machine divides: the quotient is rounded towards zero.
pub open spec fn quotient_towards_zero(a: int, b: int) -> int
    recommends
        b > 0,
{
    if a >= 0 {
        a / b
    } else {
        -((-a) / b)
    }
}

/// The second, counted from the start of 1970, in which the identifier
/// `snowflake_id` was issued: its bits above the lowest 22 are milliseconds
/// since the start of 2015.
pub open spec fn creation_secs(snowflake_id: i64) -> int {
    quotient_towards_zero((snowflake_id >> 22) + SNOWFLAKE_EPOCH_MS, 1000)
}

/// The layout to use: the one given, or the report's own.
pub open spec fn layout_or_default(format: Option<&str>) -> Seq<char> {
    match format {
        Some(layout) => layout@,
        None => DEFAULT_TIME_FORMAT@,
    }
}

/// What `format_time` shows for `text` in `layout`: the instant that the
/// text writes, in that layout, and the text itself where it writes none.
pub open spec fn time_text(text: Seq<char>, layout: Seq<char>) -> Option<Seq<char>> {
    match parsed_instant(text) {
        Some(instant) => formatted_instant(instant.0, instant.1, layout),
        None => Some(text),
    }
}

/// Computes the second in which an identifier was issued.
pub fn creation_second(snowflake_id: i64) -> (secs: i64)
    ensures
        secs == creation_secs(snowflake_id),
{
    let shifted: i64 = snowflake_id >> 22;
    assert(-2199023255552 <= shifted < 2199023255552) by (bit_vector)
        requires
            shifted == snowflake_id >> 22,
    ;
    let millis: i64 = shifted + SNOWFLAKE_EPOCH_MS;
    if millis >= 0 {
        millis / 1000
    } else {
        -((-millis) / 1000)
    }
}

} // verus!
