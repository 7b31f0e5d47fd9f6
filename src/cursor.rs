//! The resumption cursor: the time of the latest stored post, read back as a
//! position in the feed, unless it is unreadable or a day old or more.
use crate::decimal::{parse_i64, parsed_i64};
use vstd::prelude::*;

verus! {

/// A cursor this many microseconds old or older is dropped: one day.
pub const STALE_AFTER_US: i64 = 86_400_000_000;

/// The earliest time the feed's time type holds, in microseconds since the
/// epoch (January 1, 262144 BCE, proleptic Gregorian).
pub const MIN_TIME_US: i64 = -8_334_601_228_800_000_000;

/// The latest time the feed's time type holds, in microseconds since the
/// epoch (the last microsecond of December 31, 262142).
pub const MAX_TIME_US: i64 = 8_210_266_876_799_999_999;

pub open spec fn representable(us: int) -> bool {
    MIN_TIME_US <= us <= MAX_TIME_US
}

/// The cursor that the latest stored time `latest` gives at time `now`.
pub open spec fn resolved_cursor(latest: Option<Seq<char>>, now: int) -> Option<int> {
    match latest {
        None => None,
        Some(text) => match parsed_i64(text) {
            None => None,
            Some(c) => if representable(c) && now - c < STALE_AFTER_US {
                Some(c)
            } else {
                None
            },
        },
    }
}

pub open spec fn opt_view(s: Option<&str>) -> Option<Seq<char>> {
    match s {
        Some(t) => Some(t@),
        None => None,
    }
}

/// Relies on chrono's `DateTime::<Utc>::from_timestamp_micros`: it gives a
/// time exactly for the microsecond counts between `MIN_UTC` and `MAX_UTC`.
#[verifier::external_body]
fn timestamp_representable(us: i64) -> (r: bool)
    ensures
        r == representable(us as int),
{
    match chrono::DateTime::from_timestamp_micros(us) {
        Some(_) => true,
        None => false,
    }
}

/// Relies on chrono's `Utc::now`, read with `timestamp_micros`: the clock's
/// current time. Nothing is promised of its value; chrono panics only when
/// the system clock reads before 1970.
#[verifier::external_body]
fn now_micros() -> i64 {
    chrono::Utc::now().timestamp_micros()
}

/// The cursor from the latest stored time, as read at `now_us`: none for no
/// row, for a time that does not read as a representable `i64`, and for one
/// that is a day old or older.
pub fn resolve_cursor(latest: Option<&str>, now_us: i64) -> (r: Option<i64>)
    ensures
        r.is_some() == resolved_cursor(opt_view(latest), now_us as int).is_some(),
        r matches Some(c) ==> resolved_cursor(opt_view(latest), now_us as int) == Some(c as int),
{
    match latest {
        None => None,
        Some(text) => match parse_i64(text) {
            None => None,
            Some(c) => {
                if !timestamp_representable(c) {
                    return None;
                }
                if (now_us as i128) - (c as i128) < STALE_AFTER_US as i128 {
                    Some(c)
                } else {
                    None
                }
            },
        },
    }
}

/// The cursor from the latest stored time, as read now. Whatever the clock
/// says, a cursor comes only from a readable, representable time.
pub fn resolve_cursor_now(latest: Option<&str>) -> (r: Option<i64>)
    ensures
        r matches Some(c) ==> opt_view(latest) matches Some(t) && parsed_i64(t) == Some(c as int)
            && representable(c as int),
        opt_view(latest) matches Some(t) && parsed_i64(t).is_none() ==> r.is_none(),
        latest.is_none() ==> r.is_none(),
{
    let now_us = now_micros();
    resolve_cursor(latest, now_us)
}

/// A stored time a day old or older gives no cursor; a younger one that the
/// time type holds gives itself.
pub proof fn lemma_cursor_staleness(text: Seq<char>, now: int)
    requires
        parsed_i64(text).is_some(),
    ensures
        now - parsed_i64(text).unwrap() >= STALE_AFTER_US ==> resolved_cursor(Some(text), now).is_none(),
        now - parsed_i64(text).unwrap() < STALE_AFTER_US && representable(parsed_i64(text).unwrap())
            ==> resolved_cursor(Some(text), now) == parsed_i64(text),
{
}

} // verus!
