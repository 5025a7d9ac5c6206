//! Instants and the whole days and hours between them.
//!
//! An instant is a number of whole milliseconds since the Unix epoch, and
//! an age is counted between two such numbers. The platform spells instants
//! as text; `chrono` reads them, and what a text holds below the
//! millisecond is dropped. An age can therefore differ from what a
//! subtraction of the uncut instants would give, where the two lie within a
//! millisecond of a whole hour apart.

use vstd::prelude::*;

verus! {

/// Milliseconds in an hour.
pub const MILLIS_PER_HOUR: i64 = 3_600_000;

/// Milliseconds in a day.
pub const MILLIS_PER_DAY: i64 = 86_400_000;

/// `chrono::ParseError`, which says why chrono refused a text. Nothing is
/// claimed of what it holds: it is told from success and dropped.
#[verifier::external_type_specification]
#[verifier::external_body]
pub struct ExParseError(chrono::ParseError);

/// The instant that `chrono` reads from `text` taken as an RFC 3339 date and
/// time, in milliseconds since the Unix epoch, and `None` where it refuses
/// the text.
pub uninterp spec fn rfc3339_millis(text: Seq<char>) -> Option<i64>;

/// Calls `chrono::DateTime::parse_from_rfc3339` and, where that accepts the
/// text, `chrono::DateTime::timestamp_millis` on what it made. The contract
/// gives the outcome its name and claims nothing else: what chrono accepts
/// and which instant it reads is chrono's business. Both calls compute from
/// the text alone and neither panics.
#[verifier::external_body]
fn chrono_rfc3339_millis(text: &str) -> (r: Result<i64, chrono::ParseError>)
    ensures
        match r {
            Ok(millis) => rfc3339_millis(text@) == Some(millis),
            Err(_) => rfc3339_millis(text@) is None,
        },
{
    match chrono::DateTime::parse_from_rfc3339(text) {
        Ok(instant) => Ok(instant.timestamp_millis()),
        Err(cause) => Err(cause),
    }
}

/// A timestamp that is no RFC 3339 date and time.
#[derive(Clone, Copy, Debug, PartialEq, Eq, Structural)]
pub enum TimestampError {
    /// The text could not be read as a date and time with an offset.
    Unparsable,
}

/// Reads a timestamp as the platform spells it.
pub fn parse_timestamp(text: &str) -> (r: Result<i64, TimestampError>)
    ensures
        match r {
            Ok(millis) => rfc3339_millis(text@) == Some(millis),
            Err(TimestampError::Unparsable) => rfc3339_millis(text@) is None,
        },
{
    match chrono_rfc3339_millis(text) {
        Ok(millis) => Ok(millis),
        Err(_) => Err(TimestampError::Unparsable),
    }
}

/// How many whole spans of `unit` milliseconds lie between `then` and
/// `now`. A begun span does not count, whichever of the two is later: the
/// result is negative where `then` is later than `now` by a span or more.
pub open spec fn whole_spans(then: int, now: int, unit: int) -> int {
    if now >= then {
        (now - then) / unit
    } else {
        -((then - now) / unit)
    }
}

/// The whole days from `then` to `now`.
pub open spec fn whole_days(then: i64, now: i64) -> int {
    whole_spans(then as int, now as int, MILLIS_PER_DAY as int)
}

/// The whole hours from `then` to `now`.
pub open spec fn whole_hours(then: i64, now: i64) -> int {
    whole_spans(then as int, now as int, MILLIS_PER_HOUR as int)
}

/// The time from one instant to another in whole days and in whole hours.
#[derive(Clone, Copy, Debug, PartialEq, Eq, Structural)]
pub struct Age {
    /// Whole days.
    pub days: i64,
    /// Whole hours, those of the whole days included.
    pub hours: i64,
}

/// A span of a second or more fits into a gap no more often than a second
/// does.
proof fn lemma_spans_bounded(gap: int, unit: int)
    by (nonlinear_arith)
    requires
        gap >= 0,
        unit >= 1000,
    ensures
        0 <= gap / unit <= gap / 1000,
{
}

/// Counts the whole spans of `unit` milliseconds between two instants.
fn spans_between(then: i64, now: i64, unit: i64) -> (r: i64)
    requires
        unit >= 1000,
    ensures
        r == whole_spans(then as int, now as int, unit as int),
{
    let gap: i128 = now as i128 - then as i128;
    if gap >= 0 {
        proof {
            lemma_spans_bounded(gap as int, unit as int);
        }
        let spans: i128 = gap / (unit as i128);
        spans as i64
    } else {
        proof {
            lemma_spans_bounded(-gap as int, unit as int);
        }
        let spans: i128 = (-gap) / (unit as i128);
        -(spans as i64)
    }
}

/// The age at `now` of what happened at `then`.
pub open spec fn age_between(then: i64, now: i64) -> Age {
    Age { days: whole_days(then, now) as i64, hours: whole_hours(then, now) as i64 }
}

/// The whole days and hours between two instants fit the fields of an
/// [`Age`]: [`age_between`] holds the very numbers.
pub proof fn lemma_age_exact(then: i64, now: i64)
    ensures
        age_between(then, now).days == whole_days(then, now),
        age_between(then, now).hours == whole_hours(then, now),
{
}

/// Computes the age at `now` of what happened at `then`.
pub fn age_at(then: i64, now: i64) -> (r: Age)
    ensures
        r == age_between(then, now),
        r.days == whole_days(then, now),
        r.hours == whole_hours(then, now),
{
    Age {
        days: spans_between(then, now, MILLIS_PER_DAY),
        hours: spans_between(then, now, MILLIS_PER_HOUR),
    }
}

} // verus!
