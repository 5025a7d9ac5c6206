//! What a run learns about a channel: how long it has been inactive, and
//! whether a warning stands in it and for how long. Either can fail to be
//! learnt: a timestamp may not be readable, and the look for the warning
//! may fail.

use vstd::prelude::*;
use crate::config::{Config, ConfigView};
use crate::message::{message_is_warning, Message, MessageView};
use crate::time::{age_at, age_between, parse_timestamp, rfc3339_millis, Age, TimestampError};
use crate::walker::{Page, PageView};

verus! {

/// The time at `now` since the message `reference` was written, and `None`
/// where its timestamp cannot be read.
pub open spec fn inactivity_of(reference: MessageView, now: i64) -> Option<Age> {
    match rfc3339_millis(reference.timestamp) {
        Some(then) => Some(age_between(then, now)),
        None => None,
    }
}

/// Computes for how long at `now` a channel has been inactive whose
/// reference message is `reference`. A timestamp that cannot be read is an
/// error of its own and no age of zero.
pub fn inactivity(reference: &Message, now: i64) -> (r: Result<Age, TimestampError>)
    ensures
        match r {
            Ok(age) => inactivity_of(reference@, now) == Some(age),
            Err(TimestampError::Unparsable) => inactivity_of(reference@, now) is None,
        },
{
    match parse_timestamp(reference.timestamp.as_str()) {
        Ok(then) => Ok(age_at(then, now)),
        Err(e) => Err(e),
    }
}

/// The warning that stands in a channel, if one does.
#[derive(Clone, Copy, Debug, PartialEq, Eq, Structural)]
pub enum Marker {
    /// The most recent message is no warning.
    Absent,
    /// The most recent message is a warning whose timestamp cannot be read.
    AgeUnknown,
    /// The most recent message is a warning of this many whole hours.
    Aged(i64),
}

/// The warning that stands at `now` in a channel whose most recent message
/// is `newest`. Only the most recent message can be the standing warning:
/// anything written after a warning retires it.
pub open spec fn marker_of(cfg: ConfigView, newest: MessageView, now: i64) -> Marker {
    if newest.is_warning(cfg) {
        match rfc3339_millis(newest.timestamp) {
            Some(then) => Marker::Aged(age_between(then, now).hours),
            None => Marker::AgeUnknown,
        }
    } else {
        Marker::Absent
    }
}

/// How the look for the standing warning went.
#[derive(Clone, Copy, Debug, PartialEq, Eq, Structural)]
pub enum Lookup {
    /// The warning was not looked for: the inactivity alone decided.
    NotAsked,
    /// The request for the most recent message failed, so that nothing is
    /// known of a warning.
    Failed,
    /// The platform answered, and this stands in the channel.
    Answered(Marker),
}

/// How the look for the standing warning went at `now`, when the platform
/// answered the request for the channel's most recent message with
/// `newest`. A channel without a message holds no warning. A request that
/// failed shows nothing, and is not taken for a channel without a warning.
pub open spec fn lookup_in(cfg: ConfigView, newest: PageView, now: i64) -> Lookup {
    match newest {
        PageView::Message(m) => Lookup::Answered(marker_of(cfg, m, now)),
        PageView::NoMessage => Lookup::Answered(Marker::Absent),
        PageView::Failed => Lookup::Failed,
    }
}

/// Looks for the standing warning in the platform's answer to a request for
/// the channel's most recent message.
pub fn find_marker(cfg: &Config, newest: &Page, now: i64) -> (r: Lookup)
    ensures
        r == lookup_in(cfg@, newest@, now),
{
    match newest {
        Page::Message(m) => {
            if message_is_warning(m, cfg) {
                match parse_timestamp(m.timestamp.as_str()) {
                    Ok(then) => Lookup::Answered(Marker::Aged(age_at(then, now).hours)),
                    Err(_) => Lookup::Answered(Marker::AgeUnknown),
                }
            } else {
                Lookup::Answered(Marker::Absent)
            }
        },
        Page::NoMessage => Lookup::Answered(Marker::Absent),
        Page::Failed => Lookup::Failed,
    }
}

} // verus!
