//! The decision: what is done to a channel, given its inactivity and the
//! warning that stands in it.

use vstd::prelude::*;
use crate::config::{standard_thresholds, Thresholds};
use crate::snapshot::Marker;

verus! {

/// What a run does to a channel.
#[derive(Clone, Copy, Debug, PartialEq, Eq, Structural)]
pub enum Action {
    /// Nothing.
    NoAction,
    /// Post the warning text.
    SendWarning,
    /// Delete the channel.
    DeleteChannel,
}

/// The action for a channel that has been inactive for `age_days` whole
/// days, or for a time that cannot be told where `age_days` is `None`, and
/// in which the warning `marker` stands.
///
/// Below the warning threshold nothing is done. From it on the occupants
/// are warned, and the marker plays no part until the deletion threshold:
/// from there on a channel without a standing warning is warned, as is one
/// whose warning cannot be dated; one whose warning has stood for the grace
/// period is deleted; and one whose warning is younger is left alone.
///
/// A channel whose inactivity cannot be told is never deleted. It is warned
/// again where its warning cannot be dated either, so that a warning stands
/// in it that can be, and is left alone otherwise.
pub open spec fn action_for(t: Thresholds, age_days: Option<i64>, marker: Marker) -> Action {
    match age_days {
        Some(days) => if days < t.warn_after_days {
            Action::NoAction
        } else if days < t.delete_after_days {
            Action::SendWarning
        } else {
            match marker {
                Marker::Absent => Action::SendWarning,
                Marker::AgeUnknown => Action::SendWarning,
                Marker::Aged(hours) => if hours >= t.grace_hours {
                    Action::DeleteChannel
                } else {
                    Action::NoAction
                },
            }
        },
        None => match marker {
            Marker::AgeUnknown => Action::SendWarning,
            _ => Action::NoAction,
        },
    }
}

/// Decides what is done to a channel that has been inactive for `age_days`
/// whole days, or for a time that cannot be told, and in which the warning
/// `marker` stands.
pub fn decide(thresholds: Thresholds, age_days: Option<i64>, marker: Marker) -> (r: Action)
    ensures
        r == action_for(thresholds, age_days, marker),
{
    match age_days {
        Some(days) => {
            if days < thresholds.warn_after_days as i64 {
                Action::NoAction
            } else if days < thresholds.delete_after_days as i64 {
                Action::SendWarning
            } else {
                match marker {
                    Marker::Absent => Action::SendWarning,
                    Marker::AgeUnknown => Action::SendWarning,
                    Marker::Aged(hours) => {
                        if hours >= thresholds.grace_hours as i64 {
                            Action::DeleteChannel
                        } else {
                            Action::NoAction
                        }
                    },
                }
            }
        },
        None => match marker {
            Marker::AgeUnknown => Action::SendWarning,
            _ => Action::NoAction,
        },
    }
}

/// Tests whether the action for this inactivity depends on the standing
/// warning, so that the warning has to be looked for.
pub fn needs_marker(thresholds: Thresholds, age_days: i64) -> (r: bool)
    ensures
        r == (age_days >= thresholds.delete_after_days),
        !r ==> forall|m: Marker| #[trigger]
            action_for(thresholds, Some(age_days), m) == action_for(
                thresholds,
                Some(age_days),
                Marker::Absent,
            ),
{
    age_days >= thresholds.delete_after_days as i64
}

/// The decision table under the usual thresholds, row by row, in days and
/// hours.
pub proof fn lemma_decision_table(age_days: i64, marker: Marker)
    ensures
        age_days < 6 ==> action_for(standard_thresholds(), Some(age_days), marker)
            == Action::NoAction,
        age_days == 6 ==> action_for(standard_thresholds(), Some(age_days), marker)
            == Action::SendWarning,
        age_days >= 7 && marker is Absent ==> action_for(
            standard_thresholds(),
            Some(age_days),
            marker,
        ) == Action::SendWarning,
        age_days >= 7 && marker is AgeUnknown ==> action_for(
            standard_thresholds(),
            Some(age_days),
            marker,
        ) == Action::SendWarning,
        age_days >= 7 && marker is Aged && marker->0 >= 22 ==> action_for(
            standard_thresholds(),
            Some(age_days),
            marker,
        ) == Action::DeleteChannel,
        age_days >= 7 && marker is Aged && marker->0 < 22 ==> action_for(
            standard_thresholds(),
            Some(age_days),
            marker,
        ) == Action::NoAction,
{
}

/// A channel is deleted only when it is known to have been inactive for
/// the deletion threshold and a warning has stood in it for the grace
/// period.
pub proof fn lemma_delete_needs_aged_warning(t: Thresholds, age_days: Option<i64>, marker: Marker)
    requires
        action_for(t, age_days, marker) == Action::DeleteChannel,
    ensures
        age_days matches Some(days) && days >= t.delete_after_days,
        marker matches Marker::Aged(hours) && hours >= t.grace_hours,
{
}

/// A warning that cannot be dated is sent again, unless the channel is
/// known to be below the warning threshold.
pub proof fn lemma_undated_marker_warns(t: Thresholds, age_days: Option<i64>)
    requires
        !(age_days matches Some(days) && days < t.warn_after_days),
    ensures
        action_for(t, age_days, Marker::AgeUnknown) == Action::SendWarning,
{
}

} // verus!
