//! One run over one temporary text channel.
//!
//! A run alternates between asking the platform for a message and deciding
//! what to ask or do next. The asking is the caller's: [`Run::request`] says
//! which message is wanted, the caller fetches it and hands the answer, with
//! the time, to [`Run::step`]. A run is over when it wants nothing more, and
//! then holds its [`Outcome`]: whether the filler text is to be posted, and
//! whether the channel is left alone, warned or deleted.
//!
//! A run first walks back to the channel's reference message and dates it.
//! Where the channel has been inactive for the deletion threshold it asks
//! for the most recent message once more, to see whether a warning stands in
//! the channel and since when. It does the same where the walk met nobody
//! but the system and ended on a message that cannot be dated: a warning
//! that cannot be dated is then sent again. A request of this second kind
//! that fails ends the run with nothing done.

use vstd::prelude::*;
use crate::config::{Config, ConfigView};
use crate::decision::{action_for, decide, needs_marker, Action};
use crate::snapshot::{find_marker, inactivity, inactivity_of, lookup_in, Lookup, Marker};
use crate::time::Age;
use crate::walker::{
    walk_begun, walk_fed, Page, PageView, Reference, ReferenceView, Walk, WalkEnd, WalkView,
    Walker, WalkerView,
};

verus! {

/// What a run found and what is to be done.
#[derive(Debug, PartialEq, Eq)]
pub struct Outcome {
    /// The reference message, and `None` where the channel gave no message.
    pub reference: Option<Reference>,
    /// For how long the channel has been inactive, and `None` where there is
    /// no reference message or its timestamp cannot be read.
    pub age: Option<Age>,
    /// How the look for the standing warning went.
    pub marker: Lookup,
    /// Whether the filler text is to be posted, so that the channel has a
    /// message to be dated by. Where it is, it goes out before the action
    /// is taken.
    pub post_filler: bool,
    /// What is to be done to the channel.
    pub action: Action,
}

/// An outcome as plain values.
pub struct OutcomeView {
    pub reference: Option<ReferenceView>,
    pub age: Option<Age>,
    pub marker: Lookup,
    pub post_filler: bool,
    pub action: Action,
}

impl View for Outcome {
    type V = OutcomeView;

    open spec fn view(&self) -> OutcomeView {
        OutcomeView {
            reference: match self.reference {
                Some(r) => Some(r@),
                None => None,
            },
            age: self.age,
            marker: self.marker,
            post_filler: self.post_filler,
            action: self.action,
        }
    }
}

impl Clone for Outcome {
    fn clone(&self) -> (r: Self)
        ensures
            r@ == self@,
    {
        Outcome {
            reference: match &self.reference {
                Some(reference) => Some(reference.clone()),
                None => None,
            },
            age: self.age,
            marker: self.marker,
            post_filler: self.post_filler,
            action: self.action,
        }
    }
}

/// What a run wants from the platform next.
#[derive(Clone, Copy, Debug, PartialEq, Eq, Structural)]
pub enum Request {
    /// The channel's most recent message.
    Newest,
    /// The message just before the one with this identifier.
    Before(u64),
    /// Nothing: the run is over.
    Nothing,
}

/// A run between two answers of the platform.
#[derive(Debug, PartialEq, Eq)]
pub enum Run {
    /// The run has not begun.
    Start,
    /// The run is walking back to the reference message.
    Walking(Walker),
    /// The run is looking for the standing warning: the channel has been
    /// inactive for the deletion threshold, or nobody but the system wrote
    /// in it and its inactivity cannot be told.
    Looking {
        /// The reference message.
        reference: Reference,
        /// For how long the channel has been inactive, and `None` where
        /// the timestamp of the reference message cannot be read.
        age: Option<Age>,
    },
    /// The run is over.
    Over(Outcome),
}

/// A run as plain values.
pub enum RunView {
    Start,
    Walking(WalkerView),
    Looking { reference: ReferenceView, age: Option<Age> },
    Over(OutcomeView),
}

impl View for Run {
    type V = RunView;

    open spec fn view(&self) -> RunView {
        match *self {
            Run::Start => RunView::Start,
            Run::Walking(w) => RunView::Walking(w@),
            Run::Looking { reference, age } => RunView::Looking { reference: reference@, age },
            Run::Over(o) => RunView::Over(o@),
        }
    }
}

impl Clone for Run {
    fn clone(&self) -> (r: Self)
        ensures
            r@ == self@,
    {
        match self {
            Run::Start => Run::Start,
            Run::Walking(w) => Run::Walking(w.clone()),
            Run::Looking { reference, age } => Run::Looking {
                reference: reference.clone(),
                age: *age,
            },
            Run::Over(o) => Run::Over(o.clone()),
        }
    }
}

/// What the run `run` wants from the platform.
pub open spec fn request_of(run: RunView) -> Request {
    match run {
        RunView::Start => Request::Newest,
        RunView::Walking(w) => Request::Before(w.cursor),
        RunView::Looking { .. } => Request::Newest,
        RunView::Over(_) => Request::Nothing,
    }
}

/// The outcome of a run that found no message in the channel: the filler
/// text is posted and nothing else is done.
pub open spec fn outcome_empty() -> OutcomeView {
    OutcomeView {
        reference: None,
        age: None,
        marker: Lookup::NotAsked,
        post_filler: true,
        action: Action::NoAction,
    }
}

/// The outcome of a run whose reference message is someone else's and
/// cannot be dated: the channel is left alone.
pub open spec fn outcome_undated(reference: ReferenceView) -> OutcomeView {
    OutcomeView {
        reference: Some(reference),
        age: None,
        marker: Lookup::NotAsked,
        post_filler: false,
        action: Action::NoAction,
    }
}

/// The outcome of a run that found the channel inactive for less than the
/// deletion threshold, and so did not look for a warning.
pub open spec fn outcome_early(cfg: ConfigView, reference: ReferenceView, age: Age)
    -> OutcomeView {
    OutcomeView {
        reference: Some(reference),
        age: Some(age),
        marker: Lookup::NotAsked,
        post_filler: false,
        action: action_for(cfg.thresholds, Some(age.days), Marker::Absent),
    }
}

/// The outcome of a run that looked for the standing warning and was
/// answered `newest`.
///
/// Where the request failed, nothing is posted and nothing done: the
/// channel is left for the next run. Otherwise the inactivity and the
/// warning decide. Where the platform had no message to show, the channel
/// counts as not warned, and the filler text is posted.
pub open spec fn outcome_late(
    cfg: ConfigView,
    reference: ReferenceView,
    age: Option<Age>,
    newest: PageView,
    now: i64,
) -> OutcomeView {
    OutcomeView {
        reference: Some(reference),
        age,
        marker: lookup_in(cfg, newest, now),
        post_filler: newest is NoMessage,
        action: match lookup_in(cfg, newest, now) {
            Lookup::Answered(marker) => action_for(
                cfg.thresholds,
                match age {
                    Some(age) => Some(age.days),
                    None => None,
                },
                marker,
            ),
            _ => Action::NoAction,
        },
    }
}

/// Whether a run whose walk has settled on `reference`, of the age `age`,
/// goes on to look for the standing warning: it does where the channel has
/// been inactive for the deletion threshold, and where the inactivity
/// cannot be told and the walk met nobody but the system.
pub open spec fn looks_for_marker(cfg: ConfigView, reference: ReferenceView, age: Option<Age>)
    -> bool {
    match age {
        Some(age) => age.days >= cfg.thresholds.delete_after_days,
        None => reference.end != WalkEnd::Found,
    }
}

/// How a run goes on at `now` from where its walk stands.
pub open spec fn run_after_walk(cfg: ConfigView, walk: WalkView, now: i64) -> RunView {
    match walk {
        WalkView::Ask(w) => RunView::Walking(w),
        WalkView::Empty => RunView::Over(outcome_empty()),
        WalkView::Settled(reference) => {
            let age = inactivity_of(reference.message, now);
            if looks_for_marker(cfg, reference, age) {
                RunView::Looking { reference, age }
            } else {
                match age {
                    Some(age) => RunView::Over(outcome_early(cfg, reference, age)),
                    None => RunView::Over(outcome_undated(reference)),
                }
            }
        },
    }
}

/// The run that follows `run` when the platform answers its request with
/// `page` and the time is `now`.
pub open spec fn run_stepped(cfg: ConfigView, run: RunView, page: PageView, now: i64) -> RunView {
    match run {
        RunView::Start => run_after_walk(cfg, walk_begun(cfg, page), now),
        RunView::Walking(w) => run_after_walk(cfg, walk_fed(cfg, w, page), now),
        RunView::Looking { reference, age } => RunView::Over(
            outcome_late(cfg, reference, age, page, now),
        ),
        RunView::Over(o) => RunView::Over(o),
    }
}

impl Run {
    /// Says what the run wants from the platform next.
    pub fn request(&self) -> (r: Request)
        ensures
            r == request_of(self@),
    {
        match self {
            Run::Start => Request::Newest,
            Run::Walking(w) => Request::Before(w.cursor),
            Run::Looking { .. } => Request::Newest,
            Run::Over(_) => Request::Nothing,
        }
    }

    /// Takes the platform's answer to the run's request and the time, and
    /// gives the run that follows. A run that is over stays as it is.
    pub fn step(self, cfg: &Config, page: Page, now: i64) -> (r: Run)
        ensures
            r@ == run_stepped(cfg@, self@, page@, now),
    {
        match self {
            Run::Start => Run::after_walk(cfg, Walker::begin(cfg, page), now),
            Run::Walking(w) => Run::after_walk(cfg, w.feed(cfg, page), now),
            Run::Looking { reference, age } => {
                let marker = find_marker(cfg, &page, now);
                let post_filler = match page {
                    Page::NoMessage => true,
                    _ => false,
                };
                let action = match marker {
                    Lookup::Answered(marker) => {
                        let days = match age {
                            Some(age) => Some(age.days),
                            None => None,
                        };
                        decide(cfg.thresholds(), days, marker)
                    },
                    _ => Action::NoAction,
                };
                Run::Over(Outcome { reference: Some(reference), age, marker, post_filler, action })
            },
            Run::Over(o) => Run::Over(o),
        }
    }

    /// The outcome of a run that is over.
    pub fn outcome(self) -> (r: Option<Outcome>)
        ensures
            match r {
                Some(o) => self@ == RunView::Over(o@),
                None => !(self@ is Over),
            },
    {
        match self {
            Run::Over(o) => Some(o),
            _ => None,
        }
    }

    fn after_walk(cfg: &Config, walk: Walk, now: i64) -> (r: Run)
        ensures
            r@ == run_after_walk(cfg@, walk@, now),
    {
        match walk {
            Walk::Ask(w) => Run::Walking(w),
            Walk::Empty => Run::Over(
                Outcome {
                    reference: None,
                    age: None,
                    marker: Lookup::NotAsked,
                    post_filler: true,
                    action: Action::NoAction,
                },
            ),
            Walk::Settled(reference) => match inactivity(&reference.message, now) {
                Err(_) => {
                    match reference.end {
                        WalkEnd::Found => Run::Over(
                            Outcome {
                                reference: Some(reference),
                                age: None,
                                marker: Lookup::NotAsked,
                                post_filler: false,
                                action: Action::NoAction,
                            },
                        ),
                        _ => Run::Looking { reference, age: None },
                    }
                },
                Ok(age) => {
                    if needs_marker(cfg.thresholds(), age.days) {
                        Run::Looking { reference, age: Some(age) }
                    } else {
                        Run::Over(
                            Outcome {
                                reference: Some(reference),
                                age: Some(age),
                                marker: Lookup::NotAsked,
                                post_filler: false,
                                action: decide(cfg.thresholds(), Some(age.days), Marker::Absent),
                            },
                        )
                    }
                },
            },
        }
    }
}

} // verus!
