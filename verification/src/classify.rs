//! Which channels a sweep looks at.
//!
//! A channel is permanent if its name ends with the permanent suffix, and
//! temporary otherwise. Nothing else marks a channel: the name is read anew
//! on every run. Of the temporary channels only those that carry text have
//! a history to be judged by.

use vstd::prelude::*;
use crate::config::{Config, ConfigView};
use crate::message::{Channel, ChannelKind, ChannelView};
use crate::text::{ends_with, ends_with_char};

verus! {

/// Whether a channel is subject to the lifecycle.
#[derive(Clone, Copy, Debug, PartialEq, Eq, Structural)]
pub enum Classification {
    /// The channel is warned and deleted when it falls idle.
    Temporary,
    /// The channel is never touched.
    Permanent,
}

/// The classification of a channel called `name`: permanent if and only if
/// the name ends with the permanent suffix.
pub open spec fn classification_of(name: Seq<char>, cfg: ConfigView) -> Classification {
    if ends_with_char(name, cfg.permanent_suffix) {
        Classification::Permanent
    } else {
        Classification::Temporary
    }
}

/// Classifies a channel by its name.
pub fn classify(name: &str, cfg: &Config) -> (r: Classification)
    ensures
        r == classification_of(name@, cfg@),
{
    if ends_with(name, cfg.permanent_suffix()) {
        Classification::Permanent
    } else {
        Classification::Temporary
    }
}

/// Tests whether `channel` is temporary.
pub fn channel_is_temp(channel: &Channel, cfg: &Config) -> (r: bool)
    ensures
        r == (classification_of(channel@.name, cfg@) == Classification::Temporary),
{
    match classify(channel.name.as_str(), cfg) {
        Classification::Temporary => true,
        Classification::Permanent => false,
    }
}

/// What a sweep does with a channel.
#[derive(Clone, Copy, Debug, PartialEq, Eq, Structural)]
pub enum Gate {
    /// The channel is permanent and is passed over.
    Permanent,
    /// The channel is temporary but carries no text, and is passed over.
    Voice,
    /// The channel is temporary and carries text: a run is due.
    Evaluate,
}

/// What a sweep does with `channel`.
pub open spec fn gate_of(channel: ChannelView, cfg: ConfigView) -> Gate {
    if classification_of(channel.name, cfg) == Classification::Permanent {
        Gate::Permanent
    } else if channel.kind == ChannelKind::Text {
        Gate::Evaluate
    } else {
        Gate::Voice
    }
}

/// Says whether a sweep runs over `channel` or passes it over, and why.
pub fn gate(channel: &Channel, cfg: &Config) -> (r: Gate)
    ensures
        r == gate_of(channel@, cfg@),
{
    if !channel_is_temp(channel, cfg) {
        Gate::Permanent
    } else {
        match channel.kind {
            ChannelKind::Text => Gate::Evaluate,
            ChannelKind::Voice => Gate::Voice,
        }
    }
}

/// A name that ends with the permanent suffix makes a channel permanent,
/// and every other name makes it temporary.
pub proof fn lemma_classification(name: Seq<char>, cfg: ConfigView)
    ensures
        name.len() > 0 && name.last() == cfg.permanent_suffix ==> classification_of(name, cfg)
            == Classification::Permanent,
        !(name.len() > 0 && name.last() == cfg.permanent_suffix) ==> classification_of(name, cfg)
            == Classification::Temporary,
{
}

} // verus!
