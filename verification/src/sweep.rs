//! A sweep over the channels of a server, from a record of their histories.

use vstd::prelude::*;
use crate::classify::{gate, gate_of, Gate};
use crate::config::{Config, ConfigView};
use crate::engine::{Outcome, OutcomeView};
use crate::message::{Channel, ChannelView, Message, MessageView};
use crate::replay::{outcome_of, process_temp_text_channel};

verus! {

/// A channel together with its history, the most recent message first.
#[derive(Debug, PartialEq, Eq)]
pub struct ChannelRecord {
    /// The channel.
    pub channel: Channel,
    /// Its messages, the most recent first.
    pub history: Vec<Message>,
}

/// A channel and its history as plain values.
pub struct ChannelRecordView {
    pub channel: ChannelView,
    pub history: Seq<MessageView>,
}

impl View for ChannelRecord {
    type V = ChannelRecordView;

    open spec fn view(&self) -> ChannelRecordView {
        ChannelRecordView { channel: self.channel@, history: self.history.deep_view() }
    }
}

/// What a sweep made of a channel.
#[derive(Debug, PartialEq, Eq)]
pub enum Disposition {
    /// The channel is permanent and was passed over.
    Permanent,
    /// The channel is temporary but carries no text, and was passed over.
    Voice,
    /// A run went over the channel and came to this.
    Evaluated(Outcome),
}

/// A disposition as plain values.
pub enum DispositionView {
    Permanent,
    Voice,
    Evaluated(OutcomeView),
}

impl View for Disposition {
    type V = DispositionView;

    open spec fn view(&self) -> DispositionView {
        match *self {
            Disposition::Permanent => DispositionView::Permanent,
            Disposition::Voice => DispositionView::Voice,
            Disposition::Evaluated(o) => DispositionView::Evaluated(o@),
        }
    }
}

/// What a sweep at `now` makes of the channel on `record`.
pub open spec fn disposition_of(cfg: ConfigView, record: ChannelRecordView, now: i64)
    -> DispositionView {
    match gate_of(record.channel, cfg) {
        Gate::Permanent => DispositionView::Permanent,
        Gate::Voice => DispositionView::Voice,
        Gate::Evaluate => DispositionView::Evaluated(outcome_of(cfg, record.history, now)),
    }
}

/// Passes over the channel on `record` or runs over it, as its name and
/// kind say.
pub fn process_temp_channel(cfg: &Config, record: &ChannelRecord, now: i64) -> (r: Disposition)
    ensures
        r@ == disposition_of(cfg@, record@, now),
{
    match gate(&record.channel, cfg) {
        Gate::Permanent => Disposition::Permanent,
        Gate::Voice => Disposition::Voice,
        Gate::Evaluate => Disposition::Evaluated(
            process_temp_text_channel(cfg, &record.history, now),
        ),
    }
}

/// Sweeps the channels on record, each by itself and in the order given,
/// and says what is to be done to each.
pub fn clear_old_channels(cfg: &Config, records: &Vec<ChannelRecord>, now: i64) -> (r: Vec<
    Disposition,
>)
    ensures
        r.len() == records.len(),
        forall|i: int|
            0 <= i < records.len() ==> (#[trigger] r[i])@ == disposition_of(
                cfg@,
                records[i]@,
                now,
            ),
{
    let mut dispositions: Vec<Disposition> = Vec::new();
    let mut i: usize = 0;
    while i < records.len()
        invariant
            i <= records.len(),
            dispositions.len() == i,
            forall|j: int|
                0 <= j < i ==> (#[trigger] dispositions[j])@ == disposition_of(
                    cfg@,
                    records[j]@,
                    now,
                ),
        decreases records.len() - i,
    {
        dispositions.push(process_temp_channel(cfg, &records[i], now));
        i += 1;
    }
    dispositions
}

} // verus!
