//! What holds of every run: for a history known in full, stated over
//! [`outcome_of`]; for any answer of the platform, over [`run_stepped`].

use vstd::prelude::*;
use crate::config::{standard_thresholds, ConfigView};
use crate::decision::Action;
use crate::engine::{run_stepped, RunView};
use crate::message::MessageView;
use crate::replay::{outcome_of, reference_of};
use crate::snapshot::{inactivity_of, Lookup, Marker};
use crate::time::{rfc3339_millis, whole_days, whole_hours, Age};
use crate::walker::{
    all_own, all_warnings, lemma_reference_exists, lemma_reference_index, within_limit, PageView,
    ReferenceView, WalkEnd,
};

verus! {

/// A channel without a message gets the filler text, and is neither warned
/// nor deleted on that run.
pub proof fn lemma_empty_channel_is_seeded(cfg: ConfigView, h: Seq<MessageView>, now: i64)
    requires
        h.len() == 0,
    ensures
        outcome_of(cfg, h, now).post_filler,
        outcome_of(cfg, h, now).action == Action::NoAction,
        outcome_of(cfg, h, now).reference is None,
{
}

/// On a history that does not change under the run, the filler text goes
/// into the channel without a message and into no other.
pub proof fn lemma_filler_only_when_empty(cfg: ConfigView, h: Seq<MessageView>, now: i64)
    ensures
        outcome_of(cfg, h, now).post_filler <==> h.len() == 0,
{
}

/// Where the most recent message is someone else's, the channel's
/// inactivity is the age of that message.
pub proof fn lemma_foreign_head_is_reference(cfg: ConfigView, h: Seq<MessageView>)
    requires
        h.len() > 0,
        !h[0].is_own(cfg),
    ensures
        reference_of(cfg, h).message == h[0],
        reference_of(cfg, h).end == WalkEnd::Found,
{
    lemma_reference_index(within_limit(h, cfg.page_limit), cfg, 0);
}

/// A channel whose most recent message someone else wrote fewer whole
/// days ago than the warning threshold, which is usually six, is left
/// alone: it is not warned, not deleted, and nothing is posted in it.
pub proof fn lemma_recent_activity_spares(
    cfg: ConfigView,
    h: Seq<MessageView>,
    now: i64,
    written: i64,
)
    requires
        h.len() > 0,
        !h[0].is_own(cfg),
        rfc3339_millis(h[0].timestamp) == Some(written),
        whole_days(written, now) < cfg.thresholds.warn_after_days,
    ensures
        outcome_of(cfg, h, now).action == Action::NoAction,
        !outcome_of(cfg, h, now).post_filler,
{
    lemma_foreign_head_is_reference(cfg, h);
}

/// A channel that has been inactive for less than the warning threshold is
/// left alone, whoever wrote its reference message.
pub proof fn lemma_fresh_is_spared(cfg: ConfigView, h: Seq<MessageView>, now: i64, age: Age)
    requires
        h.len() > 0,
        inactivity_of(reference_of(cfg, h).message, now) == Some(age),
        age.days < cfg.thresholds.warn_after_days,
    ensures
        outcome_of(cfg, h, now).action == Action::NoAction,
        !outcome_of(cfg, h, now).post_filler,
{
}

/// A channel that has been inactive for the warning threshold and not yet
/// for the deletion threshold is warned, once: the warning is the one thing
/// posted, and the channel stays. Under the usual thresholds that is the
/// channel that has been inactive for exactly six whole days.
pub proof fn lemma_sixth_day_warns(cfg: ConfigView, h: Seq<MessageView>, now: i64, age: Age)
    requires
        h.len() > 0,
        inactivity_of(reference_of(cfg, h).message, now) == Some(age),
        cfg.thresholds.warn_after_days <= age.days < cfg.thresholds.delete_after_days,
    ensures
        outcome_of(cfg, h, now).action == Action::SendWarning,
        !outcome_of(cfg, h, now).post_filler,
{
}

/// A channel that has been inactive for the deletion threshold, usually
/// seven whole days, and whose most recent message is a warning that has
/// stood for the grace period, usually twenty-two whole hours, is deleted,
/// and nothing is posted in it.
pub proof fn lemma_expired_is_deleted(
    cfg: ConfigView,
    h: Seq<MessageView>,
    now: i64,
    age: Age,
    warned: i64,
)
    requires
        cfg.thresholds.wf(),
        h.len() > 0,
        inactivity_of(reference_of(cfg, h).message, now) == Some(age),
        age.days >= cfg.thresholds.delete_after_days,
        h[0].is_warning(cfg),
        rfc3339_millis(h[0].timestamp) == Some(warned),
        whole_hours(warned, now) >= cfg.thresholds.grace_hours,
    ensures
        outcome_of(cfg, h, now).action == Action::DeleteChannel,
        !outcome_of(cfg, h, now).post_filler,
{
}

/// A channel that has been inactive for the deletion threshold, and whose
/// most recent message is a warning younger than the grace period, is left
/// alone: its grace period is running.
pub proof fn lemma_grace_is_kept(
    cfg: ConfigView,
    h: Seq<MessageView>,
    now: i64,
    age: Age,
    warned: i64,
)
    requires
        h.len() > 0,
        inactivity_of(reference_of(cfg, h).message, now) == Some(age),
        age.days >= cfg.thresholds.delete_after_days,
        h[0].is_warning(cfg),
        rfc3339_millis(h[0].timestamp) == Some(warned),
        whole_hours(warned, now) < cfg.thresholds.grace_hours,
    ensures
        outcome_of(cfg, h, now).action == Action::NoAction,
        !outcome_of(cfg, h, now).post_filler,
{
}

/// A channel that has been inactive for the deletion threshold and whose
/// most recent message is no warning is warned, not deleted: no channel is
/// deleted on the run that first finds it due.
pub proof fn lemma_unwarned_is_warned(cfg: ConfigView, h: Seq<MessageView>, now: i64, age: Age)
    requires
        cfg.thresholds.wf(),
        h.len() > 0,
        inactivity_of(reference_of(cfg, h).message, now) == Some(age),
        age.days >= cfg.thresholds.delete_after_days,
        !h[0].is_warning(cfg),
    ensures
        outcome_of(cfg, h, now).action == Action::SendWarning,
{
}

/// In a channel where the system alone has written, and no warning among
/// it, the inactivity is counted from the most recent message; the walk
/// through such a history ends without having met anyone.
pub proof fn lemma_own_history_falls_back_on_newest(cfg: ConfigView, h: Seq<MessageView>)
    requires
        h.len() > 0,
        all_own(h, cfg),
        forall|j: int| 0 <= j < h.len() ==> !(#[trigger] h[j]).is_warning(cfg),
    ensures
        reference_of(cfg, h).message == h[0],
        reference_of(cfg, h).end != WalkEnd::Found,
{
    lemma_reference_index(within_limit(h, cfg.page_limit), cfg, 0);
}

/// The reference message is a warning only where the walk saw nothing but
/// warnings: a warning is not taken for activity while the walk has seen
/// any other message.
pub proof fn lemma_warning_is_last_resort(cfg: ConfigView, h: Seq<MessageView>)
    requires
        h.len() > 0,
        reference_of(cfg, h).message.is_warning(cfg),
    ensures
        all_warnings(within_limit(h, cfg.page_limit), cfg),
{
    lemma_reference_exists(within_limit(h, cfg.page_limit), cfg);
}

/// Where the system alone wrote what the walk saw, and the most recent
/// message is a warning that cannot be dated, the warning is sent again and
/// nothing else is posted or done. It makes no difference whether the
/// inactivity can be told: the one channel left alone is the one known to
/// have been inactive for less than the warning threshold.
pub proof fn lemma_undated_warning_is_resent(cfg: ConfigView, h: Seq<MessageView>, now: i64)
    requires
        h.len() > 0,
        all_own(within_limit(h, cfg.page_limit), cfg),
        h[0].is_warning(cfg),
        rfc3339_millis(h[0].timestamp) is None,
    ensures
        !outcome_of(cfg, h, now).post_filler,
        outcome_of(cfg, h, now).action == (match inactivity_of(
            reference_of(cfg, h).message,
            now,
        ) {
            Some(age) => if age.days < cfg.thresholds.warn_after_days {
                Action::NoAction
            } else {
                Action::SendWarning
            },
            None => Action::SendWarning,
        }),
{
    lemma_reference_exists(within_limit(h, cfg.page_limit), cfg);
}

/// A channel that holds nothing but one warning of the system that cannot
/// be dated is warned again.
pub proof fn lemma_lone_undated_warning_is_resent(cfg: ConfigView, h: Seq<MessageView>, now: i64)
    requires
        h.len() == 1,
        h[0].is_warning(cfg),
        rfc3339_millis(h[0].timestamp) is None,
    ensures
        outcome_of(cfg, h, now).action == Action::SendWarning,
        !outcome_of(cfg, h, now).post_filler,
        outcome_of(cfg, h, now).marker == Lookup::Answered(Marker::AgeUnknown),
{
    let seen = within_limit(h, cfg.page_limit);
    assert(seen == h);
    lemma_reference_exists(seen, cfg);
    lemma_undated_warning_is_resent(cfg, h, now);
}

/// A channel is deleted only where it holds a message, has been inactive
/// for the deletion threshold, and its most recent message is a warning
/// that has stood for the grace period. Nothing is posted in a channel that
/// is deleted.
pub proof fn lemma_delete_only_after_grace(cfg: ConfigView, h: Seq<MessageView>, now: i64)
    requires
        outcome_of(cfg, h, now).action == Action::DeleteChannel,
    ensures
        h.len() > 0,
        !outcome_of(cfg, h, now).post_filler,
        inactivity_of(reference_of(cfg, h).message, now) matches Some(age) && age.days
            >= cfg.thresholds.delete_after_days,
        h[0].is_warning(cfg),
        rfc3339_millis(h[0].timestamp) matches Some(warned) && whole_hours(warned, now)
            >= cfg.thresholds.grace_hours,
{
}

/// Two runs in close succession over a channel that is due for deletion
/// but freshly warned delete nothing: so long as the warning is younger
/// than the grace period at the second run, both runs leave the channel as
/// it is, and so the second finds it as the first did.
pub proof fn lemma_second_run_keeps_grace(
    cfg: ConfigView,
    h: Seq<MessageView>,
    now: i64,
    later: i64,
    age: Age,
    warned: i64,
)
    requires
        h.len() > 0,
        inactivity_of(reference_of(cfg, h).message, now) == Some(age),
        age.days >= cfg.thresholds.delete_after_days,
        h[0].is_warning(cfg),
        rfc3339_millis(h[0].timestamp) == Some(warned),
        now <= later,
        whole_hours(warned, later) < cfg.thresholds.grace_hours,
    ensures
        outcome_of(cfg, h, now).action == Action::NoAction,
        !outcome_of(cfg, h, now).post_filler,
        outcome_of(cfg, h, later).action == Action::NoAction,
        !outcome_of(cfg, h, later).post_filler,
{
}

/// Once a run has posted its warning, no run deletes the channel while
/// that warning is the most recent message and younger than the grace
/// period, whatever else the history holds.
pub proof fn lemma_warning_buys_grace(
    cfg: ConfigView,
    h: Seq<MessageView>,
    posted: MessageView,
    later: i64,
    warned: i64,
)
    requires
        cfg.wf(),
        posted.author == cfg.self_id,
        posted.content == cfg.warning_text,
        rfc3339_millis(posted.timestamp) == Some(warned),
        whole_hours(warned, later) < cfg.thresholds.grace_hours,
    ensures
        outcome_of(cfg, seq![posted] + h, later).action != Action::DeleteChannel,
{
}

/// Whatever the platform answers, a run ends with a deletion only upon the
/// answer to its look for the standing warning, in a channel found inactive
/// for the deletion threshold, and only where that answer shows a warning of
/// the system that has stood for the grace period. Nothing is posted then.
pub proof fn lemma_step_deletes_only_after_grace(
    cfg: ConfigView,
    run: RunView,
    page: PageView,
    now: i64,
)
    requires
        !(run is Over),
        run_stepped(cfg, run, page, now) matches RunView::Over(o) && o.action
            == Action::DeleteChannel,
    ensures
        run matches RunView::Looking { age: Some(age), .. } && age.days
            >= cfg.thresholds.delete_after_days,
        page matches PageView::Message(m) && m.is_warning(cfg) && (rfc3339_millis(
            m.timestamp,
        ) matches Some(warned) && whole_hours(warned, now) >= cfg.thresholds.grace_hours),
        run_stepped(cfg, run, page, now) matches RunView::Over(o) && !o.post_filler,
{
}

/// A look for the standing warning that fails ends the run with nothing
/// posted and nothing done, and the outcome says that the look failed: it
/// is not taken for a channel in which no warning stands.
pub proof fn lemma_failed_lookup_sends_nothing(
    cfg: ConfigView,
    reference: ReferenceView,
    age: Option<Age>,
    now: i64,
)
    ensures
        run_stepped(cfg, RunView::Looking { reference, age }, PageView::Failed, now)
            matches RunView::Over(o) && !o.post_filler && o.action == Action::NoAction
            && o.marker == Lookup::Failed,
{
}

/// Whatever the platform answers, the filler text is posted only upon an
/// answer that showed no message: a channel without one, or a first
/// request that failed.
pub proof fn lemma_step_posts_filler_for_want_of_a_message(
    cfg: ConfigView,
    run: RunView,
    page: PageView,
    now: i64,
)
    requires
        !(run is Over),
        run_stepped(cfg, run, page, now) matches RunView::Over(o) && o.post_filler,
    ensures
        page is NoMessage || (page is Failed && run is Start),
        run is Start || run is Looking,
{
}

/// Whatever the platform answers, a run that walked past nobody but the
/// system, and whose look for the standing warning shows a warning that
/// cannot be dated, sends the warning again, unless the channel is known to
/// have been inactive for less than the warning threshold.
pub proof fn lemma_step_resends_undated_warning(
    cfg: ConfigView,
    reference: ReferenceView,
    age: Option<Age>,
    newest: MessageView,
    now: i64,
)
    requires
        newest.is_warning(cfg),
        rfc3339_millis(newest.timestamp) is None,
        !(age matches Some(a) && a.days < cfg.thresholds.warn_after_days),
    ensures
        run_stepped(cfg, RunView::Looking { reference, age }, PageView::Message(newest), now)
            matches RunView::Over(o) && o.action == Action::SendWarning && !o.post_filler,
{
}

/// Under the usual thresholds a channel is warned on its sixth whole day
/// of inactivity, and on no earlier one.
pub proof fn lemma_usual_sixth_day(cfg: ConfigView, h: Seq<MessageView>, now: i64, age: Age)
    requires
        cfg.thresholds == standard_thresholds(),
        h.len() > 0,
        inactivity_of(reference_of(cfg, h).message, now) == Some(age),
    ensures
        age.days < 6 ==> outcome_of(cfg, h, now).action == Action::NoAction,
        age.days == 6 ==> outcome_of(cfg, h, now).action == Action::SendWarning,
        age.days <= 6 ==> !outcome_of(cfg, h, now).post_filler,
{
}

/// How many answers the run `run` can take at most, whatever the platform
/// answers.
pub open spec fn answers_at_most(cfg: ConfigView, run: RunView) -> int {
    match run {
        RunView::Start => cfg.page_limit + 2,
        RunView::Walking(w) => if w.pages_left > 0 {
            w.pages_left + 1
        } else {
            2
        },
        RunView::Looking { .. } => 1,
        RunView::Over(_) => 0,
    }
}

/// Every answer brings a run nearer its end, whatever the answer is. A run
/// that starts afresh is over after `page_limit + 2` answers at most: the
/// most recent message, `page_limit` older ones, and the most recent once
/// more.
pub proof fn lemma_run_ends(cfg: ConfigView, run: RunView, page: PageView, now: i64)
    requires
        !(run is Over),
    ensures
        answers_at_most(cfg, run_stepped(cfg, run, page, now)) < answers_at_most(cfg, run),
{
}

} // verus!
