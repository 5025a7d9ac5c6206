//! A run over a recorded history.
//!
//! A history is the messages of a channel with the most recent first. Given
//! one in full, what a run comes to can be said outright, without the
//! requests and answers in between: [`outcome_of`] says it.
//! [`process_temp_text_channel`] gets there the long way, by a run that is
//! answered from the record, and so shows that a run comes to what
//! [`outcome_of`] says whenever the platform answers from one unchanging
//! history.

use vstd::prelude::*;
use crate::config::{Config, ConfigView};
use crate::engine::{
    looks_for_marker, outcome_early, outcome_empty, outcome_late, outcome_undated, request_of,
    run_stepped, Outcome, OutcomeView, Request, Run, RunView,
};
use crate::message::{Message, MessageView};
use crate::snapshot::inactivity_of;
use crate::walker::{
    all_own, lemma_reference_exists, lemma_reference_index, reference_index, within_limit, Page,
    PageView, ReferenceView, WalkEnd,
};

verus! {

/// The reference message that a run settles on in a channel whose history
/// is `h`, and how its walk ends there.
pub open spec fn reference_of(cfg: ConfigView, h: Seq<MessageView>) -> ReferenceView
    recommends
        h.len() > 0,
{
    let seen = within_limit(h, cfg.page_limit);
    let message = seen[reference_index(seen, cfg)];
    ReferenceView {
        message,
        end: if !message.is_own(cfg) {
            WalkEnd::Found
        } else if h.len() > cfg.page_limit {
            WalkEnd::LimitReached
        } else {
            WalkEnd::Exhausted
        },
    }
}

/// What a run at `now` comes to in a channel whose history is `h`.
///
/// An empty channel gets the filler text and nothing else. Otherwise the
/// channel's inactivity is the age of its reference message. Below the
/// deletion threshold the inactivity alone decides. From it on the most
/// recent message is looked at once more, and the warning that stands in it
/// decides with the inactivity. Where the reference message cannot be
/// dated, the channel is left alone if the message is someone else's; if it
/// is the system's own, the most recent message is looked at as well, and a
/// warning that cannot be dated either is sent again.
pub open spec fn outcome_of(cfg: ConfigView, h: Seq<MessageView>, now: i64) -> OutcomeView {
    if h.len() == 0 {
        outcome_empty()
    } else {
        let reference = reference_of(cfg, h);
        let age = inactivity_of(reference.message, now);
        if looks_for_marker(cfg, reference, age) {
            outcome_late(cfg, reference, age, PageView::Message(h[0]), now)
        } else {
            match age {
                Some(age) => outcome_early(cfg, reference, age),
                None => outcome_undated(reference),
            }
        }
    }
}

/// What a platform that holds the history `h` answers when asked for the
/// message at index `k`.
spec fn served(h: Seq<MessageView>, k: int) -> PageView {
    if 0 <= k < h.len() {
        PageView::Message(h[k])
    } else {
        PageView::NoMessage
    }
}

/// The index in the history of the message that the run `run` asks for,
/// when the message it saw last is at index `k`.
spec fn wanted(run: RunView, k: int) -> int {
    match request_of(run) {
        Request::Before(_) => k + 1,
        _ => 0,
    }
}

/// The run `run`, whose last message seen is `h[k]`, is on its way to
/// `outcome_of(cfg, h, now)`.
spec fn on_course(
    cfg: ConfigView,
    h: Seq<MessageView>,
    run: RunView,
    k: int,
    now: i64,
) -> bool {
    match run {
        RunView::Start => k == 0,
        RunView::Walking(w) => {
            &&& 0 <= k < h.len()
            &&& k < cfg.page_limit
            &&& w.pages_left == cfg.page_limit - k
            &&& w.cursor == h[k].id
            &&& all_own(h.take(k + 1), cfg)
            &&& w.fallback == h[reference_index(h.take(k + 1), cfg)]
        },
        RunView::Looking { reference, age } => {
            &&& h.len() > 0
            &&& reference == reference_of(cfg, h)
            &&& age == inactivity_of(reference.message, now)
            &&& looks_for_marker(cfg, reference, age)
        },
        RunView::Over(o) => o == outcome_of(cfg, h, now),
    }
}

/// How many more answers the run `run` can take at most, when the message
/// it saw last is at index `k` of a history of `len` messages.
spec fn answers_left(run: RunView, k: int, len: int) -> int {
    match run {
        RunView::Start => len + 3,
        RunView::Walking(_) => len - k + 1,
        RunView::Looking { .. } => 1,
        RunView::Over(_) => 0,
    }
}

/// One more message of the system's own, seen at index `n`, moves the
/// reference of what was seen to `n` where the reference was a warning and
/// the message is none, and leaves it otherwise.
proof fn lemma_reference_extends(h: Seq<MessageView>, cfg: ConfigView, n: int)
    requires
        1 <= n < h.len(),
        all_own(h.take(n), cfg),
        h[n].is_own(cfg),
    ensures
        all_own(h.take(n + 1), cfg),
        ({
            let f = reference_index(h.take(n), cfg);
            reference_index(h.take(n + 1), cfg) == if h[f].is_warning(cfg) && !h[n].is_warning(
                cfg,
            ) {
                n
            } else {
                f
            }
        }),
{
    let short = h.take(n);
    let long = h.take(n + 1);
    lemma_reference_exists(short, cfg);
    let f = reference_index(short, cfg);
    assert(long.take(f) == short.take(f));
    if h[f].is_warning(cfg) && !h[n].is_warning(cfg) {
        lemma_reference_index(long, cfg, n);
    } else {
        lemma_reference_index(long, cfg, f);
    }
}

/// The first message of someone else, met at index `n`, is the reference
/// of every history that goes on from there.
proof fn lemma_reference_met(h: Seq<MessageView>, cfg: ConfigView, n: int)
    requires
        0 <= n < h.len(),
        all_own(h.take(n), cfg),
        !h[n].is_own(cfg),
    ensures
        reference_index(h, cfg) == n,
{
    lemma_reference_index(h, cfg, n);
}

/// A run that is on its way to `outcome_of(cfg, h, now)` still is after
/// the answer that a platform holding `h` gives to its request, and can
/// take fewer answers than before.
proof fn lemma_on_course(cfg: ConfigView, h: Seq<MessageView>, run: RunView, k: int, now: i64)
    requires
        on_course(cfg, h, run, k, now),
        !(run is Over),
    ensures
        on_course(
            cfg,
            h,
            run_stepped(cfg, run, served(h, wanted(run, k)), now),
            wanted(run, k),
            now,
        ),
        answers_left(
            run_stepped(cfg, run, served(h, wanted(run, k)), now),
            wanted(run, k),
            h.len() as int,
        ) < answers_left(run, k, h.len() as int),
{
    let limit = cfg.page_limit;
    let seen = within_limit(h, limit);
    match run {
        RunView::Start => {
            if h.len() > 0 {
                if !h[0].is_own(cfg) {
                    lemma_reference_met(seen, cfg, 0);
                } else {
                    lemma_reference_index(h.take(1), cfg, 0);
                }
            }
        },
        RunView::Walking(w) => {
            let n = k + 1;
            if n < h.len() {
                if !h[n].is_own(cfg) {
                    lemma_reference_met(seen, cfg, n);
                } else {
                    lemma_reference_extends(h, cfg, n);
                    lemma_reference_exists(h.take(n + 1), cfg);
                }
            } else {
                assert(h.take(n) == h);
                lemma_reference_exists(h, cfg);
            }
        },
        RunView::Looking { reference, age } => {},
        RunView::Over(o) => {},
    }
}

/// The answer of a platform that holds `history` to a request for the
/// message at index `k`.
fn page_at(history: &Vec<Message>, k: usize) -> (r: Page)
    ensures
        r@ == served(history.deep_view(), k as int),
{
    if k < history.len() {
        Page::Message(history[k].clone())
    } else {
        Page::NoMessage
    }
}

/// Runs over a temporary text channel whose history is on record, with
/// the most recent message first, and says what the run comes to.
pub fn process_temp_text_channel(cfg: &Config, history: &Vec<Message>, now: i64) -> (r: Outcome)
    ensures
        r@ == outcome_of(cfg@, history.deep_view(), now),
{
    let mut run = Run::Start;
    let mut k: usize = 0;
    loop
        invariant
            on_course(cfg@, history.deep_view(), run@, k as int, now),
        ensures
            run@ is Over,
        decreases answers_left(run@, k as int, history.len() as int),
    {
        let request = run.request();
        proof {
            if !(run@ is Over) {
                lemma_on_course(cfg@, history.deep_view(), run@, k as int, now);
            }
        }
        match request {
            Request::Nothing => {
                break ;
            },
            Request::Newest => {
                k = 0;
            },
            Request::Before(_) => {
                k = k + 1;
            },
        }
        let page = page_at(history, k);
        run = run.step(cfg, page, now);
    }
    match run.outcome() {
        Some(outcome) => outcome,
        None => vstd::pervasive::unreached(),
    }
}

} // verus!
