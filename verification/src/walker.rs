//! The walk back through a channel's history to its last real activity.
//!
//! Messages that the system posted itself say nothing about whether a
//! channel is in use, so the walk starts at the most recent message and asks
//! for older ones, one at a time, until it meets a message that someone else
//! wrote. That message is the reference: the channel's inactivity is counted
//! from it. Where the history ends, a request fails or the page limit is
//! spent before such a message turns up, the walk falls back on one of the
//! system's own messages: the most recent that is no warning, so that a
//! warning does not restart the clock it was sent by, and the most recent
//! message of all where there are only warnings.
//!
//! The walk itself asks for nothing. [`Walker::begin`] and [`Walker::feed`]
//! take what the platform answered and say whether another message is wanted.

use vstd::prelude::*;
use crate::config::{Config, ConfigView};
use crate::message::{message_is_warning, Message, MessageView};

verus! {

/// The system wrote every message of `h`.
pub open spec fn all_own(h: Seq<MessageView>, cfg: ConfigView) -> bool {
    forall|j: int| 0 <= j < h.len() ==> (#[trigger] h[j]).is_own(cfg)
}

/// Every message of `h` is a warning.
pub open spec fn all_warnings(h: Seq<MessageView>, cfg: ConfigView) -> bool {
    forall|j: int| 0 <= j < h.len() ==> (#[trigger] h[j]).is_warning(cfg)
}

/// `h[i]` is the reference message of the history `h`, whose first message
/// is the most recent.
///
/// Every message more recent than the reference is the system's own. If
/// the reference is someone else's, that is all: it is the most recent such
/// message. If it is the system's own, nobody else wrote anything in `h`,
/// every message more recent than the reference is a warning, and the
/// reference is itself a warning only where it is the most recent message
/// and `h` holds nothing but warnings.
pub open spec fn is_reference(h: Seq<MessageView>, cfg: ConfigView, i: int) -> bool {
    &&& 0 <= i < h.len()
    &&& all_own(h.take(i), cfg)
    &&& h[i].is_own(cfg) ==> {
        &&& all_own(h, cfg)
        &&& all_warnings(h.take(i), cfg)
        &&& h[i].is_warning(cfg) ==> i == 0 && all_warnings(h, cfg)
    }
}

/// The index in `h` of its reference message. A history that is not empty
/// has exactly one: see [`lemma_reference_exists`] and
/// [`lemma_reference_unique`].
pub open spec fn reference_index(h: Seq<MessageView>, cfg: ConfigView) -> int {
    choose|i: int| is_reference(h, cfg, i)
}

/// The part of the history `h` that a walk of at most `limit` requests for
/// an older message can get to see.
pub open spec fn within_limit(h: Seq<MessageView>, limit: u32) -> Seq<MessageView> {
    if h.len() <= limit {
        h
    } else {
        h.take(limit + 1)
    }
}

/// What the platform answered to a request for one message.
#[derive(Debug, PartialEq, Eq)]
pub enum Page {
    /// The message asked for.
    Message(Message),
    /// There is no such message: the history ends here.
    NoMessage,
    /// The request failed.
    Failed,
}

/// A platform's answer as plain values.
pub enum PageView {
    Message(MessageView),
    NoMessage,
    Failed,
}

impl View for Page {
    type V = PageView;

    open spec fn view(&self) -> PageView {
        match *self {
            Page::Message(m) => PageView::Message(m@),
            Page::NoMessage => PageView::NoMessage,
            Page::Failed => PageView::Failed,
        }
    }
}

impl Clone for Page {
    fn clone(&self) -> (r: Self)
        ensures
            r@ == self@,
    {
        match self {
            Page::Message(m) => Page::Message(m.clone()),
            Page::NoMessage => Page::NoMessage,
            Page::Failed => Page::Failed,
        }
    }
}

/// How a walk came to its reference message.
#[derive(Clone, Copy, Debug, PartialEq, Eq, Structural)]
pub enum WalkEnd {
    /// It met a message that someone else wrote.
    Found,
    /// The platform reported no older message.
    Exhausted,
    /// A request for an older message failed.
    Failed,
    /// The page limit was spent.
    LimitReached,
}

/// The message from which a channel's inactivity is counted.
#[derive(Debug, PartialEq, Eq)]
pub struct Reference {
    /// The message.
    pub message: Message,
    /// How the walk came to it. But for [`WalkEnd::Found`] the message is
    /// one of the system's own.
    pub end: WalkEnd,
}

/// A reference as plain values.
pub struct ReferenceView {
    pub message: MessageView,
    pub end: WalkEnd,
}

impl View for Reference {
    type V = ReferenceView;

    open spec fn view(&self) -> ReferenceView {
        ReferenceView { message: self.message@, end: self.end }
    }
}

impl Clone for Reference {
    fn clone(&self) -> (r: Self)
        ensures
            r@ == self@,
    {
        Reference { message: self.message.clone(), end: self.end }
    }
}

/// A walk under way: every message seen so far is the system's own.
#[derive(Debug, PartialEq, Eq)]
pub struct Walker {
    /// The identifier of the oldest message seen. The message before it is
    /// the one to ask for.
    pub cursor: u64,
    /// The message to fall back on if no message of someone else turns up.
    pub fallback: Message,
    /// How many more messages may be asked for.
    pub pages_left: u32,
}

/// A walk under way as plain values.
pub struct WalkerView {
    pub cursor: u64,
    pub fallback: MessageView,
    pub pages_left: u32,
}

impl View for Walker {
    type V = WalkerView;

    open spec fn view(&self) -> WalkerView {
        WalkerView { cursor: self.cursor, fallback: self.fallback@, pages_left: self.pages_left }
    }
}

impl Clone for Walker {
    fn clone(&self) -> (r: Self)
        ensures
            r@ == self@,
    {
        Walker {
            cursor: self.cursor,
            fallback: self.fallback.clone(),
            pages_left: self.pages_left,
        }
    }
}

/// Where a walk stands after an answer of the platform.
#[derive(Debug, PartialEq, Eq)]
pub enum Walk {
    /// The message before the walker's cursor is wanted.
    Ask(Walker),
    /// The walk is over and this is its reference message.
    Settled(Reference),
    /// The channel gave no message to start from.
    Empty,
}

/// A walk's standing as plain values.
pub enum WalkView {
    Ask(WalkerView),
    Settled(ReferenceView),
    Empty,
}

impl View for Walk {
    type V = WalkView;

    open spec fn view(&self) -> WalkView {
        match *self {
            Walk::Ask(w) => WalkView::Ask(w@),
            Walk::Settled(r) => WalkView::Settled(r@),
            Walk::Empty => WalkView::Empty,
        }
    }
}

impl Clone for Walk {
    fn clone(&self) -> (r: Self)
        ensures
            r@ == self@,
    {
        match self {
            Walk::Ask(w) => Walk::Ask(w.clone()),
            Walk::Settled(reference) => Walk::Settled(reference.clone()),
            Walk::Empty => Walk::Empty,
        }
    }
}

/// Where a walk stands that has seen nothing but the system's own messages,
/// the last with the identifier `cursor`: it is over where no further
/// message may be asked for, and asks for the message before `cursor`
/// otherwise.
pub open spec fn walk_on(
    cursor: u64,
    fallback: MessageView,
    pages_left: u32,
) -> WalkView {
    if pages_left == 0 {
        WalkView::Settled(ReferenceView { message: fallback, end: WalkEnd::LimitReached })
    } else {
        WalkView::Ask(WalkerView { cursor, fallback, pages_left })
    }
}

/// Where a walk stands once the platform has answered the request for the
/// channel's most recent message.
pub open spec fn walk_begun(cfg: ConfigView, newest: PageView) -> WalkView {
    match newest {
        PageView::Message(m) => if m.is_own(cfg) {
            walk_on(m.id, m, cfg.page_limit)
        } else {
            WalkView::Settled(ReferenceView { message: m, end: WalkEnd::Found })
        },
        PageView::NoMessage => WalkView::Empty,
        PageView::Failed => WalkView::Empty,
    }
}

/// Where the walk `w` stands once the platform has answered the request
/// for the message before its cursor.
///
/// A message of someone else ends the walk. One of the system's own moves
/// the cursor, and takes the place of the fallback where the fallback is a
/// warning and the message is none.
pub open spec fn walk_fed(cfg: ConfigView, w: WalkerView, older: PageView) -> WalkView {
    match older {
        PageView::Message(m) => if !m.is_own(cfg) {
            WalkView::Settled(ReferenceView { message: m, end: WalkEnd::Found })
        } else if w.fallback.is_warning(cfg) && !m.is_warning(cfg) {
            walk_on(m.id, m, if w.pages_left > 0 { (w.pages_left - 1) as u32 } else { 0 })
        } else {
            walk_on(m.id, w.fallback, if w.pages_left > 0 { (w.pages_left - 1) as u32 } else { 0 })
        },
        PageView::NoMessage => WalkView::Settled(
            ReferenceView { message: w.fallback, end: WalkEnd::Exhausted },
        ),
        PageView::Failed => WalkView::Settled(
            ReferenceView { message: w.fallback, end: WalkEnd::Failed },
        ),
    }
}

impl Walker {
    /// Starts a walk from the platform's answer to the request for the
    /// channel's most recent message.
    pub fn begin(cfg: &Config, newest: Page) -> (r: Walk)
        ensures
            r@ == walk_begun(cfg@, newest@),
    {
        match newest {
            Page::Message(m) => {
                if m.is_own(cfg) {
                    Walker::proceed(m.id, m, cfg.page_limit())
                } else {
                    Walk::Settled(Reference { message: m, end: WalkEnd::Found })
                }
            },
            Page::NoMessage => Walk::Empty,
            Page::Failed => Walk::Empty,
        }
    }

    /// Goes on with the walk from the platform's answer to the request for
    /// the message before the cursor.
    pub fn feed(self, cfg: &Config, older: Page) -> (r: Walk)
        ensures
            r@ == walk_fed(cfg@, self@, older@),
    {
        match older {
            Page::Message(m) => {
                let left: u32 = if self.pages_left > 0 {
                    self.pages_left - 1
                } else {
                    0
                };
                if !m.is_own(cfg) {
                    Walk::Settled(Reference { message: m, end: WalkEnd::Found })
                } else if message_is_warning(&self.fallback, cfg) && !message_is_warning(&m, cfg) {
                    Walker::proceed(m.id, m, left)
                } else {
                    Walker::proceed(m.id, self.fallback, left)
                }
            },
            Page::NoMessage => Walk::Settled(
                Reference { message: self.fallback, end: WalkEnd::Exhausted },
            ),
            Page::Failed => Walk::Settled(
                Reference { message: self.fallback, end: WalkEnd::Failed },
            ),
        }
    }

    fn proceed(cursor: u64, fallback: Message, pages_left: u32) -> (r: Walk)
        ensures
            r@ == walk_on(cursor, fallback@, pages_left),
    {
        if pages_left == 0 {
            Walk::Settled(Reference { message: fallback, end: WalkEnd::LimitReached })
        } else {
            Walk::Ask(Walker { cursor, fallback, pages_left })
        }
    }
}

/// No history has two reference messages.
pub proof fn lemma_reference_unique(h: Seq<MessageView>, cfg: ConfigView, i: int, j: int)
    requires
        is_reference(h, cfg, i),
        is_reference(h, cfg, j),
    ensures
        i == j,
{
    if i < j {
        assert(h.take(j)[i] == h[i]);
    } else if j < i {
        assert(h.take(i)[j] == h[j]);
    }
}

/// Whatever index is shown to be the reference is the one that
/// [`reference_index`] names.
pub proof fn lemma_reference_index(h: Seq<MessageView>, cfg: ConfigView, i: int)
    requires
        is_reference(h, cfg, i),
    ensures
        reference_index(h, cfg) == i,
{
    lemma_reference_unique(h, cfg, i, reference_index(h, cfg));
}

/// The least index at which `h` holds a message that someone else wrote,
/// or `h.len()` where it holds none.
spec fn first_foreign(h: Seq<MessageView>, cfg: ConfigView) -> int
    decreases h.len(),
{
    if h.len() == 0 || !h[0].is_own(cfg) {
        0
    } else {
        1 + first_foreign(h.drop_first(), cfg)
    }
}

/// The least index at which `h` holds a message that is no warning, or
/// `h.len()` where it holds none.
spec fn first_plain(h: Seq<MessageView>, cfg: ConfigView) -> int
    decreases h.len(),
{
    if h.len() == 0 || !h[0].is_warning(cfg) {
        0
    } else {
        1 + first_plain(h.drop_first(), cfg)
    }
}

proof fn lemma_first_foreign(h: Seq<MessageView>, cfg: ConfigView)
    ensures
        0 <= first_foreign(h, cfg) <= h.len(),
        all_own(h.take(first_foreign(h, cfg)), cfg),
        first_foreign(h, cfg) < h.len() ==> !h[first_foreign(h, cfg)].is_own(cfg),
    decreases h.len(),
{
    if h.len() == 0 || !h[0].is_own(cfg) {
    } else {
        let t = h.drop_first();
        lemma_first_foreign(t, cfg);
        let k = first_foreign(t, cfg);
        assert forall|j: int| 0 <= j < k + 1 implies (#[trigger] h.take(k + 1)[j]).is_own(cfg) by {
            if j > 0 {
                assert(h.take(k + 1)[j] == t.take(k)[j - 1]);
            }
        }
    }
}

proof fn lemma_first_plain(h: Seq<MessageView>, cfg: ConfigView)
    ensures
        0 <= first_plain(h, cfg) <= h.len(),
        all_warnings(h.take(first_plain(h, cfg)), cfg),
        first_plain(h, cfg) < h.len() ==> !h[first_plain(h, cfg)].is_warning(cfg),
    decreases h.len(),
{
    if h.len() == 0 || !h[0].is_warning(cfg) {
    } else {
        let t = h.drop_first();
        lemma_first_plain(t, cfg);
        let k = first_plain(t, cfg);
        assert forall|j: int| 0 <= j < k + 1 implies (#[trigger] h.take(k + 1)[j]).is_warning(
            cfg,
        ) by {
            if j > 0 {
                assert(h.take(k + 1)[j] == t.take(k)[j - 1]);
            }
        }
    }
}

/// Every history that holds a message has a reference message.
pub proof fn lemma_reference_exists(h: Seq<MessageView>, cfg: ConfigView)
    requires
        h.len() > 0,
    ensures
        is_reference(h, cfg, reference_index(h, cfg)),
{
    lemma_first_foreign(h, cfg);
    lemma_first_plain(h, cfg);
    let f = first_foreign(h, cfg);
    let p = first_plain(h, cfg);
    if f < h.len() {
        assert(is_reference(h, cfg, f));
    } else {
        assert(h.take(f) == h);
        if p < h.len() {
            assert(is_reference(h, cfg, p));
        } else {
            assert(is_reference(h, cfg, 0));
        }
    }
}

} // verus!
