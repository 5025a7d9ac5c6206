//! The announcements that go out on particular days.
//!
//! Both are decided from the calendar alone: the caller says what day it is
//! and which channels there are, and is told what to post where.

use vstd::prelude::*;
use crate::message::{Channel, ChannelView};
use crate::text::same_text;

verus! {

/// A day of the week.
#[derive(Clone, Copy, Debug, PartialEq, Eq, Structural)]
pub enum Weekday {
    Monday,
    Tuesday,
    Wednesday,
    Thursday,
    Friday,
    Saturday,
    Sunday,
}

/// The name of the channel that announcements are posted in.
pub fn announcements_channel() -> (r: &'static str)
    ensures
        r@ == "announcements-"@,
{
    "announcements-"
}

/// What is posted on a Wednesday.
pub fn wednesday_message() -> (r: &'static str)
    ensures
        r@ == "https://youtu.be/du-TY1GUFGk"@,
{
    "https://youtu.be/du-TY1GUFGk"
}

/// `i` is the index in `channels` of the first channel called `name`.
pub open spec fn is_first_named(channels: Seq<ChannelView>, name: Seq<char>, i: int) -> bool {
    &&& 0 <= i < channels.len()
    &&& channels[i].name == name
    &&& forall|j: int| 0 <= j < i ==> (#[trigger] channels[j]).name != name
}

/// No channel of `channels` is called `name`.
pub open spec fn none_named(channels: Seq<ChannelView>, name: Seq<char>) -> bool {
    forall|j: int| 0 <= j < channels.len() ==> (#[trigger] channels[j]).name != name
}

/// Finds the first channel called `name` and gives its index.
pub fn find_channel(channels: &Vec<Channel>, name: &str) -> (r: Option<usize>)
    ensures
        match r {
            Some(i) => is_first_named(channels.deep_view(), name@, i as int),
            None => none_named(channels.deep_view(), name@),
        },
{
    let mut i: usize = 0;
    while i < channels.len()
        invariant
            i <= channels.len(),
            forall|j: int| 0 <= j < i ==> (#[trigger] channels.deep_view()[j]).name != name@,
        decreases channels.len() - i,
    {
        if same_text(channels[i].name.as_str(), name) {
            return Some(i);
        }
        i += 1;
    }
    None
}

/// Tests whether the Wednesday message is due today.
pub fn is_wednesday(today: Weekday) -> (r: bool)
    ensures
        r == (today == Weekday::Wednesday),
{
    match today {
        Weekday::Wednesday => true,
        _ => false,
    }
}

/// Says where the Wednesday message goes today: into the first channel
/// called `announcements-`, if it is Wednesday and there is such a channel,
/// and nowhere otherwise. The result is the channel's identifier.
pub fn it_is_wednesday_my_dudes(today: Weekday, channels: &Vec<Channel>) -> (r: Option<u64>)
    ensures
        match r {
            Some(id) => today == Weekday::Wednesday && exists|i: int|
                is_first_named(channels.deep_view(), "announcements-"@, i) && id
                    == #[trigger] channels[i].id,
            None => today != Weekday::Wednesday || none_named(
                channels.deep_view(),
                "announcements-"@,
            ),
        },
{
    if !is_wednesday(today) {
        return None;
    }
    match find_channel(channels, announcements_channel()) {
        Some(i) => Some(channels[i].id),
        None => None,
    }
}

/// One step of a countdown: a text for every channel, and how long to wait
/// after it has gone out.
#[derive(Clone, Copy, Debug, PartialEq, Eq)]
pub struct Beat {
    /// The text to post into every channel.
    pub text: &'static str,
    /// The seconds to wait before the next beat.
    pub pause_secs: u64,
}

/// A beat as plain values.
pub struct BeatView {
    pub text: Seq<char>,
    pub pause_secs: u64,
}

impl View for Beat {
    type V = BeatView;

    open spec fn view(&self) -> BeatView {
        BeatView { text: self.text@, pause_secs: self.pause_secs }
    }
}

impl DeepView for Beat {
    type V = BeatView;

    open spec fn deep_view(&self) -> BeatView {
        self@
    }
}

/// The countdown of the first of April: five beats a second apart, a
/// pause of three seconds, and the word that it was a joke.
pub open spec fn april_countdown() -> Seq<BeatView> {
    seq![
        BeatView { text: "Channel deletion in 5..."@, pause_secs: 1 },
        BeatView { text: "4..."@, pause_secs: 1 },
        BeatView { text: "3..."@, pause_secs: 1 },
        BeatView { text: "2..."@, pause_secs: 1 },
        BeatView { text: "1..."@, pause_secs: 3 },
        BeatView { text: "April fools!!"@, pause_secs: 0 },
    ]
}

/// Gives the beats to play today: the countdown on the first of April,
/// and none on any other day. `month` and `day` count from one.
pub fn april_fools(month: u32, day: u32) -> (r: Vec<Beat>)
    ensures
        r.deep_view() == if month == 4 && day == 1 {
            april_countdown()
        } else {
            Seq::<BeatView>::empty()
        },
{
    let mut beats: Vec<Beat> = Vec::new();
    if month == 4 && day == 1 {
        beats.push(Beat { text: "Channel deletion in 5...", pause_secs: 1 });
        beats.push(Beat { text: "4...", pause_secs: 1 });
        beats.push(Beat { text: "3...", pause_secs: 1 });
        beats.push(Beat { text: "2...", pause_secs: 1 });
        beats.push(Beat { text: "1...", pause_secs: 3 });
        beats.push(Beat { text: "April fools!!", pause_secs: 0 });
    }
    beats
}

} // verus!
