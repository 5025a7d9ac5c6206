//! Channels and messages as the platform reports them, held as plain values.

use vstd::prelude::*;
use crate::config::{Config, ConfigView};
use crate::text::starts_with;

verus! {

/// What a channel carries.
#[derive(Clone, Copy, Debug, PartialEq, Eq, Structural)]
pub enum ChannelKind {
    /// Written messages, which make up a history.
    Text,
    /// Speech, which leaves no history.
    Voice,
}

/// A channel of a server.
#[derive(Debug, PartialEq, Eq)]
pub struct Channel {
    /// The platform's identifier of the channel.
    pub id: u64,
    /// The name the channel is shown under.
    pub name: String,
    /// What the channel carries.
    pub kind: ChannelKind,
}

/// A channel as plain values.
pub struct ChannelView {
    pub id: u64,
    pub name: Seq<char>,
    pub kind: ChannelKind,
}

impl View for Channel {
    type V = ChannelView;

    open spec fn view(&self) -> ChannelView {
        ChannelView { id: self.id, name: self.name@, kind: self.kind }
    }
}

impl Clone for Channel {
    fn clone(&self) -> (r: Self)
        ensures
            r@ == self@,
    {
        Channel { id: self.id, name: self.name.clone(), kind: self.kind }
    }
}

impl DeepView for Channel {
    type V = ChannelView;

    open spec fn deep_view(&self) -> ChannelView {
        self@
    }
}

/// One message of a channel's history.
#[derive(Debug, PartialEq, Eq)]
pub struct Message {
    /// The platform's identifier of the message, by which older messages
    /// are asked for.
    pub id: u64,
    /// The account that wrote the message.
    pub author: u64,
    /// When the message was written, as the platform spells it. It is
    /// meant to be an RFC 3339 date and time, and may fail to parse.
    pub timestamp: String,
    /// The text of the message.
    pub content: String,
}

/// A message as plain values.
pub struct MessageView {
    pub id: u64,
    pub author: u64,
    pub timestamp: Seq<char>,
    pub content: Seq<char>,
}

impl View for Message {
    type V = MessageView;

    open spec fn view(&self) -> MessageView {
        MessageView {
            id: self.id,
            author: self.author,
            timestamp: self.timestamp@,
            content: self.content@,
        }
    }
}

impl Clone for Message {
    fn clone(&self) -> (r: Self)
        ensures
            r@ == self@,
    {
        Message {
            id: self.id,
            author: self.author,
            timestamp: self.timestamp.clone(),
            content: self.content.clone(),
        }
    }
}

impl DeepView for Message {
    type V = MessageView;

    open spec fn deep_view(&self) -> MessageView {
        self@
    }
}

impl MessageView {
    /// The system wrote this message itself.
    pub open spec fn is_own(self, cfg: ConfigView) -> bool {
        self.author == cfg.self_id
    }

    /// The message is a warning: the system wrote it, and it begins with
    /// the sentinel.
    pub open spec fn is_warning(self, cfg: ConfigView) -> bool {
        self.is_own(cfg) && cfg.warning_sentinel.is_prefix_of(self.content)
    }
}

impl Message {
    /// Tests whether the system wrote this message itself.
    pub fn is_own(&self, cfg: &Config) -> (r: bool)
        ensures
            r == self@.is_own(cfg@),
    {
        self.author == cfg.self_id()
    }
}

/// Tests whether `message` is a warning that the system posted.
pub fn message_is_warning(message: &Message, cfg: &Config) -> (r: bool)
    ensures
        r == message@.is_warning(cfg@),
{
    message.author == cfg.self_id() && starts_with(
        message.content.as_str(),
        cfg.warning_sentinel(),
    )
}

} // verus!
