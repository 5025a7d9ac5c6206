//! The rules of a housekeeping bot for the channels of a chat server.
//!
//! The main business is the lifecycle of temporary channels. A channel
//! whose name lacks the permanent suffix is temporary. Once nobody but the
//! bot itself has written to it for some days, six unless the settings say
//! otherwise, its occupants are warned, and a day later, when the warning
//! has stood for its grace period, the channel is deleted. Nothing is
//! stored between runs: whether a warning was sent, and when, is read back
//! from the channel's own messages.
//!
//! - [`classify`] tells temporary channels from permanent ones.
//! - [`walker`] finds the message from which a channel's inactivity counts.
//! - [`snapshot`] dates that message and the warning that stands in the
//!   channel, and [`decision`] holds the table of what is done then.
//! - [`engine`] puts these together into a run over one channel, which asks
//!   its caller for one message at a time.
//! - [`replay`] says what a run comes to on a history known in full,
//!   [`sweep`] does so for all the channels of a server, and [`laws`] states
//!   what holds of every run.
//!
//! Besides, [`seasonal`] decides the announcements of particular days, and
//! [`birthday`] and [`roster`] keep the birthdays of the server's members.
//!
//! The crate performs no I/O. A caller fetches channels and messages, reads
//! the clock and the files, and carries out what the crate decides.

pub mod birthday;
pub mod classify;
pub mod config;
pub mod decision;
pub mod engine;
pub mod laws;
pub mod message;
pub mod replay;
pub mod roster;
pub mod seasonal;
pub mod snapshot;
pub mod sweep;
pub mod text;
pub mod time;
pub mod walker;
