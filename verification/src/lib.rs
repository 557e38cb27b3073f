//! A cross-thread bridge between a background "domain" thread that processes
//! a streaming tweet feed and a host main loop that runs UI callbacks.
//!
//! The library is the verified core of the bridge: handle allocation, the two
//! ordered message channels, the per-stream state machine, the wakeup-signal
//! coalescing and the event-drain policy. The surrounding process glue (thread
//! spawning, the host loop's reactor, the foreign-function shims) lives
//! outside the library and drives these pieces.

use vstd::prelude::*;

mod channel;
mod context;
mod domain;
mod handles;
mod messages;
mod signal;
mod tweets;

pub use channel::Channel;
pub use context::TweetFeedContext;
pub use context::creator_side_unchanged;
pub use context::domain_side_unchanged;
pub use context::lemma_order_preservation;
pub use context::lifecycle_unchanged;
pub use domain::DomainRoot;
pub use domain::StreamState;
pub use domain::config_step;
pub use domain::control_fold;
pub use domain::connected_step;
pub use domain::control_io;
pub use domain::control_step;
pub use domain::control_ui;
pub use domain::destroy_step;
pub use domain::destroy_ui;
pub use domain::lemma_closed_is_terminal;
pub use domain::tweet_ui;

pub use handles::HandleCreator;
pub use handles::allocates;
pub use handles::lemma_handles_never_repeat;
pub use messages::DomainEvent;
pub use messages::FeedError;
pub use messages::IOEvent;
pub use messages::StreamConfig;
pub use messages::UIEvent;
pub use signal::UISignalHandler;
pub use signal::WakeupEmitter;
pub use signal::closed_after;
pub use signal::delivered;
pub use signal::deliveries;
pub use signal::fire_n;
pub use signal::lemma_destroy_wins;
pub use signal::lemma_wakeup_coalescing;
pub use tweets::Tweet;
pub use tweets::Twitter;

verus! {

/// Identifier naming one stream resource across the concurrency boundary.
pub type Handle = u32;

/// Stands for the foreign tweet-arrival callback the creator registers: the
/// bridge never looks inside a callback, it only stores and hands back its
/// identity, so the host glue around the library maps tokens to real
/// callables.
pub type CallbackToken = u64;

} // verus!
