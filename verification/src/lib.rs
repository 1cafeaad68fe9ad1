//! Core of a subreddit polling monitor: OAuth token lifecycle, per-feed
//! cursor tracking with an all-or-nothing fetch cycle, and the start/stop
//! state machine that drives scheduling and shutdown. Network transport,
//! persistence and the notifier live outside this crate and hand plain
//! values in and out.

pub mod config;
pub mod monitor;
pub mod reddit;
pub mod utils;

pub use monitor::Monitor;
pub use reddit::OAuthToken;
