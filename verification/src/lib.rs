//! Verified core of `msr`, a command-line client for Mastodon and Misskey.
//!
//! The library holds what the client decides and what it writes: the
//! configuration paths, the text it prints for timelines and notifications,
//! the statuses it builds before posting, and the way long texts are cut
//! into posts. The network, the files and the terminal stay with the
//! program that calls it.

pub mod external;
pub mod lines;
pub mod actions;
pub mod chars;
pub mod config;
pub mod notify;
pub mod timeline;
