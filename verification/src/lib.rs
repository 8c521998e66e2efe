//! `yt_tui`: the verified core of a terminal YouTube player.
//!
//! Search results come from `yt-dlp`, playback goes through one long-lived
//! `mpv` instance driven over its JSON IPC socket. This crate holds the
//! decisions of that program: the application state machine, the watch
//! history, the text shown on screen, the commands sent to the external
//! programs, and how their replies are read.

pub mod text;
pub mod json;
pub mod yt;
pub mod history;
pub mod mpv;
pub mod app;
pub mod ui;
