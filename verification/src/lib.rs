//! Tailing of a chat log that grows by appended lines: the new lines are
//! decoded, parsed into entries, sorted into channels, and the gains that the
//! `System` channel reports are summed into a rate over a sliding window.

pub mod app;
pub mod buffers;
pub mod channel;
pub mod entry;
pub mod ingest;
pub mod laws;
pub mod names;
pub mod outside;
pub mod rate;
pub mod tail;
pub mod text;
