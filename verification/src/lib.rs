//! A small library for watching a filesystem path: deriving a per-target
//! lock-file name, resolving single-wildcard patterns against a directory
//! listing, and deciding, poll by poll, whether a watched file has appeared
//! or been updated.
//!
//! All filesystem access, sleeping and process control live outside this
//! crate; the functions here work on plain values (paths as strings,
//! directory listings as vectors, stat results as an enum) and are verified.

pub mod lockname;
pub mod pattern;
pub mod text;
pub mod watch;
