//! A task list kept as checkbox lines inside a plain-text file.
//!
//! The text of the file is split into lines ([`lines`]). The lines that hold
//! a task are read into tasks ([`parse`]) in the dialect that the settings
//! select ([`config`]); a task is written back as one line ([`item`]). The
//! list of one run ([`store`]) completes and unchecks tasks, adds a task
//! ([`add`]), removes tasks after asking ([`removal`]) and shows them
//! ([`listing`]). Each of these hands back what is to be written; the edits
//! themselves are made on the text of the file ([`lines`]).
//!
//! Searching a line is left to the `regex` crate ([`pattern`]), reading and
//! writing a date to `chrono` ([`date`]). Reading and writing the file, and
//! talking to the user, are the caller's part.

pub mod add;
pub mod config;
pub mod date;
pub mod item;
pub mod lines;
pub mod listing;
pub mod parse;
pub mod pattern;
pub mod removal;
pub mod setup;
pub mod store;
pub mod text;
