//! Browse a repository's commit history by a date range written in plain English.
//!
//! The crate holds the two pieces that decide anything: the resolver that turns a
//! phrase such as `since yesterday` or `jan 1 to feb 15` into a pair of instants,
//! and the paginated selection state that a terminal front end draws from.

pub mod time;
pub mod text;
pub mod phrase;
pub mod range;
pub mod data;
pub mod app;
pub mod input;
pub mod gitlog;
pub mod cli;
