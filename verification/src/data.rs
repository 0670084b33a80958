//! One row of history as the browser shows it.

use vstd::prelude::*;
use crate::time::TimeInstant;

verus! {

/// A commit, ready for display. Rows are made by the loader and never change.
#[derive(Debug)]
pub struct CommitRow {
    /// The first seven characters of the commit's id.
    pub sha: String,
    /// Where the commit can be read on the hosting site, if the repository has
    /// such a remote.
    pub url: Option<String>,
    /// The month and year of `date`, spelled out.
    pub month_year: String,
    /// When the commit was made, in the author's own offset.
    pub date: TimeInstant,
    pub author: String,
    pub message: String,
}

} // verus!
