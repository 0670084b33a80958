//! What the command line gives.

use vstd::prelude::*;

verus! {

/// The arguments of one run.
#[derive(Debug)]
pub struct Cli {
    /// The date range, in plain English, such as `this year` or
    /// `jan 1 to feb 15`.
    pub range: String,
    /// Where the repository lies; the current directory if none is given.
    pub repo: Option<String>,
}

impl Cli {
    /// The directory of the repository: the one given, else `.`.
    pub open spec fn repo_dir(&self) -> Seq<char> {
        match self.repo {
            Some(path) => path@,
            None => "."@,
        }
    }

    /// The directory of the repository: the one given, else `.`.
    pub fn repo_path(&self) -> (path: &str)
        ensures
            path@ == self.repo_dir(),
    {
        match &self.repo {
            Some(path) => path.as_str(),
            None => ".",
        }
    }
}

} // verus!
