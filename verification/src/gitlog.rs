//! From what a repository reports of a commit to the row that is shown: which
//! commits a range lets through, how a row is filled, and where a commit can
//! be read on GitHub.

use vstd::prelude::*;
use vstd::string::{StrSliceExecFns, StringExecFns};
use crate::data::CommitRow;
use crate::text::{
    matches_at, skip_prefixes, skip_suffixes, starts_with, strip_prefixes, strip_suffixes,
    to_chars,
};
use crate::time::{formatted, DateRange, TimeInstant, CLOCK_LIMIT_SECS};

verus! {

/// Characters of a commit's id that a row shows.
pub const SHA_LEN: usize = 7;

/// A commit as the repository reports it.
#[derive(Debug)]
pub struct RawCommit {
    /// The commit's id, written out.
    pub id: String,
    /// When the commit was made, in seconds since the epoch.
    pub seconds: i64,
    /// The author's offset from UTC at that time, in minutes east.
    pub offset_minutes: i32,
    pub author: String,
    pub message: String,
}

impl RawCommit {
    /// A row can be made of the commit: its id is long enough to be cut, its
    /// offset is less than a day, and its time lies in the clock's range.
    pub open spec fn is_valid(&self) -> bool {
        &&& self.id@.len() >= SHA_LEN
        &&& -1440 < self.offset_minutes < 1440
        &&& -CLOCK_LIMIT_SECS <= self.seconds <= CLOCK_LIMIT_SECS
    }

    /// The moment of the commit, in the author's offset.
    pub open spec fn instant(&self) -> TimeInstant {
        TimeInstant {
            secs: self.seconds,
            nanos: 0,
            offset_secs: (self.offset_minutes * 60) as i32,
        }
    }

    /// Tells whether a row can be made of the commit.
    pub fn check(&self) -> (b: bool)
        ensures
            b == self.is_valid(),
    {
        self.id.as_str().unicode_len() >= SHA_LEN && -1440 < self.offset_minutes
            && self.offset_minutes < 1440 && -CLOCK_LIMIT_SECS <= self.seconds && self.seconds
            <= CLOCK_LIMIT_SECS
    }

    /// The moment of the commit, in the author's offset.
    pub fn made_at(&self) -> (t: TimeInstant)
        requires
            self.is_valid(),
        ensures
            t == self.instant(),
            t.is_wall_clock(),
    {
        TimeInstant { secs: self.seconds, nanos: 0, offset_secs: self.offset_minutes * 60 }
    }
}

/// The address of a commit under a repository's address on the hosting site.
pub open spec fn commit_url(base: Seq<char>, id: Seq<char>) -> Seq<char> {
    base + "/commit/"@ + id
}

/// The row shows the commit: the first `SHA_LEN` characters of its id, its
/// address under `base` if there is one, its moment and that moment's month
/// and year, its author and its message.
pub open spec fn describes(row: CommitRow, raw: RawCommit, base: Option<&str>) -> bool {
    &&& row.sha@ == raw.id@.subrange(0, SHA_LEN as int)
    &&& match base {
        Some(b) => row.url matches Some(url) && url@ == commit_url(b@, raw.id@),
        None => row.url is None,
    }
    &&& row.month_year@ == formatted(raw.instant(), "%B %Y"@)
    &&& row.date == raw.instant()
    &&& row.author@ == raw.author@
    &&& row.message@ == raw.message@
}

/// The part of a GitHub remote's address that names the project: what follows
/// `prefix`, taken off as often as it stands there, without any `.git` at the
/// end.
pub open spec fn project_path(url: Seq<char>, prefix: Seq<char>) -> Seq<char> {
    strip_suffixes(strip_prefixes(url, prefix), ".git"@)
}

/// The web address of the project that a remote's address names, where the
/// remote is one of GitHub's, by SSH or by HTTPS.
pub open spec fn github_base(url: Seq<char>) -> Option<Seq<char>> {
    if starts_with(url, "git@github.com:"@) {
        Some("https://github.com/"@ + project_path(url, "git@github.com:"@))
    } else if starts_with(url, "https://github.com/"@) {
        Some("https://github.com/"@ + project_path(url, "https://github.com/"@))
    } else {
        None
    }
}

/// The row for a commit, if the commit was made within the range, both ends
/// included.
pub fn commit_row(raw: &RawCommit, base: Option<&str>, range: &DateRange) -> (r: Option<
    CommitRow,
>)
    requires
        raw.is_valid(),
    ensures
        r is Some <==> range.contains(raw.instant()),
        r matches Some(row) ==> describes(row, *raw, base),
{
    let date = raw.made_at();
    if !range.includes(&date) {
        return None;
    }
    let sha = raw.id.as_str().substring_char(0, SHA_LEN).to_owned();
    let url = match base {
        Some(b) => {
            let mut url = b.to_owned();
            url.append("/commit/");
            url.append(raw.id.as_str());
            Some(url)
        },
        None => None,
    };
    Some(
        CommitRow {
            sha,
            url,
            month_year: date.month_year_label(),
            date,
            author: raw.author.clone(),
            message: raw.message.clone(),
        },
    )
}

/// The web address of the project behind a remote, if the remote's address is
/// one of GitHub's.
pub fn github_remote_url(url: &str) -> (r: Option<String>)
    ensures
        match r {
            Some(base) => github_base(url@) == Some(base@),
            None => github_base(url@) is None,
        },
{
    let chars = to_chars(url);
    let ssh = to_chars("git@github.com:");
    let web = to_chars("https://github.com/");
    let suffix = to_chars(".git");
    let start = if matches_at(chars.as_slice(), ssh.as_slice(), 0) {
        skip_prefixes(chars.as_slice(), 0, ssh.as_slice())
    } else if matches_at(chars.as_slice(), web.as_slice(), 0) {
        skip_prefixes(chars.as_slice(), 0, web.as_slice())
    } else {
        return None;
    };
    assert(chars@.subrange(0, chars@.len() as int) =~= chars@);
    let end = skip_suffixes(chars.as_slice(), start, suffix.as_slice());
    let mut base = "https://github.com/".to_owned();
    base.append(url.substring_char(start, end));
    Some(base)
}

} // verus!
