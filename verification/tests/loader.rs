use gistory::cli::Cli;
use gistory::gitlog::{commit_row, github_remote_url, RawCommit, SHA_LEN};
use gistory::time::{DateRange, TimeInstant};

fn raw(seconds: i64, offset_minutes: i32) -> RawCommit {
    RawCommit {
        id: "0123456789abcdef0123456789abcdef01234567".into(),
        seconds,
        offset_minutes,
        author: "Ada".into(),
        message: "first\n\nbody".into(),
    }
}

fn range(since: i64, until: i64) -> DateRange {
    DateRange { since: TimeInstant::utc(since, 0), until: TimeInstant::utc(until, 0) }
}

#[test]
fn row_is_filled_from_the_commit() {
    let row = commit_row(&raw(1_577_836_800, -60), Some("https://github.com/u/r"), &range(0, 2_000_000_000))
        .unwrap();
    assert_eq!(row.sha, "0123456");
    assert_eq!(row.sha.len(), SHA_LEN);
    assert_eq!(
        row.url.as_deref(),
        Some("https://github.com/u/r/commit/0123456789abcdef0123456789abcdef01234567")
    );
    assert_eq!(row.month_year, "December 2019");
    assert_eq!(row.date, TimeInstant { secs: 1_577_836_800, nanos: 0, offset_secs: -3_600 });
    assert_eq!(row.author, "Ada");
    assert_eq!(row.message, "first\n\nbody");
    assert_eq!(row.date.day_label(), "12/31/19");
    assert_eq!(row.date.clock_label(), "23:00");
}

#[test]
fn row_without_remote_has_no_url() {
    let row = commit_row(&raw(1_577_836_800, 0), None, &range(0, 2_000_000_000)).unwrap();
    assert_eq!(row.url, None);
    assert_eq!(row.month_year, "January 2020");
}

#[test]
fn range_lets_through_both_ends() {
    let r = range(100, 200);
    assert!(commit_row(&raw(99, 0), None, &r).is_none());
    assert!(commit_row(&raw(100, 0), None, &r).is_some());
    assert!(commit_row(&raw(150, 0), None, &r).is_some());
    assert!(commit_row(&raw(200, 0), None, &r).is_some());
    assert!(commit_row(&raw(201, 0), None, &r).is_none());
    assert!(commit_row(&raw(150, 600), None, &r).is_some());
    let with_fraction = DateRange {
        since: TimeInstant::utc(100, 1),
        until: TimeInstant::utc(200, 1),
    };
    assert!(commit_row(&raw(100, 0), None, &with_fraction).is_none());
    assert!(commit_row(&raw(200, 0), None, &with_fraction).is_some());
    assert!(commit_row(&raw(150, 0), None, &range(200, 100)).is_none());
}

#[test]
fn commits_are_checked_before_use() {
    assert!(raw(0, 0).check());
    assert!(raw(0, 1439).check());
    assert!(raw(0, -1439).check());
    assert!(!raw(0, 1440).check());
    assert!(!raw(0, -1440).check());
    assert!(raw(8_000_000_000_000, 0).check());
    assert!(!raw(8_000_000_000_001, 0).check());
    assert!(!raw(-8_000_000_000_001, 0).check());
    let mut short = raw(0, 0);
    short.id = "012345".into();
    assert!(!short.check());
    short.id = "0123456".into();
    assert!(short.check());
    assert_eq!(raw(5, 90).made_at(), TimeInstant { secs: 5, nanos: 0, offset_secs: 5_400 });
}

#[test]
fn github_remotes_give_a_web_address() {
    assert_eq!(
        github_remote_url("git@github.com:user/repo.git").as_deref(),
        Some("https://github.com/user/repo")
    );
    assert_eq!(
        github_remote_url("https://github.com/user/repo.git").as_deref(),
        Some("https://github.com/user/repo")
    );
    assert_eq!(
        github_remote_url("https://github.com/user/repo").as_deref(),
        Some("https://github.com/user/repo")
    );
    assert_eq!(
        github_remote_url("git@github.com:user/repo").as_deref(),
        Some("https://github.com/user/repo")
    );
    assert_eq!(
        github_remote_url("git@github.com:user/repo.git.git").as_deref(),
        Some("https://github.com/user/repo")
    );
    assert_eq!(
        github_remote_url("git@github.com:git@github.com:user/repo.git").as_deref(),
        Some("https://github.com/user/repo")
    );
    assert_eq!(github_remote_url("git@github.com:").as_deref(), Some("https://github.com/"));
    assert_eq!(github_remote_url("git@github.com:.git").as_deref(), Some("https://github.com/"));
    assert_eq!(
        github_remote_url("https://github.com/\u{fc}ser/r\u{e9}po.git").as_deref(),
        Some("https://github.com/\u{fc}ser/r\u{e9}po")
    );
}

#[test]
fn other_remotes_give_none() {
    assert_eq!(github_remote_url("https://gitlab.com/user/repo.git"), None);
    assert_eq!(github_remote_url("git@gitlab.com:user/repo.git"), None);
    assert_eq!(github_remote_url("http://github.com/user/repo"), None);
    assert_eq!(github_remote_url("ssh://git@github.com/user/repo"), None);
    assert_eq!(github_remote_url(""), None);
    assert_eq!(github_remote_url(" git@github.com:user/repo"), None);
}

#[test]
fn repository_defaults_to_current_directory() {
    let cli = Cli { range: "this year".into(), repo: None };
    assert_eq!(cli.repo_path(), ".");
    let cli = Cli { range: "this year".into(), repo: Some("/srv/project".into()) };
    assert_eq!(cli.repo_path(), "/srv/project");
    assert_eq!(cli.range, "this year");
}
