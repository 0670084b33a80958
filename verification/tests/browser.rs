use chrono::DateTime;
use gistory::app::App;
use gistory::data::CommitRow;
use gistory::input::{apply, command_for_key, Command, Key, KeyPress, CONTROL};
use gistory::time::TimeInstant;

fn make_commit(id: usize) -> CommitRow {
    let date = DateTime::parse_from_rfc3339("2020-01-01T00:00:00Z").unwrap();
    CommitRow {
        sha: format!("{:07x}", id),
        url: None,
        month_year: "January 2020".into(),
        date: TimeInstant {
            secs: date.timestamp(),
            nanos: date.timestamp_subsec_nanos(),
            offset_secs: date.offset().local_minus_utc(),
        },
        author: "Test".into(),
        message: format!("commit {}", id),
    }
}

fn sample_app(count: usize) -> App {
    let commits = (0..count).map(make_commit).collect();
    App::new(commits)
}

#[test]
fn next_wraps_to_start() {
    let mut app = sample_app(2);
    app.next();
    app.next();
    assert_eq!(app.selected, 0);
}

#[test]
fn previous_wraps_to_end() {
    let mut app = sample_app(3);
    app.previous();
    assert_eq!(app.selected, 2);
}

#[test]
fn page_count_computes_ceil() {
    let app = sample_app(App::per_page() * 2 + 1);
    assert_eq!(app.page_count(), 3);
}

#[test]
fn page_commits_returns_correct_slice() {
    let mut app = sample_app(App::per_page() + 5);
    assert_eq!(app.page_commits().len(), App::per_page());
    app.selected = App::per_page();
    assert_eq!(app.page_commits().len(), 5);
}

#[test]
fn current_page_reflects_selection() {
    let mut app = sample_app(App::per_page() + 1);
    assert_eq!(app.current_page(), 0);
    app.selected = App::per_page();
    assert_eq!(app.current_page(), 1);
}

#[test]
fn new_app_starts_on_first_row() {
    let app = sample_app(4);
    assert_eq!(app.selected, 0);
    assert_eq!(app.selected_index(), 0);
    assert_eq!(app.commit_count(), 4);
    assert!(app.is_wf());
    assert_eq!(App::per_page(), 30);
}

#[test]
fn next_steps_one_row_at_a_time() {
    let mut app = sample_app(3);
    app.next();
    assert_eq!(app.selected, 1);
    app.next();
    assert_eq!(app.selected, 2);
    app.next();
    assert_eq!(app.selected, 0);
}

#[test]
fn previous_steps_one_row_at_a_time() {
    let mut app = sample_app(3);
    app.select(2);
    app.previous();
    assert_eq!(app.selected, 1);
    app.previous();
    assert_eq!(app.selected, 0);
    app.previous();
    assert_eq!(app.selected, 2);
}

#[test]
fn full_cycle_returns_to_start() {
    for n in 1..=65usize {
        for start in 0..n {
            let mut app = sample_app(n);
            app.select(start);
            for _ in 0..n {
                app.next();
            }
            assert_eq!(app.selected, start);
            for _ in 0..n {
                app.previous();
            }
            assert_eq!(app.selected, start);
        }
    }
}

#[test]
fn previous_undoes_next() {
    for n in 1..=65usize {
        for start in 0..n {
            let mut app = sample_app(n);
            app.select(start);
            app.next();
            app.previous();
            assert_eq!(app.selected, start);
            app.previous();
            app.next();
            assert_eq!(app.selected, start);
        }
    }
}

#[test]
fn every_cursor_lies_on_its_page() {
    let p = App::per_page();
    for len in 1..=95usize {
        let mut app = sample_app(len);
        assert_eq!(app.page_count(), std::cmp::max(1, (len + p - 1) / p));
        for c in 0..len {
            app.select(c);
            let page = app.current_page();
            assert_eq!(page, c / p);
            assert!(page < app.page_count());
            let start = page * p;
            let end = std::cmp::min(start + p, len);
            assert!(start <= c && c < end);
            let rows = app.page_commits();
            assert_eq!(rows.len(), end - start);
            assert_eq!(rows[c - start].sha, format!("{:07x}", c));
            assert_eq!(app.selected_commit().unwrap().sha, format!("{:07x}", c));
            for row in 0..rows.len() {
                assert_eq!(app.is_highlighted(row), row == c - start);
            }
        }
    }
}

#[test]
fn sixty_one_rows_make_three_pages() {
    let mut app = sample_app(61);
    assert_eq!(app.page_count(), 3);
    assert_eq!(app.current_page(), 0);
    assert_eq!(app.page_commits().len(), 30);
    assert_eq!(app.page_commits()[0].message, "commit 0");
    app.selected = 30;
    assert_eq!(app.current_page(), 1);
    assert_eq!(app.page_commits().len(), 30);
    assert_eq!(app.page_commits()[0].message, "commit 30");
    app.selected = 60;
    assert_eq!(app.current_page(), 2);
    assert_eq!(app.page_commits().len(), 1);
    assert_eq!(app.page_commits()[0].message, "commit 60");
    assert_eq!(app.page_number(), 3);
}

#[test]
fn empty_list_stays_put() {
    let mut app = sample_app(0);
    app.next();
    assert_eq!(app.selected, 0);
    app.previous();
    assert_eq!(app.selected, 0);
    assert!(app.selected_commit().is_none());
    assert_eq!(app.page_count(), 1);
    assert_eq!(app.current_page(), 0);
    assert_eq!(app.page_number(), 1);
    assert_eq!(app.page_commits().len(), 0);
    assert_eq!(app.commit_count(), 0);
    assert_eq!(app.selected_message(), "");
    assert!(app.is_wf());
}

#[test]
fn exact_multiple_of_page_size_adds_no_page() {
    assert_eq!(sample_app(1).page_count(), 1);
    assert_eq!(sample_app(30).page_count(), 1);
    assert_eq!(sample_app(31).page_count(), 2);
    assert_eq!(sample_app(60).page_count(), 2);
    assert_eq!(sample_app(90).page_count(), 3);
}

#[test]
fn selected_message_follows_cursor() {
    let mut app = sample_app(5);
    assert_eq!(app.selected_message(), "commit 0");
    app.next();
    assert_eq!(app.selected_message(), "commit 1");
    assert_eq!(app.selected_commit().unwrap().message, "commit 1");
}

#[test]
fn cursor_outside_the_list_is_not_well_formed() {
    let mut app = sample_app(3);
    app.selected = 3;
    assert!(!app.is_wf());
    assert!(app.selected_commit().is_none());
    app.select(2);
    assert!(app.is_wf());
}

#[test]
fn keys_map_to_commands() {
    let press = |key, modifiers| KeyPress { key, modifiers };
    assert_eq!(command_for_key(&press(Key::Char('q'), 0)), Command::Quit);
    assert_eq!(command_for_key(&press(Key::Char('q'), 1)), Command::Quit);
    assert_eq!(command_for_key(&press(Key::Esc, 0)), Command::Quit);
    assert_eq!(command_for_key(&press(Key::Esc, 4)), Command::Quit);
    assert_eq!(command_for_key(&press(Key::Char('c'), CONTROL)), Command::Quit);
    assert_eq!(command_for_key(&press(Key::Char('c'), 0)), Command::Ignore);
    assert_eq!(command_for_key(&press(Key::Char('c'), CONTROL | 1)), Command::Ignore);
    assert_eq!(command_for_key(&press(Key::Down, 0)), Command::Advance);
    assert_eq!(command_for_key(&press(Key::Up, 0)), Command::Retreat);
    assert_eq!(command_for_key(&press(Key::Char('x'), 0)), Command::Ignore);
    assert_eq!(command_for_key(&press(Key::Other, 0)), Command::Ignore);
    assert_eq!(CONTROL, crossterm::event::KeyModifiers::CONTROL.bits());
}

#[test]
fn commands_move_the_cursor() {
    let mut app = sample_app(3);
    assert!(apply(&mut app, Command::Advance));
    assert_eq!(app.selected, 1);
    assert!(apply(&mut app, Command::Retreat));
    assert_eq!(app.selected, 0);
    assert!(apply(&mut app, Command::Retreat));
    assert_eq!(app.selected, 2);
    assert!(apply(&mut app, Command::Ignore));
    assert_eq!(app.selected, 2);
    assert!(!apply(&mut app, Command::Quit));
    assert_eq!(app.selected, 2);
}
