//! The browser's state: the loaded rows, a cursor into them, and the page that
//! the cursor lies on.

use vstd::prelude::*;
use vstd::arithmetic::div_mod::{lemma_add_mod_noop_right, lemma_mod_add_multiples_vanish, lemma_small_mod};
use vstd::slice::slice_subrange;
use crate::data::CommitRow;

verus! {

/// Rows on one page.
pub const PAGE_SIZE: usize = 30;

/// The cursor after one step forward in a list of `n` rows: the next index, or
/// 0 after the last. An empty list leaves it alone.
pub open spec fn next_cursor(c: int, n: int) -> int {
    if n <= 0 {
        c
    } else {
        (c + 1) % n
    }
}

/// The cursor after one step back in a list of `n` rows: the index before, or
/// the last after 0. An empty list leaves it alone.
pub open spec fn prev_cursor(c: int, n: int) -> int {
    if n <= 0 {
        c
    } else if c == 0 {
        n - 1
    } else {
        c - 1
    }
}

/// The cursor after `k` steps forward.
pub open spec fn advanced(c: int, n: int, k: nat) -> int
    decreases k,
{
    if k == 0 {
        c
    } else {
        next_cursor(advanced(c, n, (k - 1) as nat), n)
    }
}

/// The page, counted from 0, that cursor `c` lies on; 0 for an empty list.
pub open spec fn page_of(c: int, n: int) -> int {
    if n <= 0 {
        0
    } else {
        c / (PAGE_SIZE as int)
    }
}

/// How many pages `n` rows fill: `n / PAGE_SIZE` rounded up, and 1 for an
/// empty list, so that "page 1 of 1" can always be shown.
pub open spec fn pages(n: int) -> int {
    if n <= 0 {
        1
    } else {
        (n + PAGE_SIZE - 1) / (PAGE_SIZE as int)
    }
}

/// Index of the first row on the page of cursor `c`.
pub open spec fn page_start(c: int, n: int) -> int {
    page_of(c, n) * PAGE_SIZE
}

/// Index one past the last row on the page of cursor `c`.
pub open spec fn page_end(c: int, n: int) -> int {
    if page_start(c, n) + PAGE_SIZE <= n {
        page_start(c, n) + PAGE_SIZE
    } else {
        n
    }
}

/// The rows and the cursor. The rows are fixed once loaded; only the cursor
/// moves.
pub struct App {
    commits: Vec<CommitRow>,
    /// Index of the highlighted row.
    pub selected: usize,
}

impl App {
    /// The loaded rows, newest first.
    pub closed spec fn entries(&self) -> Seq<CommitRow> {
        self.commits@
    }

    /// The index of the highlighted row, as the field `selected` holds it.
    pub closed spec fn cursor(&self) -> int {
        self.selected as int
    }

    /// The cursor points at a row whenever there is one.
    pub open spec fn wf(&self) -> bool {
        self.entries().len() > 0 ==> 0 <= self.cursor() < self.entries().len()
    }

    /// The rows of the page that the cursor lies on.
    pub open spec fn visible(&self) -> Seq<CommitRow> {
        let n = self.entries().len() as int;
        self.entries().subrange(page_start(self.cursor(), n), page_end(self.cursor(), n))
    }

    /// Takes the loaded rows and puts the cursor on the first.
    pub fn new(commits: Vec<CommitRow>) -> (app: App)
        ensures
            app.entries() == commits@,
            app.cursor() == 0,
            app.wf(),
    {
        App { commits, selected: 0 }
    }

    /// Tells whether the cursor points at a row whenever there is one.
    pub fn is_wf(&self) -> (b: bool)
        ensures
            b == self.wf(),
    {
        self.commits.len() == 0 || self.selected < self.commits.len()
    }

    /// The index of the highlighted row.
    pub fn selected_index(&self) -> (i: usize)
        ensures
            i == self.cursor(),
    {
        self.selected
    }

    /// Puts the cursor on row `index`.
    pub fn select(&mut self, index: usize)
        ensures
            final(self).entries() == old(self).entries(),
            final(self).cursor() == index,
    {
        self.selected = index;
    }

    /// Moves the cursor one row forward, from the last row to the first.
    pub fn next(&mut self)
        requires
            old(self).wf(),
        ensures
            final(self).entries() == old(self).entries(),
            final(self).cursor() == next_cursor(
                old(self).cursor(),
                old(self).entries().len() as int,
            ),
            final(self).wf(),
    {
        let n = self.commits.len();
        if n == 0 {
            return;
        }
        self.selected = (self.selected + 1) % n;
    }

    /// Moves the cursor one row back, from the first row to the last.
    pub fn previous(&mut self)
        ensures
            final(self).entries() == old(self).entries(),
            final(self).cursor() == prev_cursor(
                old(self).cursor(),
                old(self).entries().len() as int,
            ),
            old(self).wf() ==> final(self).wf(),
    {
        let n = self.commits.len();
        if n == 0 {
            return;
        }
        if self.selected == 0 {
            self.selected = n - 1;
        } else {
            self.selected -= 1;
        }
    }

    /// The row under the cursor; none in an empty list.
    pub fn selected_commit(&self) -> (r: Option<&CommitRow>)
        ensures
            r is Some <==> self.cursor() < self.entries().len(),
            r matches Some(row) ==> *row == self.entries()[self.cursor()],
    {
        if self.selected < self.commits.len() {
            Some(&self.commits[self.selected])
        } else {
            None
        }
    }

    /// The page, counted from 0, that the cursor lies on.
    pub fn current_page(&self) -> (p: usize)
        ensures
            p == page_of(self.cursor(), self.entries().len() as int),
    {
        if self.commits.len() == 0 {
            0
        } else {
            self.selected / Self::per_page()
        }
    }

    /// The number of pages, at least 1.
    pub fn page_count(&self) -> (count: usize)
        ensures
            count == pages(self.entries().len() as int),
            count >= 1,
    {
        let n = self.commits.len();
        if n == 0 {
            1
        } else {
            (n - 1) / Self::per_page() + 1
        }
    }

    /// The rows of the current page, in order.
    pub fn page_commits(&self) -> (rows: &[CommitRow])
        requires
            self.wf(),
        ensures
            rows@ == self.visible(),
    {
        let per_page = Self::per_page();
        let start = self.current_page() * per_page;
        let end = if self.commits.len() - start < per_page {
            self.commits.len()
        } else {
            start + per_page
        };
        slice_subrange(self.commits.as_slice(), start, end)
    }

    /// Tells whether row `row` of the current page is the one under the
    /// cursor.
    pub fn is_highlighted(&self, row: usize) -> (b: bool)
        ensures
            b == (page_start(self.cursor(), self.entries().len() as int) + row == self.cursor()),
    {
        let start = self.current_page() * Self::per_page();
        self.selected - start == row
    }

    /// The current page, counted from 1 as it is shown.
    pub fn page_number(&self) -> (number: usize)
        ensures
            number == page_of(self.cursor(), self.entries().len() as int) + 1,
    {
        self.current_page() + 1
    }

    /// The message of the row under the cursor; empty in an empty list.
    pub fn selected_message(&self) -> (message: String)
        ensures
            message@ == if self.cursor() < self.entries().len() {
                self.entries()[self.cursor()].message@
            } else {
                Seq::<char>::empty()
            },
    {
        match self.selected_commit() {
            Some(row) => row.message.clone(),
            None => String::new(),
        }
    }

    /// Rows on one page.
    pub fn per_page() -> (p: usize)
        ensures
            p == PAGE_SIZE,
    {
        PAGE_SIZE
    }

    /// The number of loaded rows.
    pub fn commit_count(&self) -> (n: usize)
        ensures
            n == self.entries().len(),
    {
        self.commits.len()
    }
}

/// `k` steps forward from a cursor inside the list end `k` places further on,
/// counted round the list.
pub proof fn lemma_advanced_is_modular(c: int, n: int, k: nat)
    requires
        0 <= c < n,
    ensures
        advanced(c, n, k) == (c + k) % n,
    decreases k,
{
    if k == 0 {
        lemma_small_mod(c as nat, n as nat);
    } else {
        lemma_advanced_is_modular(c, n, (k - 1) as nat);
        lemma_add_mod_noop_right(1, c + k - 1, n);
    }
}

/// Stepping forward as many times as the list has rows brings the cursor back
/// to where it started.
pub proof fn lemma_advance_full_cycle(c: int, n: int)
    requires
        0 <= n,
        n > 0 ==> 0 <= c < n,
    ensures
        advanced(c, n, n as nat) == c,
{
    if n > 0 {
        lemma_advanced_is_modular(c, n, n as nat);
        lemma_mod_add_multiples_vanish(c, n);
        lemma_small_mod(c as nat, n as nat);
    } else {
        assert(advanced(c, n, 0) == c);
    }
}

/// A step back undoes a step forward.
pub proof fn lemma_retreat_undoes_advance(c: int, n: int)
    requires
        n > 0 ==> 0 <= c < n,
    ensures
        prev_cursor(next_cursor(c, n), n) == c,
{
    if n > 0 {
        if c + 1 < n {
            lemma_small_mod((c + 1) as nat, n as nat);
        } else {
            lemma_mod_add_multiples_vanish(0, n);
            lemma_small_mod(0, n as nat);
        }
    }
}

/// A step forward undoes a step back.
pub proof fn lemma_advance_undoes_retreat(c: int, n: int)
    requires
        n > 0 ==> 0 <= c < n,
    ensures
        next_cursor(prev_cursor(c, n), n) == c,
{
    if n > 0 {
        if c == 0 {
            lemma_mod_add_multiples_vanish(0, n);
            lemma_small_mod(0, n as nat);
        } else {
            lemma_small_mod(c as nat, n as nat);
        }
    }
}

/// Both steps keep a cursor inside the list.
pub proof fn lemma_steps_stay_inside(c: int, n: int)
    requires
        0 <= c < n,
    ensures
        0 <= next_cursor(c, n) < n,
        0 <= prev_cursor(c, n) < n,
{
    if c + 1 < n {
        lemma_small_mod((c + 1) as nat, n as nat);
    } else {
        lemma_mod_add_multiples_vanish(0, n);
        lemma_small_mod(0, n as nat);
    }
}

/// The page count is the list's length divided by the page size and rounded
/// up, and 1 for an empty list: the pages hold every row, and one page fewer
/// would not.
pub proof fn lemma_page_count_is_ceiling(n: int)
    requires
        0 <= n,
    ensures
        pages(n) >= 1,
        n == 0 ==> pages(n) == 1,
        n > 0 ==> (pages(n) - 1) * PAGE_SIZE < n <= pages(n) * PAGE_SIZE,
{
}

/// A cursor inside the list lies on one of the pages and between the bounds of
/// its own page, which holds at least that row and at most `PAGE_SIZE` rows.
pub proof fn lemma_cursor_within_its_page(c: int, n: int)
    requires
        0 <= c < n,
    ensures
        0 <= page_of(c, n) < pages(n),
        0 <= page_start(c, n) <= c < page_end(c, n) <= n,
        page_end(c, n) - page_start(c, n) <= PAGE_SIZE,
        page_start(c, n) % (PAGE_SIZE as int) == 0,
{
}

/// The row under the cursor is among the visible rows, at the cursor's place
/// within the page.
pub proof fn lemma_selected_row_is_visible(app: App)
    requires
        0 <= app.cursor() < app.entries().len(),
    ensures
        0 <= app.cursor() - page_start(app.cursor(), app.entries().len() as int)
            < app.visible().len(),
        app.visible()[app.cursor() - page_start(app.cursor(), app.entries().len() as int)]
            == app.entries()[app.cursor()],
{
    lemma_cursor_within_its_page(app.cursor(), app.entries().len() as int);
}

/// With no rows both steps leave the cursor alone, there is one page, and
/// nothing is visible.
pub proof fn lemma_empty_list(app: App)
    requires
        app.entries().len() == 0,
    ensures
        next_cursor(app.cursor(), 0) == app.cursor(),
        prev_cursor(app.cursor(), 0) == app.cursor(),
        page_of(app.cursor(), 0) == 0,
        pages(0) == 1,
        app.visible().len() == 0,
{
}

} // verus!
