//! Instants, ranges of instants and calendar-free spans of time.

use vstd::prelude::*;

verus! {

/// Seconds in one day.
pub const SECS_PER_DAY: i64 = 86_400;

/// Seconds in the thirty days that stand for one month.
pub const SECS_PER_MONTH: i64 = 2_592_000;

/// Seconds in the 365 days that the fallback range reaches back.
pub const SECS_PER_YEAR: i64 = 31_536_000;

/// How far from the epoch, in seconds, an instant may lie for the date parser
/// to count from it: about 253,000 years either way, which leaves room below
/// the calendar's own end for every relative phrase the resolver hands to the
/// parser.
pub const CLOCK_LIMIT_SECS: i64 = 8_000_000_000_000;

/// The first second that the calendar holds, the start of the year -262143,
/// in seconds since the epoch.
pub const CALENDAR_MIN_SECS: i64 = -8_334_601_228_800;

/// The last second that the calendar holds, the end of the year 262142, in
/// seconds since the epoch.
pub const CALENDAR_MAX_SECS: i64 = 8_210_266_876_799;

/// An absolute point in time: seconds and nanoseconds since the Unix epoch in
/// UTC, and the UTC offset (seconds east) of the source it came from.
///
/// The offset only matters for display. Two instants are compared by their UTC
/// part alone, first by `secs` and then by `nanos`.
#[derive(Clone, Copy, Debug, PartialEq, Eq, Structural)]
pub struct TimeInstant {
    pub secs: i64,
    pub nanos: u32,
    pub offset_secs: i32,
}

/// A pair of instants. Nothing orders the two: a range whose `since` lies after
/// its `until` is legal and selects nothing.
#[derive(Clone, Copy, Debug, PartialEq, Eq, Structural)]
pub struct DateRange {
    pub since: TimeInstant,
    pub until: TimeInstant,
}

/// A length of time as the duration parser reports it: in seconds, in days or
/// in months, each possibly negative.
#[derive(Clone, Copy, Debug, PartialEq, Eq, Structural)]
pub enum Span {
    Seconds(i32),
    Days(i32),
    Months(i32),
}

impl TimeInstant {
    /// The fields are in the ranges that a calendar time allows: the
    /// nanoseconds stay below two seconds (the second half is a leap second),
    /// the offset stays within a day.
    pub open spec fn wf(self) -> bool {
        &&& self.nanos < 2_000_000_000
        &&& -86_400 < self.offset_secs < 86_400
    }

    /// An instant of the calendar: well formed, and between the calendar's
    /// first and last second.
    pub open spec fn in_calendar(self) -> bool {
        &&& self.wf()
        &&& CALENDAR_MIN_SECS <= self.secs <= CALENDAR_MAX_SECS
    }

    /// An instant from which the date parser can count: well formed, not
    /// inside a leap second, and no further than `CLOCK_LIMIT_SECS` from the
    /// epoch.
    pub open spec fn is_wall_clock(self) -> bool {
        &&& self.wf()
        &&& self.nanos < 1_000_000_000
        &&& -CLOCK_LIMIT_SECS <= self.secs <= CLOCK_LIMIT_SECS
    }

    /// `self` is strictly earlier than `other`, whatever their offsets.
    pub open spec fn before(self, other: TimeInstant) -> bool {
        self.secs < other.secs || (self.secs == other.secs && self.nanos < other.nanos)
    }

    /// `self` and `other` are the same point in time, whatever their offsets.
    pub open spec fn same_moment(self, other: TimeInstant) -> bool {
        self.secs == other.secs && self.nanos == other.nanos
    }

    /// The instant `delta` seconds after `self` (before it, for a negative
    /// `delta`), with the same fraction of a second and the same offset.
    pub open spec fn shifted(self, delta: int) -> TimeInstant {
        TimeInstant { secs: (self.secs + delta) as i64, nanos: self.nanos, offset_secs: self.offset_secs }
    }

    /// An instant in UTC.
    pub fn utc(secs: i64, nanos: u32) -> (t: TimeInstant)
        ensures
            t == (TimeInstant { secs, nanos, offset_secs: 0 }),
    {
        TimeInstant { secs, nanos, offset_secs: 0 }
    }

    /// Tells whether the fields are in range.
    pub fn is_valid(&self) -> (b: bool)
        ensures
            b == self.wf(),
    {
        self.nanos < 2_000_000_000 && -86_400 < self.offset_secs && self.offset_secs < 86_400
    }

    /// Tells whether the instant lies in the calendar.
    pub fn is_in_calendar(&self) -> (b: bool)
        ensures
            b == self.in_calendar(),
    {
        self.is_valid() && CALENDAR_MIN_SECS <= self.secs && self.secs <= CALENDAR_MAX_SECS
    }

    /// Tells whether the date parser can count from the instant.
    pub fn in_clock_range(&self) -> (b: bool)
        ensures
            b == self.is_wall_clock(),
    {
        self.is_valid() && self.nanos < 1_000_000_000 && -CLOCK_LIMIT_SECS <= self.secs
            && self.secs <= CLOCK_LIMIT_SECS
    }

    /// Tells whether `self` is strictly earlier than `other`.
    pub fn is_before(&self, other: &TimeInstant) -> (b: bool)
        ensures
            b == self.before(*other),
    {
        self.secs < other.secs || (self.secs == other.secs && self.nanos < other.nanos)
    }

    /// Moves the instant by `delta` seconds.
    pub fn plus_seconds(&self, delta: i64) -> (t: TimeInstant)
        requires
            i64::MIN <= self.secs + delta <= i64::MAX,
        ensures
            t == self.shifted(delta as int),
            t.secs == self.secs + delta,
            t.nanos == self.nanos,
            t.offset_secs == self.offset_secs,
    {
        TimeInstant { secs: self.secs + delta, nanos: self.nanos, offset_secs: self.offset_secs }
    }

    /// The month and year of the instant in its own offset, spelled out in
    /// English, as in `January 2020`.
    pub fn month_year_label(&self) -> (label: String)
        requires
            self.is_wall_clock(),
        ensures
            label@ == formatted(*self, "%B %Y"@),
    {
        format_instant(self, "%B %Y")
    }

    /// The day of the instant in its own offset, as month, day and two-digit
    /// year with strokes between them.
    pub fn day_label(&self) -> (label: String)
        requires
            self.is_wall_clock(),
        ensures
            label@ == formatted(*self, "%m/%d/%y"@),
    {
        format_instant(self, "%m/%d/%y")
    }

    /// The time of day of the instant in its own offset, as hours and minutes.
    pub fn clock_label(&self) -> (label: String)
        requires
            self.is_wall_clock(),
        ensures
            label@ == formatted(*self, "%H:%M"@),
    {
        format_instant(self, "%H:%M")
    }
}

/// What `chrono::DateTime::format` writes for an instant, shown in its own
/// offset, under a pattern.
pub uninterp spec fn formatted(t: TimeInstant, pattern: Seq<char>) -> Seq<char>;

/// `chrono::DateTime::format`, on the `DateTime<FixedOffset>` that has the
/// seconds, nanoseconds and offset of `t`, written out with `to_string`.
///
/// Taken on trust: under each of the three patterns listed the call returns
/// for every instant in the clock's range, and what it writes depends on the
/// instant and the pattern alone. What it writes is not stated.
#[verifier::external_body]
pub(crate) fn format_instant(t: &TimeInstant, pattern: &str) -> (label: String)
    requires
        t.is_wall_clock(),
        pattern@ == "%B %Y"@ || pattern@ == "%m/%d/%y"@ || pattern@ == "%H:%M"@,
    ensures
        label@ == formatted(*t, pattern@),
{
    let zone = chrono::FixedOffset::east_opt(t.offset_secs).unwrap();
    let utc = chrono::DateTime::from_timestamp(t.secs, t.nanos).unwrap();
    utc.with_timezone(&zone).format(pattern).to_string()
}

impl Span {
    /// The span in seconds, a day counted as 86,400 seconds and a month as
    /// thirty days.
    pub open spec fn seconds(self) -> int {
        match self {
            Span::Seconds(s) => s as int,
            Span::Days(d) => d * SECS_PER_DAY,
            Span::Months(m) => m * SECS_PER_MONTH,
        }
    }

    /// The span in seconds.
    pub fn total_seconds(&self) -> (n: i64)
        ensures
            n == self.seconds(),
            -5_566_277_615_616_000 <= n <= 5_566_277_615_616_000,
    {
        match self {
            Span::Seconds(s) => *s as i64,
            Span::Days(d) => (*d as i64) * SECS_PER_DAY,
            Span::Months(m) => (*m as i64) * SECS_PER_MONTH,
        }
    }
}

impl DateRange {
    /// `t` lies within the range, both ends included.
    pub open spec fn contains(self, t: TimeInstant) -> bool {
        !t.before(self.since) && !self.until.before(t)
    }

    /// No instant lies within the range.
    pub open spec fn is_empty(self) -> bool {
        self.until.before(self.since)
    }

    /// Tells whether `t` lies within the range, both ends included.
    pub fn includes(&self, t: &TimeInstant) -> (b: bool)
        ensures
            b == self.contains(*t),
    {
        !t.is_before(&self.since) && !self.until.is_before(t)
    }
}

/// `before` orders the moments strictly: no instant lies before itself, what
/// lies before an earlier instant lies before a later one, and of two
/// different moments one lies before the other.
pub proof fn lemma_before_orders_moments(a: TimeInstant, b: TimeInstant, c: TimeInstant)
    ensures
        !a.before(a),
        a.before(b) && b.before(c) ==> a.before(c),
        a.before(b) || b.before(a) || a.same_moment(b),
        !(a.before(b) && b.before(a)),
{
}

/// An inverted range holds no instant.
pub proof fn lemma_inverted_range_selects_nothing(range: DateRange, t: TimeInstant)
    requires
        range.is_empty(),
    ensures
        !range.contains(t),
{
}

} // verus!
