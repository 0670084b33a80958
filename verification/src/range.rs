//! The range resolver: from a phrase and the present moment to a pair of
//! instants.
//!
//! A phrase is trimmed and put in lower case once. Then five strategies are
//! tried in a fixed order, and the first that yields a range wins:
//!
//! 1. `since <phrase>`: from the date of the phrase until now;
//! 2. `<left> to <right>`: from the date of the left side until that of the
//!    right side, whether or not the left one comes first;
//! 3. a length of time, such as `3 days ago`: from now moved by it until now;
//! 4. a date: from it until now;
//! 5. otherwise the last 365 days.
//!
//! A strategy whose phrase does not parse yields nothing, and the next one is
//! tried. The last cannot fail, so every phrase resolves.

use vstd::prelude::*;
use vstd::string::StrSliceExecFns;
use crate::phrase::{date_of, read_date, read_span, span_of};
use crate::text::{
    all_spaces, find, find_first, lemma_find_from_is_first, lemma_trim_start_of_spaces,
    lemma_trimmed_ignores_padding, lowercased, matches_at, starts_with, to_chars, to_lowercase,
    trim_bounds, trimmed,
};
use crate::time::{DateRange, Span, TimeInstant, SECS_PER_YEAR};

verus! {

/// The word that opens a phrase of the first strategy, with its space.
pub open spec fn since_word() -> Seq<char> {
    seq!['s', 'i', 'n', 'c', 'e', ' ']
}

/// The word that parts the two sides of an explicit range, with its spaces.
pub open spec fn range_word() -> Seq<char> {
    seq![' ', 't', 'o', ' ']
}

/// The phrase as the strategies see it: trimmed, then in lower case. Where
/// trimming leaves nothing, nothing it is.
pub open spec fn normalized(input: Seq<char>) -> Seq<char> {
    if trimmed(input).len() == 0 {
        trimmed(input)
    } else {
        lowercased(trimmed(input))
    }
}

/// What follows `since ` in a text that begins with it.
pub open spec fn since_phrase(text: Seq<char>) -> Option<Seq<char>> {
    if starts_with(text, since_word()) {
        Some(text.subrange(since_word().len() as int, text.len() as int))
    } else {
        None
    }
}

/// The two sides of the first ` to ` in a text, each trimmed.
pub open spec fn range_sides(text: Seq<char>) -> Option<(Seq<char>, Seq<char>)> {
    match find_first(text, range_word()) {
        Some(i) => Some(
            (
                trimmed(text.subrange(0, i)),
                trimmed(text.subrange(i + range_word().len(), text.len() as int)),
            ),
        ),
        None => None,
    }
}

/// From `since` until now.
pub open spec fn range_until_now(since: TimeInstant, now: TimeInstant) -> DateRange {
    DateRange { since, until: now }
}

/// From now moved by `span` until now.
pub open spec fn span_range(now: TimeInstant, span: Span) -> DateRange {
    DateRange { since: now.shifted(span.seconds()), until: now }
}

/// The last 365 days.
pub open spec fn default_range(now: TimeInstant) -> DateRange {
    DateRange { since: now.shifted(-(SECS_PER_YEAR as int)), until: now }
}

/// The first strategy: `since <phrase>`.
pub open spec fn since_range(text: Seq<char>, now: TimeInstant) -> Option<DateRange> {
    match since_phrase(text) {
        Some(phrase) => match date_of(phrase, now) {
            Some(since) => Some(range_until_now(since, now)),
            None => None,
        },
        None => None,
    }
}

/// The second strategy: `<left> to <right>`. Nothing asks that the left date
/// come first.
pub open spec fn explicit_range(text: Seq<char>, now: TimeInstant) -> Option<DateRange> {
    match range_sides(text) {
        Some((left, right)) => match (date_of(left, now), date_of(right, now)) {
            (Some(since), Some(until)) => Some(DateRange { since, until }),
            _ => None,
        },
        None => None,
    }
}

/// The third strategy: a length of time.
pub open spec fn relative_range(text: Seq<char>, now: TimeInstant) -> Option<DateRange> {
    match span_of(text) {
        Some(span) => Some(span_range(now, span)),
        None => None,
    }
}

/// The fourth strategy: one date.
pub open spec fn single_range(text: Seq<char>, now: TimeInstant) -> Option<DateRange> {
    match date_of(text, now) {
        Some(since) => Some(range_until_now(since, now)),
        None => None,
    }
}

/// The range that the strategies give for a text that is already normalized.
pub open spec fn chosen_range(text: Seq<char>, now: TimeInstant) -> DateRange {
    if let Some(range) = since_range(text, now) {
        range
    } else if let Some(range) = explicit_range(text, now) {
        range
    } else if let Some(range) = relative_range(text, now) {
        range
    } else if let Some(range) = single_range(text, now) {
        range
    } else {
        default_range(now)
    }
}

/// The range that a phrase resolves to at the moment `now`.
pub open spec fn resolved(input: Seq<char>, now: TimeInstant) -> DateRange {
    chosen_range(normalized(input), now)
}

/// Why no range could be given.
#[derive(Clone, Copy, Debug, PartialEq, Eq, Structural)]
pub enum RangeError {
    /// The time given as "now" is not one of the calendar.
    ClockOutOfRange,
}

/// `chrono::Utc::now`: the system clock's time as seconds and nanoseconds
/// since the epoch, with the offset that `Utc` reports.
///
/// Taken on trust, of every reading: it is a `DateTime<Utc>`, so it lies
/// between `DateTime::MIN_UTC` and `DateTime::MAX_UTC`, its nanoseconds stay
/// below two seconds, and its offset is 0. Which time it is, is not stated.
#[verifier::external_body]
pub(crate) fn current_time() -> (now: TimeInstant)
    ensures
        now.in_calendar(),
        now.offset_secs == 0,
{
    let t = chrono::Utc::now();
    TimeInstant {
        secs: t.timestamp(),
        nanos: t.timestamp_subsec_nanos(),
        offset_secs: chrono::Offset::fix(t.offset()).local_minus_utc(),
    }
}

/// The range from `since` until `now`.
pub fn until_now(since: TimeInstant, now: &TimeInstant) -> (range: DateRange)
    ensures
        range == range_until_now(since, *now),
{
    DateRange { since, until: *now }
}

/// The range from `now` moved by `span` until `now`: into the past for a
/// negative span, into the future for a positive one.
pub fn range_for_span(now: &TimeInstant, span: &Span) -> (range: DateRange)
    requires
        now.in_calendar(),
    ensures
        range == span_range(*now, *span),
        range.since.secs == now.secs + span.seconds(),
        range.since.wf(),
{
    DateRange { since: now.plus_seconds(span.total_seconds()), until: *now }
}

/// The last 365 days before `now`.
pub fn fallback_range(now: &TimeInstant) -> (range: DateRange)
    requires
        now.in_calendar(),
    ensures
        range == default_range(*now),
        range.since.secs == now.secs - SECS_PER_YEAR,
        range.since.wf(),
{
    DateRange { since: now.plus_seconds(-SECS_PER_YEAR), until: *now }
}

/// Tries the first strategy on a normalized text.
pub fn try_since(text: &str, now: &TimeInstant) -> (r: Option<DateRange>)
    ensures
        r == since_range(text@, *now),
        r matches Some(range) ==> range.since.wf() && range.until == *now,
{
    let chars = to_chars(text);
    let word = to_chars("since ");
    proof {
        reveal_strlit("since ");
        assert(word@ =~= since_word());
    }
    if !matches_at(chars.as_slice(), word.as_slice(), 0) {
        return None;
    }
    let phrase = text.substring_char(word.len(), chars.len());
    match read_date(phrase, now) {
        Some(since) => Some(until_now(since, now)),
        None => None,
    }
}

/// Tries the second strategy on a normalized text.
pub fn try_explicit(text: &str, now: &TimeInstant) -> (r: Option<DateRange>)
    ensures
        r == explicit_range(text@, *now),
        r matches Some(range) ==> range.since.wf() && range.until.wf(),
{
    let chars = to_chars(text);
    let word = to_chars(" to ");
    proof {
        reveal_strlit(" to ");
        assert(word@ =~= range_word());
    }
    let at = match find(chars.as_slice(), word.as_slice()) {
        Some(at) => at,
        None => {
            return None;
        },
    };
    proof {
        lemma_find_from_is_first(text@, range_word(), 0);
    }
    let (left_start, left_end) = trim_bounds(chars.as_slice(), 0, at);
    let (right_start, right_end) = trim_bounds(chars.as_slice(), at + word.len(), chars.len());
    let since = match read_date(text.substring_char(left_start, left_end), now) {
        Some(since) => since,
        None => {
            return None;
        },
    };
    match read_date(text.substring_char(right_start, right_end), now) {
        Some(until) => Some(DateRange { since, until }),
        None => None,
    }
}

/// Tries the third strategy on a normalized text.
pub fn try_relative(text: &str, now: &TimeInstant) -> (r: Option<DateRange>)
    requires
        now.in_calendar(),
    ensures
        r == relative_range(text@, *now),
        r matches Some(range) ==> range.since.wf() && range.until == *now,
{
    match read_span(text) {
        Some(span) => Some(range_for_span(now, &span)),
        None => None,
    }
}

/// Tries the fourth strategy on a normalized text.
pub fn try_single(text: &str, now: &TimeInstant) -> (r: Option<DateRange>)
    ensures
        r == single_range(text@, *now),
        r matches Some(range) ==> range.since.wf() && range.until == *now,
{
    match read_date(text, now) {
        Some(since) => Some(until_now(since, now)),
        None => None,
    }
}

/// Trims a phrase and puts it in lower case.
pub fn normalize(input: &str) -> (text: String)
    ensures
        text@ == normalized(input@),
{
    let chars = to_chars(input);
    let (start, end) = trim_bounds(chars.as_slice(), 0, chars.len());
    assert(chars@.subrange(0, chars@.len() as int) =~= chars@);
    if start == end {
        String::new()
    } else {
        to_lowercase(input.substring_char(start, end))
    }
}

/// Resolves a phrase to a range at the moment `now`. Every phrase resolves.
pub fn resolve(input: &str, now: TimeInstant) -> (range: DateRange)
    requires
        now.in_calendar(),
    ensures
        range == resolved(input@, now),
        range.since.wf(),
        range.until.wf(),
{
    let normal = normalize(input);
    let text = normal.as_str();
    if let Some(range) = try_since(text, &now) {
        return range;
    }
    if let Some(range) = try_explicit(text, &now) {
        return range;
    }
    if let Some(range) = try_relative(text, &now) {
        return range;
    }
    if let Some(range) = try_single(text, &now) {
        return range;
    }
    fallback_range(&now)
}

/// Resolves a phrase at the moment `now`, if `now` lies in the calendar.
pub fn range_at(input: &str, now: TimeInstant) -> (r: Result<
    (TimeInstant, TimeInstant),
    RangeError,
>)
    ensures
        r is Ok <==> now.in_calendar(),
        r matches Ok(ends) ==> (DateRange { since: ends.0, until: ends.1 }) == resolved(
            input@,
            now,
        ) && ends.0.wf() && ends.1.wf(),
        r matches Err(e) ==> e == RangeError::ClockOutOfRange,
{
    if now.is_in_calendar() {
        let range = resolve(input, now);
        Ok((range.since, range.until))
    } else {
        Err(RangeError::ClockOutOfRange)
    }
}

/// Resolves a phrase at the present moment, read from the system clock in
/// UTC. Every phrase resolves, whatever the clock shows.
pub fn parse_range(input: &str) -> (r: Result<(TimeInstant, TimeInstant), RangeError>)
    ensures
        r is Ok,
        r matches Ok(ends) ==> ends.0.wf() && ends.1.wf() && exists|now: TimeInstant|
            now.in_calendar() && now.offset_secs == 0 && (DateRange {
                since: ends.0,
                until: ends.1,
            }) == #[trigger] resolved(input@, now),
{
    let now = current_time();
    range_at(input, now)
}

/// A phrase that opens with `since` and goes on with a date resolves to the
/// range from that date until now.
pub proof fn lemma_since_wins(input: Seq<char>, now: TimeInstant, phrase: Seq<char>, since: TimeInstant)
    requires
        since_phrase(normalized(input)) == Some(phrase),
        date_of(phrase, now) == Some(since),
    ensures
        resolved(input, now).since == since,
        resolved(input, now).until == now,
{
}

/// A phrase whose two sides of ` to ` are dates resolves to the range between
/// them, unless the first strategy has taken it. The sides are read trimmed,
/// so white space around either makes no difference.
pub proof fn lemma_explicit_range(
    input: Seq<char>,
    now: TimeInstant,
    at: int,
    since: TimeInstant,
    until: TimeInstant,
)
    requires
        since_range(normalized(input), now) is None,
        find_first(normalized(input), range_word()) == Some(at),
        date_of(trimmed(normalized(input).subrange(0, at)), now) == Some(since),
        date_of(
            trimmed(normalized(input).subrange(at + 4, normalized(input).len() as int)),
            now,
        ) == Some(until),
    ensures
        resolved(input, now) == (DateRange { since, until }),
{
}

/// White space before and after a phrase does not change what it resolves to.
pub proof fn lemma_outer_space_is_ignored(
    before: Seq<char>,
    input: Seq<char>,
    after: Seq<char>,
    now: TimeInstant,
)
    requires
        all_spaces(before),
        all_spaces(after),
    ensures
        resolved(before + input + after, now) == resolved(input, now),
{
    lemma_trimmed_ignores_padding(before, input, after);
}

/// A text put together from a left side, ` to ` and a right side splits into
/// those two sides again, trimmed, as long as no ` to ` stands earlier in it.
pub proof fn lemma_sides_of_joined(left: Seq<char>, right: Seq<char>)
    requires
        find_first(left + range_word() + right, range_word()) == Some(left.len() as int),
    ensures
        range_sides(left + range_word() + right) == Some((trimmed(left), trimmed(right))),
{
    let text = left + range_word() + right;
    assert(text.subrange(0, left.len() as int) =~= left);
    assert(text.subrange(left.len() as int + range_word().len(), text.len() as int) =~= right);
}

/// White space around either side of an explicit range does not change the
/// side that is read.
pub proof fn lemma_sides_ignore_padding(
    left: Seq<char>,
    right: Seq<char>,
    before_left: Seq<char>,
    after_left: Seq<char>,
    before_right: Seq<char>,
    after_right: Seq<char>,
)
    requires
        all_spaces(before_left),
        all_spaces(after_left),
        all_spaces(before_right),
        all_spaces(after_right),
        find_first(
            (before_left + left + after_left) + range_word() + (before_right + right
                + after_right),
            range_word(),
        ) == Some((before_left + left + after_left).len() as int),
    ensures
        range_sides(
            (before_left + left + after_left) + range_word() + (before_right + right
                + after_right),
        ) == Some((trimmed(left), trimmed(right))),
{
    lemma_sides_of_joined(before_left + left + after_left, before_right + right + after_right);
    lemma_trimmed_ignores_padding(before_left, left, after_left);
    lemma_trimmed_ignores_padding(before_right, right, after_right);
}

/// A phrase on which every strategy fails resolves to the last 365 days.
pub proof fn lemma_fallback(input: Seq<char>, now: TimeInstant)
    requires
        since_range(normalized(input), now) is None,
        explicit_range(normalized(input), now) is None,
        relative_range(normalized(input), now) is None,
        single_range(normalized(input), now) is None,
    ensures
        resolved(input, now) == default_range(now),
        resolved(input, now).until == now,
        resolved(input, now).since == now.shifted(-365 * 86_400),
{
}

/// A phrase that is empty or all white space resolves to the last 365 days.
pub proof fn lemma_blank_gives_fallback(input: Seq<char>, now: TimeInstant)
    requires
        all_spaces(input),
    ensures
        resolved(input, now) == default_range(now),
{
    lemma_trim_start_of_spaces(input);
    let text = normalized(input);
    assert(text.len() == 0);
    assert(!starts_with(text, since_word()));
    assert(find_first(text, range_word()) is None);
}

/// Whatever the phrase, a range that does not come from an explicit
/// `<left> to <right>` ends now.
pub proof fn lemma_range_ends_now(input: Seq<char>, now: TimeInstant)
    requires
        since_range(normalized(input), now) is Some || explicit_range(normalized(input), now)
            is None,
    ensures
        resolved(input, now).until == now,
{
}

} // verus!
