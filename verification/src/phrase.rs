//! The way to the English date parser: which phrases it may be given, and what
//! comes back.
//!
//! The parser is `chrono_english`. It works through a phrase token by token and
//! computes with what it reads, and it does not defend itself:
//!
//! - it cuts the first bytes off a word to tell a month from a week day, which
//!   fails in the middle of a character outside ASCII;
//! - it multiplies and negates the numbers it reads in 32 bits, and it adds a
//!   relative phrase to the reference time without looking whether the
//!   calendar reaches that far;
//! - after the seconds of a time it reads what follows a full stop as a
//!   fraction, digit or not;
//! - it counts lines in 32 bits.
//!
//! `phrase_is_safe` names the phrases on which none of this can happen: plain
//! ASCII, no number above 99,999, a digit after every full stop, 1,024
//! characters at most. With such numbers a relative phrase moves the reference
//! time by 99,999 weeks at most, less than two thousand years, and the clock's
//! range ends more than six thousand years before the calendar does. Only safe
//! phrases reach the parser, and dates are only read relative to a time in the
//! clock's range; every other phrase counts as one that did not parse, and so
//! does the empty phrase, in which there is nothing to read.

use vstd::prelude::*;
use crate::text::to_chars;
use crate::time::{Span, TimeInstant};

verus! {

/// The longest phrase that is handed to the parser, in characters.
pub const MAX_PHRASE_LEN: usize = 1024;

/// The longest number, in digits, that a phrase handed to the parser may hold.
pub const MAX_DIGITS: usize = 5;

/// A decimal digit.
pub open spec fn is_digit(c: char) -> bool {
    '0' <= c && c <= '9'
}

/// A character of ASCII.
pub open spec fn is_plain(c: char) -> bool {
    c <= '\u{7f}'
}

/// More than `MAX_DIGITS` digits in a row start at index `i` of `t`.
pub open spec fn long_number_at(t: Seq<char>, i: int) -> bool {
    &&& 0 <= i && i + 6 <= t.len()
    &&& is_digit(t[i])
    &&& is_digit(t[i + 1])
    &&& is_digit(t[i + 2])
    &&& is_digit(t[i + 3])
    &&& is_digit(t[i + 4])
    &&& is_digit(t[i + 5])
}

/// At index `i` of `t` stands a full stop, and what follows it is no digit.
pub open spec fn loose_point_at(t: Seq<char>, i: int) -> bool {
    0 <= i && i + 1 < t.len() && t[i] == '.' && !is_digit(t[i + 1])
}

/// The phrase can be handed to the parser: it is not empty and no longer than
/// `MAX_PHRASE_LEN`, all of it is ASCII, no number in it has more than
/// `MAX_DIGITS` digits, and a full stop is followed by a digit or by nothing.
pub open spec fn phrase_is_safe(t: Seq<char>) -> bool {
    &&& 0 < t.len() <= MAX_PHRASE_LEN
    &&& forall|i: int| 0 <= i < t.len() ==> is_plain(#[trigger] t[i])
    &&& forall|i: int| !#[trigger] long_number_at(t, i)
    &&& forall|i: int| !#[trigger] loose_point_at(t, i)
}

/// What `chrono_english::parse_date_string` makes of a phrase in the British
/// dialect, read relative to the UTC time of `now`; none where it reports an
/// error.
pub uninterp spec fn parsed_date(text: Seq<char>, now: TimeInstant) -> Option<TimeInstant>;

/// What `chrono_english::parse_duration` makes of a phrase; none where it
/// reports an error.
pub uninterp spec fn parsed_span(text: Seq<char>) -> Option<Span>;

/// The date that a phrase stands for, as far as the parser is asked: it is
/// asked about a safe phrase, and with a reference time it can count from.
pub open spec fn date_of(text: Seq<char>, now: TimeInstant) -> Option<TimeInstant> {
    if phrase_is_safe(text) && now.is_wall_clock() {
        parsed_date(text, now)
    } else {
        None
    }
}

/// The length of time that a phrase stands for, as far as the parser is asked.
pub open spec fn span_of(text: Seq<char>) -> Option<Span> {
    if phrase_is_safe(text) {
        parsed_span(text)
    } else {
        None
    }
}

/// `chrono_english::parse_date_string` with `Dialect::Uk`, on a `DateTime<Utc>`
/// made of the seconds and nanoseconds of `now`.
///
/// Taken on trust: the call returns on every safe phrase and every reference
/// time in the clock's range; its outcome depends on the phrase and on `now`
/// alone; and a date that comes back is a UTC time whose nanoseconds are below
/// two seconds. Which date comes back is not stated.
#[verifier::external_body]
pub(crate) fn parse_date_utc(text: &str, now: &TimeInstant) -> (r: Option<TimeInstant>)
    requires
        phrase_is_safe(text@),
        now.is_wall_clock(),
    ensures
        r == parsed_date(text@, *now),
        r matches Some(t) ==> t.wf() && t.offset_secs == 0,
{
    let base = chrono::DateTime::from_timestamp(now.secs, now.nanos).unwrap();
    match chrono_english::parse_date_string(text, base, chrono_english::Dialect::Uk) {
        Ok(d) => Some(
            TimeInstant {
                secs: d.timestamp(),
                nanos: d.timestamp_subsec_nanos(),
                offset_secs: chrono::Offset::fix(d.offset()).local_minus_utc(),
            },
        ),
        Err(_) => None,
    }
}

/// `chrono_english::parse_duration`.
///
/// Taken on trust: the call returns on every safe phrase, and its outcome
/// depends on the phrase alone. Which span comes back is not stated.
#[verifier::external_body]
pub(crate) fn parse_span(text: &str) -> (r: Option<Span>)
    requires
        phrase_is_safe(text@),
    ensures
        r == parsed_span(text@),
{
    match chrono_english::parse_duration(text) {
        Ok(chrono_english::Interval::Seconds(s)) => Some(Span::Seconds(s)),
        Ok(chrono_english::Interval::Days(d)) => Some(Span::Days(d)),
        Ok(chrono_english::Interval::Months(m)) => Some(Span::Months(m)),
        Err(_) => None,
    }
}

/// Tells whether `c` is a decimal digit.
pub fn is_digit_char(c: char) -> (b: bool)
    ensures
        b == is_digit(c),
{
    '0' <= c && c <= '9'
}

/// Tells whether the phrase can be handed to the parser.
pub fn is_safe_phrase(t: &[char]) -> (b: bool)
    ensures
        b == phrase_is_safe(t@),
{
    let n = t.len();
    if n == 0 || n > MAX_PHRASE_LEN {
        return false;
    }
    let mut i: usize = 0;
    let mut run: usize = 0;
    while i < n
        invariant
            i <= n,
            n == t.len(),
            run <= MAX_DIGITS,
            run <= i,
            forall|k: int| 0 <= k < i ==> is_plain(#[trigger] t@[k]),
            forall|k: int| i - run <= k < i ==> is_digit(#[trigger] t@[k]),
            run < i ==> !is_digit(t@[i - run - 1]),
            forall|k: int| k + 6 <= i ==> !#[trigger] long_number_at(t@, k),
            forall|k: int| k < i ==> !#[trigger] loose_point_at(t@, k),
        decreases n - i,
    {
        let c = t[i];
        if c > '\u{7f}' {
            return false;
        }
        if is_digit_char(c) {
            if run == MAX_DIGITS {
                assert(long_number_at(t@, i - 5));
                return false;
            }
            run += 1;
        } else {
            run = 0;
        }
        if c == '.' && i + 1 < n && !is_digit_char(t[i + 1]) {
            assert(loose_point_at(t@, i as int));
            return false;
        }
        i += 1;
    }
    true
}

/// Reads a phrase as a date relative to `now`, in UTC. A phrase that is not
/// safe for the parser is not read, and none is read relative to a time that
/// the parser cannot count from.
pub fn read_date(text: &str, now: &TimeInstant) -> (r: Option<TimeInstant>)
    ensures
        r == date_of(text@, *now),
        r matches Some(t) ==> t.wf() && t.offset_secs == 0,
{
    if !now.in_clock_range() {
        return None;
    }
    let chars = to_chars(text);
    if is_safe_phrase(chars.as_slice()) {
        parse_date_utc(text, now)
    } else {
        None
    }
}

/// Reads a phrase as a length of time. A phrase that is not safe for the
/// parser is not read.
pub fn read_span(text: &str) -> (r: Option<Span>)
    ensures
        r == span_of(text@),
{
    let chars = to_chars(text);
    if is_safe_phrase(chars.as_slice()) {
        parse_span(text)
    } else {
        None
    }
}

} // verus!
