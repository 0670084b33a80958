//! Work on text as a sequence of characters: white space, trimming, and
//! finding one piece of text in another.

use vstd::prelude::*;
use vstd::std_specs::iter::IteratorSpec;

verus! {

/// The characters that Unicode calls white space.
pub open spec fn is_space(c: char) -> bool {
    ||| ('\u{9}' <= c && c <= '\u{d}')
    ||| c == ' '
    ||| c == '\u{85}'
    ||| c == '\u{a0}'
    ||| c == '\u{1680}'
    ||| ('\u{2000}' <= c && c <= '\u{200a}')
    ||| c == '\u{2028}'
    ||| c == '\u{2029}'
    ||| c == '\u{202f}'
    ||| c == '\u{205f}'
    ||| c == '\u{3000}'
}

/// Every character of `s` is white space.
pub open spec fn all_spaces(s: Seq<char>) -> bool {
    forall|i: int| 0 <= i < s.len() ==> is_space(#[trigger] s[i])
}

/// `s` without the white space it starts with.
pub open spec fn trim_start(s: Seq<char>) -> Seq<char>
    decreases s.len(),
{
    if s.len() > 0 && is_space(s.first()) {
        trim_start(s.drop_first())
    } else {
        s
    }
}

/// `s` without the white space it ends with.
pub open spec fn trim_end(s: Seq<char>) -> Seq<char>
    decreases s.len(),
{
    if s.len() > 0 && is_space(s.last()) {
        trim_end(s.drop_last())
    } else {
        s
    }
}

/// `s` without the white space at either end.
pub open spec fn trimmed(s: Seq<char>) -> Seq<char> {
    trim_end(trim_start(s))
}

/// `p` stands in `s` at index `i`.
pub open spec fn occurs_at(s: Seq<char>, p: Seq<char>, i: int) -> bool {
    0 <= i && i + p.len() <= s.len() && s.subrange(i, i + p.len()) == p
}

/// `s` begins with `p`.
pub open spec fn starts_with(s: Seq<char>, p: Seq<char>) -> bool {
    occurs_at(s, p, 0)
}

/// The first index at or after `i` where `p` stands in `s`.
pub open spec fn find_from(s: Seq<char>, p: Seq<char>, i: int) -> Option<int>
    decreases s.len() - i,
{
    if i < 0 || i + p.len() > s.len() {
        None
    } else if occurs_at(s, p, i) {
        Some(i)
    } else if i < s.len() {
        find_from(s, p, i + 1)
    } else {
        None
    }
}

/// The first index where `p` stands in `s`.
pub open spec fn find_first(s: Seq<char>, p: Seq<char>) -> Option<int> {
    find_from(s, p, 0)
}

/// `s` ends with `p`.
pub open spec fn ends_with(s: Seq<char>, p: Seq<char>) -> bool {
    occurs_at(s, p, s.len() - p.len())
}

/// `s` without `p` at its start, as often as `p` stands there.
pub open spec fn strip_prefixes(s: Seq<char>, p: Seq<char>) -> Seq<char>
    decreases s.len(),
{
    if p.len() > 0 && starts_with(s, p) {
        strip_prefixes(s.subrange(p.len() as int, s.len() as int), p)
    } else {
        s
    }
}

/// `s` without `p` at its end, as often as `p` stands there.
pub open spec fn strip_suffixes(s: Seq<char>, p: Seq<char>) -> Seq<char>
    decreases s.len(),
{
    if p.len() > 0 && ends_with(s, p) {
        strip_suffixes(s.subrange(0, s.len() - p.len()), p)
    } else {
        s
    }
}

/// What `str::to_lowercase` makes of a text.
pub uninterp spec fn lowercased(text: Seq<char>) -> Seq<char>;

/// `str::to_lowercase` of the standard library: the text with every character
/// replaced by its Unicode lower-case form. The result is taken as given; the
/// contract only gives it its name.
#[verifier::external_body]
pub(crate) fn to_lowercase(text: &str) -> (lower: String)
    ensures
        lower@ == lowercased(text@),
{
    text.to_lowercase()
}

/// Tells whether `c` is white space.
pub fn is_whitespace(c: char) -> (b: bool)
    ensures
        b == is_space(c),
{
    ('\u{9}' <= c && c <= '\u{d}') || c == ' ' || c == '\u{85}' || c == '\u{a0}' || c == '\u{1680}'
        || ('\u{2000}' <= c && c <= '\u{200a}') || c == '\u{2028}' || c == '\u{2029}'
        || c == '\u{202f}' || c == '\u{205f}' || c == '\u{3000}'
}

/// The characters of `text`, one by one.
pub fn to_chars(text: &str) -> (chars: Vec<char>)
    ensures
        chars@ == text@,
{
    let mut chars: Vec<char> = Vec::new();
    let mut rest = text.chars();
    loop
        invariant
            chars@ + rest.remaining() == text@,
        ensures
            chars@ == text@,
        decreases text@.len() - chars@.len(),
    {
        match rest.next() {
            Some(c) => {
                chars.push(c);
            },
            None => {
                break;
            },
        }
    }
    chars
}

/// Where the trimmed part of `chars[lo..hi]` starts and ends.
pub fn trim_bounds(chars: &[char], lo: usize, hi: usize) -> (ends: (usize, usize))
    requires
        lo <= hi <= chars.len(),
    ensures
        lo <= ends.0 <= ends.1 <= hi,
        chars@.subrange(ends.0 as int, ends.1 as int) == trimmed(
            chars@.subrange(lo as int, hi as int),
        ),
{
    let mut a = lo;
    while a < hi && is_whitespace(chars[a])
        invariant
            lo <= a <= hi <= chars.len(),
            trim_start(chars@.subrange(lo as int, hi as int)) == trim_start(
                chars@.subrange(a as int, hi as int),
            ),
        decreases hi - a,
    {
        assert(chars@.subrange(a as int, hi as int).drop_first() == chars@.subrange(
            a + 1,
            hi as int,
        ));
        a += 1;
    }
    let mut b = hi;
    while a < b && is_whitespace(chars[b - 1])
        invariant
            a <= b <= hi <= chars.len(),
            trim_end(chars@.subrange(a as int, hi as int)) == trim_end(
                chars@.subrange(a as int, b as int),
            ),
        decreases b - a,
    {
        assert(chars@.subrange(a as int, b as int).drop_last() == chars@.subrange(
            a as int,
            b - 1,
        ));
        b -= 1;
    }
    (a, b)
}

/// Tells whether `p` stands in `s` at index `i`.
pub fn matches_at(s: &[char], p: &[char], i: usize) -> (b: bool)
    ensures
        b == occurs_at(s@, p@, i as int),
{
    if i > s.len() || p.len() > s.len() - i {
        return false;
    }
    let mut k: usize = 0;
    while k < p.len()
        invariant
            k <= p.len(),
            i + p.len() <= s.len(),
            forall|j: int| 0 <= j < k ==> s@[i + j] == p@[j],
        decreases p.len() - k,
    {
        if s[i + k] != p[k] {
            assert(s@.subrange(i as int, i + p.len())[k as int] != p@[k as int]);
            return false;
        }
        k += 1;
    }
    assert(s@.subrange(i as int, i + p.len()) =~= p@);
    true
}

/// The first index where `p` stands in `s`.
pub fn find(s: &[char], p: &[char]) -> (r: Option<usize>)
    ensures
        match r {
            Some(i) => find_first(s@, p@) == Some(i as int),
            None => find_first(s@, p@) is None,
        },
{
    if p.len() > s.len() {
        return None;
    }
    let last = s.len() - p.len();
    let mut i: usize = 0;
    while i < last
        invariant
            i <= last,
            last + p.len() == s.len(),
            find_first(s@, p@) == find_from(s@, p@, i as int),
        decreases last - i,
    {
        if matches_at(s, p, i) {
            return Some(i);
        }
        i += 1;
    }
    if matches_at(s, p, last) {
        Some(last)
    } else {
        assert(find_from(s@, p@, last + 1) is None);
        None
    }
}

/// Where `chars[lo..]` starts once `p` is taken from its start as often as it
/// stands there.
pub fn skip_prefixes(chars: &[char], lo: usize, p: &[char]) -> (start: usize)
    requires
        lo <= chars.len(),
    ensures
        lo <= start <= chars.len(),
        chars@.subrange(start as int, chars@.len() as int) == strip_prefixes(
            chars@.subrange(lo as int, chars@.len() as int),
            p@,
        ),
{
    let n = chars.len();
    let mut start = lo;
    if p.len() == 0 {
        return start;
    }
    while matches_at(chars, p, start)
        invariant
            lo <= start <= n,
            n == chars.len(),
            p.len() > 0,
            strip_prefixes(chars@.subrange(lo as int, n as int), p@) == strip_prefixes(
                chars@.subrange(start as int, n as int),
                p@,
            ),
        decreases n - start,
    {
        proof {
            let rest = chars@.subrange(start as int, n as int);
            assert(rest.subrange(0, p@.len() as int) =~= chars@.subrange(
                start as int,
                start + p@.len(),
            ));
            assert(rest.subrange(p@.len() as int, rest.len() as int) =~= chars@.subrange(
                start + p@.len(),
                n as int,
            ));
        }
        start += p.len();
    }
    proof {
        let rest = chars@.subrange(start as int, n as int);
        if start + p@.len() <= n {
            assert(rest.subrange(0, p@.len() as int) =~= chars@.subrange(
                start as int,
                start + p@.len(),
            ));
        }
    }
    start
}

/// Where `chars[lo..]` ends once `p` is taken from its end as often as it
/// stands there.
pub fn skip_suffixes(chars: &[char], lo: usize, p: &[char]) -> (end: usize)
    requires
        lo <= chars.len(),
    ensures
        lo <= end <= chars.len(),
        chars@.subrange(lo as int, end as int) == strip_suffixes(
            chars@.subrange(lo as int, chars@.len() as int),
            p@,
        ),
{
    let n = chars.len();
    let mut end = n;
    if p.len() == 0 {
        return end;
    }
    while end - lo >= p.len() && matches_at(chars, p, end - p.len())
        invariant
            lo <= end <= n,
            n == chars.len(),
            p.len() > 0,
            strip_suffixes(chars@.subrange(lo as int, n as int), p@) == strip_suffixes(
                chars@.subrange(lo as int, end as int),
                p@,
            ),
        decreases end - lo,
    {
        proof {
            let rest = chars@.subrange(lo as int, end as int);
            assert(rest.subrange(rest.len() - p@.len(), rest.len() as int) =~= chars@.subrange(
                end - p@.len(),
                end as int,
            ));
            assert(rest.subrange(0, rest.len() - p@.len()) =~= chars@.subrange(
                lo as int,
                end - p@.len(),
            ));
        }
        end -= p.len();
    }
    proof {
        let rest = chars@.subrange(lo as int, end as int);
        if end - lo >= p@.len() {
            assert(rest.subrange(rest.len() - p@.len(), rest.len() as int) =~= chars@.subrange(
                end - p@.len(),
                end as int,
            ));
        }
    }
    end
}

/// What `find_from` returns is the first place at or after `i` where `p`
/// stands, and it returns none only where there is no such place.
pub proof fn lemma_find_from_is_first(s: Seq<char>, p: Seq<char>, i: int)
    requires
        0 <= i,
    ensures
        match find_from(s, p, i) {
            Some(k) => i <= k && occurs_at(s, p, k) && forall|j: int|
                i <= j < k ==> !occurs_at(s, p, j),
            None => forall|j: int| i <= j ==> !occurs_at(s, p, j),
        },
    decreases s.len() - i,
{
    if i + p.len() <= s.len() && !occurs_at(s, p, i) && i < s.len() {
        lemma_find_from_is_first(s, p, i + 1);
    }
}

/// White space in front of a text does not change what `trim_start` leaves.
pub proof fn lemma_trim_start_skips_padding(pad: Seq<char>, s: Seq<char>)
    requires
        all_spaces(pad),
    ensures
        trim_start(pad + s) == trim_start(s),
    decreases pad.len(),
{
    if pad.len() > 0 {
        assert((pad + s).first() == pad[0]);
        assert((pad + s).drop_first() =~= pad.drop_first() + s);
        lemma_trim_start_skips_padding(pad.drop_first(), s);
    } else {
        assert(pad + s =~= s);
    }
}

/// White space behind a text does not change what `trim_end` leaves.
pub proof fn lemma_trim_end_skips_padding(s: Seq<char>, pad: Seq<char>)
    requires
        all_spaces(pad),
    ensures
        trim_end(s + pad) == trim_end(s),
    decreases pad.len(),
{
    if pad.len() > 0 {
        assert((s + pad).last() == pad.last());
        assert((s + pad).drop_last() =~= s + pad.drop_last());
        lemma_trim_end_skips_padding(s, pad.drop_last());
    } else {
        assert(s + pad =~= s);
    }
}

/// Of a text that is all white space `trim_start` leaves nothing.
pub proof fn lemma_trim_start_of_spaces(s: Seq<char>)
    requires
        all_spaces(s),
    ensures
        trim_start(s) == Seq::<char>::empty(),
    decreases s.len(),
{
    if s.len() > 0 {
        lemma_trim_start_of_spaces(s.drop_first());
    } else {
        assert(s =~= Seq::<char>::empty());
    }
}

/// Where a text holds something besides white space, `trim_start` leaves what
/// follows the text untouched.
pub proof fn lemma_trim_start_keeps_tail(s: Seq<char>, tail: Seq<char>)
    requires
        !all_spaces(s),
    ensures
        trim_start(s + tail) == trim_start(s) + tail,
    decreases s.len(),
{
    assert(s.len() > 0);
    assert((s + tail).first() == s.first());
    if is_space(s.first()) {
        assert((s + tail).drop_first() =~= s.drop_first() + tail);
        assert(!all_spaces(s.drop_first())) by {
            let i = choose|i: int| 0 <= i < s.len() && !is_space(s[i]);
            assert(s.drop_first()[i - 1] == s[i]);
        }
        lemma_trim_start_keeps_tail(s.drop_first(), tail);
    }
}

/// Trimming does not see white space added at either end.
pub proof fn lemma_trimmed_ignores_padding(before: Seq<char>, s: Seq<char>, after: Seq<char>)
    requires
        all_spaces(before),
        all_spaces(after),
    ensures
        trimmed(before + s + after) == trimmed(s),
{
    assert(before + s + after =~= before + (s + after));
    lemma_trim_start_skips_padding(before, s + after);
    if all_spaces(s) {
        lemma_trim_start_of_spaces(s);
        lemma_trim_start_of_spaces(s + after);
    } else {
        lemma_trim_start_keeps_tail(s, after);
        lemma_trim_end_skips_padding(trim_start(s), after);
    }
}

/// What `trim_start` leaves does not begin with white space.
pub proof fn lemma_trim_start_is_tight(s: Seq<char>)
    ensures
        trim_start(s).len() > 0 ==> !is_space(trim_start(s).first()),
    decreases s.len(),
{
    if s.len() > 0 && is_space(s.first()) {
        lemma_trim_start_is_tight(s.drop_first());
    }
}

/// What `trim_end` leaves does not end with white space, and it still begins
/// as the text did if that was not with white space.
pub proof fn lemma_trim_end_is_tight(s: Seq<char>)
    ensures
        trim_end(s).len() > 0 ==> !is_space(trim_end(s).last()),
        s.len() > 0 && !is_space(s.first()) ==> trim_end(s).len() > 0 && trim_end(s).first()
            == s.first(),
    decreases s.len(),
{
    if s.len() > 0 && is_space(s.last()) {
        lemma_trim_end_is_tight(s.drop_last());
    }
}

/// What trimming leaves neither begins nor ends with white space.
pub proof fn lemma_trimmed_is_tight(s: Seq<char>)
    ensures
        trimmed(s).len() > 0 ==> !is_space(trimmed(s).first()) && !is_space(trimmed(s).last()),
{
    lemma_trim_start_is_tight(s);
    lemma_trim_end_is_tight(trim_start(s));
}

/// What `strip_prefixes` leaves does not begin with the piece taken off.
pub proof fn lemma_strip_prefixes_is_done(s: Seq<char>, p: Seq<char>)
    requires
        p.len() > 0,
    ensures
        !starts_with(strip_prefixes(s, p), p),
    decreases s.len(),
{
    if starts_with(s, p) {
        lemma_strip_prefixes_is_done(s.subrange(p.len() as int, s.len() as int), p);
    }
}

/// What `strip_suffixes` leaves does not end with the piece taken off.
pub proof fn lemma_strip_suffixes_is_done(s: Seq<char>, p: Seq<char>)
    requires
        p.len() > 0,
    ensures
        !ends_with(strip_suffixes(s, p), p),
    decreases s.len(),
{
    if ends_with(s, p) {
        lemma_strip_suffixes_is_done(s.subrange(0, s.len() - p.len()), p);
    }
}

} // verus!
