//! The time model of the pipeline.
//!
//! Publication instants are plain Unix timestamps in whole seconds (UTC).
//! Natural-language date text is read through the human-date-parsing
//! collaborator, anchored at a caller-supplied reference instant; RFC 2822
//! rendering is delegated to the calendar collaborator. Both are deterministic
//! in their arguments, so their results carry names that the contracts of the
//! pipeline speak of exactly.

use vstd::prelude::*;

verus! {

/// Largest magnitude, in seconds away from the Unix epoch, that a publication
/// instant accepted by the pipeline may have (roughly the years 1019 to 2920).
pub const TS_BOUND: i64 = 30_000_000_000;

/// Largest magnitude a synthesized timestamp may reach: an accepted instant
/// (`TS_BOUND`) pushed down by at most one second or one hour per item of a
/// well-formed element list.
pub const TS_RENDER_BOUND: i64 = 31_000_000_000;

/// A timestamp the pipeline accepts as a publication instant.
pub open spec fn ts_wf(t: int) -> bool {
    -TS_BOUND <= t <= TS_BOUND
}

/// A timestamp that date synthesis may produce and rendering must accept.
pub open spec fn ts_renderable(t: int) -> bool {
    -TS_RENDER_BOUND <= t <= TS_RENDER_BOUND
}

/// What the human-date parser returns for the given text, anchored at the
/// given reference instant: a Unix timestamp, or nothing when the text does
/// not read as a date.
pub uninterp spec fn parsed_date(text: Seq<char>, now: i64) -> Option<i64>;

/// Whether the character is alphanumeric under Unicode.
pub uninterp spec fn alnum_char(c: char) -> bool;

/// Relies on char::is_alphanumeric: a fixed property of the character alone.
#[verifier::external_body]
pub(crate) fn is_alnum_char(c: char) -> (b: bool)
    ensures
        b == alnum_char(c),
{
    c.is_alphanumeric()
}

/// An ASCII decimal digit.
pub open spec fn ascii_digit(c: char) -> bool {
    0x30 <= c as u32 <= 0x39
}

/// `n` consecutive ASCII digits starting at position `i`.
pub open spec fn digit_run_from(s: Seq<char>, i: int, n: int) -> bool {
    forall|j: int| i <= j < i + n ==> ascii_digit(#[trigger] s[j])
}

/// Some run of `n` consecutive ASCII digits occurs in `s`.
pub open spec fn has_digit_run(s: Seq<char>, n: int) -> bool {
    exists|i: int| 0 <= i && i + n <= s.len() && digit_run_from(s, i, n)
}

/// Date text the human-date parser is allowed to see: no number of more than
/// six digits, and no alphanumeric character outside ASCII. The parser does
/// unchecked 32-bit arithmetic on the numbers it reads (a timezone offset is
/// multiplied into seconds, an afternoon hour gets twelve added) and slices
/// the first bytes off words when matching month and unit names, so larger
/// numbers or multi-byte letters can make it abort; six-digit numbers and
/// ASCII words keep every such step in range. Real dates are well within
/// this: years have four digits, and non-ASCII punctuation or spacing (a
/// non-breaking space, a dash) is still allowed.
pub open spec fn date_text_tame(s: Seq<char>) -> bool {
    &&& !has_digit_run(s, 7)
    &&& forall|i: int|
        0 <= i < s.len() ==> (#[trigger] alnum_char(s[i]) ==> (s[i] as u32) < 0x80)
}

/// Checks that date text is tame enough to hand to the human-date parser.
pub fn date_text_is_tame(s: &str) -> (b: bool)
    ensures
        b == date_text_tame(s@),
{
    let n = s.unicode_len();
    let mut run: usize = 0;
    let mut i: usize = 0;
    while i < n
        invariant
            i <= n,
            n == s@.len(),
            run <= 6,
            run <= i,
            forall|j: int| i - run <= j < i ==> ascii_digit(#[trigger] s@[j]),
            run < i ==> !ascii_digit(s@[i - run - 1]),
            forall|a: int| 0 <= a && a + 7 <= i ==> !digit_run_from(s@, a, 7),
            forall|j: int|
                0 <= j < i ==> (#[trigger] alnum_char(s@[j]) ==> (s@[j] as u32) < 0x80),
        decreases n - i,
    {
        let c = s.get_char(i);
        let u = c as u32;
        if u >= 0x80 && is_alnum_char(c) {
            return false;
        }
        if 0x30 <= u && u <= 0x39 {
            if run == 6 {
                proof {
                    assert(digit_run_from(s@, i - 6, 7));
                    assert(has_digit_run(s@, 7));
                }
                return false;
            }
            run = run + 1;
        } else {
            run = 0;
        }
        proof {
            assert forall|a: int| 0 <= a && a + 7 <= i + 1 implies !digit_run_from(
                s@,
                a,
                7,
            ) by {
                if a + 7 == i + 1 {
                    if ascii_digit(s@[i as int]) {
                        assert(!ascii_digit(s@[i - run]));
                    } else {
                        assert(!ascii_digit(s@[i as int]));
                    }
                }
            }
        }
        i = i + 1;
    }
    true
}

/// Relies on chrono_english::parse_date_string with the Uk dialect, anchored
/// at the given instant (UTC), and on chrono::DateTime::from_timestamp /
/// timestamp to move between instants and seconds; the result depends on the
/// text and the anchor alone. The text must be tame (`date_text_tame`): on
/// wilder text the parser's unchecked arithmetic and byte slicing can abort
/// instead of returning an error.
#[verifier::external_body]
pub(crate) fn parse_human_date(text: &str, now_secs: i64) -> (r: Option<i64>)
    requires
        ts_wf(now_secs as int),
        date_text_tame(text@),
    ensures
        r == parsed_date(text@, now_secs),
{
    let now = chrono::DateTime::from_timestamp(now_secs, 0).unwrap();
    chrono_english::parse_date_string(text, now, chrono_english::Dialect::Uk)
        .ok()
        .map(|d| d.timestamp())
}

/// The RFC 2822 rendering of the given Unix timestamp, at UTC.
pub uninterp spec fn rfc2822_of(t: i64) -> Seq<char>;

/// Relies on chrono::DateTime::to_rfc2822 at UTC, which is deterministic in
/// the instant and defined for every year from 0 to 9999; the bound keeps the
/// instant far inside that range.
#[verifier::external_body]
pub(crate) fn format_rfc2822(t: i64) -> (r: String)
    requires
        ts_renderable(t as int),
    ensures
        r@ == rfc2822_of(t),
{
    chrono::DateTime::from_timestamp(t, 0).unwrap().to_rfc2822()
}

} // verus!
