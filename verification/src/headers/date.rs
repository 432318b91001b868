//! The Date header.

use crate::class::{Class, COLON, COMMA, SPACE};
use crate::common::spec_span_text;
use crate::error::{scans, yields, Cursor, Parsed, Reject};
use crate::header::{Header, HeaderView};
use crate::headers::{named, spec_named};
use crate::scan::{byte, is_soft, m_n, spec_byte, spec_m_n, spec_tag_no_case, tag_no_case, text};
use vstd::prelude::*;

verus! {

/// The name of a month: its first three letters, in either case.
#[verifier::opaque]
pub open spec fn spec_month(s: Seq<u8>, i: int) -> Cursor {
    spec_tag_no_case(s, i, "Jan").or(spec_tag_no_case(s, i, "Feb")).or(
        spec_tag_no_case(s, i, "Mar"),
    ).or(spec_tag_no_case(s, i, "Apr")).or(spec_tag_no_case(s, i, "May")).or(
        spec_tag_no_case(s, i, "Jun"),
    ).or(spec_tag_no_case(s, i, "Jul")).or(spec_tag_no_case(s, i, "Aug")).or(
        spec_tag_no_case(s, i, "Sep"),
    ).or(spec_tag_no_case(s, i, "Oct")).or(spec_tag_no_case(s, i, "Nov")).or(
        spec_tag_no_case(s, i, "Dec"),
    )
}

/// Parses at `pos` what [`spec_month`] describes.
pub fn month(input: &[u8], pos: usize) -> (r: Result<usize, Reject>)
    requires
        pos <= input@.len(),
    ensures
        scans(r, pos, input@.len(), spec_month(input@, pos as int)),
{
    proof {
        reveal(spec_month);
    }
    let mut r = tag_no_case(input, pos, "Jan");
    if is_soft(&r) {
        r = tag_no_case(input, pos, "Feb");
    }
    if is_soft(&r) {
        r = tag_no_case(input, pos, "Mar");
    }
    if is_soft(&r) {
        r = tag_no_case(input, pos, "Apr");
    }
    if is_soft(&r) {
        r = tag_no_case(input, pos, "May");
    }
    if is_soft(&r) {
        r = tag_no_case(input, pos, "Jun");
    }
    if is_soft(&r) {
        r = tag_no_case(input, pos, "Jul");
    }
    if is_soft(&r) {
        r = tag_no_case(input, pos, "Aug");
    }
    if is_soft(&r) {
        r = tag_no_case(input, pos, "Sep");
    }
    if is_soft(&r) {
        r = tag_no_case(input, pos, "Oct");
    }
    if is_soft(&r) {
        r = tag_no_case(input, pos, "Nov");
    }
    if is_soft(&r) {
        r = tag_no_case(input, pos, "Dec");
    }
    r
}

/// The name of a weekday: its first three letters, in either case.
#[verifier::opaque]
pub open spec fn spec_wkday(s: Seq<u8>, i: int) -> Cursor {
    spec_tag_no_case(s, i, "Mon").or(spec_tag_no_case(s, i, "Tue")).or(
        spec_tag_no_case(s, i, "Wed"),
    ).or(spec_tag_no_case(s, i, "Thu")).or(spec_tag_no_case(s, i, "Fri")).or(
        spec_tag_no_case(s, i, "Sat"),
    ).or(spec_tag_no_case(s, i, "Sun"))
}

/// Parses at `pos` what [`spec_wkday`] describes.
pub fn wkday(input: &[u8], pos: usize) -> (r: Result<usize, Reject>)
    requires
        pos <= input@.len(),
    ensures
        scans(r, pos, input@.len(), spec_wkday(input@, pos as int)),
{
    proof {
        reveal(spec_wkday);
    }
    let mut r = tag_no_case(input, pos, "Mon");
    if is_soft(&r) {
        r = tag_no_case(input, pos, "Tue");
    }
    if is_soft(&r) {
        r = tag_no_case(input, pos, "Wed");
    }
    if is_soft(&r) {
        r = tag_no_case(input, pos, "Thu");
    }
    if is_soft(&r) {
        r = tag_no_case(input, pos, "Fri");
    }
    if is_soft(&r) {
        r = tag_no_case(input, pos, "Sat");
    }
    if is_soft(&r) {
        r = tag_no_case(input, pos, "Sun");
    }
    r
}

/// Exactly two digits.
pub open spec fn spec_digits2(s: Seq<u8>, i: int) -> Cursor {
    spec_m_n(s, i, Class::Digit, 2, 2)
}

/// A time of day: two digits each for hour, minute and second, with colons
/// between them. The values are not checked.
#[verifier::opaque]
pub open spec fn spec_time(s: Seq<u8>, i: int) -> Cursor {
    let a = spec_digits2(s, i);
    let b = a.and(spec_byte(s, a.pos(), COLON));
    let c = b.and(spec_digits2(s, b.pos()));
    let d = c.and(spec_byte(s, c.pos(), COLON));
    d.and(spec_digits2(s, d.pos()))
}

/// Parses at `pos` what [`spec_time`] describes.
pub fn time(input: &[u8], pos: usize) -> (r: Result<usize, Reject>)
    requires
        pos <= input@.len(),
    ensures
        scans(r, pos, input@.len(), spec_time(input@, pos as int)),
{
    proof {
        reveal(spec_time);
    }
    let a = m_n(input, pos, Class::Digit, 2, 2)?;
    let b = byte(input, a, COLON)?;
    let c = m_n(input, b, Class::Digit, 2, 2)?;
    let d = byte(input, c, COLON)?;
    m_n(input, d, Class::Digit, 2, 2)
}

/// A date: a day of two digits, a month and a year of four digits, with
/// single spaces between them.
#[verifier::opaque]
pub open spec fn spec_date1(s: Seq<u8>, i: int) -> Cursor {
    let a = spec_digits2(s, i);
    let b = a.and(spec_byte(s, a.pos(), SPACE));
    let c = b.and(spec_month(s, b.pos()));
    let d = c.and(spec_byte(s, c.pos(), SPACE));
    d.and(spec_m_n(s, d.pos(), Class::Digit, 4, 4))
}

/// Parses at `pos` what [`spec_date1`] describes.
pub fn date1(input: &[u8], pos: usize) -> (r: Result<usize, Reject>)
    requires
        pos <= input@.len(),
    ensures
        scans(r, pos, input@.len(), spec_date1(input@, pos as int)),
{
    proof {
        reveal(spec_date1);
    }
    let a = m_n(input, pos, Class::Digit, 2, 2)?;
    let b = byte(input, a, SPACE)?;
    let c = month(input, b)?;
    let d = byte(input, c, SPACE)?;
    m_n(input, d, Class::Digit, 4, 4)
}

/// A date of the fixed format of RFC 1123: weekday, `, `, date, a space,
/// time, and ` GMT`; as text. No other format is a date.
#[verifier::opaque]
pub open spec fn spec_rfc1123_date(s: Seq<u8>, i: int) -> Parsed<Seq<char>> {
    let a = spec_wkday(s, i);
    let b = a.and(spec_byte(s, a.pos(), COMMA));
    let c = b.and(spec_byte(s, b.pos(), SPACE));
    let d = c.and(spec_date1(s, c.pos()));
    let e = d.and(spec_byte(s, d.pos(), SPACE));
    let f = e.and(spec_time(s, e.pos()));
    spec_span_text(s, i, f.and(spec_tag_no_case(s, f.pos(), " GMT")))
}

/// Parses at `pos` what [`spec_rfc1123_date`] describes.
pub fn rfc1123_date(input: &[u8], pos: usize) -> (r: Result<(String, usize), Reject>)
    requires
        pos <= input@.len(),
    ensures
        yields(r, pos, input@.len(), spec_rfc1123_date(input@, pos as int)),
{
    proof {
        reveal(spec_rfc1123_date);
    }
    let a = wkday(input, pos)?;
    let b = byte(input, a, COMMA)?;
    let c = byte(input, b, SPACE)?;
    let d = date1(input, c)?;
    let e = byte(input, d, SPACE)?;
    let f = time(input, e)?;
    let g = tag_no_case(input, f, " GMT")?;
    let t = text(input, pos, g)?;
    Ok((t, g))
}

/// The Date header.
#[verifier::opaque]
pub open spec fn spec_date(s: Seq<u8>, i: int) -> Parsed<HeaderView> {
    let a = spec_named(s, i, "Date");
    let d = spec_rfc1123_date(s, a.pos());
    Parsed { value: HeaderView::Date(d.value), end: a.and(d.end) }
}

/// Parses at `pos` what [`spec_date`] describes.
pub fn date(input: &[u8], pos: usize) -> (r: Result<(Header, usize), Reject>)
    requires
        pos <= input@.len(),
    ensures
        yields(r, pos, input@.len(), spec_date(input@, pos as int)),
{
    proof {
        reveal(spec_date);
    }
    let a = named(input, pos, "Date")?;
    let (d, e) = rfc1123_date(input, a)?;
    Ok((Header::Date(d), e))
}

} // verus!
