//! Single-byte recognizers that yield the byte they match, the decoding of
//! escaped octets, and whitespace that folds a line with a single blank.

use crate::class::{Class, COLON, CR, LF, PERCENT};
use crate::error::{miss, scans, syntax_at, yields, Cursor, Parsed, Reject};
use crate::scan::{
    byte, is_soft, m_n, one, spec_byte, spec_m_n, spec_one, spec_while0, str_from_utf8, while0,
};
use vstd::prelude::*;
use vstd::utf8::{decode_utf8, valid_utf8};

verus! {

/// One byte of `class`, as a value.
#[verifier::opaque]
pub open spec fn spec_one_of(s: Seq<u8>, i: int, class: Class) -> Parsed<u8> {
    Parsed {
        value: if 0 <= i < s.len() {
            s[i]
        } else {
            0
        },
        end: spec_one(s, i, class),
    }
}

/// Parses at `pos` what [`spec_one_of`] describes.
pub fn one_of(input: &[u8], pos: usize, class: Class) -> (r: Result<(u8, usize), Reject>)
    requires
        pos <= input@.len(),
    ensures
        yields(r, pos, input@.len(), spec_one_of(input@, pos as int, class)),
{
    proof {
        reveal(spec_one_of);
    }
    let e = one(input, pos, class)?;
    Ok((input[pos], e))
}

/// One reserved URI character.
pub fn reserved(input: &[u8], pos: usize) -> (r: Result<(u8, usize), Reject>)
    requires
        pos <= input@.len(),
    ensures
        yields(r, pos, input@.len(), spec_one_of(input@, pos as int, Class::Reserved)),
{
    proof {
        reveal(spec_one_of);
    }
    one_of(input, pos, Class::Reserved)
}

/// One URI mark character.
pub fn mark(input: &[u8], pos: usize) -> (r: Result<(u8, usize), Reject>)
    requires
        pos <= input@.len(),
    ensures
        yields(r, pos, input@.len(), spec_one_of(input@, pos as int, Class::Mark)),
{
    proof {
        reveal(spec_one_of);
    }
    one_of(input, pos, Class::Mark)
}

/// One digit.
pub fn numeric(input: &[u8], pos: usize) -> (r: Result<(u8, usize), Reject>)
    requires
        pos <= input@.len(),
    ensures
        yields(r, pos, input@.len(), spec_one_of(input@, pos as int, Class::Digit)),
{
    proof {
        reveal(spec_one_of);
    }
    one_of(input, pos, Class::Digit)
}

/// One letter.
pub fn alphabetic(input: &[u8], pos: usize) -> (r: Result<(u8, usize), Reject>)
    requires
        pos <= input@.len(),
    ensures
        yields(r, pos, input@.len(), spec_one_of(input@, pos as int, Class::Alphabetic)),
{
    proof {
        reveal(spec_one_of);
    }
    one_of(input, pos, Class::Alphabetic)
}

/// One letter or digit.
pub fn alphanumeric(input: &[u8], pos: usize) -> (r: Result<(u8, usize), Reject>)
    requires
        pos <= input@.len(),
    ensures
        yields(r, pos, input@.len(), spec_one_of(input@, pos as int, Class::Alphanumeric)),
{
    proof {
        reveal(spec_one_of);
    }
    one_of(input, pos, Class::Alphanumeric)
}

/// One digit or one of `a`-`f`.
pub fn lowercase_hexadecimal(input: &[u8], pos: usize) -> (r: Result<(u8, usize), Reject>)
    requires
        pos <= input@.len(),
    ensures
        yields(r, pos, input@.len(), spec_one_of(input@, pos as int, Class::LowercaseHexadecimal)),
{
    proof {
        reveal(spec_one_of);
    }
    one_of(input, pos, Class::LowercaseHexadecimal)
}

/// One digit or one of `A`-`F`.
pub fn uppercase_hexadecimal(input: &[u8], pos: usize) -> (r: Result<(u8, usize), Reject>)
    requires
        pos <= input@.len(),
    ensures
        yields(r, pos, input@.len(), spec_one_of(input@, pos as int, Class::UppercaseHexadecimal)),
{
    proof {
        reveal(spec_one_of);
    }
    one_of(input, pos, Class::UppercaseHexadecimal)
}

/// One hexadecimal digit of either case.
pub fn hexadecimal(input: &[u8], pos: usize) -> (r: Result<(u8, usize), Reject>)
    requires
        pos <= input@.len(),
    ensures
        yields(r, pos, input@.len(), spec_one_of(input@, pos as int, Class::HexDigit)),
{
    proof {
        reveal(spec_one_of);
    }
    one_of(input, pos, Class::HexDigit)
}

/// One unreserved URI character.
pub fn unreserved(input: &[u8], pos: usize) -> (r: Result<(u8, usize), Reject>)
    requires
        pos <= input@.len(),
    ensures
        yields(r, pos, input@.len(), spec_one_of(input@, pos as int, Class::Unreserved)),
{
    proof {
        reveal(spec_one_of);
    }
    one_of(input, pos, Class::Unreserved)
}

/// One space or horizontal tab.
pub fn whitespace(input: &[u8], pos: usize) -> (r: Result<(u8, usize), Reject>)
    requires
        pos <= input@.len(),
    ensures
        yields(r, pos, input@.len(), spec_one_of(input@, pos as int, Class::Blank)),
{
    proof {
        reveal(spec_one_of);
    }
    one_of(input, pos, Class::Blank)
}

/// Why bytes are no hexadecimal number.
#[derive(Clone, Copy, Debug, PartialEq, Eq)]
pub enum HexConversionError {
    /// The text is no number of base 16 that fits a byte.
    ParseIntError,
    /// The bytes are no valid UTF-8.
    Utf8Error,
}

/// The value of a hexadecimal digit; 0 for any other character.
pub open spec fn hex_digit_value(c: char) -> nat {
    if '0' <= c && c <= '9' {
        (c as u32 - '0' as u32) as nat
    } else if 'a' <= c && c <= 'f' {
        (c as u32 - 'a' as u32 + 10) as nat
    } else if 'A' <= c && c <= 'F' {
        (c as u32 - 'A' as u32 + 10) as nat
    } else {
        0
    }
}

/// Whether a character is a hexadecimal digit.
pub open spec fn is_hex_char(c: char) -> bool {
    ('0' <= c && c <= '9') || ('a' <= c && c <= 'f') || ('A' <= c && c <= 'F')
}

/// The number that hexadecimal digits denote.
pub open spec fn hex_value(digits: Seq<char>) -> nat
    decreases digits.len(),
{
    if digits.len() == 0 {
        0
    } else {
        hex_value(digits.drop_last()) * 16 + hex_digit_value(digits.last())
    }
}

/// The byte that a text of base 16 denotes: an optional `+`, then at least
/// one hexadecimal digit and nothing else, with a value of at most 255.
pub open spec fn spec_radix16(t: Seq<char>) -> Option<u8> {
    let digits = if t.len() > 0 && t[0] == '+' {
        t.skip(1)
    } else {
        t
    };
    if digits.len() > 0 && (forall|k: int| 0 <= k < digits.len() ==> is_hex_char(#[trigger] digits[k]))
        && hex_value(digits) <= 255 {
        Some(hex_value(digits) as u8)
    } else {
        None
    }
}

/// `u8::from_str_radix` with radix 16: the byte that the text denotes, for
/// a text of an optional `+` and hexadecimal digits whose value fits a
/// byte; `None` for every other text.
#[verifier::external_body]
fn u8_from_str_radix_16(t: &str) -> (r: Option<u8>)
    ensures
        r == spec_radix16(t@),
{
    match u8::from_str_radix(t, 16) {
        Ok(v) => Some(v),
        Err(_) => None,
    }
}

/// The byte that the bytes `b`, read as text of base 16, denote.
pub open spec fn spec_from_hex(b: Seq<u8>) -> Result<u8, HexConversionError> {
    if !valid_utf8(b) {
        Err(HexConversionError::Utf8Error)
    } else {
        match spec_radix16(decode_utf8(b)) {
            Some(v) => Ok(v),
            None => Err(HexConversionError::ParseIntError),
        }
    }
}

/// The byte that `input`, read as text of base 16, denotes.
pub fn from_hex(input: &[u8]) -> (r: Result<u8, HexConversionError>)
    ensures
        r == spec_from_hex(input@),
{
    match str_from_utf8(input) {
        None => Err(HexConversionError::Utf8Error),
        Some(t) => match u8_from_str_radix_16(t) {
            Some(v) => Ok(v),
            None => Err(HexConversionError::ParseIntError),
        },
    }
}

/// Exactly two hexadecimal digits, as the byte that they denote.
#[verifier::opaque]
pub open spec fn spec_hex_number(s: Seq<u8>, i: int) -> Parsed<u8> {
    let a = spec_m_n(s, i, Class::HexDigit, 2, 2);
    match spec_from_hex(s.subrange(i, a.pos())) {
        Ok(v) => Parsed { value: v, end: a },
        Err(_) => Parsed { value: 0, end: a.and(miss(i)) },
    }
}

/// Parses at `pos` what [`spec_hex_number`] describes.
pub fn hex_number(input: &[u8], pos: usize) -> (r: Result<(u8, usize), Reject>)
    requires
        pos <= input@.len(),
    ensures
        yields(r, pos, input@.len(), spec_hex_number(input@, pos as int)),
{
    proof {
        reveal(spec_hex_number);
    }
    let a = m_n(input, pos, Class::HexDigit, 2, 2)?;
    match from_hex(&input[pos..a]) {
        Ok(v) => Ok((v, a)),
        Err(_) => Err(syntax_at(pos)),
    }
}

/// The percent sign.
#[verifier::opaque]
pub open spec fn spec_percent(s: Seq<u8>, i: int) -> Cursor {
    spec_byte(s, i, PERCENT)
}

/// Parses at `pos` what [`spec_percent`] describes.
pub fn percent(input: &[u8], pos: usize) -> (r: Result<usize, Reject>)
    requires
        pos <= input@.len(),
    ensures
        scans(r, pos, input@.len(), spec_percent(input@, pos as int)),
{
    proof {
        reveal(spec_percent);
    }
    byte(input, pos, PERCENT)
}

/// An escaped octet: `%` and exactly two hexadecimal digits, as the byte
/// that the digits denote.
#[verifier::opaque]
pub open spec fn spec_escaped(s: Seq<u8>, i: int) -> Parsed<u8> {
    let a = spec_percent(s, i);
    let h = spec_hex_number(s, a.pos());
    Parsed { value: h.value, end: a.and(h.end) }
}

/// Parses at `pos` what [`spec_escaped`] describes.
pub fn escaped(input: &[u8], pos: usize) -> (r: Result<(u8, usize), Reject>)
    requires
        pos <= input@.len(),
    ensures
        yields(r, pos, input@.len(), spec_escaped(input@, pos as int)),
{
    proof {
        reveal(spec_escaped);
    }
    let a = percent(input, pos)?;
    hex_number(input, a)
}

/// A line end: carriage return and line feed.
#[verifier::opaque]
pub open spec fn spec_newline(s: Seq<u8>, i: int) -> Cursor {
    let a = spec_byte(s, i, CR);
    a.and(spec_byte(s, a.pos(), LF))
}

/// Parses at `pos` what [`spec_newline`] describes.
pub fn newline(input: &[u8], pos: usize) -> (r: Result<usize, Reject>)
    requires
        pos <= input@.len(),
    ensures
        scans(r, pos, input@.len(), spec_newline(input@, pos as int)),
{
    proof {
        reveal(spec_newline);
    }
    let a = byte(input, pos, CR)?;
    byte(input, a, LF)
}

/// Linear whitespace of one blank: optionally blanks and a line end, then
/// exactly one blank. Where blanks stand at `i` and no line end follows
/// them, it is the first of them.
#[verifier::opaque]
pub open spec fn spec_linear_whitespace(s: Seq<u8>, i: int) -> Cursor {
    let a = spec_while0(s, i, Class::Blank);
    let b = a.and(spec_newline(s, a.pos())).or_stay(i);
    b.and(spec_one(s, b.pos(), Class::Blank))
}

/// Parses at `pos` what [`spec_linear_whitespace`] describes.
pub fn linear_whitespace(input: &[u8], pos: usize) -> (r: Result<usize, Reject>)
    requires
        pos <= input@.len(),
    ensures
        scans(r, pos, input@.len(), spec_linear_whitespace(input@, pos as int)),
{
    proof {
        reveal(spec_linear_whitespace);
    }
    let a = while0(input, pos, Class::Blank)?;
    let n = newline(input, a);
    let b = if is_soft(&n) {
        pos
    } else {
        n?
    };
    one(input, b, Class::Blank)
}

/// Optional linear whitespace of one blank.
#[verifier::opaque]
pub open spec fn spec_separator_whitespace(s: Seq<u8>, i: int) -> Cursor {
    spec_linear_whitespace(s, i).or_stay(i)
}

/// Parses at `pos` what [`spec_separator_whitespace`] describes.
pub fn separator_whitespace(input: &[u8], pos: usize) -> (r: Result<usize, Reject>)
    requires
        pos <= input@.len(),
    ensures
        scans(r, pos, input@.len(), spec_separator_whitespace(input@, pos as int)),
{
    proof {
        reveal(spec_separator_whitespace);
    }
    let r = linear_whitespace(input, pos);
    if is_soft(&r) {
        Ok(pos)
    } else {
        r
    }
}

/// The colon after a header's name: blanks, `:`, and optional linear
/// whitespace of one blank.
#[verifier::opaque]
pub open spec fn spec_header_colon(s: Seq<u8>, i: int) -> Cursor {
    let a = spec_while0(s, i, Class::Blank);
    let b = a.and(spec_byte(s, a.pos(), COLON));
    b.and(spec_separator_whitespace(s, b.pos()))
}

/// Parses at `pos` what [`spec_header_colon`] describes.
pub fn header_colon(input: &[u8], pos: usize) -> (r: Result<usize, Reject>)
    requires
        pos <= input@.len(),
    ensures
        scans(r, pos, input@.len(), spec_header_colon(input@, pos as int)),
{
    proof {
        reveal(spec_header_colon);
    }
    let a = while0(input, pos, Class::Blank)?;
    let b = byte(input, a, COLON)?;
    separator_whitespace(input, b)
}


/// A UTF-8 continuation byte.
#[verifier::allow_in_spec]
pub fn is_utf_cont(i: u8) -> bool
    returns
        crate::class::is_utf8_cont(i),
{
    crate::class::is_utf8_cont(i)
}

/// The lead byte of a two-byte sequence.
#[verifier::allow_in_spec]
pub fn is_utf_c0_df(i: u8) -> bool
    returns
        crate::class::is_utf8_nonascii_c0_df(i),
{
    crate::class::is_utf8_nonascii_c0_df(i)
}

/// The lead byte of a three-byte sequence.
#[verifier::allow_in_spec]
pub fn is_utf_e0_ef(i: u8) -> bool
    returns
        crate::class::is_utf8_nonascii_e0_ef(i),
{
    crate::class::is_utf8_nonascii_e0_ef(i)
}

/// The lead byte of a four-byte sequence.
#[verifier::allow_in_spec]
pub fn is_utf_f0_f7(i: u8) -> bool
    returns
        crate::class::is_utf8_nonascii_f0_f7(i),
{
    crate::class::is_utf8_nonascii_f0_f7(i)
}

/// The lead byte of a five-byte sequence.
#[verifier::allow_in_spec]
pub fn is_utf_f8_fb(i: u8) -> bool
    returns
        crate::class::is_utf8_nonascii_f8_fb(i),
{
    crate::class::is_utf8_nonascii_f8_fb(i)
}

/// The lead byte of a six-byte sequence.
#[verifier::allow_in_spec]
pub fn is_utf_fc_fd(i: u8) -> bool
    returns
        crate::class::is_utf8_nonascii_fc_fd(i),
{
    crate::class::is_utf8_nonascii_fc_fd(i)
}

/// A printable ASCII byte.
#[verifier::allow_in_spec]
pub fn is_utf_ascii(i: u8) -> bool
    returns
        crate::class::is_utf8_ascii(i),
{
    crate::class::is_utf8_ascii(i)
}

} // verus!
