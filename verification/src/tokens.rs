//! Token-level productions: whitespace folding, punctuation, tokens, UTF-8
//! ranges, comments and quoted strings.

use crate::class::{
    Class, BACKSLASH, COLON, COMMA, CR, DQUOTE, EQUALS, GREATER, LESS, LF, LPAREN, PERCENT,
    RPAREN, SEMICOLON, SLASH, STAR,
};
use crate::error::{miss, scans, syntax_at, yields, Cursor, Parsed, Reject};
use crate::scan::{
    byte, is_soft, m_n, one, spec_byte, spec_m_n, spec_one, spec_text, spec_while0, spec_while1,
    text, while0, while1,
};
use vstd::prelude::*;

verus! {

/// One letter, digit or hyphen.
#[verifier::opaque]
pub open spec fn spec_alphanumeric_hyphen(s: Seq<u8>, i: int) -> Cursor {
    spec_one(s, i, Class::AlphanumericHyphen)
}

/// Parses at `pos` what [`spec_alphanumeric_hyphen`] describes.
pub fn alphanumeric_hyphen(input: &[u8], pos: usize) -> (r: Result<usize, Reject>)
    requires
        pos <= input@.len(),
    ensures
        scans(r, pos, input@.len(), spec_alphanumeric_hyphen(input@, pos as int)),
{
    proof {
        reveal(spec_alphanumeric_hyphen);
    }
    one(input, pos, Class::AlphanumericHyphen)
}

/// An escaped octet: `%` and exactly two hexadecimal digits.
#[verifier::opaque]
pub open spec fn spec_escaped(s: Seq<u8>, i: int) -> Cursor {
    let a = spec_byte(s, i, PERCENT);
    a.and(spec_m_n(s, a.pos(), Class::HexDigit, 2, 2))
}

/// Parses at `pos` what [`spec_escaped`] describes.
pub fn escaped(input: &[u8], pos: usize) -> (r: Result<usize, Reject>)
    requires
        pos <= input@.len(),
    ensures
        scans(r, pos, input@.len(), spec_escaped(input@, pos as int)),
{
    proof {
        reveal(spec_escaped);
    }
    let a = byte(input, pos, PERCENT)?;
    m_n(input, a, Class::HexDigit, 2, 2)
}

/// A line end: carriage return and line feed.
#[verifier::opaque]
pub open spec fn spec_newline(s: Seq<u8>, i: int) -> Cursor {
    let a = spec_byte(s, i, CR);
    a.and(spec_byte(s, a.pos(), LF))
}

/// Parses at `pos` what [`spec_newline`] describes.
pub fn newline(input: &[u8], pos: usize) -> (r: Result<usize, Reject>)
    requires
        pos <= input@.len(),
    ensures
        scans(r, pos, input@.len(), spec_newline(input@, pos as int)),
{
    proof {
        reveal(spec_newline);
    }
    let a = byte(input, pos, CR)?;
    byte(input, a, LF)
}

/// Linear whitespace: blanks, a line end and at least one blank, which
/// folds a header's continuation line; or, where no such fold stands at
/// `i`, at least one blank.
#[verifier::opaque]
pub open spec fn spec_linear_whitespace(s: Seq<u8>, i: int) -> Cursor {
    let a = spec_while0(s, i, Class::Blank);
    let b = a.and(spec_newline(s, a.pos()));
    b.and(spec_while1(s, b.pos(), Class::Blank)).or(spec_while1(s, i, Class::Blank))
}

fn folded_whitespace(input: &[u8], pos: usize) -> (r: Result<usize, Reject>)
    requires
        pos <= input@.len(),
    ensures
        r matches Ok(e) ==> pos <= e <= input@.len(),
        crate::error::outcome(r) == ({
            let a = spec_while0(input@, pos as int, Class::Blank);
            let b = a.and(spec_newline(input@, a.pos()));
            b.and(spec_while1(input@, b.pos(), Class::Blank))
        }),
{
    let a = while0(input, pos, Class::Blank)?;
    let b = newline(input, a)?;
    while1(input, b, Class::Blank)
}

/// Parses at `pos` what [`spec_linear_whitespace`] describes.
pub fn linear_whitespace(input: &[u8], pos: usize) -> (r: Result<usize, Reject>)
    requires
        pos <= input@.len(),
    ensures
        scans(r, pos, input@.len(), spec_linear_whitespace(input@, pos as int)),
{
    proof {
        reveal(spec_linear_whitespace);
    }
    let r = folded_whitespace(input, pos);
    if !is_soft(&r) {
        return r;
    }
    while1(input, pos, Class::Blank)
}

/// Optional linear whitespace.
#[verifier::opaque]
pub open spec fn spec_separator_whitespace(s: Seq<u8>, i: int) -> Cursor {
    spec_linear_whitespace(s, i).or_stay(i)
}

/// Parses at `pos` what [`spec_separator_whitespace`] describes.
pub fn separator_whitespace(input: &[u8], pos: usize) -> (r: Result<usize, Reject>)
    requires
        pos <= input@.len(),
    ensures
        scans(r, pos, input@.len(), spec_separator_whitespace(input@, pos as int)),
{
    proof {
        reveal(spec_separator_whitespace);
    }
    let r = linear_whitespace(input, pos);
    if is_soft(&r) {
        Ok(pos)
    } else {
        r
    }
}

/// The colon after a header's name: blanks, `:`, optional linear whitespace.
#[verifier::opaque]
pub open spec fn spec_header_colon(s: Seq<u8>, i: int) -> Cursor {
    let a = spec_while0(s, i, Class::Blank);
    let b = a.and(spec_byte(s, a.pos(), COLON));
    b.and(spec_separator_whitespace(s, b.pos()))
}

/// Parses at `pos` what [`spec_header_colon`] describes.
pub fn header_colon(input: &[u8], pos: usize) -> (r: Result<usize, Reject>)
    requires
        pos <= input@.len(),
    ensures
        scans(r, pos, input@.len(), spec_header_colon(input@, pos as int)),
{
    proof {
        reveal(spec_header_colon);
    }
    let a = while0(input, pos, Class::Blank)?;
    let b = byte(input, a, COLON)?;
    separator_whitespace(input, b)
}

/// A token: one or more token characters.
#[verifier::opaque]
pub open spec fn spec_token(s: Seq<u8>, i: int) -> Cursor {
    spec_while1(s, i, Class::Token)
}

/// Parses at `pos` what [`spec_token`] describes.
pub fn token(input: &[u8], pos: usize) -> (r: Result<usize, Reject>)
    requires
        pos <= input@.len(),
    ensures
        scans(r, pos, input@.len(), spec_token(input@, pos as int)),
{
    proof {
        reveal(spec_token);
    }
    while1(input, pos, Class::Token)
}

/// A token, as text.
#[verifier::opaque]
pub open spec fn spec_token_str(s: Seq<u8>, i: int) -> Parsed<Seq<char>> {
    let a = spec_token(s, i);
    let t = spec_text(s, i, a.pos());
    Parsed { value: t.value, end: a.and(t.end) }
}

/// Parses at `pos` what [`spec_token_str`] describes.
pub fn token_str(input: &[u8], pos: usize) -> (r: Result<(String, usize), Reject>)
    requires
        pos <= input@.len(),
    ensures
        yields(r, pos, input@.len(), spec_token_str(input@, pos as int)),
{
    proof {
        reveal(spec_token_str);
    }
    let a = token(input, pos)?;
    let t = text(input, pos, a)?;
    Ok((t, a))
}

/// A word: any run of word characters, the empty one included.
#[verifier::opaque]
pub open spec fn spec_word(s: Seq<u8>, i: int) -> Cursor {
    spec_while0(s, i, Class::Word)
}

/// Parses at `pos` what [`spec_word`] describes.
pub fn word(input: &[u8], pos: usize) -> (r: Result<usize, Reject>)
    requires
        pos <= input@.len(),
    ensures
        scans(r, pos, input@.len(), spec_word(input@, pos as int)),
{
    proof {
        reveal(spec_word);
    }
    while0(input, pos, Class::Word)
}

/// The byte `b` with optional linear whitespace on both sides.
#[verifier::opaque]
pub open spec fn spec_padded(s: Seq<u8>, i: int, b: u8) -> Cursor {
    let a = spec_separator_whitespace(s, i);
    let c = a.and(spec_byte(s, a.pos(), b));
    c.and(spec_separator_whitespace(s, c.pos()))
}

/// Parses at `pos` what [`spec_padded`] describes.
pub fn padded(input: &[u8], pos: usize, b: u8) -> (r: Result<usize, Reject>)
    requires
        pos <= input@.len(),
    ensures
        scans(r, pos, input@.len(), spec_padded(input@, pos as int, b)),
{
    proof {
        reveal(spec_padded);
    }
    let a = separator_whitespace(input, pos)?;
    let c = byte(input, a, b)?;
    separator_whitespace(input, c)
}

/// `*` with optional linear whitespace on both sides.
pub fn star(input: &[u8], pos: usize) -> (r: Result<usize, Reject>)
    requires
        pos <= input@.len(),
    ensures
        scans(r, pos, input@.len(), spec_padded(input@, pos as int, STAR)),
{
    proof {
        reveal(spec_padded);
    }
    padded(input, pos, STAR)
}

/// `/` with optional linear whitespace on both sides.
pub fn slash(input: &[u8], pos: usize) -> (r: Result<usize, Reject>)
    requires
        pos <= input@.len(),
    ensures
        scans(r, pos, input@.len(), spec_padded(input@, pos as int, SLASH)),
{
    proof {
        reveal(spec_padded);
    }
    padded(input, pos, SLASH)
}

/// `=` with optional linear whitespace on both sides.
pub fn equal(input: &[u8], pos: usize) -> (r: Result<usize, Reject>)
    requires
        pos <= input@.len(),
    ensures
        scans(r, pos, input@.len(), spec_padded(input@, pos as int, EQUALS)),
{
    proof {
        reveal(spec_padded);
    }
    padded(input, pos, EQUALS)
}

/// `(` with optional linear whitespace on both sides.
pub fn left_parenthesis(input: &[u8], pos: usize) -> (r: Result<usize, Reject>)
    requires
        pos <= input@.len(),
    ensures
        scans(r, pos, input@.len(), spec_padded(input@, pos as int, LPAREN)),
{
    proof {
        reveal(spec_padded);
    }
    padded(input, pos, LPAREN)
}

/// `)` with optional linear whitespace on both sides.
pub fn right_parenthesis(input: &[u8], pos: usize) -> (r: Result<usize, Reject>)
    requires
        pos <= input@.len(),
    ensures
        scans(r, pos, input@.len(), spec_padded(input@, pos as int, RPAREN)),
{
    proof {
        reveal(spec_padded);
    }
    padded(input, pos, RPAREN)
}

/// `,` with optional linear whitespace on both sides.
pub fn comma(input: &[u8], pos: usize) -> (r: Result<usize, Reject>)
    requires
        pos <= input@.len(),
    ensures
        scans(r, pos, input@.len(), spec_padded(input@, pos as int, COMMA)),
{
    proof {
        reveal(spec_padded);
    }
    padded(input, pos, COMMA)
}

/// `;` with optional linear whitespace on both sides.
pub fn semicolon(input: &[u8], pos: usize) -> (r: Result<usize, Reject>)
    requires
        pos <= input@.len(),
    ensures
        scans(r, pos, input@.len(), spec_padded(input@, pos as int, SEMICOLON)),
{
    proof {
        reveal(spec_padded);
    }
    padded(input, pos, SEMICOLON)
}

/// `:` with optional linear whitespace on both sides.
pub fn colon(input: &[u8], pos: usize) -> (r: Result<usize, Reject>)
    requires
        pos <= input@.len(),
    ensures
        scans(r, pos, input@.len(), spec_padded(input@, pos as int, COLON)),
{
    proof {
        reveal(spec_padded);
    }
    padded(input, pos, COLON)
}

/// The byte `b`, then optional linear whitespace.
#[verifier::opaque]
pub open spec fn spec_opening(s: Seq<u8>, i: int, b: u8) -> Cursor {
    let a = spec_byte(s, i, b);
    a.and(spec_separator_whitespace(s, a.pos()))
}

/// Optional linear whitespace, then the byte `b`.
#[verifier::opaque]
pub open spec fn spec_closing(s: Seq<u8>, i: int, b: u8) -> Cursor {
    let a = spec_separator_whitespace(s, i);
    a.and(spec_byte(s, a.pos(), b))
}

/// `>` with optional linear whitespace on both sides.
pub fn right_angle_quote(input: &[u8], pos: usize) -> (r: Result<usize, Reject>)
    requires
        pos <= input@.len(),
    ensures
        scans(r, pos, input@.len(), spec_padded(input@, pos as int, GREATER)),
{
    proof {
        reveal(spec_padded);
    }
    padded(input, pos, GREATER)
}

/// `<` with optional linear whitespace on both sides.
pub fn left_angle_quote(input: &[u8], pos: usize) -> (r: Result<usize, Reject>)
    requires
        pos <= input@.len(),
    ensures
        scans(r, pos, input@.len(), spec_padded(input@, pos as int, LESS)),
{
    proof {
        reveal(spec_padded);
    }
    padded(input, pos, LESS)
}

/// Optional linear whitespace and an opening `"`.
pub fn left_double_quote(input: &[u8], pos: usize) -> (r: Result<usize, Reject>)
    requires
        pos <= input@.len(),
    ensures
        scans(r, pos, input@.len(), spec_closing(input@, pos as int, DQUOTE)),
{
    proof {
        reveal(spec_closing);
    }
    let a = separator_whitespace(input, pos)?;
    byte(input, a, DQUOTE)
}

/// A closing `"` and optional linear whitespace.
pub fn right_double_quote(input: &[u8], pos: usize) -> (r: Result<usize, Reject>)
    requires
        pos <= input@.len(),
    ensures
        scans(r, pos, input@.len(), spec_opening(input@, pos as int, DQUOTE)),
{
    proof {
        reveal(spec_opening);
    }
    let a = byte(input, pos, DQUOTE)?;
    separator_whitespace(input, a)
}

/// A lead byte of `lead` followed by exactly `n` continuation bytes.
#[verifier::opaque]
pub open spec fn spec_utf8_sequence(s: Seq<u8>, i: int, lead: Class, n: int) -> Cursor {
    let a = spec_one(s, i, lead);
    a.and(spec_m_n(s, a.pos(), Class::Utf8Cont, n, n))
}

fn utf8_sequence(input: &[u8], pos: usize, lead: Class, n: usize) -> (r: Result<usize, Reject>)
    requires
        pos <= input@.len(),
    ensures
        scans(r, pos, input@.len(), spec_utf8_sequence(input@, pos as int, lead, n as int)),
{
    proof {
        reveal(spec_utf8_sequence);
    }
    let a = one(input, pos, lead)?;
    m_n(input, a, Class::Utf8Cont, n, n)
}

/// One multi-byte character: a lead byte of one of the five ranges with as
/// many continuation bytes as its range calls for. The bytes are not decoded.
#[verifier::opaque]
pub open spec fn spec_utf8_nonascii1(s: Seq<u8>, i: int) -> Cursor {
    spec_utf8_sequence(s, i, Class::Utf8NonasciiC0Df, 1).or(
        spec_utf8_sequence(s, i, Class::Utf8NonasciiE0Ef, 2),
    ).or(spec_utf8_sequence(s, i, Class::Utf8NonasciiF0F7, 3)).or(
        spec_utf8_sequence(s, i, Class::Utf8NonasciiF8Fb, 4),
    ).or(spec_utf8_sequence(s, i, Class::Utf8NonasciiFcFd, 5))
}

/// Parses at `pos` what [`spec_utf8_nonascii1`] describes.
pub fn utf8_nonascii1(input: &[u8], pos: usize) -> (r: Result<usize, Reject>)
    requires
        pos <= input@.len(),
    ensures
        scans(r, pos, input@.len(), spec_utf8_nonascii1(input@, pos as int)),
{
    proof {
        reveal(spec_utf8_nonascii1);
    }
    let r = utf8_sequence(input, pos, Class::Utf8NonasciiC0Df, 1);
    if !is_soft(&r) {
        return r;
    }
    let r = utf8_sequence(input, pos, Class::Utf8NonasciiE0Ef, 2);
    if !is_soft(&r) {
        return r;
    }
    let r = utf8_sequence(input, pos, Class::Utf8NonasciiF0F7, 3);
    if !is_soft(&r) {
        return r;
    }
    let r = utf8_sequence(input, pos, Class::Utf8NonasciiF8Fb, 4);
    if !is_soft(&r) {
        return r;
    }
    utf8_sequence(input, pos, Class::Utf8NonasciiFcFd, 5)
}

/// One character: a printable ASCII byte or a multi-byte character.
#[verifier::opaque]
pub open spec fn spec_utf8_char1(s: Seq<u8>, i: int) -> Cursor {
    spec_one(s, i, Class::Utf8Ascii).or(spec_utf8_nonascii1(s, i))
}

/// Parses at `pos` what [`spec_utf8_char1`] describes.
pub fn utf8_char1(input: &[u8], pos: usize) -> (r: Result<usize, Reject>)
    requires
        pos <= input@.len(),
    ensures
        scans(r, pos, input@.len(), spec_utf8_char1(input@, pos as int)),
{
    proof {
        reveal(spec_utf8_char1);
    }
    let r = one(input, pos, Class::Utf8Ascii);
    if !is_soft(&r) {
        return r;
    }
    utf8_nonascii1(input, pos)
}

/// Any number of linear whitespaces in a row.
pub open spec fn spec_whitespaces(s: Seq<u8>, i: int) -> Cursor
    decreases s.len() - i,
{
    match spec_linear_whitespace(s, i) {
        Cursor::At(j) => if i < j <= s.len() {
            spec_whitespaces(s, j)
        } else {
            Cursor::At(i)
        },
        Cursor::Off(x) => if x.fatal {
            Cursor::Off(x)
        } else {
            Cursor::At(i)
        },
    }
}

/// Parses at `pos` what [`spec_whitespaces`] describes.
pub fn whitespaces(input: &[u8], pos: usize) -> (r: Result<usize, Reject>)
    requires
        pos <= input@.len(),
    ensures
        scans(r, pos, input@.len(), spec_whitespaces(input@, pos as int)),
{
    let mut i: usize = pos;
    loop
        invariant
            pos <= i <= input@.len(),
            spec_whitespaces(input@, pos as int) == spec_whitespaces(input@, i as int),
        decreases input@.len() - i,
    {
        match linear_whitespace(input, i) {
            Ok(j) => {
                if j <= i {
                    return Ok(i);
                }
                i = j;
            },
            Err(x) => {
                if x.fatal {
                    return Err(x);
                }
                return Ok(i);
            },
        }
    }
}

/// Any number of linear whitespaces and then one character.
pub open spec fn spec_spaced_char(s: Seq<u8>, i: int) -> Cursor {
    let a = spec_whitespaces(s, i);
    a.and(spec_utf8_char1(s, a.pos()))
}

/// As many spaced characters as follow one another.
pub open spec fn spec_spaced_chars(s: Seq<u8>, i: int) -> Cursor
    decreases s.len() - i,
{
    match spec_spaced_char(s, i) {
        Cursor::At(j) => if i < j <= s.len() {
            spec_spaced_chars(s, j)
        } else {
            Cursor::At(i)
        },
        Cursor::Off(x) => if x.fatal {
            Cursor::Off(x)
        } else {
            Cursor::At(i)
        },
    }
}

/// Free text with its surrounding whitespace trimmed: a character, then
/// characters that linear whitespace may separate. Trailing whitespace is
/// not part of it.
#[verifier::opaque]
pub open spec fn spec_utf8_trim(s: Seq<u8>, i: int) -> Cursor {
    let a = spec_utf8_char1(s, i);
    a.and(spec_spaced_chars(s, a.pos()))
}

fn spaced_char(input: &[u8], pos: usize) -> (r: Result<usize, Reject>)
    requires
        pos <= input@.len(),
    ensures
        scans(r, pos, input@.len(), spec_spaced_char(input@, pos as int)),
{
    let a = whitespaces(input, pos)?;
    utf8_char1(input, a)
}

fn spaced_chars(input: &[u8], pos: usize) -> (r: Result<usize, Reject>)
    requires
        pos <= input@.len(),
    ensures
        scans(r, pos, input@.len(), spec_spaced_chars(input@, pos as int)),
{
    let mut i: usize = pos;
    loop
        invariant
            pos <= i <= input@.len(),
            spec_spaced_chars(input@, pos as int) == spec_spaced_chars(input@, i as int),
        decreases input@.len() - i,
    {
        match spaced_char(input, i) {
            Ok(j) => {
                if j <= i {
                    return Ok(i);
                }
                i = j;
            },
            Err(x) => {
                if x.fatal {
                    return Err(x);
                }
                return Ok(i);
            },
        }
    }
}

/// Parses at `pos` what [`spec_utf8_trim`] describes.
pub fn utf8_trim(input: &[u8], pos: usize) -> (r: Result<usize, Reject>)
    requires
        pos <= input@.len(),
    ensures
        scans(r, pos, input@.len(), spec_utf8_trim(input@, pos as int)),
{
    proof {
        reveal(spec_utf8_trim);
    }
    let a = utf8_char1(input, pos)?;
    spaced_chars(input, a)
}

/// A quoted pair: a backslash and one quotable byte.
#[verifier::opaque]
pub open spec fn spec_quoted_pair(s: Seq<u8>, i: int) -> Cursor {
    let a = spec_byte(s, i, BACKSLASH);
    a.and(spec_one(s, a.pos(), Class::QuotableCharacter))
}

/// Parses at `pos` what [`spec_quoted_pair`] describes.
pub fn quoted_pair(input: &[u8], pos: usize) -> (r: Result<usize, Reject>)
    requires
        pos <= input@.len(),
    ensures
        scans(r, pos, input@.len(), spec_quoted_pair(input@, pos as int)),
{
    proof {
        reveal(spec_quoted_pair);
    }
    let a = byte(input, pos, BACKSLASH)?;
    one(input, a, Class::QuotableCharacter)
}

/// Comment text: a comment character, a multi-byte character or linear
/// whitespace.
#[verifier::opaque]
pub open spec fn spec_comment_text(s: Seq<u8>, i: int) -> Cursor {
    spec_one(s, i, Class::CommentChar).or(spec_utf8_nonascii1(s, i)).or(
        spec_linear_whitespace(s, i),
    )
}

/// Parses at `pos` what [`spec_comment_text`] describes.
pub fn comment_text(input: &[u8], pos: usize) -> (r: Result<usize, Reject>)
    requires
        pos <= input@.len(),
    ensures
        scans(r, pos, input@.len(), spec_comment_text(input@, pos as int)),
{
    proof {
        reveal(spec_comment_text);
    }
    let r = one(input, pos, Class::CommentChar);
    if !is_soft(&r) {
        return r;
    }
    let r = utf8_nonascii1(input, pos);
    if !is_soft(&r) {
        return r;
    }
    linear_whitespace(input, pos)
}

/// A comment: parentheses around comment text, quoted pairs and further
/// comments, nested to any depth.
pub open spec fn spec_comment(s: Seq<u8>, i: int) -> Cursor
    decreases s.len() - i, 0int,
{
    let a = spec_padded(s, i, LPAREN);
    if a.ok() && i < a.pos() <= s.len() {
        let b = spec_comment_items(s, a.pos());
        b.and(spec_padded(s, b.pos(), RPAREN))
    } else {
        a.and(miss(i))
    }
}

/// What stands between a comment's parentheses.
pub open spec fn spec_comment_items(s: Seq<u8>, i: int) -> Cursor
    decreases s.len() - i, 1int,
{
    let n = spec_comment_text(s, i).or(spec_comment(s, i)).or(spec_quoted_pair(s, i));
    match n {
        Cursor::At(j) => if i < j <= s.len() {
            spec_comment_items(s, j)
        } else {
            Cursor::At(i)
        },
        Cursor::Off(x) => if x.fatal {
            Cursor::Off(x)
        } else {
            Cursor::At(i)
        },
    }
}

/// Parses at `pos` what [`spec_comment`] describes.
pub fn comment(input: &[u8], pos: usize) -> (r: Result<usize, Reject>)
    requires
        pos <= input@.len(),
    ensures
        scans(r, pos, input@.len(), spec_comment(input@, pos as int)),
    decreases input@.len() - pos, 0int,
{
    let a = left_parenthesis(input, pos)?;
    if a <= pos {
        return Err(syntax_at(pos));
    }
    let b = comment_items(input, a)?;
    right_parenthesis(input, b)
}

fn comment_items(input: &[u8], pos: usize) -> (r: Result<usize, Reject>)
    requires
        pos <= input@.len(),
    ensures
        scans(r, pos, input@.len(), spec_comment_items(input@, pos as int)),
    decreases input@.len() - pos, 1int,
{
    let mut i: usize = pos;
    loop
        invariant
            pos <= i <= input@.len(),
            spec_comment_items(input@, pos as int) == spec_comment_items(input@, i as int),
        decreases input@.len() - i,
    {
        let mut n = comment_text(input, i);
        if is_soft(&n) {
            n = comment(input, i);
        }
        if is_soft(&n) {
            n = quoted_pair(input, i);
        }
        match n {
            Ok(j) => {
                if j <= i {
                    return Ok(i);
                }
                i = j;
            },
            Err(x) => {
                if x.fatal {
                    return Err(x);
                }
                return Ok(i);
            },
        }
    }
}

/// Quoted text: linear whitespace, a quoted-text character or a multi-byte
/// character.
#[verifier::opaque]
pub open spec fn spec_quoted_text(s: Seq<u8>, i: int) -> Cursor {
    spec_linear_whitespace(s, i).or(spec_one(s, i, Class::QuotedTextChar)).or(
        spec_utf8_nonascii1(s, i),
    )
}

/// Parses at `pos` what [`spec_quoted_text`] describes.
pub fn quoted_text(input: &[u8], pos: usize) -> (r: Result<usize, Reject>)
    requires
        pos <= input@.len(),
    ensures
        scans(r, pos, input@.len(), spec_quoted_text(input@, pos as int)),
{
    proof {
        reveal(spec_quoted_text);
    }
    let r = linear_whitespace(input, pos);
    if !is_soft(&r) {
        return r;
    }
    let r = one(input, pos, Class::QuotedTextChar);
    if !is_soft(&r) {
        return r;
    }
    utf8_nonascii1(input, pos)
}

/// What stands between the quotes of a quoted string.
pub open spec fn spec_quoted_items(s: Seq<u8>, i: int) -> Cursor
    decreases s.len() - i,
{
    match spec_quoted_text(s, i).or(spec_quoted_pair(s, i)) {
        Cursor::At(j) => if i < j <= s.len() {
            spec_quoted_items(s, j)
        } else {
            Cursor::At(i)
        },
        Cursor::Off(x) => if x.fatal {
            Cursor::Off(x)
        } else {
            Cursor::At(i)
        },
    }
}

/// Parses at `pos` what [`spec_quoted_items`] describes.
pub fn quoted_items(input: &[u8], pos: usize) -> (r: Result<usize, Reject>)
    requires
        pos <= input@.len(),
    ensures
        scans(r, pos, input@.len(), spec_quoted_items(input@, pos as int)),
{
    let mut i: usize = pos;
    loop
        invariant
            pos <= i <= input@.len(),
            spec_quoted_items(input@, pos as int) == spec_quoted_items(input@, i as int),
        decreases input@.len() - i,
    {
        let mut n = quoted_text(input, i);
        if is_soft(&n) {
            n = quoted_pair(input, i);
        }
        match n {
            Ok(j) => {
                if j <= i {
                    return Ok(i);
                }
                i = j;
            },
            Err(x) => {
                if x.fatal {
                    return Err(x);
                }
                return Ok(i);
            },
        }
    }
}

/// Where the text between the quotes of a quoted string at `i` begins.
pub open spec fn spec_quoted_open(s: Seq<u8>, i: int) -> Cursor {
    spec_closing(s, i, DQUOTE)
}

/// A quoted string: optional linear whitespace, `"`, quoted text and quoted
/// pairs, `"`. The match covers the whitespace and both quotes.
#[verifier::opaque]
pub open spec fn spec_quoted_string(s: Seq<u8>, i: int) -> Cursor {
    let a = spec_quoted_open(s, i);
    let b = a.and(spec_quoted_items(s, a.pos()));
    b.and(spec_byte(s, b.pos(), DQUOTE))
}

/// Parses at `pos` what [`spec_quoted_string`] describes.
pub fn quoted_string(input: &[u8], pos: usize) -> (r: Result<usize, Reject>)
    requires
        pos <= input@.len(),
    ensures
        scans(r, pos, input@.len(), spec_quoted_string(input@, pos as int)),
{
    proof {
        reveal(spec_quoted_string);
    }
    let a = left_double_quote(input, pos)?;
    let b = quoted_items(input, a)?;
    byte(input, b, DQUOTE)
}

/// One piece of a password or user name: an unreserved character, an escaped
/// octet, or a run of the characters of `extra`.
pub open spec fn spec_user_piece(s: Seq<u8>, i: int, extra: Class) -> Cursor {
    spec_one(s, i, Class::Unreserved).or(spec_escaped(s, i)).or(spec_while1(s, i, extra))
}

/// As many such pieces as follow one another.
pub open spec fn spec_user_pieces(s: Seq<u8>, i: int, extra: Class) -> Cursor
    decreases s.len() - i,
{
    match spec_user_piece(s, i, extra) {
        Cursor::At(j) => if i < j <= s.len() {
            spec_user_pieces(s, j, extra)
        } else {
            Cursor::At(i)
        },
        Cursor::Off(x) => if x.fatal {
            Cursor::Off(x)
        } else {
            Cursor::At(i)
        },
    }
}

fn user_piece(input: &[u8], pos: usize, extra: Class) -> (r: Result<usize, Reject>)
    requires
        pos <= input@.len(),
    ensures
        scans(r, pos, input@.len(), spec_user_piece(input@, pos as int, extra)),
{
    let r = one(input, pos, Class::Unreserved);
    if !is_soft(&r) {
        return r;
    }
    let r = escaped(input, pos);
    if !is_soft(&r) {
        return r;
    }
    while1(input, pos, extra)
}

fn user_pieces(input: &[u8], pos: usize, extra: Class) -> (r: Result<usize, Reject>)
    requires
        pos <= input@.len(),
    ensures
        scans(r, pos, input@.len(), spec_user_pieces(input@, pos as int, extra)),
{
    let mut i: usize = pos;
    loop
        invariant
            pos <= i <= input@.len(),
            spec_user_pieces(input@, pos as int, extra) == spec_user_pieces(
                input@,
                i as int,
                extra,
            ),
        decreases input@.len() - i,
    {
        match user_piece(input, i, extra) {
            Ok(j) => {
                if j <= i {
                    return Ok(i);
                }
                i = j;
            },
            Err(x) => {
                if x.fatal {
                    return Err(x);
                }
                return Ok(i);
            },
        }
    }
}

/// A password: any number of password pieces, none included.
#[verifier::opaque]
pub open spec fn spec_password(s: Seq<u8>, i: int) -> Cursor {
    spec_user_pieces(s, i, Class::PasswordExtra)
}

/// Parses at `pos` what [`spec_password`] describes.
pub fn password(input: &[u8], pos: usize) -> (r: Result<usize, Reject>)
    requires
        pos <= input@.len(),
    ensures
        scans(r, pos, input@.len(), spec_password(input@, pos as int)),
{
    proof {
        reveal(spec_password);
    }
    user_pieces(input, pos, Class::PasswordExtra)
}

/// A user name: at least one user piece.
#[verifier::opaque]
pub open spec fn spec_user(s: Seq<u8>, i: int) -> Cursor {
    let a = spec_user_piece(s, i, Class::UserExtra);
    a.and(spec_user_pieces(s, a.pos(), Class::UserExtra))
}

/// Parses at `pos` what [`spec_user`] describes.
pub fn user(input: &[u8], pos: usize) -> (r: Result<usize, Reject>)
    requires
        pos <= input@.len(),
    ensures
        scans(r, pos, input@.len(), spec_user(input@, pos as int)),
{
    proof {
        reveal(spec_user);
    }
    let a = user_piece(input, pos, Class::UserExtra)?;
    user_pieces(input, a, Class::UserExtra)
}

/// A registry name: one or more registry-name characters.
#[verifier::opaque]
pub open spec fn spec_reg_name(s: Seq<u8>, i: int) -> Cursor {
    spec_while1(s, i, Class::RegName)
}

/// Parses at `pos` what [`spec_reg_name`] describes.
pub fn reg_name(input: &[u8], pos: usize) -> (r: Result<usize, Reject>)
    requires
        pos <= input@.len(),
    ensures
        scans(r, pos, input@.len(), spec_reg_name(input@, pos as int)),
{
    proof {
        reveal(spec_reg_name);
    }
    while1(input, pos, Class::RegName)
}

/// A path parameter: any run of path characters, the empty one included.
#[verifier::opaque]
pub open spec fn spec_param(s: Seq<u8>, i: int) -> Cursor {
    spec_while0(s, i, Class::Pchar)
}

/// Parses at `pos` what [`spec_param`] describes.
pub fn param(input: &[u8], pos: usize) -> (r: Result<usize, Reject>)
    requires
        pos <= input@.len(),
    ensures
        scans(r, pos, input@.len(), spec_param(input@, pos as int)),
{
    proof {
        reveal(spec_param);
    }
    while0(input, pos, Class::Pchar)
}


/// A character of two bytes.
pub fn utf8_nonascii_c0_df(input: &[u8], pos: usize) -> (r: Result<usize, Reject>)
    requires
        pos <= input@.len(),
    ensures
        scans(r, pos, input@.len(), spec_utf8_sequence(input@, pos as int, Class::Utf8NonasciiC0Df, 1)),
{
    utf8_sequence(input, pos, Class::Utf8NonasciiC0Df, 1)
}

/// A character of three bytes.
pub fn utf8_nonascii_e0_ef(input: &[u8], pos: usize) -> (r: Result<usize, Reject>)
    requires
        pos <= input@.len(),
    ensures
        scans(r, pos, input@.len(), spec_utf8_sequence(input@, pos as int, Class::Utf8NonasciiE0Ef, 2)),
{
    utf8_sequence(input, pos, Class::Utf8NonasciiE0Ef, 2)
}

/// A character of four bytes.
pub fn utf8_nonascii_f0_f7(input: &[u8], pos: usize) -> (r: Result<usize, Reject>)
    requires
        pos <= input@.len(),
    ensures
        scans(r, pos, input@.len(), spec_utf8_sequence(input@, pos as int, Class::Utf8NonasciiF0F7, 3)),
{
    utf8_sequence(input, pos, Class::Utf8NonasciiF0F7, 3)
}

/// A sequence of five bytes.
pub fn utf8_nonascii_f8_fb(input: &[u8], pos: usize) -> (r: Result<usize, Reject>)
    requires
        pos <= input@.len(),
    ensures
        scans(r, pos, input@.len(), spec_utf8_sequence(input@, pos as int, Class::Utf8NonasciiF8Fb, 4)),
{
    utf8_sequence(input, pos, Class::Utf8NonasciiF8Fb, 4)
}

/// A sequence of six bytes.
pub fn utf8_nonascii_fc_fd(input: &[u8], pos: usize) -> (r: Result<usize, Reject>)
    requires
        pos <= input@.len(),
    ensures
        scans(r, pos, input@.len(), spec_utf8_sequence(input@, pos as int, Class::Utf8NonasciiFcFd, 5)),
{
    utf8_sequence(input, pos, Class::Utf8NonasciiFcFd, 5)
}

/// One printable ASCII byte.
pub fn utf8_ascii1(input: &[u8], pos: usize) -> (r: Result<usize, Reject>)
    requires
        pos <= input@.len(),
    ensures
        scans(r, pos, input@.len(), spec_one(input@, pos as int, Class::Utf8Ascii)),
{
    one(input, pos, Class::Utf8Ascii)
}

/// One byte that may stand unescaped in a comment.
pub fn comment_char(input: &[u8], pos: usize) -> (r: Result<usize, Reject>)
    requires
        pos <= input@.len(),
    ensures
        scans(r, pos, input@.len(), spec_one(input@, pos as int, Class::CommentChar)),
{
    one(input, pos, Class::CommentChar)
}

/// One byte that may follow a backslash in a quoted pair.
pub fn quotable_character(input: &[u8], pos: usize) -> (r: Result<usize, Reject>)
    requires
        pos <= input@.len(),
    ensures
        scans(r, pos, input@.len(), spec_one(input@, pos as int, Class::QuotableCharacter)),
{
    one(input, pos, Class::QuotableCharacter)
}

/// One byte that may stand unescaped in a quoted string.
pub fn quoted_text_char(input: &[u8], pos: usize) -> (r: Result<usize, Reject>)
    requires
        pos <= input@.len(),
    ensures
        scans(r, pos, input@.len(), spec_one(input@, pos as int, Class::QuotedTextChar)),
{
    one(input, pos, Class::QuotedTextChar)
}

/// The asterisk with optional linear whitespace on both sides.
pub fn asterisk(input: &[u8], pos: usize) -> (r: Result<usize, Reject>)
    requires
        pos <= input@.len(),
    ensures
        scans(r, pos, input@.len(), spec_padded(input@, pos as int, STAR)),
{
    padded(input, pos, STAR)
}

/// The double quote.
pub fn double_quote(input: &[u8], pos: usize) -> (r: Result<usize, Reject>)
    requires
        pos <= input@.len(),
    ensures
        scans(r, pos, input@.len(), spec_byte(input@, pos as int, DQUOTE)),
{
    byte(input, pos, DQUOTE)
}

} // verus!
