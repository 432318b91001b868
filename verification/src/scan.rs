//! Scanning primitives: single bytes, literals, runs of a byte class, decimal
//! integers and text. Every production of the grammar is built from these.

use crate::class::Class;
use crate::error::{
    abort, abort_at, miss, scans, syntax_at, yields, Cursor, ErrorKind, Parsed, Reject,
};
use vstd::prelude::*;
use vstd::string::StringSliceAdditionalSpecFns;
use vstd::utf8::{decode_utf8, valid_utf8};

verus! {

/// Whether a result is a rejection that alternations and repetitions recover from.
pub fn is_soft<T>(r: &Result<T, Reject>) -> (b: bool)
    ensures
        b == (r matches Err(x) && !x.fatal),
{
    match r {
        Ok(_) => false,
        Err(x) => !x.fatal,
    }
}

/// The byte `b` at offset `i`.
pub open spec fn spec_byte(s: Seq<u8>, i: int, b: u8) -> Cursor {
    if 0 <= i < s.len() && s[i] == b {
        Cursor::At(i + 1)
    } else {
        miss(i)
    }
}

/// Parses at `pos` what [`spec_byte`] describes.
pub fn byte(input: &[u8], pos: usize, b: u8) -> (r: Result<usize, Reject>)
    requires
        pos <= input@.len(),
    ensures
        scans(r, pos, input@.len(), spec_byte(input@, pos as int, b)),
{
    if pos < input.len() && input[pos] == b {
        Ok(pos + 1)
    } else {
        Err(syntax_at(pos))
    }
}

/// One byte of `class` at offset `i`.
pub open spec fn spec_one(s: Seq<u8>, i: int, class: Class) -> Cursor {
    if 0 <= i < s.len() && class.has(s[i]) {
        Cursor::At(i + 1)
    } else {
        miss(i)
    }
}

/// Parses at `pos` what [`spec_one`] describes.
pub fn one(input: &[u8], pos: usize, class: Class) -> (r: Result<usize, Reject>)
    requires
        pos <= input@.len(),
    ensures
        scans(r, pos, input@.len(), spec_one(input@, pos as int, class)),
{
    if pos < input.len() && class.has(input[pos]) {
        Ok(pos + 1)
    } else {
        Err(syntax_at(pos))
    }
}

/// An ASCII letter in lower case; any other byte unchanged.
#[verifier::allow_in_spec]
pub fn lowercase_byte(b: u8) -> u8
    returns
        (if 0x41 <= b && b <= 0x5a {
            (b + 0x20) as u8
        } else {
            b
        }),
{
    if 0x41 <= b && b <= 0x5a {
        b + 0x20
    } else {
        b
    }
}

/// The bytes of `s` from offset `i` on begin with `lit`.
pub open spec fn starts_with(s: Seq<u8>, i: int, lit: Seq<u8>) -> bool {
    &&& 0 <= i
    &&& i + lit.len() <= s.len()
    &&& forall|k: int| 0 <= k < lit.len() ==> s[i + k] == lit[k]
}

/// The same, where letters match in either case.
pub open spec fn starts_with_no_case(s: Seq<u8>, i: int, lit: Seq<u8>) -> bool {
    &&& 0 <= i
    &&& i + lit.len() <= s.len()
    &&& forall|k: int| 0 <= k < lit.len() ==> lowercase_byte(s[i + k]) == lowercase_byte(lit[k])
}

/// The literal `lit` at offset `i`.
pub open spec fn spec_tag(s: Seq<u8>, i: int, lit: &str) -> Cursor {
    if starts_with(s, i, lit.spec_bytes()) {
        Cursor::At(i + lit.spec_bytes().len())
    } else {
        miss(i)
    }
}

/// The literal `lit` at offset `i`, letters in either case.
pub open spec fn spec_tag_no_case(s: Seq<u8>, i: int, lit: &str) -> Cursor {
    if starts_with_no_case(s, i, lit.spec_bytes()) {
        Cursor::At(i + lit.spec_bytes().len())
    } else {
        miss(i)
    }
}

/// Parses at `pos` what [`spec_tag`] describes.
pub fn tag(input: &[u8], pos: usize, lit: &str) -> (r: Result<usize, Reject>)
    requires
        pos <= input@.len(),
    ensures
        scans(r, pos, input@.len(), spec_tag(input@, pos as int, lit)),
{
    let l = lit.as_bytes();
    if l.len() > input.len() - pos {
        return Err(syntax_at(pos));
    }
    let mut k: usize = 0;
    while k < l.len()
        invariant
            k <= l@.len(),
            pos + l@.len() <= input@.len() <= usize::MAX,
            l@ == lit.spec_bytes(),
            forall|j: int| 0 <= j < k ==> input@[pos + j] == l@[j],
        decreases l@.len() - k,
    {
        if input[pos + k] != l[k] {
            return Err(syntax_at(pos));
        }
        k = k + 1;
    }
    Ok(pos + l.len())
}

/// Parses at `pos` what [`spec_tag_no_case`] describes.
pub fn tag_no_case(input: &[u8], pos: usize, lit: &str) -> (r: Result<usize, Reject>)
    requires
        pos <= input@.len(),
    ensures
        scans(r, pos, input@.len(), spec_tag_no_case(input@, pos as int, lit)),
{
    let l = lit.as_bytes();
    if l.len() > input.len() - pos {
        return Err(syntax_at(pos));
    }
    let mut k: usize = 0;
    while k < l.len()
        invariant
            k <= l@.len(),
            pos + l@.len() <= input@.len() <= usize::MAX,
            l@ == lit.spec_bytes(),
            forall|j: int| 0 <= j < k ==> lowercase_byte(input@[pos + j]) == lowercase_byte(l@[j]),
        decreases l@.len() - k,
    {
        if lowercase_byte(input[pos + k]) != lowercase_byte(l[k]) {
            return Err(syntax_at(pos));
        }
        k = k + 1;
    }
    Ok(pos + l.len())
}

/// The end of the longest run of `class` bytes that starts at offset `i`.
pub open spec fn run_end(s: Seq<u8>, i: int, class: Class) -> int
    decreases s.len() - i,
{
    if 0 <= i < s.len() && class.has(s[i]) {
        run_end(s, i + 1, class)
    } else {
        i
    }
}

/// The end of the longest run of at most `max` bytes of `class` from offset `i`.
pub open spec fn run_end_upto(s: Seq<u8>, i: int, class: Class, max: int) -> int
    decreases max,
{
    if max > 0 && 0 <= i < s.len() && class.has(s[i]) {
        run_end_upto(s, i + 1, class, max - 1)
    } else {
        i
    }
}

/// A run of `class` bytes of any length, none included.
pub open spec fn spec_while0(s: Seq<u8>, i: int, class: Class) -> Cursor {
    Cursor::At(run_end(s, i, class))
}

/// A run of at least one byte of `class`.
pub open spec fn spec_while1(s: Seq<u8>, i: int, class: Class) -> Cursor {
    if run_end(s, i, class) > i {
        Cursor::At(run_end(s, i, class))
    } else {
        miss(i)
    }
}

/// A run of at least `min` and at most `max` bytes of `class`; what lies
/// beyond `max` bytes is left unread.
pub open spec fn spec_m_n(s: Seq<u8>, i: int, class: Class, min: int, max: int) -> Cursor {
    if run_end_upto(s, i, class, max) - i >= min {
        Cursor::At(run_end_upto(s, i, class, max))
    } else {
        miss(i)
    }
}

/// Where the run of `class` bytes from `pos` ends.
pub fn skip(input: &[u8], pos: usize, class: Class) -> (end: usize)
    requires
        pos <= input@.len(),
    ensures
        end == run_end(input@, pos as int, class),
        pos <= end <= input@.len(),
{
    let mut i: usize = pos;
    while i < input.len() && class.has(input[i])
        invariant
            pos <= i <= input@.len(),
            run_end(input@, pos as int, class) == run_end(input@, i as int, class),
        decreases input@.len() - i,
    {
        i = i + 1;
    }
    i
}

/// Parses at `pos` what [`spec_while0`] describes.
pub fn while0(input: &[u8], pos: usize, class: Class) -> (r: Result<usize, Reject>)
    requires
        pos <= input@.len(),
    ensures
        scans(r, pos, input@.len(), spec_while0(input@, pos as int, class)),
{
    Ok(skip(input, pos, class))
}

/// Parses at `pos` what [`spec_while1`] describes.
pub fn while1(input: &[u8], pos: usize, class: Class) -> (r: Result<usize, Reject>)
    requires
        pos <= input@.len(),
    ensures
        scans(r, pos, input@.len(), spec_while1(input@, pos as int, class)),
{
    let end = skip(input, pos, class);
    if end > pos {
        Ok(end)
    } else {
        Err(syntax_at(pos))
    }
}

/// Parses at `pos` what [`spec_m_n`] describes.
pub fn m_n(input: &[u8], pos: usize, class: Class, min: usize, max: usize) -> (r: Result<
    usize,
    Reject,
>)
    requires
        pos <= input@.len(),
    ensures
        scans(r, pos, input@.len(), spec_m_n(input@, pos as int, class, min as int, max as int)),
{
    let mut i: usize = pos;
    let mut left: usize = max;
    while left > 0 && i < input.len() && class.has(input[i])
        invariant
            pos <= i <= input@.len(),
            run_end_upto(input@, pos as int, class, max as int) == run_end_upto(
                input@,
                i as int,
                class,
                left as int,
            ),
        decreases left,
    {
        i = i + 1;
        left = left - 1;
    }
    if i - pos >= min {
        Ok(i)
    } else {
        Err(syntax_at(pos))
    }
}

/// The text that the bytes of `s` from `from` up to `to` stand for, where
/// they are valid UTF-8; else an unrecoverable rejection at `from`.
pub open spec fn spec_text(s: Seq<u8>, from: int, to: int) -> Parsed<Seq<char>> {
    Parsed {
        value: decode_utf8(s.subrange(from, to)),
        end: if valid_utf8(s.subrange(from, to)) {
            Cursor::At(to)
        } else {
            abort(ErrorKind::Utf8Error, from)
        },
    }
}

/// `std::str::from_utf8`: `Some` exactly for valid UTF-8, and then the text
/// that the bytes encode.
#[verifier::external_body]
pub(crate) fn str_from_utf8(bytes: &[u8]) -> (r: Option<&str>)
    ensures
        r is Some <==> valid_utf8(bytes@),
        r matches Some(t) ==> t@ == decode_utf8(bytes@),
{
    match std::str::from_utf8(bytes) {
        Ok(t) => Some(t),
        Err(_) => None,
    }
}

/// The bytes of `input` from `from` up to `to` as owned text.
pub fn text(input: &[u8], from: usize, to: usize) -> (r: Result<String, Reject>)
    requires
        from <= to <= input@.len(),
    ensures
        match r {
            Ok(t) => spec_text(input@, from as int, to as int).end == Cursor::At(to as int) && t@
                == spec_text(input@, from as int, to as int).value,
            Err(x) => spec_text(input@, from as int, to as int).end == Cursor::Off(x),
        },
{
    match str_from_utf8(&input[from..to]) {
        Some(t) => Ok(t.to_owned()),
        None => Err(abort_at(ErrorKind::Utf8Error, from)),
    }
}

/// The number that a sequence of decimal digits denotes.
pub open spec fn decimal(digits: Seq<u8>) -> nat
    decreases digits.len(),
{
    if digits.len() == 0 {
        0
    } else {
        (decimal(digits.drop_last()) * 10 + (digits.last() - 0x30)) as nat
    }
}

/// All bytes of `digits` are ASCII digits.
pub open spec fn all_digits(digits: Seq<u8>) -> bool {
    forall|k: int| 0 <= k < digits.len() ==> nom::character::is_digit(#[trigger] digits[k])
}

/// `atoi::atoi::<i32>`: of a non-empty run of digits, the number they denote
/// where it fits an `i32`, and `None` where it does not.
#[verifier::external_body]
fn atoi_i32(digits: &[u8]) -> (r: Option<i32>)
    ensures
        digits@.len() > 0 && all_digits(digits@) ==> r == (if decimal(digits@) <= i32::MAX {
            Some(decimal(digits@) as i32)
        } else {
            None::<i32>
        }),
{
    atoi::atoi::<i32>(digits)
}

/// The number that the digits of `input` from `from` up to `to` denote,
/// where it fits a 32-bit signed integer.
pub fn digits_value(input: &[u8], from: usize, to: usize) -> (r: Option<i32>)
    requires
        from < to <= input@.len(),
        all_digits(input@.subrange(from as int, to as int)),
    ensures
        r == (if decimal(input@.subrange(from as int, to as int)) <= i32::MAX {
            Some(decimal(input@.subrange(from as int, to as int)) as i32)
        } else {
            None::<i32>
        }),
{
    atoi_i32(&input[from..to])
}

/// A decimal integer: one or more digits whose number fits a 32-bit signed
/// integer. Digits that overflow are an unrecoverable rejection.
pub open spec fn spec_integer(s: Seq<u8>, i: int) -> Parsed<i32> {
    let e = run_end(s, i, Class::Digit);
    let n = decimal(s.subrange(i, e));
    Parsed {
        value: n as i32,
        end: if e <= i {
            miss(i)
        } else if n > i32::MAX {
            abort(ErrorKind::InvalidIntegerError, i)
        } else {
            Cursor::At(e)
        },
    }
}

/// A run stays inside the input, every byte of it belongs to its class, and
/// the byte after it, if there is one, does not.
pub proof fn lemma_run_members(s: Seq<u8>, i: int, class: Class)
    requires
        0 <= i <= s.len(),
    ensures
        i <= run_end(s, i, class) <= s.len(),
        forall|k: int| i <= k < run_end(s, i, class) ==> class.has(#[trigger] s[k]),
        run_end(s, i, class) == s.len() || !class.has(s[run_end(s, i, class)]),
        i < s.len() && class.has(s[i]) ==> run_end(s, i, class) > i,
    decreases s.len() - i,
{
    if i < s.len() && class.has(s[i]) {
        lemma_run_members(s, i + 1, class);
    }
}

/// The same for a run of bounded length.
pub proof fn lemma_run_upto_members(s: Seq<u8>, i: int, class: Class, max: int)
    requires
        0 <= i <= s.len(),
    ensures
        i <= run_end_upto(s, i, class, max) <= s.len(),
        run_end_upto(s, i, class, max) - i <= max || max < 0,
        forall|k: int| i <= k < run_end_upto(s, i, class, max) ==> class.has(#[trigger] s[k]),
    decreases max,
{
    if max > 0 && i < s.len() && class.has(s[i]) {
        lemma_run_upto_members(s, i + 1, class, max - 1);
    }
}

/// Parses at `pos` what [`spec_integer`] describes.
pub fn integer(input: &[u8], pos: usize) -> (r: Result<(i32, usize), Reject>)
    requires
        pos <= input@.len(),
    ensures
        yields(r, pos, input@.len(), spec_integer(input@, pos as int)),
{
    let end = skip(input, pos, Class::Digit);
    if end == pos {
        return Err(syntax_at(pos));
    }
    proof {
        lemma_run_members(input@, pos as int, Class::Digit);
    }
    match digits_value(input, pos, end) {
        Some(n) => Ok((n, end)),
        None => Err(abort_at(ErrorKind::InvalidIntegerError, pos)),
    }
}

/// Appending to a vector appends its element's view to the vector's deep
/// view; stated with the tail that a list production still has to read.
pub proof fn lemma_push_deep_view<T: DeepView>(before: Vec<T>, after: Vec<T>, x: T, tail: Seq<T::V>)
    requires
        after@ == before@.push(x),
    ensures
        after.deep_view() == before.deep_view().push(x.deep_view()),
        after.deep_view() + tail == before.deep_view() + (seq![x.deep_view()] + tail),
{
    assert(after.deep_view() =~= before.deep_view().push(x.deep_view()));
    assert(after.deep_view() + tail =~= before.deep_view() + (seq![x.deep_view()] + tail));
}

/// A new vector's deep view is empty.
pub proof fn lemma_empty_deep_view<T: DeepView>(v: Vec<T>, tail: Seq<T::V>)
    requires
        v@.len() == 0,
    ensures
        v.deep_view() == Seq::<T::V>::empty(),
        v.deep_view() + tail == tail,
{
    assert(v.deep_view() =~= Seq::<T::V>::empty());
    assert(v.deep_view() + tail =~= tail);
}

} // verus!
