//! Repetition: lists of values that a separator precedes or separates,
//! proved once for every production that builds a value.

use crate::error::{miss, scans, syntax_at, yields, Cursor, Parsed, Reject};
use crate::scan::{byte, spec_byte, spec_while1, while1};
use crate::class::Class;
use crate::tokens::{padded, spec_padded};
use vstd::prelude::*;

verus! {

/// A production that builds a value, named by a type so that the list
/// productions can be stated and proved for all of them at once.
pub trait Rule {
    /// The value that the production builds.
    type Out: DeepView;

    /// What the production yields at offset `i` of `s`.
    spec fn spec_parse(s: Seq<u8>, i: int) -> Parsed<<Self::Out as DeepView>::V>;

    fn parse(input: &[u8], pos: usize) -> (r: Result<(Self::Out, usize), Reject>)
        requires
            pos <= input@.len(),
        ensures
            yields(r, pos, input@.len(), Self::spec_parse(input@, pos as int)),
    ;
}

/// What stands between, or before, the items of a list.
#[derive(Clone, Copy, Debug, PartialEq, Eq)]
pub enum Sep {
    /// The byte alone.
    Plain(u8),
    /// The byte with optional linear whitespace on both sides.
    Padded(u8),
    /// One or more spaces.
    Spaces,
    /// Nothing: the items follow one another directly.
    Nothing,
}

pub open spec fn spec_sep(s: Seq<u8>, i: int, sep: Sep) -> Cursor {
    match sep {
        Sep::Plain(b) => spec_byte(s, i, b),
        Sep::Padded(b) => spec_padded(s, i, b),
        Sep::Spaces => spec_while1(s, i, Class::Space),
        Sep::Nothing => Cursor::At(i),
    }
}

/// Parses at `pos` what [`spec_sep`] describes.
pub fn separator(input: &[u8], pos: usize, sep: Sep) -> (r: Result<usize, Reject>)
    requires
        pos <= input@.len(),
    ensures
        scans(r, pos, input@.len(), spec_sep(input@, pos as int, sep)),
{
    match sep {
        Sep::Plain(b) => byte(input, pos, b),
        Sep::Padded(b) => padded(input, pos, b),
        Sep::Spaces => while1(input, pos, Class::Space),
        Sep::Nothing => Ok(pos),
    }
}

/// A separator and then an item.
pub open spec fn spec_sep_item<R: Rule>(s: Seq<u8>, i: int, sep: Sep) -> Parsed<
    <R::Out as DeepView>::V,
> {
    let a = spec_sep(s, i, sep);
    let p = R::spec_parse(s, a.pos());
    Parsed { value: p.value, end: a.and(p.end) }
}

/// As many separator-and-item pairs as follow one another. The list ends,
/// with what it has, before the first pair that does not match; a pair that
/// is rejected unrecoverably rejects the list.
pub open spec fn spec_many<R: Rule>(s: Seq<u8>, i: int, sep: Sep) -> Parsed<
    Seq<<R::Out as DeepView>::V>,
>
    decreases s.len() - i,
{
    let p = spec_sep_item::<R>(s, i, sep);
    match p.end {
        Cursor::At(j) => if i < j <= s.len() {
            let rest = spec_many::<R>(s, j, sep);
            Parsed { value: seq![p.value] + rest.value, end: rest.end }
        } else {
            Parsed { value: Seq::empty(), end: Cursor::At(i) }
        },
        Cursor::Off(x) => if x.fatal {
            Parsed { value: Seq::empty(), end: Cursor::Off(x) }
        } else {
            Parsed { value: Seq::empty(), end: Cursor::At(i) }
        },
    }
}

/// A list of at least one item, with the separator between items.
pub open spec fn spec_list1<R: Rule>(s: Seq<u8>, i: int, sep: Sep) -> Parsed<
    Seq<<R::Out as DeepView>::V>,
> {
    let first = R::spec_parse(s, i);
    let rest = spec_many::<R>(s, first.end.pos(), sep);
    if first.end.ok() && first.end.pos() <= i {
        Parsed { value: Seq::empty(), end: miss(i) }
    } else {
        Parsed { value: seq![first.value] + rest.value, end: first.end.and(rest.end) }
    }
}

/// A list of any number of items, with the separator between items. An
/// input on which no first item matches holds the empty list.
pub open spec fn spec_list0<R: Rule>(s: Seq<u8>, i: int, sep: Sep) -> Parsed<
    Seq<<R::Out as DeepView>::V>,
> {
    let first = R::spec_parse(s, i);
    if first.end.soft() {
        Parsed { value: Seq::empty(), end: Cursor::At(i) }
    } else {
        spec_list1::<R>(s, i, sep)
    }
}

/// The executable list `r` extends `acc` by what the specification `m` holds.
pub open spec fn extends<T: DeepView>(
    r: Result<(Vec<T>, usize), Reject>,
    acc: Vec<T>,
    pos: usize,
    len: nat,
    m: Parsed<Seq<T::V>>,
) -> bool {
    match r {
        Ok((v, e)) => m.end == Cursor::At(e as int) && v.deep_view() == acc.deep_view() + m.value
            && pos <= e <= len,
        Err(x) => m.end == Cursor::Off(x),
    }
}

fn sep_item<R: Rule>(input: &[u8], pos: usize, sep: Sep) -> (r: Result<(R::Out, usize), Reject>)
    requires
        pos <= input@.len(),
    ensures
        yields(r, pos, input@.len(), spec_sep_item::<R>(input@, pos as int, sep)),
{
    let a = separator(input, pos, sep)?;
    R::parse(input, a)
}

/// Reads separator-and-item pairs from `pos` on and appends the items to `acc`.
pub fn many_onto<R: Rule>(input: &[u8], pos: usize, sep: Sep, acc: Vec<R::Out>) -> (r: Result<
    (Vec<R::Out>, usize),
    Reject,
>)
    requires
        pos <= input@.len(),
    ensures
        extends(r, acc, pos, input@.len(), spec_many::<R>(input@, pos as int, sep)),
{
    let mut items = acc;
    let mut i: usize = pos;
    proof {
        assert(items.deep_view() + spec_many::<R>(input@, pos as int, sep).value
            == acc.deep_view() + spec_many::<R>(input@, pos as int, sep).value);
    }
    loop
        invariant
            pos <= i <= input@.len(),
            spec_many::<R>(input@, pos as int, sep).end == spec_many::<R>(
                input@,
                i as int,
                sep,
            ).end,
            acc.deep_view() + spec_many::<R>(input@, pos as int, sep).value
                == items.deep_view() + spec_many::<R>(input@, i as int, sep).value,
        decreases input@.len() - i,
    {
        match sep_item::<R>(input, i, sep) {
            Ok((v, j)) => {
                if j <= i {
                    assert(items.deep_view() + Seq::empty() =~= items.deep_view());
                    return Ok((items, i));
                }
                let ghost before = items;
                items.push(v);
                proof {
                    crate::scan::lemma_push_deep_view(
                        before,
                        items,
                        v,
                        spec_many::<R>(input@, j as int, sep).value,
                    );
                }
                i = j;
            },
            Err(x) => {
                if x.fatal {
                    return Err(x);
                }
                assert(items.deep_view() + Seq::empty() =~= items.deep_view());
                return Ok((items, i));
            },
        }
    }
}

/// Any number of separator-and-item pairs.
pub fn many<R: Rule>(input: &[u8], pos: usize, sep: Sep) -> (r: Result<(Vec<R::Out>, usize), Reject>)
    requires
        pos <= input@.len(),
    ensures
        yields(r, pos, input@.len(), spec_many::<R>(input@, pos as int, sep)),
{
    let acc: Vec<R::Out> = Vec::new();
    proof {
        crate::scan::lemma_empty_deep_view(acc, spec_many::<R>(input@, pos as int, sep).value);
    }
    many_onto::<R>(input, pos, sep, acc)
}

/// At least one item, with the separator between items.
pub fn list1<R: Rule>(input: &[u8], pos: usize, sep: Sep) -> (r: Result<(Vec<R::Out>, usize), Reject>)
    requires
        pos <= input@.len(),
    ensures
        yields(r, pos, input@.len(), spec_list1::<R>(input@, pos as int, sep)),
{
    let (first, a) = R::parse(input, pos)?;
    if a <= pos {
        return Err(syntax_at(pos));
    }
    let mut acc: Vec<R::Out> = Vec::new();
    acc.push(first);
    proof {
        assert(acc.deep_view() =~= seq![first.deep_view()]);
    }
    many_onto::<R>(input, a, sep, acc)
}

/// Any number of items, with the separator between items.
pub fn list0<R: Rule>(input: &[u8], pos: usize, sep: Sep) -> (r: Result<(Vec<R::Out>, usize), Reject>)
    requires
        pos <= input@.len(),
    ensures
        yields(r, pos, input@.len(), spec_list0::<R>(input@, pos as int, sep)),
{
    let first = R::parse(input, pos);
    match first {
        Err(x) => {
            if x.fatal {
                Err(x)
            } else {
                let acc: Vec<R::Out> = Vec::new();
                proof {
                    crate::scan::lemma_empty_deep_view(acc, Seq::empty());
                }
                Ok((acc, pos))
            }
        },
        Ok((v, a)) => {
            if a <= pos {
                return Err(syntax_at(pos));
            }
            let mut acc: Vec<R::Out> = Vec::new();
            acc.push(v);
            proof {
                assert(acc.deep_view() =~= seq![v.deep_view()]);
            }
            many_onto::<R>(input, a, sep, acc)
        },
    }
}

/// A production that only recognizes, named by a type for the same purpose.
pub trait Span {
    /// Where the production ends when applied at offset `i` of `s`.
    spec fn spec_span(s: Seq<u8>, i: int) -> Cursor;

    fn span(input: &[u8], pos: usize) -> (r: Result<usize, Reject>)
        requires
            pos <= input@.len(),
        ensures
            scans(r, pos, input@.len(), Self::spec_span(input@, pos as int)),
    ;
}

/// As many matches of the production as follow one another. The repetition
/// ends before the first match that fails or is empty; an unrecoverable
/// rejection rejects the repetition.
pub open spec fn spec_repeat<S: Span>(s: Seq<u8>, i: int) -> Cursor
    decreases s.len() - i,
{
    match S::spec_span(s, i) {
        Cursor::At(j) => if i < j <= s.len() {
            spec_repeat::<S>(s, j)
        } else {
            Cursor::At(i)
        },
        Cursor::Off(x) => if x.fatal {
            Cursor::Off(x)
        } else {
            Cursor::At(i)
        },
    }
}

/// At least one match of the production.
pub open spec fn spec_repeat1<S: Span>(s: Seq<u8>, i: int) -> Cursor {
    let a = S::spec_span(s, i);
    a.and(spec_repeat::<S>(s, a.pos()))
}

/// Parses at `pos` what [`spec_repeat`] describes.
pub fn repeat<S: Span>(input: &[u8], pos: usize) -> (r: Result<usize, Reject>)
    requires
        pos <= input@.len(),
    ensures
        scans(r, pos, input@.len(), spec_repeat::<S>(input@, pos as int)),
{
    let mut i: usize = pos;
    loop
        invariant
            pos <= i <= input@.len(),
            spec_repeat::<S>(input@, pos as int) == spec_repeat::<S>(input@, i as int),
        decreases input@.len() - i,
    {
        match S::span(input, i) {
            Ok(j) => {
                if j <= i {
                    return Ok(i);
                }
                i = j;
            },
            Err(x) => {
                if x.fatal {
                    return Err(x);
                }
                return Ok(i);
            },
        }
    }
}

/// Parses at `pos` what [`spec_repeat1`] describes.
pub fn repeat1<S: Span>(input: &[u8], pos: usize) -> (r: Result<usize, Reject>)
    requires
        pos <= input@.len(),
    ensures
        scans(r, pos, input@.len(), spec_repeat1::<S>(input@, pos as int)),
{
    let a = S::span(input, pos)?;
    repeat::<S>(input, a)
}

} // verus!
