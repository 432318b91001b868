//! Parse outcomes: how a production ends, in executable code and in specifications.

use vstd::prelude::*;

verus! {

/// What went wrong when a production did not yield a value.
#[derive(Clone, Copy, Debug, PartialEq, Eq, Structural)]
pub enum ErrorKind {
    /// The bytes at the reported offset do not match the production.
    Syntax,
    /// A fully qualified hostname whose last label is no valid top label.
    InvalidHostname,
    /// A hostname label that starts or ends with a hyphen, or a top label
    /// that does not start with a letter.
    InvalidDomainPart,
    /// A digit sequence that does not fit a 32-bit signed integer.
    InvalidIntegerError,
    /// A time-to-live outside of 0..=255.
    InvalidTTLValue,
    /// A matched span that is not valid UTF-8 where text is required.
    Utf8Error,
    /// A failure with no narrower classification.
    UnknownError,
}

/// Why and where a production stopped.
///
/// A rejection that is not `fatal` lets an enclosing alternation try its next
/// branch, and ends an enclosing repetition; a `fatal` one aborts the parse.
#[derive(Clone, Copy, Debug, PartialEq, Eq, Structural)]
pub struct Reject {
    pub kind: ErrorKind,
    /// Offset into the input at which the failing production was applied.
    pub at: usize,
    pub fatal: bool,
}

/// The specification-level result of a recognizer: the offset just past the
/// match, or the rejection.
pub enum Cursor {
    At(int),
    Off(Reject),
}

impl Cursor {
    pub open spec fn ok(self) -> bool {
        self is At
    }

    /// The offset of a successful cursor; meaningless otherwise.
    pub open spec fn pos(self) -> int {
        match self {
            Cursor::At(i) => i,
            Cursor::Off(_) => 0,
        }
    }

    /// A rejection that an alternation or repetition recovers from.
    pub open spec fn soft(self) -> bool {
        match self {
            Cursor::At(_) => false,
            Cursor::Off(r) => !r.fatal,
        }
    }

    /// Sequencing: `next` counts only if `self` matched.
    pub open spec fn and(self, next: Cursor) -> Cursor {
        if self is At {
            next
        } else {
            self
        }
    }

    /// Ordered choice: `other` is tried only after a recoverable rejection.
    pub open spec fn or(self, other: Cursor) -> Cursor {
        if self.soft() {
            other
        } else {
            self
        }
    }

    /// Optional match: a recoverable rejection leaves the cursor at `i`.
    pub open spec fn or_stay(self, i: int) -> Cursor {
        self.or(Cursor::At(i))
    }
}

/// The specification-level result of a production that builds a value. The
/// `value` is meaningful only where `end` is a successful cursor.
pub struct Parsed<V> {
    pub value: V,
    pub end: Cursor,
}

impl<V> Parsed<V> {
    pub open spec fn or(self, other: Parsed<V>) -> Parsed<V> {
        if self.end.soft() {
            other
        } else {
            self
        }
    }
}

/// A recoverable syntax rejection at offset `i`.
pub open spec fn miss(i: int) -> Cursor {
    Cursor::Off(Reject { kind: ErrorKind::Syntax, at: i as usize, fatal: false })
}

/// A recoverable rejection of the given kind at offset `i`.
pub open spec fn miss_as(kind: ErrorKind, i: int) -> Cursor {
    Cursor::Off(Reject { kind, at: i as usize, fatal: false })
}

/// An unrecoverable rejection of the given kind at offset `i`.
pub open spec fn abort(kind: ErrorKind, i: int) -> Cursor {
    Cursor::Off(Reject { kind, at: i as usize, fatal: true })
}

/// The cursor that an executable recognizer's result stands for.
pub open spec fn outcome(r: Result<usize, Reject>) -> Cursor {
    match r {
        Ok(e) => Cursor::At(e as int),
        Err(x) => Cursor::Off(x),
    }
}

/// An executable recognizer started at `pos` on an input of `len` bytes
/// returned `r`: it agrees with the specification `m`, and a match ends
/// inside the input, not before `pos`.
pub open spec fn scans(r: Result<usize, Reject>, pos: usize, len: nat, m: Cursor) -> bool {
    &&& outcome(r) == m
    &&& r matches Ok(e) ==> pos <= e <= len
}

/// The same for a production that builds a value, compared by its deep view.
pub open spec fn yields<T: DeepView>(
    r: Result<(T, usize), Reject>,
    pos: usize,
    len: nat,
    m: Parsed<T::V>,
) -> bool {
    match r {
        Ok((v, e)) => m.end == Cursor::At(e as int) && v.deep_view() == m.value && pos <= e <= len,
        Err(x) => m.end == Cursor::Off(x),
    }
}

/// A recoverable syntax rejection at `pos`.
pub fn syntax_at(pos: usize) -> (r: Reject)
    ensures
        Cursor::Off(r) == miss(pos as int),
{
    Reject { kind: ErrorKind::Syntax, at: pos, fatal: false }
}

/// A recoverable rejection of `kind` at `pos`.
pub fn reject_at(kind: ErrorKind, pos: usize) -> (r: Reject)
    ensures
        Cursor::Off(r) == miss_as(kind, pos as int),
{
    Reject { kind, at: pos, fatal: false }
}

/// An unrecoverable rejection of `kind` at `pos`.
pub fn abort_at(kind: ErrorKind, pos: usize) -> (r: Reject)
    ensures
        Cursor::Off(r) == abort(kind, pos as int),
{
    Reject { kind, at: pos, fatal: true }
}

/// The error that the message-level entry points report: the kind and
/// place of the rejection that ended the parse, and the rejections of what
/// was tried and given up before it, oldest first.
#[derive(Clone, Debug, PartialEq, Eq)]
pub struct Error {
    pub kind: ErrorKind,
    /// Offset into the input at which the failing production was applied.
    pub at: usize,
    pub backtrace: Vec<Reject>,
}

impl Error {
    /// An error of `kind` at the start of the input, with no backtrace.
    pub fn new(kind: ErrorKind) -> (e: Error)
        ensures
            e.kind == kind,
            e.at == 0,
            e.backtrace@ == Seq::<Reject>::empty(),
    {
        Error { kind, at: 0, backtrace: Vec::new() }
    }
}

/// The error that an entry point for one kind of message reports for the
/// rejection `x`: an unrecoverable rejection as it is, and any other as an
/// unknown error that keeps the rejection in its backtrace.
pub open spec fn reported(e: Error, x: Reject) -> bool {
    &&& e.at == x.at
    &&& e.kind == if x.fatal {
        x.kind
    } else {
        ErrorKind::UnknownError
    }
    &&& e.backtrace@ == if x.fatal {
        Seq::<Reject>::empty()
    } else {
        seq![x]
    }
}

pub fn report(x: Reject) -> (e: Error)
    ensures
        reported(e, x),
{
    let mut backtrace: Vec<Reject> = Vec::new();
    if x.fatal {
        Error { kind: x.kind, at: x.at, backtrace }
    } else {
        backtrace.push(x);
        Error { kind: ErrorKind::UnknownError, at: x.at, backtrace }
    }
}

} // verus!
