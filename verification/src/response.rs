//! Responses: the status line, the response production and its entry point.

use crate::class::{Class, SPACE};
use crate::common::{sip_version, spec_sip_version};
use crate::error::{scans, yields, Cursor, Error, Parsed, Reject};
use crate::headers::{message_headers, spec_message_headers};
use crate::scan::{byte, m_n, spec_byte, spec_m_n, spec_while0, while0};
use crate::tokens::{newline, spec_newline};
use vstd::prelude::*;

verus! {

/// A response. Its status line and headers are checked against the grammar; they are kept as bytes and not taken apart.
#[derive(Clone, Debug, PartialEq, Eq)]
pub struct Response {
    /// The whole response as it came: status line, headers and body.
    pub content: Vec<u8>,
}

/// What a [`Response`] holds, as a mathematical value.
pub struct ResponseView {
    pub content: Seq<u8>,
}

impl DeepView for Response {
    type V = ResponseView;

    open spec fn deep_view(&self) -> ResponseView {
        ResponseView {
            content: self.content.deep_view(),
        }
    }
}


/// A status code: exactly three digits. Every code of three digits is
/// one, whether or not the protocol defines it.
#[verifier::opaque]
pub open spec fn spec_status_code(s: Seq<u8>, i: int) -> Cursor {
    spec_m_n(s, i, Class::Digit, 3, 3)
}

/// Parses at `pos` what [`spec_status_code`] describes.
pub fn status_code(input: &[u8], pos: usize) -> (r: Result<usize, Reject>)
    requires
        pos <= input@.len(),
    ensures
        scans(r, pos, input@.len(), spec_status_code(input@, pos as int)),
{
    proof {
        reveal(spec_status_code);
    }
    m_n(input, pos, Class::Digit, 3, 3)
}

/// The status line: the version, a space, a status code, a space, a
/// reason phrase that may be empty, and the line end.
#[verifier::opaque]
pub open spec fn spec_status_line(s: Seq<u8>, i: int) -> Cursor {
    let v = spec_sip_version(s, i).end;
    let a = v.and(spec_byte(s, v.pos(), SPACE));
    let b = a.and(spec_status_code(s, a.pos()));
    let c = b.and(spec_byte(s, b.pos(), SPACE));
    let d = c.and(spec_while0(s, c.pos(), Class::ReasonPhrase));
    d.and(spec_newline(s, d.pos()))
}

/// Parses at `pos` what [`spec_status_line`] describes.
pub fn status_line(input: &[u8], pos: usize) -> (r: Result<usize, Reject>)
    requires
        pos <= input@.len(),
    ensures
        scans(r, pos, input@.len(), spec_status_line(input@, pos as int)),
{
    proof {
        reveal(spec_status_line);
    }
    let (_, v) = sip_version(input, pos)?;
    let a = byte(input, v, SPACE)?;
    let b = status_code(input, a)?;
    let c = byte(input, b, SPACE)?;
    let d = while0(input, c, Class::ReasonPhrase)?;
    newline(input, d)
}

/// A response: the status line, the header lines, an empty line, and the
/// body, which takes the rest of the input. The value is the response as
/// it came, from offset `i` to the end of the input.
#[verifier::opaque]
pub open spec fn spec_response(s: Seq<u8>, i: int) -> Parsed<ResponseView> {
    let l = spec_status_line(s, i);
    let h = spec_message_headers(s, l.pos());
    let a = l.and(h.end);
    let b = a.and(spec_newline(s, a.pos()));
    Parsed {
        value: ResponseView { content: s.subrange(i, s.len() as int) },
        end: b.and(Cursor::At(s.len() as int)),
    }
}

/// Parses at `pos` what [`spec_response`] describes.
pub fn response(input: &[u8], pos: usize) -> (r: Result<(Response, usize), Reject>)
    requires
        pos <= input@.len(),
    ensures
        yields(r, pos, input@.len(), spec_response(input@, pos as int)),
{
    proof {
        reveal(spec_response);
    }
    let l = status_line(input, pos)?;
    let (_, a) = message_headers(input, l)?;
    let _ = newline(input, a)?;
    proof {
        reveal(crate::common::spec_message_body);
    }
    let (content, e) = crate::common::message_body(input, pos)?;
    Ok((Response { content }, e))
}

impl Response {
    /// Parses a response that takes the whole of `input`.
    ///
    /// An unrecoverable rejection is reported as it is; an input that is
    /// simply no response is reported as an unknown error.
    pub fn parse(input: &[u8]) -> (r: Result<Response, Error>)
        ensures
            match r {
                Ok(v) => spec_response(input@, 0).end.ok() && v.deep_view() == spec_response(
                    input@,
                    0,
                ).value,
                Err(e) => spec_response(input@, 0).end matches Cursor::Off(x) && crate::error::reported(
                    e,
                    x,
                ),
            },
    {
        match response(input, 0) {
            Ok((v, _)) => Ok(v),
            Err(x) => Err(crate::error::report(x)),
        }
    }
}

} // verus!
