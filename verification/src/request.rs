//! Requests: the request line, the request production and its entry point.

use crate::class::SPACE;
use crate::common::{
    absolute_uri, method, sip_uri, sip_version, sips_uri, spec_absolute_uri, spec_method,
    spec_message_body, spec_sip_uri, spec_sip_version, spec_sips_uri, spec_span_text, message_body,
};
use crate::error::{scans, yields, Cursor, Error, Parsed, Reject};
use crate::header::{Header, HeaderView};
use crate::headers::{message_headers, spec_message_headers};
use crate::scan::{byte, is_soft, spec_byte, text};
use crate::sip::{Method, MethodView, Version};
use crate::tokens::{newline, spec_newline};
use vstd::prelude::*;

verus! {

/// The first line of a request: what is asked, of whom, in which version of the protocol.
#[derive(Clone, Debug, PartialEq, Eq)]
pub struct RequestLine {
    pub method: Method,
    /// The Request-URI, checked against the URI grammar and kept as written.
    pub uri: String,
    pub version: Version,
}

/// What a [`RequestLine`] holds, as a mathematical value.
pub struct RequestLineView {
    pub method: MethodView,
    pub uri: Seq<char>,
    pub version: Version,
}

impl DeepView for RequestLine {
    type V = RequestLineView;

    open spec fn deep_view(&self) -> RequestLineView {
        RequestLineView {
            method: self.method.deep_view(),
            uri: self.uri.deep_view(),
            version: self.version.deep_view(),
        }
    }
}

/// A request: its first line, its headers in wire order, and its body.
#[derive(Clone, Debug, PartialEq, Eq)]
pub struct Request {
    pub request_line: RequestLine,
    /// The headers as they came, none merged or dropped.
    pub headers: Vec<Header>,
    /// What follows the empty line, verbatim; `None` where nothing follows it.
    pub body: Option<Vec<u8>>,
}

/// What a [`Request`] holds, as a mathematical value.
pub struct RequestView {
    pub request_line: RequestLineView,
    pub headers: Seq<HeaderView>,
    pub body: Option<Seq<u8>>,
}

impl DeepView for Request {
    type V = RequestView;

    open spec fn deep_view(&self) -> RequestView {
        RequestView {
            request_line: self.request_line.deep_view(),
            headers: self.headers.deep_view(),
            body: self.body.deep_view(),
        }
    }
}

/// A request that sets up a session, with the contact that such a request must name.
#[derive(Clone, Debug, PartialEq, Eq)]
pub struct Invite {
    pub request_line: RequestLine,
    pub headers: Vec<Header>,
    pub body: Option<Vec<u8>>,
}

/// What a [`Invite`] holds, as a mathematical value.
pub struct InviteView {
    pub request_line: RequestLineView,
    pub headers: Seq<HeaderView>,
    pub body: Option<Seq<u8>>,
}

impl DeepView for Invite {
    type V = InviteView;

    open spec fn deep_view(&self) -> InviteView {
        InviteView {
            request_line: self.request_line.deep_view(),
            headers: self.headers.deep_view(),
            body: self.body.deep_view(),
        }
    }
}

/// A mandatory header that a request lacks.
#[derive(Clone, Copy, Debug, PartialEq, Eq)]
pub enum InvalidRequestError {
    MissingCallIDHeader,
    MissingCSeqHeader,
    MissingFromHeader,
    MissingMaxForwardsHeader,
    MissingToHeader,
    MissingViaHeader,
}

impl DeepView for InvalidRequestError {
    type V = InvalidRequestError;

    open spec fn deep_view(&self) -> InvalidRequestError {
        *self
    }
}

/// A mandatory header that an INVITE lacks.
#[derive(Clone, Copy, Debug, PartialEq, Eq)]
pub enum InvalidInviteError {
    MissingContactHeader,
}

impl DeepView for InvalidInviteError {
    type V = InvalidInviteError;

    open spec fn deep_view(&self) -> InvalidInviteError {
        *self
    }
}


/// The Request-URI: a SIP URI, a SIPS URI or an absolute URI.
#[verifier::opaque]
pub open spec fn spec_request_uri(s: Seq<u8>, i: int) -> Cursor {
    spec_sip_uri(s, i).or(spec_sips_uri(s, i)).or(spec_absolute_uri(s, i))
}

/// Parses at `pos` what [`spec_request_uri`] describes.
pub fn request_uri(input: &[u8], pos: usize) -> (r: Result<usize, Reject>)
    requires
        pos <= input@.len(),
    ensures
        scans(r, pos, input@.len(), spec_request_uri(input@, pos as int)),
{
    proof {
        reveal(spec_request_uri);
    }
    let r = sip_uri(input, pos);
    if !is_soft(&r) {
        return r;
    }
    let r = sips_uri(input, pos);
    if !is_soft(&r) {
        return r;
    }
    absolute_uri(input, pos)
}

/// The request line: a method, a space, the Request-URI, a space, the
/// version, and the line end.
#[verifier::opaque]
pub open spec fn spec_request_line(s: Seq<u8>, i: int) -> Parsed<RequestLineView> {
    let m = spec_method(s, i);
    let a = m.end.and(spec_byte(s, m.end.pos(), SPACE));
    let b = a.and(spec_request_uri(s, a.pos()));
    let c = b.and(spec_byte(s, b.pos(), SPACE));
    let v = spec_sip_version(s, c.pos());
    let d = c.and(v.end);
    let e = d.and(spec_newline(s, d.pos()));
    let t = spec_span_text(s, a.pos(), e.and(b));
    Parsed {
        value: RequestLineView { method: m.value, uri: t.value, version: v.value },
        end: t.end.and(e),
    }
}

/// Parses at `pos` what [`spec_request_line`] describes.
pub fn request_line(input: &[u8], pos: usize) -> (r: Result<(RequestLine, usize), Reject>)
    requires
        pos <= input@.len(),
    ensures
        yields(r, pos, input@.len(), spec_request_line(input@, pos as int)),
{
    proof {
        reveal(spec_request_line);
    }
    let (method, m) = method(input, pos)?;
    let a = byte(input, m, SPACE)?;
    let b = request_uri(input, a)?;
    let c = byte(input, b, SPACE)?;
    let (version, d) = sip_version(input, c)?;
    let e = newline(input, d)?;
    let uri = text(input, a, b)?;
    Ok((RequestLine { method, uri, version }, e))
}

/// The body of a message: what follows offset `i`, and `None` where
/// nothing does.
pub open spec fn spec_optional_body(s: Seq<u8>, i: int) -> Option<Seq<u8>> {
    if i < s.len() {
        Some(spec_message_body(s, i).value)
    } else {
        None
    }
}

/// A request: the request line, the header lines, an empty line, and the
/// body, which takes the rest of the input.
#[verifier::opaque]
pub open spec fn spec_request(s: Seq<u8>, i: int) -> Parsed<RequestView> {
    let l = spec_request_line(s, i);
    let h = spec_message_headers(s, l.end.pos());
    let a = l.end.and(h.end);
    let b = a.and(spec_newline(s, a.pos()));
    Parsed {
        value: RequestView {
            request_line: l.value,
            headers: h.value,
            body: spec_optional_body(s, b.pos()),
        },
        end: b.and(Cursor::At(s.len() as int)),
    }
}

/// Parses at `pos` what [`spec_request`] describes.
pub fn request(input: &[u8], pos: usize) -> (r: Result<(Request, usize), Reject>)
    requires
        pos <= input@.len(),
    ensures
        yields(r, pos, input@.len(), spec_request(input@, pos as int)),
{
    proof {
        reveal(spec_request);
    }
    let (request_line, l) = request_line(input, pos)?;
    let (headers, a) = message_headers(input, l)?;
    let b = newline(input, a)?;
    proof {
        reveal(spec_message_body);
    }
    if b < input.len() {
        let (body, e) = message_body(input, b)?;
        Ok((Request { request_line, headers, body: Some(body) }, e))
    } else {
        Ok((Request { request_line, headers, body: None }, b))
    }
}

impl Request {
    /// Parses a request that takes the whole of `input`.
    ///
    /// An unrecoverable rejection is reported as it is; an input that is
    /// simply no request is reported as an unknown error.
    pub fn parse(input: &[u8]) -> (r: Result<Request, Error>)
        ensures
            match r {
                Ok(v) => spec_request(input@, 0).end.ok() && v.deep_view() == spec_request(
                    input@,
                    0,
                ).value,
                Err(e) => spec_request(input@, 0).end matches Cursor::Off(x) && crate::error::reported(
                    e,
                    x,
                ),
            },
    {
        match request(input, 0) {
            Ok((v, _)) => Ok(v),
            Err(x) => Err(crate::error::report(x)),
        }
    }

    /// The method of the request.
    pub fn method(&self) -> (m: &Method)
        ensures
            *m == self.request_line.method,
    {
        &self.request_line.method
    }
}


/// The headers that a request, or an INVITE, must have.
#[derive(Clone, Copy, Debug, PartialEq, Eq)]
pub enum Mandatory {
    CallID,
    CSeq,
    From,
    MaxForwards,
    To,
    Via,
    Contact,
}

/// Whether `h` is the header that `m` names.
pub open spec fn spec_is_header(h: Header, m: Mandatory) -> bool {
    match m {
        Mandatory::CallID => h is CallID,
        Mandatory::CSeq => h is CSeq,
        Mandatory::From => h is From,
        Mandatory::MaxForwards => h is MaxForwards,
        Mandatory::To => h is To,
        Mandatory::Via => h is Via,
        Mandatory::Contact => h is Contact,
    }
}

/// Whether `h` is the header that `m` names.
pub fn is_header(h: &Header, m: Mandatory) -> (b: bool)
    ensures
        b == spec_is_header(*h, m),
{
    match m {
        Mandatory::CallID => match h {
            Header::CallID(_) => true,
            _ => false,
        },
        Mandatory::CSeq => match h {
            Header::CSeq(_, _) => true,
            _ => false,
        },
        Mandatory::From => match h {
            Header::From(_) => true,
            _ => false,
        },
        Mandatory::MaxForwards => match h {
            Header::MaxForwards(_) => true,
            _ => false,
        },
        Mandatory::To => match h {
            Header::To(_) => true,
            _ => false,
        },
        Mandatory::Via => match h {
            Header::Via(_) => true,
            _ => false,
        },
        Mandatory::Contact => match h {
            Header::Contact(_) => true,
            _ => false,
        },
    }
}

/// Whether one of `headers` is the header that `m` names.
pub open spec fn spec_has_header(headers: Seq<Header>, m: Mandatory) -> bool {
    exists|k: int| 0 <= k < headers.len() && spec_is_header(#[trigger] headers[k], m)
}

/// Whether one of `headers` is the header that `m` names.
pub fn has_header(headers: &Vec<Header>, m: Mandatory) -> (b: bool)
    ensures
        b == spec_has_header(headers@, m),
{
    let mut k: usize = 0;
    while k < headers.len()
        invariant
            k <= headers@.len(),
            forall|j: int| 0 <= j < k ==> !spec_is_header(#[trigger] headers@[j], m),
        decreases headers@.len() - k,
    {
        if is_header(&headers[k], m) {
            return true;
        }
        k = k + 1;
    }
    false
}

/// The first mandatory header, in the order Call-ID, CSeq, From,
/// Max-Forwards, To, Via, that `headers` lack; `None` where they lack none.
pub open spec fn spec_missing_header(headers: Seq<Header>) -> Option<InvalidRequestError> {
    if !spec_has_header(headers, Mandatory::CallID) {
        Some(InvalidRequestError::MissingCallIDHeader)
    } else if !spec_has_header(headers, Mandatory::CSeq) {
        Some(InvalidRequestError::MissingCSeqHeader)
    } else if !spec_has_header(headers, Mandatory::From) {
        Some(InvalidRequestError::MissingFromHeader)
    } else if !spec_has_header(headers, Mandatory::MaxForwards) {
        Some(InvalidRequestError::MissingMaxForwardsHeader)
    } else if !spec_has_header(headers, Mandatory::To) {
        Some(InvalidRequestError::MissingToHeader)
    } else if !spec_has_header(headers, Mandatory::Via) {
        Some(InvalidRequestError::MissingViaHeader)
    } else {
        None
    }
}

impl Request {
    /// A request of the given parts, provided that its headers hold every
    /// mandatory one; else the first that is missing.
    pub fn new(request_line: RequestLine, headers: Vec<Header>, body: Option<Vec<u8>>) -> (r: Result<
        Request,
        InvalidRequestError,
    >)
        ensures
            match r {
                Ok(q) => spec_missing_header(headers@) is None && q.request_line == request_line
                    && q.headers == headers && q.body == body,
                Err(e) => spec_missing_header(headers@) == Some(e),
            },
    {
        if !has_header(&headers, Mandatory::CallID) {
            Err(InvalidRequestError::MissingCallIDHeader)
        } else if !has_header(&headers, Mandatory::CSeq) {
            Err(InvalidRequestError::MissingCSeqHeader)
        } else if !has_header(&headers, Mandatory::From) {
            Err(InvalidRequestError::MissingFromHeader)
        } else if !has_header(&headers, Mandatory::MaxForwards) {
            Err(InvalidRequestError::MissingMaxForwardsHeader)
        } else if !has_header(&headers, Mandatory::To) {
            Err(InvalidRequestError::MissingToHeader)
        } else if !has_header(&headers, Mandatory::Via) {
            Err(InvalidRequestError::MissingViaHeader)
        } else {
            Ok(Request { request_line, headers, body })
        }
    }
}

impl InvalidRequestError {
    /// The error in words.
    pub fn message(&self) -> (m: String)
        ensures
            m@ == (match *self {
                InvalidRequestError::MissingCallIDHeader => "mandatory header missing: Call-ID"@,
                InvalidRequestError::MissingCSeqHeader => "mandatory header missing: CSeq"@,
                InvalidRequestError::MissingFromHeader => "mandatory header missing: From"@,
                InvalidRequestError::MissingMaxForwardsHeader => "mandatory header missing: Max-Forwards"@,
                InvalidRequestError::MissingToHeader => "mandatory header missing: To"@,
                InvalidRequestError::MissingViaHeader => "mandatory header missing: Via"@,
            }),
    {
        match self {
            InvalidRequestError::MissingCallIDHeader => "mandatory header missing: Call-ID".to_owned(),
            InvalidRequestError::MissingCSeqHeader => "mandatory header missing: CSeq".to_owned(),
            InvalidRequestError::MissingFromHeader => "mandatory header missing: From".to_owned(),
            InvalidRequestError::MissingMaxForwardsHeader => "mandatory header missing: Max-Forwards".to_owned(),
            InvalidRequestError::MissingToHeader => "mandatory header missing: To".to_owned(),
            InvalidRequestError::MissingViaHeader => "mandatory header missing: Via".to_owned(),
        }
    }
}

impl InvalidInviteError {
    /// The error in words.
    pub fn message(&self) -> (m: String)
        ensures
            m@ == "mandatory header missing: Contact"@,
    {
        "mandatory header missing: Contact".to_owned()
    }
}

impl Invite {
    /// The method of the request.
    pub fn method(&self) -> (m: &Method)
        ensures
            *m == self.request_line.method,
    {
        &self.request_line.method
    }

    /// The request as an INVITE, provided that it has a Contact header.
    pub fn from_request(r: Request) -> (i: Result<Invite, InvalidInviteError>)
        ensures
            match i {
                Ok(v) => spec_has_header(r.headers@, Mandatory::Contact) && v.request_line
                    == r.request_line && v.headers == r.headers && v.body == r.body,
                Err(e) => !spec_has_header(r.headers@, Mandatory::Contact) && e
                    == InvalidInviteError::MissingContactHeader,
            },
    {
        if has_header(&r.headers, Mandatory::Contact) {
            Ok(Invite { request_line: r.request_line, headers: r.headers, body: r.body })
        } else {
            Err(InvalidInviteError::MissingContactHeader)
        }
    }
}

} // verus!
