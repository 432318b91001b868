//! Messages: a request or, failing that, a response.

use crate::error::{yields, Cursor, Error, Parsed, Reject};
use crate::request::{request, spec_request, Request, RequestView};
use crate::response::{response, spec_response, Response, ResponseView};
use vstd::prelude::*;

verus! {

/// A message: a request or a response.
#[derive(Clone, Debug, PartialEq, Eq)]
pub enum Message {
    Request(Request),
    Response(Response),
}

/// What a [`Message`] holds, as a mathematical value.
pub enum MessageView {
    Request(RequestView),
    Response(ResponseView),
}

impl DeepView for Message {
    type V = MessageView;

    open spec fn deep_view(&self) -> MessageView {
        match *self {
            Message::Request(x0) => MessageView::Request(x0.deep_view()),
            Message::Response(x0) => MessageView::Response(x0.deep_view()),
        }
    }
}


/// A message that is a request.
#[verifier::opaque]
pub open spec fn spec_message_request(s: Seq<u8>, i: int) -> Parsed<MessageView> {
    let r = spec_request(s, i);
    Parsed { value: MessageView::Request(r.value), end: r.end }
}

/// Parses at `pos` what [`spec_message_request`] describes.
pub fn message_request(input: &[u8], pos: usize) -> (r: Result<(Message, usize), Reject>)
    requires
        pos <= input@.len(),
    ensures
        yields(r, pos, input@.len(), spec_message_request(input@, pos as int)),
{
    proof {
        reveal(spec_message_request);
    }
    let (v, e) = request(input, pos)?;
    Ok((Message::Request(v), e))
}

/// A message that is a response.
#[verifier::opaque]
pub open spec fn spec_message_response(s: Seq<u8>, i: int) -> Parsed<MessageView> {
    let r = spec_response(s, i);
    Parsed { value: MessageView::Response(r.value), end: r.end }
}

/// Parses at `pos` what [`spec_message_response`] describes.
pub fn message_response(input: &[u8], pos: usize) -> (r: Result<(Message, usize), Reject>)
    requires
        pos <= input@.len(),
    ensures
        yields(r, pos, input@.len(), spec_message_response(input@, pos as int)),
{
    proof {
        reveal(spec_message_response);
    }
    let (v, e) = response(input, pos)?;
    Ok((Message::Response(v), e))
}

/// A message: a request or, where the input is recoverably no request, a
/// response.
#[verifier::opaque]
pub open spec fn spec_message(s: Seq<u8>, i: int) -> Parsed<MessageView> {
    spec_message_request(s, i).or(spec_message_response(s, i))
}

/// Parses at `pos` what [`spec_message`] describes.
pub fn message(input: &[u8], pos: usize) -> (r: Result<(Message, usize), Reject>)
    requires
        pos <= input@.len(),
    ensures
        yields(r, pos, input@.len(), spec_message(input@, pos as int)),
{
    proof {
        reveal(spec_message);
    }
    let r = message_request(input, pos);
    if !crate::scan::is_soft(&r) {
        return r;
    }
    message_response(input, pos)
}

/// What `Message::parse` reports where no message is parsed: the
/// rejection of the alternative that ended the parse and, where the
/// request grammar was given up for the response grammar, the rejection of
/// the request in its backtrace.
pub open spec fn message_error(s: Seq<u8>, e: Error) -> bool {
    let q = spec_message_request(s, 0).end;
    let p = spec_message_response(s, 0).end;
    match q {
        Cursor::At(_) => false,
        Cursor::Off(x) => if x.fatal {
            e.kind == x.kind && e.at == x.at && e.backtrace@ == Seq::<Reject>::empty()
        } else {
            p matches Cursor::Off(y) && e.kind == y.kind && e.at == y.at && e.backtrace@ == seq![x]
        },
    }
}

impl Message {
    /// Parses a message that takes the whole of `input`: a request or,
    /// failing that, a response.
    pub fn parse(input: &[u8]) -> (r: Result<Message, Error>)
        ensures
            match r {
                Ok(v) => spec_message(input@, 0).end.ok() && v.deep_view() == spec_message(
                    input@,
                    0,
                ).value,
                Err(e) => !spec_message(input@, 0).end.ok() && message_error(input@, e),
            },
    {
        proof {
            reveal(spec_message);
        }
        match message_request(input, 0) {
            Ok((v, _)) => Ok(v),
            Err(x) => {
                let mut backtrace: Vec<Reject> = Vec::new();
                if x.fatal {
                    return Err(Error { kind: x.kind, at: x.at, backtrace });
                }
                match message_response(input, 0) {
                    Ok((v, _)) => Ok(v),
                    Err(y) => {
                        backtrace.push(x);
                        Err(Error { kind: y.kind, at: y.at, backtrace })
                    },
                }
            },
        }
    }
}

} // verus!
