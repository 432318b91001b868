//! A parser for SIP messages (RFC 3261) that is proved to follow its grammar.
//!
//! The grammar is written down twice. As specification functions over the
//! bytes of the input (`spec_*`), it says what every production matches and
//! what value it yields. As executable functions, it is the parser. Verus
//! proves that the two agree on every input: each executable production
//! returns exactly what its specification says, on success and on failure
//! alike, never reads outside the input and never overflows.
//!
//! ```ignore
//! use xylosip::Message;
//!
//! let bytes = b"INVITE sip:bob@biloxi.example.com SIP/2.0\r\n\r\n";
//! let message = Message::parse(bytes);
//! ```
//!
//! # Productions
//!
//! An executable production takes the input and an offset into it. A
//! recognizer returns the offset just past what it matched; a production
//! that builds a value returns the value as well. A production that does
//! not match returns a [`Reject`], which says what went wrong, at which
//! offset the failing production was applied, and whether the rejection is
//! recoverable. After a recoverable rejection an alternation tries its next
//! branch and a repetition ends with what it has; an unrecoverable one
//! (an integer that overflows, a time-to-live out of range, a span that is
//! no valid UTF-8 where text is required, a rejected value of a known
//! header) rejects the whole message.
//!
//! Alternatives are tried in order and the first match is taken, a
//! repetition takes as many items as it can, and neither is revisited when
//! what follows does not match.
//!
//! # Modules
//!
//! - [`class`], [`scan`], [`list`]: byte classes, scanning primitives and
//!   repetition, on which every production is built.
//! - [`tokens`], [`common`], [`rfc2806`]: tokens and whitespace, hosts and
//!   URIs, telephone numbers.
//! - [`headers`]: one production per header field, and the header line.
//! - [`request`], [`response`], [`message`]: the messages and their entry
//!   points.
//! - [`header`], [`sip`]: the values that a parse yields, each with its
//!   mathematical view.
//! - [`laws`]: properties of the grammar that hold for all inputs.
//! - [`ascii`]: what is taken for granted of the byte predicates of `nom`.

pub mod ascii;
pub mod class;
pub mod common;
pub mod error;
pub mod header;
pub mod headers;
pub mod laws;
pub mod list;
pub mod message;
pub mod parser;
pub mod request;
pub mod response;
pub mod rfc2806;
pub mod scan;
pub mod sip;
pub mod tokens;

pub use error::{Error, ErrorKind, Reject};
pub use message::Message;
pub use request::Request;
pub use response::Response;
pub use sip::{Method, Transport, User, Version};
