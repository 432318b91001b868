//! The telephone-subscriber grammar of RFC 2806, which the user part of a
//! URI may follow instead of a user name.

use crate::class::{Class, BACKSLASH, DQUOTE, EQUALS, PLUS, QUESTION, SEMICOLON};
use crate::common::{hostname, spec_hostname};
use crate::error::{scans, Cursor, Reject};
use crate::list::{repeat, repeat1, spec_repeat, spec_repeat1, Span};
use crate::scan::{
    byte, is_soft, one, spec_byte, spec_one, spec_tag, spec_while0, spec_while1, tag, while0,
    while1,
};
use vstd::prelude::*;

verus! {

/// An ISDN subaddress: `;isub=` and phone digits.
#[verifier::opaque]
pub open spec fn spec_isdn_subaddress(s: Seq<u8>, i: int) -> Cursor {
    let a = spec_tag(s, i, ";isub=");
    a.and(spec_while1(s, a.pos(), Class::PhoneDigit))
}

/// Parses at `pos` what [`spec_isdn_subaddress`] describes.
pub fn isdn_subaddress(input: &[u8], pos: usize) -> (r: Result<usize, Reject>)
    requires
        pos <= input@.len(),
    ensures
        scans(r, pos, input@.len(), spec_isdn_subaddress(input@, pos as int)),
{
    proof {
        reveal(spec_isdn_subaddress);
    }
    let a = tag(input, pos, ";isub=")?;
    while1(input, a, Class::PhoneDigit)
}

/// A post-dial sequence: `;postd=` and phone digits, DTMF digits or pause
/// characters.
#[verifier::opaque]
pub open spec fn spec_post_dial(s: Seq<u8>, i: int) -> Cursor {
    let a = spec_tag(s, i, ";postd=");
    a.and(spec_while1(s, a.pos(), Class::DialChar))
}

/// Parses at `pos` what [`spec_post_dial`] describes.
pub fn post_dial(input: &[u8], pos: usize) -> (r: Result<usize, Reject>)
    requires
        pos <= input@.len(),
    ensures
        scans(r, pos, input@.len(), spec_post_dial(input@, pos as int)),
{
    proof {
        reveal(spec_post_dial);
    }
    let a = tag(input, pos, ";postd=")?;
    while1(input, a, Class::DialChar)
}

/// A private prefix: one byte of the first-byte class and any bytes of the
/// later-byte class.
#[verifier::opaque]
pub open spec fn spec_private_prefix(s: Seq<u8>, i: int) -> Cursor {
    let a = spec_one(s, i, Class::PrivatePrefixFirstChar);
    a.and(spec_while0(s, a.pos(), Class::PrivatePrefixOtherChars))
}

/// Parses at `pos` what [`spec_private_prefix`] describes.
pub fn private_prefix(input: &[u8], pos: usize) -> (r: Result<usize, Reject>)
    requires
        pos <= input@.len(),
    ensures
        scans(r, pos, input@.len(), spec_private_prefix(input@, pos as int)),
{
    proof {
        reveal(spec_private_prefix);
    }
    let a = one(input, pos, Class::PrivatePrefixFirstChar)?;
    while0(input, a, Class::PrivatePrefixOtherChars)
}

/// A network prefix: `+` and phone digits, or dial characters.
#[verifier::opaque]
pub open spec fn spec_network_prefix(s: Seq<u8>, i: int) -> Cursor {
    let a = spec_byte(s, i, PLUS);
    a.and(spec_while1(s, a.pos(), Class::PhoneDigit)).or(spec_while1(s, i, Class::DialChar))
}

/// Parses at `pos` what [`spec_network_prefix`] describes.
pub fn network_prefix(input: &[u8], pos: usize) -> (r: Result<usize, Reject>)
    requires
        pos <= input@.len(),
    ensures
        scans(r, pos, input@.len(), spec_network_prefix(input@, pos as int)),
{
    proof {
        reveal(spec_network_prefix);
    }
    let global = match byte(input, pos, PLUS) {
        Ok(a) => while1(input, a, Class::PhoneDigit),
        Err(x) => Err(x),
    };
    if !is_soft(&global) {
        return global;
    }
    while1(input, pos, Class::DialChar)
}

/// An area specifier: `;phone-context=` and a network or private prefix.
#[verifier::opaque]
pub open spec fn spec_area_specifier(s: Seq<u8>, i: int) -> Cursor {
    let a = spec_tag(s, i, ";phone-context=");
    a.and(spec_network_prefix(s, a.pos()).or(spec_private_prefix(s, a.pos())))
}

/// Parses at `pos` what [`spec_area_specifier`] describes.
pub fn area_specifier(input: &[u8], pos: usize) -> (r: Result<usize, Reject>)
    requires
        pos <= input@.len(),
    ensures
        scans(r, pos, input@.len(), spec_area_specifier(input@, pos as int)),
{
    proof {
        reveal(spec_area_specifier);
    }
    let a = tag(input, pos, ";phone-context=")?;
    let r = network_prefix(input, a);
    if !is_soft(&r) {
        return r;
    }
    private_prefix(input, a)
}

/// A service provider: `;tsp=` and a hostname.
#[verifier::opaque]
pub open spec fn spec_service_provider(s: Seq<u8>, i: int) -> Cursor {
    let a = spec_tag(s, i, ";tsp=");
    a.and(spec_hostname(s, a.pos()))
}

/// Parses at `pos` what [`spec_service_provider`] describes.
pub fn service_provider(input: &[u8], pos: usize) -> (r: Result<usize, Reject>)
    requires
        pos <= input@.len(),
    ensures
        scans(r, pos, input@.len(), spec_service_provider(input@, pos as int)),
{
    proof {
        reveal(spec_service_provider);
    }
    let a = tag(input, pos, ";tsp=")?;
    hostname(input, a)
}

/// One escape of a telephone quoted string: a backslash, an escaped byte
/// and one further byte.
pub struct QuotedEscape;

impl Span for QuotedEscape {
    open spec fn spec_span(s: Seq<u8>, i: int) -> Cursor {
        let a = spec_byte(s, i, BACKSLASH);
        let b = a.and(spec_one(s, a.pos(), Class::Rfc2806QuotedStringChar));
        b.and(spec_one(s, b.pos(), Class::Rfc2806QuotedStringExtraChar))
    }

    fn span(input: &[u8], pos: usize) -> (r: Result<usize, Reject>) {
        let a = byte(input, pos, BACKSLASH)?;
        let b = one(input, a, Class::Rfc2806QuotedStringChar)?;
        one(input, b, Class::Rfc2806QuotedStringExtraChar)
    }
}

/// A telephone quoted string: escapes between double quotes.
#[verifier::opaque]
pub open spec fn spec_rfc2806_quoted_string(s: Seq<u8>, i: int) -> Cursor {
    let a = spec_byte(s, i, DQUOTE);
    let b = a.and(spec_repeat::<QuotedEscape>(s, a.pos()));
    b.and(spec_byte(s, b.pos(), DQUOTE))
}

/// Parses at `pos` what [`spec_rfc2806_quoted_string`] describes.
pub fn rfc2806_quoted_string(input: &[u8], pos: usize) -> (r: Result<usize, Reject>)
    requires
        pos <= input@.len(),
    ensures
        scans(r, pos, input@.len(), spec_rfc2806_quoted_string(input@, pos as int)),
{
    proof {
        reveal(spec_rfc2806_quoted_string);
    }
    let a = byte(input, pos, DQUOTE)?;
    let b = repeat::<QuotedEscape>(input, a)?;
    byte(input, b, DQUOTE)
}

/// The value of a future extension: extension tokens with an optional `?`
/// and more tokens, or a telephone quoted string.
#[verifier::opaque]
pub open spec fn spec_future_extension_value(s: Seq<u8>, i: int) -> Cursor {
    let a = spec_while1(s, i, Class::FutureExtensionToken);
    let q = a.and(spec_byte(s, a.pos(), QUESTION));
    a.and(q.and(spec_while1(s, q.pos(), Class::FutureExtensionToken)).or_stay(a.pos())).or(
        spec_rfc2806_quoted_string(s, i),
    )
}

fn future_extension_value(input: &[u8], pos: usize) -> (r: Result<usize, Reject>)
    requires
        pos <= input@.len(),
    ensures
        scans(r, pos, input@.len(), spec_future_extension_value(input@, pos as int)),
{
    proof {
        reveal(spec_future_extension_value);
    }
    match while1(input, pos, Class::FutureExtensionToken) {
        Ok(a) => {
            let t = match byte(input, a, QUESTION) {
                Ok(q) => while1(input, q, Class::FutureExtensionToken),
                Err(x) => Err(x),
            };
            return match t {
                Ok(e) => Ok(e),
                Err(_) => Ok(a),
            };
        },
        Err(_) => {},
    }
    rfc2806_quoted_string(input, pos)
}

/// A future extension: `;`, extension tokens and, optionally, `=` and a
/// value.
#[verifier::opaque]
pub open spec fn spec_future_extension(s: Seq<u8>, i: int) -> Cursor {
    let a = spec_byte(s, i, SEMICOLON);
    let b = a.and(spec_while1(s, a.pos(), Class::FutureExtensionToken));
    let c = b.and(spec_byte(s, b.pos(), EQUALS));
    b.and(c.and(spec_future_extension_value(s, c.pos())).or_stay(b.pos()))
}

/// Parses at `pos` what [`spec_future_extension`] describes.
pub fn future_extension(input: &[u8], pos: usize) -> (r: Result<usize, Reject>)
    requires
        pos <= input@.len(),
    ensures
        scans(r, pos, input@.len(), spec_future_extension(input@, pos as int)),
{
    proof {
        reveal(spec_future_extension);
    }
    let a = byte(input, pos, SEMICOLON)?;
    let b = while1(input, a, Class::FutureExtensionToken)?;
    let v = match byte(input, b, EQUALS) {
        Ok(c) => future_extension_value(input, c),
        Err(x) => Err(x),
    };
    if is_soft(&v) {
        Ok(b)
    } else {
        v
    }
}

/// One trailing parameter of a telephone number: an area specifier, a
/// service provider or a future extension, tried in this order.
pub struct NumberParam;

impl Span for NumberParam {
    open spec fn spec_span(s: Seq<u8>, i: int) -> Cursor {
        spec_area_specifier(s, i).or(spec_service_provider(s, i)).or(spec_future_extension(s, i))
    }

    fn span(input: &[u8], pos: usize) -> (r: Result<usize, Reject>) {
        let r = area_specifier(input, pos);
        if !is_soft(&r) {
            return r;
        }
        let r = service_provider(input, pos);
        if !is_soft(&r) {
            return r;
        }
        future_extension(input, pos)
    }
}

/// An optional ISDN subaddress and an optional post-dial sequence.
#[verifier::opaque]
pub open spec fn spec_dial_options(s: Seq<u8>, i: int) -> Cursor {
    let a = spec_isdn_subaddress(s, i).or_stay(i);
    a.and(spec_post_dial(s, a.pos()).or_stay(a.pos()))
}

fn dial_options(input: &[u8], pos: usize) -> (r: Result<usize, Reject>)
    requires
        pos <= input@.len(),
    ensures
        scans(r, pos, input@.len(), spec_dial_options(input@, pos as int)),
{
    proof {
        reveal(spec_dial_options);
    }
    let i = isdn_subaddress(input, pos);
    let a = if is_soft(&i) {
        pos
    } else {
        i?
    };
    let p = post_dial(input, a);
    if is_soft(&p) {
        Ok(a)
    } else {
        p
    }
}

/// A global number: `+`, phone digits, the dial options and any number of
/// trailing parameters.
#[verifier::opaque]
pub open spec fn spec_global_phone_number(s: Seq<u8>, i: int) -> Cursor {
    let a = spec_byte(s, i, PLUS);
    let b = a.and(spec_while1(s, a.pos(), Class::PhoneDigit));
    let c = b.and(spec_dial_options(s, b.pos()));
    c.and(spec_repeat::<NumberParam>(s, c.pos()))
}

/// Parses at `pos` what [`spec_global_phone_number`] describes.
pub fn global_phone_number(input: &[u8], pos: usize) -> (r: Result<usize, Reject>)
    requires
        pos <= input@.len(),
    ensures
        scans(r, pos, input@.len(), spec_global_phone_number(input@, pos as int)),
{
    proof {
        reveal(spec_global_phone_number);
    }
    let a = byte(input, pos, PLUS)?;
    let b = while1(input, a, Class::PhoneDigit)?;
    let c = dial_options(input, b)?;
    repeat::<NumberParam>(input, c)
}

/// One unit of a local number: a dial character, the dial options, an area
/// specifier, which a local number cannot do without, and any number of
/// trailing parameters.
pub struct LocalUnit;

impl Span for LocalUnit {
    open spec fn spec_span(s: Seq<u8>, i: int) -> Cursor {
        let a = spec_one(s, i, Class::DialChar);
        let b = a.and(spec_dial_options(s, a.pos()));
        let c = b.and(spec_area_specifier(s, b.pos()));
        c.and(spec_repeat::<NumberParam>(s, c.pos()))
    }

    fn span(input: &[u8], pos: usize) -> (r: Result<usize, Reject>) {
        let a = one(input, pos, Class::DialChar)?;
        let b = dial_options(input, a)?;
        let c = area_specifier(input, b)?;
        repeat::<NumberParam>(input, c)
    }
}

/// A local number: at least one unit.
#[verifier::opaque]
pub open spec fn spec_local_phone_number(s: Seq<u8>, i: int) -> Cursor {
    spec_repeat1::<LocalUnit>(s, i)
}

/// Parses at `pos` what [`spec_local_phone_number`] describes.
pub fn local_phone_number(input: &[u8], pos: usize) -> (r: Result<usize, Reject>)
    requires
        pos <= input@.len(),
    ensures
        scans(r, pos, input@.len(), spec_local_phone_number(input@, pos as int)),
{
    proof {
        reveal(spec_local_phone_number);
    }
    repeat1::<LocalUnit>(input, pos)
}

/// A telephone subscriber: a global number or a local number.
#[verifier::opaque]
pub open spec fn spec_telephone_subscriber(s: Seq<u8>, i: int) -> Cursor {
    spec_global_phone_number(s, i).or(spec_local_phone_number(s, i))
}

/// Parses at `pos` what [`spec_telephone_subscriber`] describes.
pub fn telephone_subscriber(input: &[u8], pos: usize) -> (r: Result<usize, Reject>)
    requires
        pos <= input@.len(),
    ensures
        scans(r, pos, input@.len(), spec_telephone_subscriber(input@, pos as int)),
{
    proof {
        reveal(spec_telephone_subscriber);
    }
    let r = global_phone_number(input, pos);
    if !is_soft(&r) {
        return r;
    }
    local_phone_number(input, pos)
}

} // verus!
