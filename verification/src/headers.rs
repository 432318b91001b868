//! Per-header grammars. Every header production starts at the header's name
//! and yields one [`Header`](crate::header::Header).

pub mod alert;
pub mod auth;
pub mod call;
pub mod contact;
pub mod content;
pub mod date;
pub mod via;
pub mod warning;

use crate::class::{Class, COMMA, DOT, SEMICOLON, SLASH};
use crate::common::{
    generic_param, method, spec_generic_param, spec_method, spec_span_text, TokenRule,
};
use crate::error::{scans, yields, Cursor, Parsed, Reject};
use crate::header::{Header, HeaderView, RetryAfter, RetryAfterView, RetryParam, RetryParamView};
use crate::headers::auth::{param_name, spec_param_name};
use crate::list::{
    list0, list1, many, repeat, spec_list0, spec_list1, spec_many, spec_repeat, Rule, Sep, Span,
};
use crate::scan::{
    byte, integer, is_soft, spec_byte, spec_integer, spec_tag_no_case, spec_while0, spec_while1,
    tag_no_case, text, while0, while1,
};
use crate::sip::{Method, MethodView};
use crate::tokens::{
    comment, header_colon, linear_whitespace, newline, slash, spec_comment, spec_header_colon,
    spec_linear_whitespace, spec_newline, spec_padded, spec_token, spec_token_str,
    spec_utf8_char1, spec_utf8_trim, token, token_str, utf8_char1, utf8_trim,
};
use vstd::prelude::*;

verus! {

/// A header's name, in either case, and the colon after it.
#[verifier::opaque]
pub open spec fn spec_named(s: Seq<u8>, i: int, name: &str) -> Cursor {
    let a = spec_tag_no_case(s, i, name);
    a.and(spec_header_colon(s, a.pos()))
}

/// The same for a header that has a compact name besides its full one.
#[verifier::opaque]
pub open spec fn spec_named2(s: Seq<u8>, i: int, name: &str, compact: &str) -> Cursor {
    let a = spec_tag_no_case(s, i, name).or(spec_tag_no_case(s, i, compact));
    a.and(spec_header_colon(s, a.pos()))
}

/// Parses at `pos` what [`spec_named`] describes.
pub fn named(input: &[u8], pos: usize, name: &str) -> (r: Result<usize, Reject>)
    requires
        pos <= input@.len(),
    ensures
        scans(r, pos, input@.len(), spec_named(input@, pos as int, name)),
{
    proof {
        reveal(spec_named);
    }
    let a = tag_no_case(input, pos, name)?;
    header_colon(input, a)
}

/// Parses at `pos` what [`spec_named2`] describes.
pub fn named2(input: &[u8], pos: usize, name: &str, compact: &str) -> (r: Result<usize, Reject>)
    requires
        pos <= input@.len(),
    ensures
        scans(r, pos, input@.len(), spec_named2(input@, pos as int, name, compact)),
{
    proof {
        reveal(spec_named2);
    }
    let mut a = tag_no_case(input, pos, name);
    if is_soft(&a) {
        a = tag_no_case(input, pos, compact);
    }
    let a = a?;
    header_colon(input, a)
}


/// The production of one method.
pub struct MethodRule;

impl Rule for MethodRule {
    type Out = Method;

    open spec fn spec_parse(s: Seq<u8>, i: int) -> Parsed<MethodView> {
        spec_method(s, i)
    }

    fn parse(input: &[u8], pos: usize) -> (r: Result<(Method, usize), Reject>) {
        method(input, pos)
    }
}

/// The Allow header: any number of methods, none included.
#[verifier::opaque]
pub open spec fn spec_allow(s: Seq<u8>, i: int) -> Parsed<HeaderView> {
    let a = spec_named(s, i, "Allow");
    let l = spec_list0::<MethodRule>(s, a.pos(), Sep::Padded(COMMA));
    Parsed { value: HeaderView::Allow(l.value), end: a.and(l.end) }
}

/// Parses at `pos` what [`spec_allow`] describes.
pub fn allow(input: &[u8], pos: usize) -> (r: Result<(Header, usize), Reject>)
    requires
        pos <= input@.len(),
    ensures
        yields(r, pos, input@.len(), spec_allow(input@, pos as int)),
{
    proof {
        reveal(spec_allow);
    }
    let a = named(input, pos, "Allow")?;
    let (l, e) = list0::<MethodRule>(input, a, Sep::Padded(COMMA))?;
    Ok((Header::Allow(l), e))
}

/// The CSeq header: a sequence number, linear whitespace and a method.
#[verifier::opaque]
pub open spec fn spec_cseq(s: Seq<u8>, i: int) -> Parsed<HeaderView> {
    let a = spec_named(s, i, "CSeq");
    let n = spec_integer(s, a.pos());
    let b = a.and(n.end);
    let c = b.and(spec_linear_whitespace(s, b.pos()));
    let m = spec_method(s, c.pos());
    Parsed { value: HeaderView::CSeq(n.value, m.value), end: c.and(m.end) }
}

/// Parses at `pos` what [`spec_cseq`] describes.
pub fn cseq(input: &[u8], pos: usize) -> (r: Result<(Header, usize), Reject>)
    requires
        pos <= input@.len(),
    ensures
        yields(r, pos, input@.len(), spec_cseq(input@, pos as int)),
{
    proof {
        reveal(spec_cseq);
    }
    let a = named(input, pos, "CSeq")?;
    let (n, b) = integer(input, a)?;
    let c = linear_whitespace(input, b)?;
    let (m, e) = method(input, c)?;
    Ok((Header::CSeq(n, m), e))
}

/// The Expires header: one integer.
#[verifier::opaque]
pub open spec fn spec_expires(s: Seq<u8>, i: int) -> Parsed<HeaderView> {
    let a = spec_named(s, i, "Expires");
    let n = spec_integer(s, a.pos());
    Parsed { value: HeaderView::Expires(n.value), end: a.and(n.end) }
}

/// Parses at `pos` what [`spec_expires`] describes.
pub fn expires(input: &[u8], pos: usize) -> (r: Result<(Header, usize), Reject>)
    requires
        pos <= input@.len(),
    ensures
        yields(r, pos, input@.len(), spec_expires(input@, pos as int)),
{
    proof {
        reveal(spec_expires);
    }
    let a = named(input, pos, "Expires")?;
    let (n, e) = integer(input, a)?;
    Ok((Header::Expires(n), e))
}

/// The Max-Forwards header: one integer.
#[verifier::opaque]
pub open spec fn spec_max_forwards(s: Seq<u8>, i: int) -> Parsed<HeaderView> {
    let a = spec_named(s, i, "Max-Forwards");
    let n = spec_integer(s, a.pos());
    Parsed { value: HeaderView::MaxForwards(n.value), end: a.and(n.end) }
}

/// Parses at `pos` what [`spec_max_forwards`] describes.
pub fn max_forwards(input: &[u8], pos: usize) -> (r: Result<(Header, usize), Reject>)
    requires
        pos <= input@.len(),
    ensures
        yields(r, pos, input@.len(), spec_max_forwards(input@, pos as int)),
{
    proof {
        reveal(spec_max_forwards);
    }
    let a = named(input, pos, "Max-Forwards")?;
    let (n, e) = integer(input, a)?;
    Ok((Header::MaxForwards(n), e))
}

/// The Min-Expires header: one integer.
#[verifier::opaque]
pub open spec fn spec_min_expires(s: Seq<u8>, i: int) -> Parsed<HeaderView> {
    let a = spec_named(s, i, "Min-Expires");
    let n = spec_integer(s, a.pos());
    Parsed { value: HeaderView::MinExpires(n.value), end: a.and(n.end) }
}

/// Parses at `pos` what [`spec_min_expires`] describes.
pub fn min_expires(input: &[u8], pos: usize) -> (r: Result<(Header, usize), Reject>)
    requires
        pos <= input@.len(),
    ensures
        yields(r, pos, input@.len(), spec_min_expires(input@, pos as int)),
{
    proof {
        reveal(spec_min_expires);
    }
    let a = named(input, pos, "Min-Expires")?;
    let (n, e) = integer(input, a)?;
    Ok((Header::MinExpires(n), e))
}

/// The MIME-Version header: digits, a dot and digits, as text.
#[verifier::opaque]
pub open spec fn spec_mime_version(s: Seq<u8>, i: int) -> Parsed<HeaderView> {
    let a = spec_named(s, i, "MIME-Version");
    let b = a.and(spec_while1(s, a.pos(), Class::Digit));
    let c = b.and(spec_byte(s, b.pos(), DOT));
    let t = spec_span_text(s, a.pos(), c.and(spec_while1(s, c.pos(), Class::Digit)));
    Parsed { value: HeaderView::MIMEVersion(t.value), end: t.end }
}

/// Parses at `pos` what [`spec_mime_version`] describes.
pub fn mime_version(input: &[u8], pos: usize) -> (r: Result<(Header, usize), Reject>)
    requires
        pos <= input@.len(),
    ensures
        yields(r, pos, input@.len(), spec_mime_version(input@, pos as int)),
{
    proof {
        reveal(spec_mime_version);
    }
    let a = named(input, pos, "MIME-Version")?;
    let b = while1(input, a, Class::Digit)?;
    let c = byte(input, b, DOT)?;
    let d = while1(input, c, Class::Digit)?;
    let t = text(input, a, d)?;
    Ok((Header::MIMEVersion(t), d))
}

/// Optional free text: trimmed text where there is any, and no text where
/// the trimmed-text production does not match.
#[verifier::opaque]
pub open spec fn spec_optional_text(s: Seq<u8>, i: int) -> Parsed<Option<Seq<char>>> {
    let a = spec_utf8_trim(s, i);
    let t = spec_span_text(s, i, a);
    if a.soft() {
        Parsed { value: None, end: Cursor::At(i) }
    } else {
        Parsed { value: Some(t.value), end: t.end }
    }
}

/// Parses at `pos` what [`spec_optional_text`] describes.
pub fn optional_text(input: &[u8], pos: usize) -> (r: Result<(Option<String>, usize), Reject>)
    requires
        pos <= input@.len(),
    ensures
        yields(r, pos, input@.len(), spec_optional_text(input@, pos as int)),
{
    proof {
        reveal(spec_optional_text);
    }
    match utf8_trim(input, pos) {
        Ok(a) => {
            let t = text(input, pos, a)?;
            Ok((Some(t), a))
        },
        Err(x) => {
            if x.fatal {
                Err(x)
            } else {
                Ok((None, pos))
            }
        },
    }
}

/// The Organization header: optional free text.
#[verifier::opaque]
pub open spec fn spec_organization(s: Seq<u8>, i: int) -> Parsed<HeaderView> {
    let a = spec_named(s, i, "Organization");
    let t = spec_optional_text(s, a.pos());
    Parsed { value: HeaderView::Organization(t.value), end: a.and(t.end) }
}

/// Parses at `pos` what [`spec_organization`] describes.
pub fn organization(input: &[u8], pos: usize) -> (r: Result<(Header, usize), Reject>)
    requires
        pos <= input@.len(),
    ensures
        yields(r, pos, input@.len(), spec_organization(input@, pos as int)),
{
    proof {
        reveal(spec_organization);
    }
    let a = named(input, pos, "Organization")?;
    let (t, e) = optional_text(input, a)?;
    Ok((Header::Organization(t), e))
}

/// The Subject header, `s` for short: optional free text.
#[verifier::opaque]
pub open spec fn spec_subject(s: Seq<u8>, i: int) -> Parsed<HeaderView> {
    let a = spec_named2(s, i, "Subject", "s");
    let t = spec_optional_text(s, a.pos());
    Parsed { value: HeaderView::Subject(t.value), end: a.and(t.end) }
}

/// Parses at `pos` what [`spec_subject`] describes.
pub fn subject(input: &[u8], pos: usize) -> (r: Result<(Header, usize), Reject>)
    requires
        pos <= input@.len(),
    ensures
        yields(r, pos, input@.len(), spec_subject(input@, pos as int)),
{
    proof {
        reveal(spec_subject);
    }
    let a = named2(input, pos, "Subject", "s")?;
    let (t, e) = optional_text(input, a)?;
    Ok((Header::Subject(t), e))
}

/// The Require header: at least one option tag.
#[verifier::opaque]
pub open spec fn spec_require(s: Seq<u8>, i: int) -> Parsed<HeaderView> {
    let a = spec_named(s, i, "Require");
    let l = spec_list1::<TokenRule>(s, a.pos(), Sep::Padded(COMMA));
    Parsed { value: HeaderView::Require(l.value), end: a.and(l.end) }
}

/// Parses at `pos` what [`spec_require`] describes.
pub fn require(input: &[u8], pos: usize) -> (r: Result<(Header, usize), Reject>)
    requires
        pos <= input@.len(),
    ensures
        yields(r, pos, input@.len(), spec_require(input@, pos as int)),
{
    proof {
        reveal(spec_require);
    }
    let a = named(input, pos, "Require")?;
    let (l, e) = list1::<TokenRule>(input, a, Sep::Padded(COMMA))?;
    Ok((Header::Require(l), e))
}

/// The Supported header, `k` for short: at least one option tag.
#[verifier::opaque]
pub open spec fn spec_supported(s: Seq<u8>, i: int) -> Parsed<HeaderView> {
    let a = spec_named2(s, i, "Supported", "k");
    let l = spec_list1::<TokenRule>(s, a.pos(), Sep::Padded(COMMA));
    Parsed { value: HeaderView::Supported(l.value), end: a.and(l.end) }
}

/// Parses at `pos` what [`spec_supported`] describes.
pub fn supported(input: &[u8], pos: usize) -> (r: Result<(Header, usize), Reject>)
    requires
        pos <= input@.len(),
    ensures
        yields(r, pos, input@.len(), spec_supported(input@, pos as int)),
{
    proof {
        reveal(spec_supported);
    }
    let a = named2(input, pos, "Supported", "k")?;
    let (l, e) = list1::<TokenRule>(input, a, Sep::Padded(COMMA))?;
    Ok((Header::Supported(l), e))
}

/// The Unsupported header: at least one option tag.
#[verifier::opaque]
pub open spec fn spec_unsupported(s: Seq<u8>, i: int) -> Parsed<HeaderView> {
    let a = spec_named(s, i, "Unsupported");
    let l = spec_list1::<TokenRule>(s, a.pos(), Sep::Padded(COMMA));
    Parsed { value: HeaderView::Unsupported(l.value), end: a.and(l.end) }
}

/// Parses at `pos` what [`spec_unsupported`] describes.
pub fn unsupported(input: &[u8], pos: usize) -> (r: Result<(Header, usize), Reject>)
    requires
        pos <= input@.len(),
    ensures
        yields(r, pos, input@.len(), spec_unsupported(input@, pos as int)),
{
    proof {
        reveal(spec_unsupported);
    }
    let a = named(input, pos, "Unsupported")?;
    let (l, e) = list1::<TokenRule>(input, a, Sep::Padded(COMMA))?;
    Ok((Header::Unsupported(l), e))
}

/// A Retry-After parameter: `duration=` and an integer, or a generic
/// parameter.
#[verifier::opaque]
pub open spec fn spec_retry_param(s: Seq<u8>, i: int) -> Parsed<RetryParamView> {
    let a = spec_param_name(s, i, "duration");
    let n = spec_integer(s, a.pos());
    let g = spec_generic_param(s, i);
    Parsed { value: RetryParamView::AvailabilityDuration(n.value), end: a.and(n.end) }.or(
        Parsed { value: RetryParamView::Extension(g.value), end: g.end },
    )
}

/// Parses at `pos` what [`spec_retry_param`] describes.
pub fn retry_param(input: &[u8], pos: usize) -> (r: Result<(RetryParam, usize), Reject>)
    requires
        pos <= input@.len(),
    ensures
        yields(r, pos, input@.len(), spec_retry_param(input@, pos as int)),
{
    proof {
        reveal(spec_retry_param);
    }
    let d = match param_name(input, pos, "duration") {
        Ok(a) => integer(input, a),
        Err(x) => Err(x),
    };
    match d {
        Ok((n, e)) => {
            return Ok((RetryParam::AvailabilityDuration(n), e));
        },
        Err(x) => if x.fatal {
            return Err(x);
        },
    }
    let (g, e) = generic_param(input, pos)?;
    Ok((RetryParam::Extension(g), e))
}

/// The production of one Retry-After parameter.
pub struct RetryParamRule;

impl Rule for RetryParamRule {
    type Out = RetryParam;

    open spec fn spec_parse(s: Seq<u8>, i: int) -> Parsed<RetryParamView> {
        spec_retry_param(s, i)
    }

    fn parse(input: &[u8], pos: usize) -> (r: Result<(RetryParam, usize), Reject>) {
        retry_param(input, pos)
    }
}

/// The Retry-After header: a number of seconds, an optional comment, and
/// any number of `;` and a parameter.
#[verifier::opaque]
pub open spec fn spec_retry_after(s: Seq<u8>, i: int) -> Parsed<HeaderView> {
    let a = spec_named(s, i, "Retry-After");
    let n = spec_integer(s, a.pos());
    let b = a.and(n.end);
    let k = spec_comment(s, b.pos());
    let c = b.and(k.or_stay(b.pos()));
    let ps = spec_many::<RetryParamRule>(s, c.pos(), Sep::Padded(SEMICOLON));
    let d = c.and(ps.end);
    let t = spec_span_text(s, b.pos(), d.and(k));
    Parsed {
        value: HeaderView::RetryAfter(
            RetryAfterView {
                duration: n.value,
                comment: if k.ok() {
                    Some(t.value)
                } else {
                    None
                },
                params: ps.value,
            },
        ),
        end: if k.ok() {
            t.end.and(d)
        } else {
            d
        },
    }
}

/// Parses at `pos` what [`spec_retry_after`] describes.
pub fn retry_after(input: &[u8], pos: usize) -> (r: Result<(Header, usize), Reject>)
    requires
        pos <= input@.len(),
    ensures
        yields(r, pos, input@.len(), spec_retry_after(input@, pos as int)),
{
    proof {
        reveal(spec_retry_after);
    }
    let a = named(input, pos, "Retry-After")?;
    let (duration, b) = integer(input, a)?;
    let k = comment(input, b);
    let c = match k {
        Ok(c) => c,
        Err(x) => {
            if x.fatal {
                return Err(x);
            }
            b
        },
    };
    let (params, d) = many::<RetryParamRule>(input, c, Sep::Padded(SEMICOLON))?;
    let comment = match k {
        Ok(c) => Some(text(input, b, c)?),
        Err(_) => None,
    };
    Ok((Header::RetryAfter(RetryAfter { duration, comment, params }), d))
}

/// One product of a server description: a token with an optional `/` and
/// version token, or a comment.
#[verifier::opaque]
pub open spec fn spec_server_val(s: Seq<u8>, i: int) -> Cursor {
    let a = spec_token(s, i);
    let b = a.and(spec_padded(s, a.pos(), SLASH));
    a.and(b.and(spec_token(s, b.pos())).or_stay(a.pos())).or(spec_comment(s, i))
}

/// Parses at `pos` what [`spec_server_val`] describes.
pub fn server_val(input: &[u8], pos: usize) -> (r: Result<usize, Reject>)
    requires
        pos <= input@.len(),
    ensures
        scans(r, pos, input@.len(), spec_server_val(input@, pos as int)),
{
    proof {
        reveal(spec_server_val);
    }
    match token(input, pos) {
        Ok(a) => {
            let v = match slash(input, a) {
                Ok(b) => token(input, b),
                Err(x) => Err(x),
            };
            if is_soft(&v) {
                return Ok(a);
            }
            return v;
        },
        Err(x) => if x.fatal {
            return Err(x);
        },
    }
    comment(input, pos)
}

/// Linear whitespace and a product.
pub struct SpacedServerVal;

impl Span for SpacedServerVal {
    open spec fn spec_span(s: Seq<u8>, i: int) -> Cursor {
        let a = spec_linear_whitespace(s, i);
        a.and(spec_server_val(s, a.pos()))
    }

    fn span(input: &[u8], pos: usize) -> (r: Result<usize, Reject>) {
        let a = linear_whitespace(input, pos)?;
        server_val(input, a)
    }
}

/// A server description: products that linear whitespace separates, as text.
#[verifier::opaque]
pub open spec fn spec_server_vals(s: Seq<u8>, i: int) -> Parsed<Seq<char>> {
    let a = spec_server_val(s, i);
    spec_span_text(s, i, a.and(spec_repeat::<SpacedServerVal>(s, a.pos())))
}

/// Parses at `pos` what [`spec_server_vals`] describes.
pub fn server_vals(input: &[u8], pos: usize) -> (r: Result<(String, usize), Reject>)
    requires
        pos <= input@.len(),
    ensures
        yields(r, pos, input@.len(), spec_server_vals(input@, pos as int)),
{
    proof {
        reveal(spec_server_vals);
    }
    let a = server_val(input, pos)?;
    let b = repeat::<SpacedServerVal>(input, a)?;
    let t = text(input, pos, b)?;
    Ok((t, b))
}

/// The Server header.
#[verifier::opaque]
pub open spec fn spec_server(s: Seq<u8>, i: int) -> Parsed<HeaderView> {
    let a = spec_named(s, i, "Server");
    let t = spec_server_vals(s, a.pos());
    Parsed { value: HeaderView::Server(t.value), end: a.and(t.end) }
}

/// Parses at `pos` what [`spec_server`] describes.
pub fn server(input: &[u8], pos: usize) -> (r: Result<(Header, usize), Reject>)
    requires
        pos <= input@.len(),
    ensures
        yields(r, pos, input@.len(), spec_server(input@, pos as int)),
{
    proof {
        reveal(spec_server);
    }
    let a = named(input, pos, "Server")?;
    let (t, e) = server_vals(input, a)?;
    Ok((Header::Server(t), e))
}

/// The User-Agent header.
#[verifier::opaque]
pub open spec fn spec_user_agent(s: Seq<u8>, i: int) -> Parsed<HeaderView> {
    let a = spec_named(s, i, "User-Agent");
    let t = spec_server_vals(s, a.pos());
    Parsed { value: HeaderView::UserAgent(t.value), end: a.and(t.end) }
}

/// Parses at `pos` what [`spec_user_agent`] describes.
pub fn user_agent(input: &[u8], pos: usize) -> (r: Result<(Header, usize), Reject>)
    requires
        pos <= input@.len(),
    ensures
        yields(r, pos, input@.len(), spec_user_agent(input@, pos as int)),
{
    proof {
        reveal(spec_user_agent);
    }
    let a = named(input, pos, "User-Agent")?;
    let (t, e) = server_vals(input, a)?;
    Ok((Header::UserAgent(t), e))
}

/// Digits and, optionally, a dot and digits; every run of digits may be
/// empty.
#[verifier::opaque]
pub open spec fn spec_decimals(s: Seq<u8>, i: int) -> Cursor {
    let a = spec_while0(s, i, Class::Digit);
    let b = a.and(spec_byte(s, a.pos(), DOT));
    a.and(b.and(spec_while0(s, b.pos(), Class::Digit)).or_stay(a.pos()))
}

fn decimals(input: &[u8], pos: usize) -> (r: Result<usize, Reject>)
    requires
        pos <= input@.len(),
    ensures
        scans(r, pos, input@.len(), spec_decimals(input@, pos as int)),
        r is Ok,
{
    proof {
        reveal(spec_decimals);
    }
    let a = while0(input, pos, Class::Digit)?;
    match byte(input, a, DOT) {
        Ok(b) => while0(input, b, Class::Digit),
        Err(_) => Ok(a),
    }
}

/// The delay of a timestamp: linear whitespace and decimals, as text
/// without the whitespace; or nothing.
#[verifier::opaque]
pub open spec fn spec_delay(s: Seq<u8>, i: int) -> Parsed<Option<Seq<char>>> {
    let a = spec_linear_whitespace(s, i);
    let t = spec_span_text(s, a.pos(), a.and(spec_decimals(s, a.pos())));
    if a.soft() {
        Parsed { value: None, end: Cursor::At(i) }
    } else {
        Parsed { value: Some(t.value), end: t.end }
    }
}

/// Parses at `pos` what [`spec_delay`] describes.
pub fn delay(input: &[u8], pos: usize) -> (r: Result<(Option<String>, usize), Reject>)
    requires
        pos <= input@.len(),
    ensures
        yields(r, pos, input@.len(), spec_delay(input@, pos as int)),
{
    proof {
        reveal(spec_delay);
    }
    match linear_whitespace(input, pos) {
        Ok(a) => {
            let b = decimals(input, a)?;
            let t = text(input, a, b)?;
            Ok((Some(t), b))
        },
        Err(x) => {
            if x.fatal {
                Err(x)
            } else {
                Ok((None, pos))
            }
        },
    }
}

/// The Timestamp header: digits with optional decimals, and an optional
/// delay.
#[verifier::opaque]
pub open spec fn spec_timestamp(s: Seq<u8>, i: int) -> Parsed<HeaderView> {
    let a = spec_named(s, i, "Timestamp");
    let b = a.and(spec_while1(s, a.pos(), Class::Digit));
    let c = b.and(spec_byte(s, b.pos(), DOT));
    let d = b.and(c.and(spec_while0(s, c.pos(), Class::Digit)).or_stay(b.pos()));
    let w = spec_delay(s, d.pos());
    let e = d.and(w.end);
    let t = spec_span_text(s, a.pos(), e.and(d));
    Parsed { value: HeaderView::Timestamp(t.value, w.value), end: t.end.and(e) }
}

/// Parses at `pos` what [`spec_timestamp`] describes.
pub fn timestamp(input: &[u8], pos: usize) -> (r: Result<(Header, usize), Reject>)
    requires
        pos <= input@.len(),
    ensures
        yields(r, pos, input@.len(), spec_timestamp(input@, pos as int)),
{
    proof {
        reveal(spec_timestamp);
    }
    let a = named(input, pos, "Timestamp")?;
    let b = while1(input, a, Class::Digit)?;
    let d = match byte(input, b, DOT) {
        Ok(c) => while0(input, c, Class::Digit)?,
        Err(_) => b,
    };
    let (w, e) = delay(input, d)?;
    let t = text(input, a, d)?;
    Ok((Header::Timestamp(t, w), e))
}

/// One piece of a header's value: a character, a run of continuation
/// bytes, or linear whitespace.
pub struct ValuePiece;

impl Span for ValuePiece {
    open spec fn spec_span(s: Seq<u8>, i: int) -> Cursor {
        spec_utf8_char1(s, i).or(spec_while1(s, i, Class::Utf8Cont)).or(
            spec_linear_whitespace(s, i),
        )
    }

    fn span(input: &[u8], pos: usize) -> (r: Result<usize, Reject>) {
        let r = utf8_char1(input, pos);
        if !is_soft(&r) {
            return r;
        }
        let r = while1(input, pos, Class::Utf8Cont);
        if !is_soft(&r) {
            return r;
        }
        linear_whitespace(input, pos)
    }
}

/// The value of a header that is not known by name: any number of value
/// pieces, as text. It ends before a line end that no blank follows.
#[verifier::opaque]
pub open spec fn spec_header_value(s: Seq<u8>, i: int) -> Parsed<Seq<char>> {
    spec_span_text(s, i, spec_repeat::<ValuePiece>(s, i))
}

/// Parses at `pos` what [`spec_header_value`] describes.
pub fn header_value(input: &[u8], pos: usize) -> (r: Result<(String, usize), Reject>)
    requires
        pos <= input@.len(),
    ensures
        yields(r, pos, input@.len(), spec_header_value(input@, pos as int)),
{
    proof {
        reveal(spec_header_value);
    }
    let a = repeat::<ValuePiece>(input, pos)?;
    let t = text(input, pos, a)?;
    Ok((t, a))
}

/// Any other header: a token, the colon and a value. Tried after every
/// known header, it keeps an unknown header from failing a message.
#[verifier::opaque]
pub open spec fn spec_extension_header(s: Seq<u8>, i: int) -> Parsed<HeaderView> {
    let n = spec_token_str(s, i);
    let a = n.end.and(spec_header_colon(s, n.end.pos()));
    let v = spec_header_value(s, a.pos());
    Parsed { value: HeaderView::Extension(n.value, v.value), end: a.and(v.end) }
}

/// Parses at `pos` what [`spec_extension_header`] describes.
pub fn extension_header(input: &[u8], pos: usize) -> (r: Result<(Header, usize), Reject>)
    requires
        pos <= input@.len(),
    ensures
        yields(r, pos, input@.len(), spec_extension_header(input@, pos as int)),
{
    proof {
        reveal(spec_extension_header);
    }
    let (name, n) = token_str(input, pos)?;
    let a = header_colon(input, n)?;
    let (value, e) = header_value(input, a)?;
    Ok((Header::Extension(name, value), e))
}

/// A known header's production `p`, seen from a header line: where the
/// header's name and colon matched (`name`), a value that is rejected
/// rejects the line unrecoverably, so that no later alternative, and in
/// particular not the extension header, takes the line.
pub open spec fn spec_known(p: Parsed<HeaderView>, name: Cursor) -> Parsed<HeaderView> {
    match p.end {
        Cursor::At(_) => p,
        Cursor::Off(x) => if name.ok() {
            Parsed { value: p.value, end: Cursor::Off(Reject { kind: x.kind, at: x.at, fatal: true }) }
        } else {
            p
        },
    }
}

/// The rejection of `r`, made unrecoverable.
fn promote(r: Result<(Header, usize), Reject>) -> (p: Result<(Header, usize), Reject>)
    requires
        r is Err,
    ensures
        p == Err::<(Header, usize), Reject>(
            Reject { kind: r->Err_0.kind, at: r->Err_0.at, fatal: true },
        ),
{
    match r {
        Ok(v) => Ok(v),
        Err(x) => Err(Reject { kind: x.kind, at: x.at, fatal: true }),
    }
}

/// The known headers from Accept to Via, in the order in which they are tried.
#[verifier::opaque]
pub open spec fn spec_headers_first(s: Seq<u8>, i: int) -> Parsed<HeaderView> {
    spec_known(content::spec_accept(s, i), spec_named(s, i, "Accept")).or(
        spec_known(content::spec_accept_encoding(s, i), spec_named(s, i, "Accept-Encoding")),
    ).or(
        spec_known(content::spec_accept_language(s, i), spec_named(s, i, "Accept-Language")),
    ).or(
        spec_known(alert::spec_alert_info(s, i), spec_named(s, i, "Alert-Info")),
    ).or(
        spec_known(spec_allow(s, i), spec_named(s, i, "Allow")),
    ).or(
        spec_known(auth::spec_authentication_info(s, i), spec_named(s, i, "Authentication-Info")),
    ).or(
        spec_known(auth::spec_authorization(s, i), spec_named(s, i, "Authorization")),
    ).or(
        spec_known(call::spec_call_id(s, i), spec_named2(s, i, "Call-ID", "i")),
    ).or(
        spec_known(call::spec_call_info(s, i), spec_named(s, i, "Call-Info")),
    ).or(
        spec_known(contact::spec_contact(s, i), spec_named2(s, i, "Contact", "m")),
    ).or(
        spec_known(content::spec_content_disposition(s, i), spec_named(s, i, "Content-Disposition")),
    ).or(
        spec_known(content::spec_content_encoding(s, i), spec_named2(s, i, "Content-Encoding", "e")),
    ).or(
        spec_known(content::spec_content_language(s, i), spec_named(s, i, "Content-Language")),
    ).or(
        spec_known(content::spec_content_length(s, i), spec_named2(s, i, "Content-Length", "l")),
    ).or(
        spec_known(content::spec_content_type(s, i), spec_named2(s, i, "Content-Type", "c")),
    ).or(
        spec_known(spec_cseq(s, i), spec_named(s, i, "CSeq")),
    ).or(
        spec_known(date::spec_date(s, i), spec_named(s, i, "Date")),
    ).or(
        spec_known(alert::spec_error_info(s, i), spec_named(s, i, "Error-Info")),
    ).or(
        spec_known(spec_expires(s, i), spec_named(s, i, "Expires")),
    ).or(
        spec_known(contact::spec_from(s, i), spec_named2(s, i, "From", "f")),
    ).or(
        spec_known(via::spec_via(s, i), spec_named2(s, i, "Via", "v")),
    )
}

fn headers_first(input: &[u8], pos: usize) -> (r: Result<(Header, usize), Reject>)
    requires
        pos <= input@.len(),
    ensures
        yields(r, pos, input@.len(), spec_headers_first(input@, pos as int)),
{
    proof {
        reveal(spec_headers_first);
    }
    let r = content::accept(input, pos);
    if !is_soft(&r) {
        return r;
    }
    if named(input, pos, "Accept").is_ok() {
        return promote(r);
    }
    let r = content::accept_encoding(input, pos);
    if !is_soft(&r) {
        return r;
    }
    if named(input, pos, "Accept-Encoding").is_ok() {
        return promote(r);
    }
    let r = content::accept_language(input, pos);
    if !is_soft(&r) {
        return r;
    }
    if named(input, pos, "Accept-Language").is_ok() {
        return promote(r);
    }
    let r = alert::alert_info(input, pos);
    if !is_soft(&r) {
        return r;
    }
    if named(input, pos, "Alert-Info").is_ok() {
        return promote(r);
    }
    let r = allow(input, pos);
    if !is_soft(&r) {
        return r;
    }
    if named(input, pos, "Allow").is_ok() {
        return promote(r);
    }
    let r = auth::authentication_info(input, pos);
    if !is_soft(&r) {
        return r;
    }
    if named(input, pos, "Authentication-Info").is_ok() {
        return promote(r);
    }
    let r = auth::authorization(input, pos);
    if !is_soft(&r) {
        return r;
    }
    if named(input, pos, "Authorization").is_ok() {
        return promote(r);
    }
    let r = call::call_id(input, pos);
    if !is_soft(&r) {
        return r;
    }
    if named2(input, pos, "Call-ID", "i").is_ok() {
        return promote(r);
    }
    let r = call::call_info(input, pos);
    if !is_soft(&r) {
        return r;
    }
    if named(input, pos, "Call-Info").is_ok() {
        return promote(r);
    }
    let r = contact::contact(input, pos);
    if !is_soft(&r) {
        return r;
    }
    if named2(input, pos, "Contact", "m").is_ok() {
        return promote(r);
    }
    let r = content::content_disposition(input, pos);
    if !is_soft(&r) {
        return r;
    }
    if named(input, pos, "Content-Disposition").is_ok() {
        return promote(r);
    }
    let r = content::content_encoding(input, pos);
    if !is_soft(&r) {
        return r;
    }
    if named2(input, pos, "Content-Encoding", "e").is_ok() {
        return promote(r);
    }
    let r = content::content_language(input, pos);
    if !is_soft(&r) {
        return r;
    }
    if named(input, pos, "Content-Language").is_ok() {
        return promote(r);
    }
    let r = content::content_length(input, pos);
    if !is_soft(&r) {
        return r;
    }
    if named2(input, pos, "Content-Length", "l").is_ok() {
        return promote(r);
    }
    let r = content::content_type(input, pos);
    if !is_soft(&r) {
        return r;
    }
    if named2(input, pos, "Content-Type", "c").is_ok() {
        return promote(r);
    }
    let r = cseq(input, pos);
    if !is_soft(&r) {
        return r;
    }
    if named(input, pos, "CSeq").is_ok() {
        return promote(r);
    }
    let r = date::date(input, pos);
    if !is_soft(&r) {
        return r;
    }
    if named(input, pos, "Date").is_ok() {
        return promote(r);
    }
    let r = alert::error_info(input, pos);
    if !is_soft(&r) {
        return r;
    }
    if named(input, pos, "Error-Info").is_ok() {
        return promote(r);
    }
    let r = expires(input, pos);
    if !is_soft(&r) {
        return r;
    }
    if named(input, pos, "Expires").is_ok() {
        return promote(r);
    }
    let r = contact::from(input, pos);
    if !is_soft(&r) {
        return r;
    }
    if named2(input, pos, "From", "f").is_ok() {
        return promote(r);
    }
    let r = via::via(input, pos);
    if !is_soft(&r) {
        return r;
    }
    if named2(input, pos, "Via", "v").is_ok() {
        return promote(r);
    }
    r
}

/// The known headers from In-Reply-To to User-Agent, in the order in which they are tried.
#[verifier::opaque]
pub open spec fn spec_headers_second(s: Seq<u8>, i: int) -> Parsed<HeaderView> {
    spec_known(call::spec_in_reply_to(s, i), spec_named(s, i, "In-Reply-To")).or(
        spec_known(spec_max_forwards(s, i), spec_named(s, i, "Max-Forwards")),
    ).or(
        spec_known(spec_mime_version(s, i), spec_named(s, i, "MIME-Version")),
    ).or(
        spec_known(spec_min_expires(s, i), spec_named(s, i, "Min-Expires")),
    ).or(
        spec_known(spec_organization(s, i), spec_named(s, i, "Organization")),
    ).or(
        spec_known(warning::spec_priority(s, i), spec_named(s, i, "Priority")),
    ).or(
        spec_known(auth::spec_proxy_authenticate(s, i), spec_named(s, i, "Proxy-Authenticate")),
    ).or(
        spec_known(auth::spec_proxy_authorization(s, i), spec_named(s, i, "Proxy-Authorization")),
    ).or(
        spec_known(auth::spec_proxy_require(s, i), spec_named(s, i, "Proxy-Require")),
    ).or(
        spec_known(contact::spec_record_route(s, i), spec_named(s, i, "Record-Route")),
    ).or(
        spec_known(contact::spec_reply_to(s, i), spec_named(s, i, "Reply-To")),
    ).or(
        spec_known(spec_require(s, i), spec_named(s, i, "Require")),
    ).or(
        spec_known(spec_retry_after(s, i), spec_named(s, i, "Retry-After")),
    ).or(
        spec_known(contact::spec_route(s, i), spec_named(s, i, "Route")),
    ).or(
        spec_known(spec_server(s, i), spec_named(s, i, "Server")),
    ).or(
        spec_known(spec_subject(s, i), spec_named2(s, i, "Subject", "s")),
    ).or(
        spec_known(spec_supported(s, i), spec_named2(s, i, "Supported", "k")),
    ).or(
        spec_known(spec_timestamp(s, i), spec_named(s, i, "Timestamp")),
    ).or(
        spec_known(contact::spec_to(s, i), spec_named2(s, i, "To", "t")),
    ).or(
        spec_known(spec_unsupported(s, i), spec_named(s, i, "Unsupported")),
    ).or(
        spec_known(spec_user_agent(s, i), spec_named(s, i, "User-Agent")),
    )
}

fn headers_second(input: &[u8], pos: usize) -> (r: Result<(Header, usize), Reject>)
    requires
        pos <= input@.len(),
    ensures
        yields(r, pos, input@.len(), spec_headers_second(input@, pos as int)),
{
    proof {
        reveal(spec_headers_second);
    }
    let r = call::in_reply_to(input, pos);
    if !is_soft(&r) {
        return r;
    }
    if named(input, pos, "In-Reply-To").is_ok() {
        return promote(r);
    }
    let r = max_forwards(input, pos);
    if !is_soft(&r) {
        return r;
    }
    if named(input, pos, "Max-Forwards").is_ok() {
        return promote(r);
    }
    let r = mime_version(input, pos);
    if !is_soft(&r) {
        return r;
    }
    if named(input, pos, "MIME-Version").is_ok() {
        return promote(r);
    }
    let r = min_expires(input, pos);
    if !is_soft(&r) {
        return r;
    }
    if named(input, pos, "Min-Expires").is_ok() {
        return promote(r);
    }
    let r = organization(input, pos);
    if !is_soft(&r) {
        return r;
    }
    if named(input, pos, "Organization").is_ok() {
        return promote(r);
    }
    let r = warning::priority(input, pos);
    if !is_soft(&r) {
        return r;
    }
    if named(input, pos, "Priority").is_ok() {
        return promote(r);
    }
    let r = auth::proxy_authenticate(input, pos);
    if !is_soft(&r) {
        return r;
    }
    if named(input, pos, "Proxy-Authenticate").is_ok() {
        return promote(r);
    }
    let r = auth::proxy_authorization(input, pos);
    if !is_soft(&r) {
        return r;
    }
    if named(input, pos, "Proxy-Authorization").is_ok() {
        return promote(r);
    }
    let r = auth::proxy_require(input, pos);
    if !is_soft(&r) {
        return r;
    }
    if named(input, pos, "Proxy-Require").is_ok() {
        return promote(r);
    }
    let r = contact::record_route(input, pos);
    if !is_soft(&r) {
        return r;
    }
    if named(input, pos, "Record-Route").is_ok() {
        return promote(r);
    }
    let r = contact::reply_to(input, pos);
    if !is_soft(&r) {
        return r;
    }
    if named(input, pos, "Reply-To").is_ok() {
        return promote(r);
    }
    let r = require(input, pos);
    if !is_soft(&r) {
        return r;
    }
    if named(input, pos, "Require").is_ok() {
        return promote(r);
    }
    let r = retry_after(input, pos);
    if !is_soft(&r) {
        return r;
    }
    if named(input, pos, "Retry-After").is_ok() {
        return promote(r);
    }
    let r = contact::route(input, pos);
    if !is_soft(&r) {
        return r;
    }
    if named(input, pos, "Route").is_ok() {
        return promote(r);
    }
    let r = server(input, pos);
    if !is_soft(&r) {
        return r;
    }
    if named(input, pos, "Server").is_ok() {
        return promote(r);
    }
    let r = subject(input, pos);
    if !is_soft(&r) {
        return r;
    }
    if named2(input, pos, "Subject", "s").is_ok() {
        return promote(r);
    }
    let r = supported(input, pos);
    if !is_soft(&r) {
        return r;
    }
    if named2(input, pos, "Supported", "k").is_ok() {
        return promote(r);
    }
    let r = timestamp(input, pos);
    if !is_soft(&r) {
        return r;
    }
    if named(input, pos, "Timestamp").is_ok() {
        return promote(r);
    }
    let r = contact::to(input, pos);
    if !is_soft(&r) {
        return r;
    }
    if named2(input, pos, "To", "t").is_ok() {
        return promote(r);
    }
    let r = unsupported(input, pos);
    if !is_soft(&r) {
        return r;
    }
    if named(input, pos, "Unsupported").is_ok() {
        return promote(r);
    }
    let r = user_agent(input, pos);
    if !is_soft(&r) {
        return r;
    }
    if named(input, pos, "User-Agent").is_ok() {
        return promote(r);
    }
    r
}

/// The last known headers, Warning and WWW-Authenticate.
#[verifier::opaque]
pub open spec fn spec_headers_third(s: Seq<u8>, i: int) -> Parsed<HeaderView> {
    spec_known(warning::spec_warning(s, i), spec_named(s, i, "Warning")).or(
        spec_known(auth::spec_www_authenticate(s, i), spec_named(s, i, "WWW-Authenticate")),
    )
}

fn headers_third(input: &[u8], pos: usize) -> (r: Result<(Header, usize), Reject>)
    requires
        pos <= input@.len(),
    ensures
        yields(r, pos, input@.len(), spec_headers_third(input@, pos as int)),
{
    proof {
        reveal(spec_headers_third);
    }
    let r = warning::warning(input, pos);
    if !is_soft(&r) {
        return r;
    }
    if named(input, pos, "Warning").is_ok() {
        return promote(r);
    }
    let r = auth::www_authenticate(input, pos);
    if !is_soft(&r) {
        return r;
    }
    if named(input, pos, "WWW-Authenticate").is_ok() {
        return promote(r);
    }
    r
}

/// One header line: a known header or, where the line begins with no
/// known header's name, an extension header; then the line end. A header
/// whose name is known and whose value is rejected rejects the line
/// unrecoverably: it is not read as an extension header.
#[verifier::opaque]
pub open spec fn spec_message_header(s: Seq<u8>, i: int) -> Parsed<HeaderView> {
    let h = spec_headers_first(s, i).or(spec_headers_second(s, i)).or(spec_headers_third(s, i)).or(
        spec_extension_header(s, i),
    );
    Parsed { value: h.value, end: h.end.and(spec_newline(s, h.end.pos())) }
}

/// Parses at `pos` what [`spec_message_header`] describes.
pub fn message_header(input: &[u8], pos: usize) -> (r: Result<(Header, usize), Reject>)
    requires
        pos <= input@.len(),
    ensures
        yields(r, pos, input@.len(), spec_message_header(input@, pos as int)),
{
    proof {
        reveal(spec_message_header);
    }
    let mut h = headers_first(input, pos);
    if is_soft(&h) {
        h = headers_second(input, pos);
    }
    if is_soft(&h) {
        h = headers_third(input, pos);
    }
    if is_soft(&h) {
        h = extension_header(input, pos);
    }
    let (header, e) = h?;
    let n = newline(input, e)?;
    Ok((header, n))
}

/// The production of one header line.
pub struct HeaderRule;

impl Rule for HeaderRule {
    type Out = Header;

    open spec fn spec_parse(s: Seq<u8>, i: int) -> Parsed<HeaderView> {
        spec_message_header(s, i)
    }

    fn parse(input: &[u8], pos: usize) -> (r: Result<(Header, usize), Reject>) {
        message_header(input, pos)
    }
}

/// The header lines of a message: as many as follow one another, in wire
/// order. None is merged with another or left out.
#[verifier::opaque]
pub open spec fn spec_message_headers(s: Seq<u8>, i: int) -> Parsed<Seq<HeaderView>> {
    spec_many::<HeaderRule>(s, i, Sep::Nothing)
}

/// Parses at `pos` what [`spec_message_headers`] describes.
pub fn message_headers(input: &[u8], pos: usize) -> (r: Result<(Vec<Header>, usize), Reject>)
    requires
        pos <= input@.len(),
    ensures
        yields(r, pos, input@.len(), spec_message_headers(input@, pos as int)),
{
    proof {
        reveal(spec_message_headers);
    }
    many::<HeaderRule>(input, pos, Sep::Nothing)
}

} // verus!
