//! Generic syntax productions: hosts and addresses, SIP and absolute URIs,
//! methods, versions and parameters of the generic shape.

use crate::class::{
    Class, AMP, AT_SIGN, COLON, COMMA, DOT, EQUALS, HYPHEN, LBRACKET, ONE, QUESTION, RBRACKET,
    SEMICOLON, SLASH, ZERO,
};
use crate::list::{
    many, list0, repeat, spec_list0, spec_many, spec_repeat, Rule, Sep, Span,
};
use crate::error::{
    abort, abort_at, miss_as, reject_at, scans, yields, Cursor, ErrorKind, Parsed, Reject,
};
use crate::header::{GenericParam, GenericParamView, URIHeader, URIHeaderView, URIParam, URIParamView};
use crate::rfc2806::{spec_telephone_subscriber, telephone_subscriber};
use crate::scan::{
    byte, decimal, digits_value, integer, is_soft, lemma_run_upto_members, m_n, one, spec_byte,
    spec_integer, spec_m_n, spec_one, spec_tag, spec_tag_no_case, spec_text, spec_while0,
    spec_while1, tag, tag_no_case, text, while0, while1,
};
use crate::sip::{Method, MethodView, Transport, TransportView, User, UserView, Version};
use crate::tokens::{
    equal, password, quoted_string, spec_padded, spec_password, spec_quoted_string, spec_token,
    spec_token_str, spec_user, token, token_str, user,
};
use vstd::prelude::*;

verus! {

/// The rest of the input, verbatim: a message's body.
#[verifier::opaque]
pub open spec fn spec_message_body(s: Seq<u8>, i: int) -> Parsed<Seq<u8>> {
    Parsed { value: s.subrange(i, s.len() as int), end: Cursor::At(s.len() as int) }
}

/// Parses at `pos` what [`spec_message_body`] describes.
pub fn message_body(input: &[u8], pos: usize) -> (r: Result<(Vec<u8>, usize), Reject>)
    requires
        pos <= input@.len(),
    ensures
        yields(r, pos, input@.len(), spec_message_body(input@, pos as int)),
{
    proof {
        reveal(spec_message_body);
    }
    let mut body: Vec<u8> = Vec::new();
    let mut i: usize = pos;
    while i < input.len()
        invariant
            pos <= i <= input@.len(),
            body@ == input@.subrange(pos as int, i as int),
        decreases input@.len() - i,
    {
        body.push(input[i]);
        assert(input@.subrange(pos as int, i + 1) =~= input@.subrange(pos as int, i as int).push(
            input@[i as int],
        ));
        i = i + 1;
    }
    assert(body.deep_view() =~= body@);
    Ok((body, i))
}

/// A top label: letters, digits and hyphens that begin with a letter and do
/// not end with a hyphen.
#[verifier::opaque]
pub open spec fn spec_top_label(s: Seq<u8>, i: int) -> Cursor {
    let a = spec_while1(s, i, Class::AlphanumericHyphen);
    if a.ok() && (s[a.pos() - 1] == HYPHEN || !nom::character::is_alphabetic(s[i])) {
        miss_as(ErrorKind::InvalidDomainPart, i)
    } else {
        a
    }
}

/// Parses at `pos` what [`spec_top_label`] describes.
pub fn top_label(input: &[u8], pos: usize) -> (r: Result<usize, Reject>)
    requires
        pos <= input@.len(),
    ensures
        scans(r, pos, input@.len(), spec_top_label(input@, pos as int)),
{
    proof {
        reveal(spec_top_label);
    }
    let e = while1(input, pos, Class::AlphanumericHyphen)?;
    if input[e - 1] == HYPHEN || !nom::character::is_alphabetic(input[pos]) {
        Err(reject_at(ErrorKind::InvalidDomainPart, pos))
    } else {
        Ok(e)
    }
}

/// A domain label: letters, digits and hyphens, with no hyphen at either end.
#[verifier::opaque]
pub open spec fn spec_domain_label(s: Seq<u8>, i: int) -> Cursor {
    let a = spec_while1(s, i, Class::AlphanumericHyphen);
    if a.ok() && (s[i] == HYPHEN || s[a.pos() - 1] == HYPHEN) {
        miss_as(ErrorKind::InvalidDomainPart, i)
    } else {
        a
    }
}

/// Parses at `pos` what [`spec_domain_label`] describes.
pub fn domain_label(input: &[u8], pos: usize) -> (r: Result<usize, Reject>)
    requires
        pos <= input@.len(),
    ensures
        scans(r, pos, input@.len(), spec_domain_label(input@, pos as int)),
        r is Err ==> !r->Err_0.fatal,
{
    proof {
        reveal(spec_domain_label);
    }
    let e = while1(input, pos, Class::AlphanumericHyphen)?;
    if input[pos] == HYPHEN || input[e - 1] == HYPHEN {
        Err(reject_at(ErrorKind::InvalidDomainPart, pos))
    } else {
        Ok(e)
    }
}

/// A domain label and the dot after it.
pub open spec fn spec_dotted_label(s: Seq<u8>, i: int) -> Cursor {
    let a = spec_domain_label(s, i);
    a.and(spec_byte(s, a.pos(), DOT))
}

/// As many dotted labels as follow one another.
pub open spec fn spec_dotted_labels(s: Seq<u8>, i: int) -> Cursor
    decreases s.len() - i,
{
    match spec_dotted_label(s, i) {
        Cursor::At(j) => if i < j <= s.len() {
            spec_dotted_labels(s, j)
        } else {
            Cursor::At(i)
        },
        Cursor::Off(x) => if x.fatal {
            Cursor::Off(x)
        } else {
            Cursor::At(i)
        },
    }
}

/// Where the last of the dotted labels from `i` begins; `last` if there is
/// none.
pub open spec fn spec_last_dotted(s: Seq<u8>, i: int, last: int) -> int
    decreases s.len() - i,
{
    match spec_dotted_label(s, i) {
        Cursor::At(j) => if i < j <= s.len() {
            spec_last_dotted(s, j, i)
        } else {
            last
        },
        Cursor::Off(_) => last,
    }
}

fn dotted_label(input: &[u8], pos: usize) -> (r: Result<usize, Reject>)
    requires
        pos <= input@.len(),
    ensures
        scans(r, pos, input@.len(), spec_dotted_label(input@, pos as int)),
        r is Err ==> !r->Err_0.fatal,
        r matches Ok(e) ==> e > pos,
{
    let a = domain_label(input, pos)?;
    byte(input, a, DOT)
}

/// The end of the dotted labels from `pos`, and where the last one begins.
fn dotted_labels(input: &[u8], pos: usize) -> (r: (usize, usize))
    requires
        pos <= input@.len(),
    ensures
        spec_dotted_labels(input@, pos as int) == Cursor::At(r.0 as int),
        spec_last_dotted(input@, pos as int, pos as int) == r.1,
        pos <= r.1 <= r.0 <= input@.len(),
        r.0 > pos ==> r.1 < r.0,
        spec_dotted_label(input@, pos as int).ok() ==> r.0 > pos,
{
    let mut i: usize = pos;
    let mut last: usize = pos;
    loop
        invariant
            pos <= last <= i <= input@.len(),
            i > pos ==> last < i,
            spec_dotted_labels(input@, pos as int) == spec_dotted_labels(input@, i as int),
            spec_last_dotted(input@, pos as int, pos as int) == spec_last_dotted(
                input@,
                i as int,
                last as int,
            ),
        decreases input@.len() - i,
    {
        match dotted_label(input, i) {
            Ok(j) => {
                if j <= i {
                    return (i, last);
                }
                last = i;
                i = j;
            },
            Err(_) => {
                return (i, last);
            },
        }
    }
}

/// A hostname: dotted labels and a top label, or dotted labels alone (a
/// fully qualified name), whose last label must then begin with a letter.
#[verifier::opaque]
pub open spec fn spec_hostname(s: Seq<u8>, i: int) -> Cursor {
    let run = spec_dotted_labels(s, i);
    let plain = run.and(spec_top_label(s, run.pos()));
    let dotted = spec_dotted_label(s, i).and(run);
    let qualified = if dotted.ok() && !nom::character::is_alphabetic(s[spec_last_dotted(s, i, i)]) {
        miss_as(ErrorKind::InvalidHostname, i)
    } else {
        dotted
    };
    plain.or(qualified)
}

/// Parses at `pos` what [`spec_hostname`] describes.
pub fn hostname(input: &[u8], pos: usize) -> (r: Result<usize, Reject>)
    requires
        pos <= input@.len(),
    ensures
        scans(r, pos, input@.len(), spec_hostname(input@, pos as int)),
{
    proof {
        reveal(spec_hostname);
    }
    let (run, last) = dotted_labels(input, pos);
    let plain = top_label(input, run);
    if !is_soft(&plain) {
        return plain;
    }
    let first = dotted_label(input, pos);
    match first {
        Err(x) => Err(x),
        Ok(_) => {
            if nom::character::is_alphabetic(input[last]) {
                Ok(run)
            } else {
                Err(reject_at(ErrorKind::InvalidHostname, pos))
            }
        },
    }
}

/// A group of one to three digits.
pub open spec fn spec_digits3(s: Seq<u8>, i: int) -> Cursor {
    spec_m_n(s, i, Class::Digit, 1, 3)
}

/// An IPv4 address: four groups of one to three digits, separated by dots.
/// The groups' values are not checked.
#[verifier::opaque]
pub open spec fn spec_ipv4_address(s: Seq<u8>, i: int) -> Cursor {
    let a = spec_digits3(s, i);
    let b = a.and(spec_byte(s, a.pos(), DOT));
    let c = b.and(spec_digits3(s, b.pos()));
    let d = c.and(spec_byte(s, c.pos(), DOT));
    let e = d.and(spec_digits3(s, d.pos()));
    let f = e.and(spec_byte(s, e.pos(), DOT));
    f.and(spec_digits3(s, f.pos()))
}

/// Parses at `pos` what [`spec_ipv4_address`] describes.
pub fn ipv4_address(input: &[u8], pos: usize) -> (r: Result<usize, Reject>)
    requires
        pos <= input@.len(),
    ensures
        scans(r, pos, input@.len(), spec_ipv4_address(input@, pos as int)),
{
    proof {
        reveal(spec_ipv4_address);
    }
    let a = m_n(input, pos, Class::Digit, 1, 3)?;
    let b = byte(input, a, DOT)?;
    let c = m_n(input, b, Class::Digit, 1, 3)?;
    let d = byte(input, c, DOT)?;
    let e = m_n(input, d, Class::Digit, 1, 3)?;
    let f = byte(input, e, DOT)?;
    m_n(input, f, Class::Digit, 1, 3)
}

/// A port: a decimal integer.
#[verifier::opaque]
pub open spec fn spec_port(s: Seq<u8>, i: int) -> Parsed<i32> {
    spec_integer(s, i)
}

/// Parses at `pos` what [`spec_port`] describes.
pub fn port(input: &[u8], pos: usize) -> (r: Result<(i32, usize), Reject>)
    requires
        pos <= input@.len(),
    ensures
        yields(r, pos, input@.len(), spec_port(input@, pos as int)),
{
    proof {
        reveal(spec_port);
    }
    integer(input, pos)
}

/// A group of one to four hexadecimal digits.
pub open spec fn spec_hex4(s: Seq<u8>, i: int) -> Cursor {
    spec_m_n(s, i, Class::HexDigit, 1, 4)
}

/// A colon and a group of hexadecimal digits.
pub open spec fn spec_colon_hex4(s: Seq<u8>, i: int) -> Cursor {
    let a = spec_byte(s, i, COLON);
    a.and(spec_hex4(s, a.pos()))
}

/// As many such groups as follow one another.
pub open spec fn spec_colon_hex4s(s: Seq<u8>, i: int) -> Cursor
    decreases s.len() - i,
{
    match spec_colon_hex4(s, i) {
        Cursor::At(j) => if i < j <= s.len() {
            spec_colon_hex4s(s, j)
        } else {
            Cursor::At(i)
        },
        Cursor::Off(x) => if x.fatal {
            Cursor::Off(x)
        } else {
            Cursor::At(i)
        },
    }
}

/// Groups of hexadecimal digits, separated by single colons.
#[verifier::opaque]
pub open spec fn spec_hexseq(s: Seq<u8>, i: int) -> Cursor {
    let a = spec_hex4(s, i);
    a.and(spec_colon_hex4s(s, a.pos()))
}

fn colon_hex4(input: &[u8], pos: usize) -> (r: Result<usize, Reject>)
    requires
        pos <= input@.len(),
    ensures
        scans(r, pos, input@.len(), spec_colon_hex4(input@, pos as int)),
{
    let a = byte(input, pos, COLON)?;
    m_n(input, a, Class::HexDigit, 1, 4)
}

fn colon_hex4s(input: &[u8], pos: usize) -> (r: Result<usize, Reject>)
    requires
        pos <= input@.len(),
    ensures
        scans(r, pos, input@.len(), spec_colon_hex4s(input@, pos as int)),
{
    let mut i: usize = pos;
    loop
        invariant
            pos <= i <= input@.len(),
            spec_colon_hex4s(input@, pos as int) == spec_colon_hex4s(input@, i as int),
        decreases input@.len() - i,
    {
        match colon_hex4(input, i) {
            Ok(j) => {
                if j <= i {
                    return Ok(i);
                }
                i = j;
            },
            Err(x) => {
                if x.fatal {
                    return Err(x);
                }
                return Ok(i);
            },
        }
    }
}

/// Parses at `pos` what [`spec_hexseq`] describes.
pub fn hexseq(input: &[u8], pos: usize) -> (r: Result<usize, Reject>)
    requires
        pos <= input@.len(),
    ensures
        scans(r, pos, input@.len(), spec_hexseq(input@, pos as int)),
{
    proof {
        reveal(spec_hexseq);
    }
    let a = m_n(input, pos, Class::HexDigit, 1, 4)?;
    colon_hex4s(input, a)
}

/// Two colons and, optionally, groups of hexadecimal digits.
#[verifier::opaque]
pub open spec fn spec_compressed(s: Seq<u8>, i: int) -> Cursor {
    let a = spec_byte(s, i, COLON);
    let b = a.and(spec_byte(s, a.pos(), COLON));
    b.and(spec_hexseq(s, b.pos()).or_stay(b.pos()))
}

/// The hexadecimal part of an IPv6 address: groups with a double colon in
/// or after them, a double colon before groups, or groups alone.
#[verifier::opaque]
pub open spec fn spec_hexpart(s: Seq<u8>, i: int) -> Cursor {
    let a = spec_hexseq(s, i);
    a.and(spec_compressed(s, a.pos())).or(spec_compressed(s, i)).or(a)
}

fn compressed(input: &[u8], pos: usize) -> (r: Result<usize, Reject>)
    requires
        pos <= input@.len(),
    ensures
        scans(r, pos, input@.len(), spec_compressed(input@, pos as int)),
{
    proof {
        reveal(spec_compressed);
    }
    let a = byte(input, pos, COLON)?;
    let b = byte(input, a, COLON)?;
    let r = hexseq(input, b);
    if is_soft(&r) {
        Ok(b)
    } else {
        r
    }
}

/// Parses at `pos` what [`spec_hexpart`] describes.
pub fn hexpart(input: &[u8], pos: usize) -> (r: Result<usize, Reject>)
    requires
        pos <= input@.len(),
    ensures
        scans(r, pos, input@.len(), spec_hexpart(input@, pos as int)),
{
    proof {
        reveal(spec_hexpart);
    }
    let a = hexseq(input, pos);
    let first = match a {
        Ok(e) => compressed(input, e),
        Err(x) => Err(x),
    };
    if !is_soft(&first) {
        return first;
    }
    let second = compressed(input, pos);
    if !is_soft(&second) {
        return second;
    }
    a
}

/// An IPv6 address: a hexadecimal part and, optionally, a colon and an IPv4
/// address.
#[verifier::opaque]
pub open spec fn spec_ipv6_address(s: Seq<u8>, i: int) -> Cursor {
    let a = spec_hexpart(s, i);
    let b = a.and(spec_byte(s, a.pos(), COLON));
    a.and(b.and(spec_ipv4_address(s, b.pos())).or_stay(a.pos()))
}

/// Parses at `pos` what [`spec_ipv6_address`] describes.
pub fn ipv6_address(input: &[u8], pos: usize) -> (r: Result<usize, Reject>)
    requires
        pos <= input@.len(),
    ensures
        scans(r, pos, input@.len(), spec_ipv6_address(input@, pos as int)),
{
    proof {
        reveal(spec_ipv6_address);
    }
    let a = hexpart(input, pos)?;
    let tail = match byte(input, a, COLON) {
        Ok(b) => ipv4_address(input, b),
        Err(x) => Err(x),
    };
    if is_soft(&tail) {
        Ok(a)
    } else {
        tail
    }
}

/// An IPv6 reference: an IPv6 address in square brackets.
#[verifier::opaque]
pub open spec fn spec_ipv6_reference(s: Seq<u8>, i: int) -> Cursor {
    let a = spec_byte(s, i, LBRACKET);
    let b = a.and(spec_ipv6_address(s, a.pos()));
    b.and(spec_byte(s, b.pos(), RBRACKET))
}

/// Parses at `pos` what [`spec_ipv6_reference`] describes.
pub fn ipv6_reference(input: &[u8], pos: usize) -> (r: Result<usize, Reject>)
    requires
        pos <= input@.len(),
    ensures
        scans(r, pos, input@.len(), spec_ipv6_reference(input@, pos as int)),
{
    proof {
        reveal(spec_ipv6_reference);
    }
    let a = byte(input, pos, LBRACKET)?;
    let b = ipv6_address(input, a)?;
    byte(input, b, RBRACKET)
}

/// A host: a hostname, an IPv4 address or an IPv6 reference, tried in this
/// order.
#[verifier::opaque]
pub open spec fn spec_host(s: Seq<u8>, i: int) -> Cursor {
    spec_hostname(s, i).or(spec_ipv4_address(s, i)).or(spec_ipv6_reference(s, i))
}

/// Parses at `pos` what [`spec_host`] describes.
pub fn host(input: &[u8], pos: usize) -> (r: Result<usize, Reject>)
    requires
        pos <= input@.len(),
    ensures
        scans(r, pos, input@.len(), spec_host(input@, pos as int)),
{
    proof {
        reveal(spec_host);
    }
    let r = hostname(input, pos);
    if !is_soft(&r) {
        return r;
    }
    let r = ipv4_address(input, pos);
    if !is_soft(&r) {
        return r;
    }
    ipv6_reference(input, pos)
}

/// A colon and a port.
#[verifier::opaque]
pub open spec fn spec_colon_port(s: Seq<u8>, i: int) -> Parsed<i32> {
    let a = spec_byte(s, i, COLON);
    let p = spec_port(s, a.pos());
    Parsed { value: p.value, end: a.and(p.end) }
}

/// A host and, optionally, a colon and a port. The value is the offset at
/// which the host ends, and the port if there is one.
#[verifier::opaque]
pub open spec fn spec_host_port(s: Seq<u8>, i: int) -> Parsed<(usize, Option<i32>)> {
    let h = spec_host(s, i);
    let p = spec_colon_port(s, h.pos());
    if p.end.soft() {
        Parsed { value: (h.pos() as usize, None), end: h }
    } else {
        Parsed { value: (h.pos() as usize, Some(p.value)), end: h.and(p.end) }
    }
}

fn colon_port(input: &[u8], pos: usize) -> (r: Result<(i32, usize), Reject>)
    requires
        pos <= input@.len(),
    ensures
        yields(r, pos, input@.len(), spec_colon_port(input@, pos as int)),
{
    proof {
        reveal(spec_colon_port);
    }
    let a = byte(input, pos, COLON)?;
    port(input, a)
}

/// Parses at `pos` what [`spec_host_port`] describes.
pub fn host_port(input: &[u8], pos: usize) -> (r: Result<((usize, Option<i32>), usize), Reject>)
    requires
        pos <= input@.len(),
    ensures
        yields(r, pos, input@.len(), spec_host_port(input@, pos as int)),
        r matches Ok((v, e)) ==> pos <= v.0 <= e,
{
    proof {
        reveal(spec_host_port);
    }
    let h = host(input, pos)?;
    match colon_port(input, h) {
        Ok((p, e)) => Ok(((h, Some(p)), e)),
        Err(x) => {
            if x.fatal {
                Err(x)
            } else {
                Ok(((h, None), h))
            }
        },
    }
}


/// The user part of a URI: a user name or a telephone subscriber,
/// optionally a colon and a password, and the `@` that ends it.
#[verifier::opaque]
pub open spec fn spec_user_info(s: Seq<u8>, i: int) -> Cursor {
    let a = spec_user(s, i).or(spec_telephone_subscriber(s, i));
    let c = a.and(spec_byte(s, a.pos(), COLON));
    let b = a.and(c.and(spec_password(s, c.pos())).or_stay(a.pos()));
    b.and(spec_byte(s, b.pos(), AT_SIGN))
}

/// Parses at `pos` what [`spec_user_info`] describes.
pub fn user_info(input: &[u8], pos: usize) -> (r: Result<usize, Reject>)
    requires
        pos <= input@.len(),
    ensures
        scans(r, pos, input@.len(), spec_user_info(input@, pos as int)),
{
    proof {
        reveal(spec_user_info);
    }
    let mut a = user(input, pos);
    if is_soft(&a) {
        a = telephone_subscriber(input, pos);
    }
    let a = a?;
    let pw = match byte(input, a, COLON) {
        Ok(c) => password(input, c),
        Err(x) => Err(x),
    };
    let b = if is_soft(&pw) {
        a
    } else {
        pw?
    };
    byte(input, b, AT_SIGN)
}

/// A value that a keyword stands for: `lit` in either case yields `value`.
pub open spec fn spec_keyword<V>(s: Seq<u8>, i: int, lit: &str, value: V) -> Parsed<V> {
    Parsed { value, end: spec_tag_no_case(s, i, lit) }
}

/// The same for a keyword that must be written as it stands.
pub open spec fn spec_exact<V>(s: Seq<u8>, i: int, lit: &str, value: V) -> Parsed<V> {
    Parsed { value, end: spec_tag(s, i, lit) }
}

/// Any other transport: a token, kept verbatim.
#[verifier::opaque]
pub open spec fn spec_transport_extension(s: Seq<u8>, i: int) -> Parsed<TransportView> {
    let t = spec_token_str(s, i);
    Parsed { value: TransportView::Extension(t.value), end: t.end }
}

/// Parses at `pos` what [`spec_transport_extension`] describes.
pub fn transport_extension(input: &[u8], pos: usize) -> (r: Result<(Transport, usize), Reject>)
    requires
        pos <= input@.len(),
    ensures
        yields(r, pos, input@.len(), spec_transport_extension(input@, pos as int)),
{
    proof {
        reveal(spec_transport_extension);
    }
    let (t, e) = token_str(input, pos)?;
    Ok((Transport::Extension(t), e))
}

/// A transport: one of the four known names, in either case, or a token.
/// A known name is taken even where more token characters follow it.
#[verifier::opaque]
pub open spec fn spec_transport(s: Seq<u8>, i: int) -> Parsed<TransportView> {
    spec_keyword(s, i, "udp", TransportView::UDP).or(
        spec_keyword(s, i, "tcp", TransportView::TCP),
    ).or(spec_keyword(s, i, "sctp", TransportView::SCTP)).or(
        spec_keyword(s, i, "TLS", TransportView::TLS),
    ).or(spec_transport_extension(s, i))
}

/// Parses at `pos` what [`spec_transport`] describes.
pub fn transport(input: &[u8], pos: usize) -> (r: Result<(Transport, usize), Reject>)
    requires
        pos <= input@.len(),
    ensures
        yields(r, pos, input@.len(), spec_transport(input@, pos as int)),
{
    proof {
        reveal(spec_transport);
    }
    if let Ok(e) = tag_no_case(input, pos, "udp") {
        return Ok((Transport::UDP, e));
    }
    if let Ok(e) = tag_no_case(input, pos, "tcp") {
        return Ok((Transport::TCP, e));
    }
    if let Ok(e) = tag_no_case(input, pos, "sctp") {
        return Ok((Transport::SCTP, e));
    }
    if let Ok(e) = tag_no_case(input, pos, "TLS") {
        return Ok((Transport::TLS, e));
    }
    transport_extension(input, pos)
}

/// The kind of user that a URI names: `phone`, `ip` or a token.
#[verifier::opaque]
pub open spec fn spec_user_kind(s: Seq<u8>, i: int) -> Parsed<UserView> {
    let t = spec_token_str(s, i);
    spec_keyword(s, i, "phone", UserView::Phone).or(spec_keyword(s, i, "ip", UserView::IP)).or(
        Parsed { value: UserView::Other(t.value), end: t.end },
    )
}

/// Parses at `pos` what [`spec_user_kind`] describes.
pub fn user_kind(input: &[u8], pos: usize) -> (r: Result<(User, usize), Reject>)
    requires
        pos <= input@.len(),
    ensures
        yields(r, pos, input@.len(), spec_user_kind(input@, pos as int)),
{
    proof {
        reveal(spec_user_kind);
    }
    if let Ok(e) = tag_no_case(input, pos, "phone") {
        return Ok((User::Phone, e));
    }
    if let Ok(e) = tag_no_case(input, pos, "ip") {
        return Ok((User::IP, e));
    }
    let (t, e) = token_str(input, pos)?;
    Ok((User::Other(t), e))
}

/// A method: one of the six known names, written in capitals, or a token.
/// A known name is taken even where more token characters follow it.
#[verifier::opaque]
pub open spec fn spec_method(s: Seq<u8>, i: int) -> Parsed<MethodView> {
    let t = spec_token_str(s, i);
    spec_exact(s, i, "INVITE", MethodView::Invite).or(spec_exact(s, i, "ACK", MethodView::Ack)).or(
        spec_exact(s, i, "OPTIONS", MethodView::Options),
    ).or(spec_exact(s, i, "BYE", MethodView::Bye)).or(
        spec_exact(s, i, "CANCEL", MethodView::Cancel),
    ).or(spec_exact(s, i, "REGISTER", MethodView::Register)).or(
        Parsed { value: MethodView::Extension(t.value), end: t.end },
    )
}

/// Parses at `pos` what [`spec_method`] describes.
pub fn method(input: &[u8], pos: usize) -> (r: Result<(Method, usize), Reject>)
    requires
        pos <= input@.len(),
    ensures
        yields(r, pos, input@.len(), spec_method(input@, pos as int)),
{
    proof {
        reveal(spec_method);
    }
    if let Ok(e) = tag(input, pos, "INVITE") {
        return Ok((Method::Invite, e));
    }
    if let Ok(e) = tag(input, pos, "ACK") {
        return Ok((Method::Ack, e));
    }
    if let Ok(e) = tag(input, pos, "OPTIONS") {
        return Ok((Method::Options, e));
    }
    if let Ok(e) = tag(input, pos, "BYE") {
        return Ok((Method::Bye, e));
    }
    if let Ok(e) = tag(input, pos, "CANCEL") {
        return Ok((Method::Cancel, e));
    }
    if let Ok(e) = tag(input, pos, "REGISTER") {
        return Ok((Method::Register, e));
    }
    let (t, e) = token_str(input, pos)?;
    Ok((Method::Extension(t), e))
}

/// The protocol version: `SIP/`, a major number, a dot and a minor number.
#[verifier::opaque]
pub open spec fn spec_sip_version(s: Seq<u8>, i: int) -> Parsed<Version> {
    let a = spec_tag_no_case(s, i, "SIP/");
    let major = spec_integer(s, a.pos());
    let b = a.and(major.end);
    let c = b.and(spec_byte(s, b.pos(), DOT));
    let minor = spec_integer(s, c.pos());
    Parsed {
        value: if major.value == 2 && minor.value == 0 {
            Version::Two
        } else {
            Version::Other(major.value, minor.value)
        },
        end: c.and(minor.end),
    }
}

/// Parses at `pos` what [`spec_sip_version`] describes.
pub fn sip_version(input: &[u8], pos: usize) -> (r: Result<(Version, usize), Reject>)
    requires
        pos <= input@.len(),
    ensures
        yields(r, pos, input@.len(), spec_sip_version(input@, pos as int)),
{
    proof {
        reveal(spec_sip_version);
    }
    let a = tag_no_case(input, pos, "SIP/")?;
    let (major, b) = integer(input, a)?;
    let c = byte(input, b, DOT)?;
    let (minor, d) = integer(input, c)?;
    if major == 2 && minor == 0 {
        Ok((Version::Two, d))
    } else {
        Ok((Version::Other(major, minor), d))
    }
}

/// A time-to-live: one to three digits whose number is at most 255. A
/// larger number is an unrecoverable rejection.
#[verifier::opaque]
pub open spec fn spec_ttl(s: Seq<u8>, i: int) -> Parsed<i32> {
    let a = spec_m_n(s, i, Class::Digit, 1, 3);
    let n = decimal(s.subrange(i, a.pos()));
    Parsed {
        value: n as i32,
        end: if !a.ok() {
            a
        } else if n > i32::MAX {
            abort(ErrorKind::InvalidIntegerError, i)
        } else if n > 255 {
            abort(ErrorKind::InvalidTTLValue, i)
        } else {
            a
        },
    }
}

/// Parses at `pos` what [`spec_ttl`] describes.
pub fn ttl(input: &[u8], pos: usize) -> (r: Result<(i32, usize), Reject>)
    requires
        pos <= input@.len(),
    ensures
        yields(r, pos, input@.len(), spec_ttl(input@, pos as int)),
{
    proof {
        reveal(spec_ttl);
    }
    let a = m_n(input, pos, Class::Digit, 1, 3)?;
    proof {
        lemma_run_upto_members(input@, pos as int, Class::Digit, 3);
    }
    match digits_value(input, pos, a) {
        None => Err(abort_at(ErrorKind::InvalidIntegerError, pos)),
        Some(n) => {
            if n > 255 {
                Err(abort_at(ErrorKind::InvalidTTLValue, pos))
            } else {
                Ok((n, a))
            }
        },
    }
}

/// The text of a recognized span: `end` is where the span that begins at
/// `i` ends, or why there is none.
pub open spec fn spec_span_text(s: Seq<u8>, i: int, end: Cursor) -> Parsed<Seq<char>> {
    let t = spec_text(s, i, end.pos());
    Parsed { value: t.value, end: end.and(t.end) }
}

/// The URI parameter `transport=`.
#[verifier::opaque]
pub open spec fn spec_uri_parameter_transport(s: Seq<u8>, i: int) -> Parsed<URIParamView> {
    let a = spec_tag_no_case(s, i, "transport=");
    let t = spec_transport(s, a.pos());
    Parsed { value: URIParamView::Transport(t.value), end: a.and(t.end) }
}

/// The URI parameter `user=`.
#[verifier::opaque]
pub open spec fn spec_uri_parameter_user(s: Seq<u8>, i: int) -> Parsed<URIParamView> {
    let a = spec_tag_no_case(s, i, "user=");
    let u = spec_user_kind(s, a.pos());
    Parsed { value: URIParamView::User(u.value), end: a.and(u.end) }
}

/// The URI parameter `method=`.
#[verifier::opaque]
pub open spec fn spec_uri_parameter_method(s: Seq<u8>, i: int) -> Parsed<URIParamView> {
    let a = spec_tag_no_case(s, i, "method=");
    let m = spec_method(s, a.pos());
    Parsed { value: URIParamView::Method(m.value), end: a.and(m.end) }
}

/// The URI parameter `ttl=`.
#[verifier::opaque]
pub open spec fn spec_uri_parameter_ttl(s: Seq<u8>, i: int) -> Parsed<URIParamView> {
    let a = spec_tag_no_case(s, i, "ttl=");
    let t = spec_ttl(s, a.pos());
    Parsed { value: URIParamView::TTL(t.value), end: a.and(t.end) }
}

/// The URI parameter `maddr=`.
#[verifier::opaque]
pub open spec fn spec_uri_parameter_maddr(s: Seq<u8>, i: int) -> Parsed<URIParamView> {
    let a = spec_tag_no_case(s, i, "maddr=");
    let t = spec_span_text(s, a.pos(), a.and(spec_host(s, a.pos())));
    Parsed { value: URIParamView::MAddr(t.value), end: t.end }
}

/// Any other URI parameter: a name and, optionally, `=` and a value, both
/// made of parameter characters.
#[verifier::opaque]
pub open spec fn spec_uri_parameter_other(s: Seq<u8>, i: int) -> Parsed<URIParamView> {
    let a = spec_while1(s, i, Class::ParamChar);
    let b = a.and(spec_byte(s, a.pos(), EQUALS));
    let c = b.and(spec_while1(s, b.pos(), Class::ParamChar));
    let name = spec_span_text(s, i, a);
    if c.soft() || !a.ok() {
        Parsed { value: URIParamView::Other(name.value, None), end: name.end }
    } else {
        let value = spec_span_text(s, b.pos(), c);
        Parsed {
            value: URIParamView::Other(name.value, Some(value.value)),
            end: name.end.and(value.end),
        }
    }
}

/// A URI parameter: the known ones first, the most specific name first.
#[verifier::opaque]
pub open spec fn spec_uri_parameter(s: Seq<u8>, i: int) -> Parsed<URIParamView> {
    spec_uri_parameter_transport(s, i).or(spec_uri_parameter_user(s, i)).or(
        spec_uri_parameter_method(s, i),
    ).or(spec_uri_parameter_ttl(s, i)).or(spec_uri_parameter_maddr(s, i)).or(
        spec_keyword(s, i, "lr", URIParamView::LR),
    ).or(spec_uri_parameter_other(s, i))
}

fn uri_parameter_transport(input: &[u8], pos: usize) -> (r: Result<(URIParam, usize), Reject>)
    requires
        pos <= input@.len(),
    ensures
        yields(r, pos, input@.len(), spec_uri_parameter_transport(input@, pos as int)),
{
    proof {
        reveal(spec_uri_parameter_transport);
    }
    let a = tag_no_case(input, pos, "transport=")?;
    let (t, e) = transport(input, a)?;
    Ok((URIParam::Transport(t), e))
}

fn uri_parameter_user(input: &[u8], pos: usize) -> (r: Result<(URIParam, usize), Reject>)
    requires
        pos <= input@.len(),
    ensures
        yields(r, pos, input@.len(), spec_uri_parameter_user(input@, pos as int)),
{
    proof {
        reveal(spec_uri_parameter_user);
    }
    let a = tag_no_case(input, pos, "user=")?;
    let (u, e) = user_kind(input, a)?;
    Ok((URIParam::User(u), e))
}

fn uri_parameter_method(input: &[u8], pos: usize) -> (r: Result<(URIParam, usize), Reject>)
    requires
        pos <= input@.len(),
    ensures
        yields(r, pos, input@.len(), spec_uri_parameter_method(input@, pos as int)),
{
    proof {
        reveal(spec_uri_parameter_method);
    }
    let a = tag_no_case(input, pos, "method=")?;
    let (m, e) = method(input, a)?;
    Ok((URIParam::Method(m), e))
}

fn uri_parameter_ttl(input: &[u8], pos: usize) -> (r: Result<(URIParam, usize), Reject>)
    requires
        pos <= input@.len(),
    ensures
        yields(r, pos, input@.len(), spec_uri_parameter_ttl(input@, pos as int)),
{
    proof {
        reveal(spec_uri_parameter_ttl);
    }
    let a = tag_no_case(input, pos, "ttl=")?;
    let (t, e) = ttl(input, a)?;
    Ok((URIParam::TTL(t), e))
}

fn uri_parameter_maddr(input: &[u8], pos: usize) -> (r: Result<(URIParam, usize), Reject>)
    requires
        pos <= input@.len(),
    ensures
        yields(r, pos, input@.len(), spec_uri_parameter_maddr(input@, pos as int)),
{
    proof {
        reveal(spec_uri_parameter_maddr);
    }
    let a = tag_no_case(input, pos, "maddr=")?;
    let e = host(input, a)?;
    let t = text(input, a, e)?;
    Ok((URIParam::MAddr(t), e))
}

fn uri_parameter_other(input: &[u8], pos: usize) -> (r: Result<(URIParam, usize), Reject>)
    requires
        pos <= input@.len(),
    ensures
        yields(r, pos, input@.len(), spec_uri_parameter_other(input@, pos as int)),
{
    proof {
        reveal(spec_uri_parameter_other);
    }
    let a = while1(input, pos, Class::ParamChar)?;
    let c = match byte(input, a, EQUALS) {
        Ok(b) => match while1(input, b, Class::ParamChar) {
            Ok(c) => Some((b, c)),
            Err(_) => None,
        },
        Err(_) => None,
    };
    let name = text(input, pos, a)?;
    match c {
        None => Ok((URIParam::Other(name, None), a)),
        Some((b, c)) => {
            let value = text(input, b, c)?;
            Ok((URIParam::Other(name, Some(value)), c))
        },
    }
}

/// Parses at `pos` what [`spec_uri_parameter`] describes.
pub fn uri_parameter(input: &[u8], pos: usize) -> (r: Result<(URIParam, usize), Reject>)
    requires
        pos <= input@.len(),
    ensures
        yields(r, pos, input@.len(), spec_uri_parameter(input@, pos as int)),
{
    proof {
        reveal(spec_uri_parameter);
    }
    let r = uri_parameter_transport(input, pos);
    if !is_soft(&r) {
        return r;
    }
    let r = uri_parameter_user(input, pos);
    if !is_soft(&r) {
        return r;
    }
    let r = uri_parameter_method(input, pos);
    if !is_soft(&r) {
        return r;
    }
    let r = uri_parameter_ttl(input, pos);
    if !is_soft(&r) {
        return r;
    }
    let r = uri_parameter_maddr(input, pos);
    if !is_soft(&r) {
        return r;
    }
    if let Ok(e) = tag_no_case(input, pos, "lr") {
        return Ok((URIParam::LR, e));
    }
    uri_parameter_other(input, pos)
}

/// The production of one URI parameter.
pub struct UriParameterRule;

impl Rule for UriParameterRule {
    type Out = URIParam;

    open spec fn spec_parse(s: Seq<u8>, i: int) -> Parsed<URIParamView> {
        spec_uri_parameter(s, i)
    }

    fn parse(input: &[u8], pos: usize) -> (r: Result<(URIParam, usize), Reject>) {
        uri_parameter(input, pos)
    }
}

/// The parameters of a URI: any number of `;` and a parameter.
#[verifier::opaque]
pub open spec fn spec_uri_parameters(s: Seq<u8>, i: int) -> Parsed<Seq<URIParamView>> {
    spec_many::<UriParameterRule>(s, i, Sep::Plain(SEMICOLON))
}

/// Parses at `pos` what [`spec_uri_parameters`] describes.
pub fn uri_parameters(input: &[u8], pos: usize) -> (r: Result<(Vec<URIParam>, usize), Reject>)
    requires
        pos <= input@.len(),
    ensures
        yields(r, pos, input@.len(), spec_uri_parameters(input@, pos as int)),
{
    proof {
        reveal(spec_uri_parameters);
    }
    many::<UriParameterRule>(input, pos, Sep::Plain(SEMICOLON))
}

/// A header carried in a URI: a name, `=` and a value that may be empty.
#[verifier::opaque]
pub open spec fn spec_uri_header(s: Seq<u8>, i: int) -> Parsed<URIHeaderView> {
    let a = spec_while1(s, i, Class::HeaderChar);
    let b = a.and(spec_byte(s, a.pos(), EQUALS));
    let c = b.and(spec_while0(s, b.pos(), Class::HeaderChar));
    let name = spec_span_text(s, i, c.and(a));
    let value = spec_span_text(s, b.pos(), c);
    Parsed {
        value: URIHeaderView { name: name.value, value: value.value },
        end: name.end.and(value.end),
    }
}

/// Parses at `pos` what [`spec_uri_header`] describes.
pub fn uri_header(input: &[u8], pos: usize) -> (r: Result<(URIHeader, usize), Reject>)
    requires
        pos <= input@.len(),
    ensures
        yields(r, pos, input@.len(), spec_uri_header(input@, pos as int)),
{
    proof {
        reveal(spec_uri_header);
    }
    let a = while1(input, pos, Class::HeaderChar)?;
    let b = byte(input, a, EQUALS)?;
    let c = while0(input, b, Class::HeaderChar)?;
    let name = text(input, pos, a)?;
    let value = text(input, b, c)?;
    Ok((URIHeader { name, value }, c))
}

/// The production of one URI header.
pub struct UriHeaderRule;

impl Rule for UriHeaderRule {
    type Out = URIHeader;

    open spec fn spec_parse(s: Seq<u8>, i: int) -> Parsed<URIHeaderView> {
        spec_uri_header(s, i)
    }

    fn parse(input: &[u8], pos: usize) -> (r: Result<(URIHeader, usize), Reject>) {
        uri_header(input, pos)
    }
}

/// The headers of a URI: `?` and headers that `&` separates.
#[verifier::opaque]
pub open spec fn spec_uri_headers(s: Seq<u8>, i: int) -> Parsed<Seq<URIHeaderView>> {
    let a = spec_byte(s, i, QUESTION);
    let l = spec_list0::<UriHeaderRule>(s, a.pos(), Sep::Plain(AMP));
    Parsed { value: l.value, end: a.and(l.end) }
}

/// Parses at `pos` what [`spec_uri_headers`] describes.
pub fn uri_headers(input: &[u8], pos: usize) -> (r: Result<(Vec<URIHeader>, usize), Reject>)
    requires
        pos <= input@.len(),
    ensures
        yields(r, pos, input@.len(), spec_uri_headers(input@, pos as int)),
{
    proof {
        reveal(spec_uri_headers);
    }
    let a = byte(input, pos, QUESTION)?;
    list0::<UriHeaderRule>(input, a, Sep::Plain(AMP))
}

/// What follows the scheme of a SIP or SIPS URI: an optional user part, a
/// host with an optional port, parameters, and optional headers.
#[verifier::opaque]
pub open spec fn spec_sip_uri_rest(s: Seq<u8>, i: int) -> Cursor {
    let u = spec_user_info(s, i).or_stay(i);
    let h = u.and(spec_host_port(s, u.pos()).end);
    let p = h.and(spec_uri_parameters(s, h.pos()).end);
    p.and(spec_uri_headers(s, p.pos()).end.or_stay(p.pos()))
}

/// A SIP URI: `sip:` in either case and what follows it.
#[verifier::opaque]
pub open spec fn spec_sip_uri(s: Seq<u8>, i: int) -> Cursor {
    let a = spec_tag_no_case(s, i, "sip:");
    a.and(spec_sip_uri_rest(s, a.pos()))
}

/// A SIPS URI: `sips:` in either case and what follows it.
#[verifier::opaque]
pub open spec fn spec_sips_uri(s: Seq<u8>, i: int) -> Cursor {
    let a = spec_tag_no_case(s, i, "sips:");
    a.and(spec_sip_uri_rest(s, a.pos()))
}

fn sip_uri_rest(input: &[u8], pos: usize) -> (r: Result<usize, Reject>)
    requires
        pos <= input@.len(),
    ensures
        scans(r, pos, input@.len(), spec_sip_uri_rest(input@, pos as int)),
{
    proof {
        reveal(spec_sip_uri_rest);
    }
    let ui = user_info(input, pos);
    let u = if is_soft(&ui) {
        pos
    } else {
        ui?
    };
    let (_, h) = host_port(input, u)?;
    let (_, p) = uri_parameters(input, h)?;
    match uri_headers(input, p) {
        Ok((_, e)) => Ok(e),
        Err(x) => {
            if x.fatal {
                Err(x)
            } else {
                Ok(p)
            }
        },
    }
}

/// Parses at `pos` what [`spec_sip_uri`] describes.
pub fn sip_uri(input: &[u8], pos: usize) -> (r: Result<usize, Reject>)
    requires
        pos <= input@.len(),
    ensures
        scans(r, pos, input@.len(), spec_sip_uri(input@, pos as int)),
{
    proof {
        reveal(spec_sip_uri);
    }
    let a = tag_no_case(input, pos, "sip:")?;
    sip_uri_rest(input, a)
}

/// Parses at `pos` what [`spec_sips_uri`] describes.
pub fn sips_uri(input: &[u8], pos: usize) -> (r: Result<usize, Reject>)
    requires
        pos <= input@.len(),
    ensures
        scans(r, pos, input@.len(), spec_sips_uri(input@, pos as int)),
{
    proof {
        reveal(spec_sips_uri);
    }
    let a = tag_no_case(input, pos, "sips:")?;
    sip_uri_rest(input, a)
}

/// A query: any run of URI characters, the empty one included.
pub open spec fn spec_query(s: Seq<u8>, i: int) -> Cursor {
    spec_while0(s, i, Class::Uric)
}

/// A server: optionally a user part with a second `@`, and a host with an
/// optional port; or nothing at all.
#[verifier::opaque]
pub open spec fn spec_srvr(s: Seq<u8>, i: int) -> Cursor {
    let u = spec_user_info(s, i);
    let v = u.and(spec_byte(s, u.pos(), AT_SIGN)).or_stay(i);
    v.and(spec_host_port(s, v.pos()).end).or_stay(i)
}

/// Parses at `pos` what [`spec_srvr`] describes.
pub fn srvr(input: &[u8], pos: usize) -> (r: Result<usize, Reject>)
    requires
        pos <= input@.len(),
    ensures
        scans(r, pos, input@.len(), spec_srvr(input@, pos as int)),
{
    proof {
        reveal(spec_srvr);
    }
    let u = match user_info(input, pos) {
        Ok(u) => byte(input, u, AT_SIGN),
        Err(x) => Err(x),
    };
    let v = if is_soft(&u) {
        pos
    } else {
        u?
    };
    match host_port(input, v) {
        Ok((_, e)) => Ok(e),
        Err(x) => {
            if x.fatal {
                Err(x)
            } else {
                Ok(pos)
            }
        },
    }
}

/// An authority: a server or a registry name.
#[verifier::opaque]
pub open spec fn spec_authority(s: Seq<u8>, i: int) -> Cursor {
    spec_srvr(s, i).or(spec_while1(s, i, Class::RegName))
}

/// Parses at `pos` what [`spec_authority`] describes.
pub fn authority(input: &[u8], pos: usize) -> (r: Result<usize, Reject>)
    requires
        pos <= input@.len(),
    ensures
        scans(r, pos, input@.len(), spec_authority(input@, pos as int)),
{
    proof {
        reveal(spec_authority);
    }
    let r = srvr(input, pos);
    if !is_soft(&r) {
        return r;
    }
    while1(input, pos, Class::RegName)
}

/// A scheme: letters, then any run of scheme characters.
#[verifier::opaque]
pub open spec fn spec_scheme(s: Seq<u8>, i: int) -> Cursor {
    let a = spec_while1(s, i, Class::Alphabetic);
    a.and(spec_while0(s, a.pos(), Class::SchemeChar))
}

/// Parses at `pos` what [`spec_scheme`] describes.
pub fn scheme(input: &[u8], pos: usize) -> (r: Result<usize, Reject>)
    requires
        pos <= input@.len(),
    ensures
        scans(r, pos, input@.len(), spec_scheme(input@, pos as int)),
{
    proof {
        reveal(spec_scheme);
    }
    let a = while1(input, pos, Class::Alphabetic)?;
    while0(input, a, Class::SchemeChar)
}

/// A `;` and a path parameter.
pub struct SegmentParam;

impl Span for SegmentParam {
    open spec fn spec_span(s: Seq<u8>, i: int) -> Cursor {
        let a = spec_byte(s, i, SEMICOLON);
        a.and(spec_while0(s, a.pos(), Class::Pchar))
    }

    fn span(input: &[u8], pos: usize) -> (r: Result<usize, Reject>) {
        let a = byte(input, pos, SEMICOLON)?;
        while0(input, a, Class::Pchar)
    }
}

/// A path segment: path parameters that `;` separates, the first of which
/// is not empty.
#[verifier::opaque]
pub open spec fn spec_segment(s: Seq<u8>, i: int) -> Cursor {
    let a = spec_while1(s, i, Class::Pchar);
    a.and(spec_repeat::<SegmentParam>(s, a.pos()))
}

/// Parses at `pos` what [`spec_segment`] describes.
pub fn segment(input: &[u8], pos: usize) -> (r: Result<usize, Reject>)
    requires
        pos <= input@.len(),
    ensures
        scans(r, pos, input@.len(), spec_segment(input@, pos as int)),
{
    proof {
        reveal(spec_segment);
    }
    let a = while1(input, pos, Class::Pchar)?;
    repeat::<SegmentParam>(input, a)
}

/// A `/` and a path segment.
pub struct SlashSegment;

impl Span for SlashSegment {
    open spec fn spec_span(s: Seq<u8>, i: int) -> Cursor {
        let a = spec_byte(s, i, SLASH);
        a.and(spec_segment(s, a.pos()))
    }

    fn span(input: &[u8], pos: usize) -> (r: Result<usize, Reject>) {
        let a = byte(input, pos, SLASH)?;
        segment(input, a)
    }
}

/// Path segments that `/` separates.
#[verifier::opaque]
pub open spec fn spec_path_segments(s: Seq<u8>, i: int) -> Cursor {
    let a = spec_segment(s, i);
    a.and(spec_repeat::<SlashSegment>(s, a.pos()))
}

/// Parses at `pos` what [`spec_path_segments`] describes.
pub fn path_segments(input: &[u8], pos: usize) -> (r: Result<usize, Reject>)
    requires
        pos <= input@.len(),
    ensures
        scans(r, pos, input@.len(), spec_path_segments(input@, pos as int)),
{
    proof {
        reveal(spec_path_segments);
    }
    let a = segment(input, pos)?;
    repeat::<SlashSegment>(input, a)
}

/// An opaque part: a URI character that is no slash, then any URI characters.
#[verifier::opaque]
pub open spec fn spec_opaque_part(s: Seq<u8>, i: int) -> Cursor {
    let a = spec_one(s, i, Class::UricNoSlash);
    a.and(spec_while0(s, a.pos(), Class::Uric))
}

/// Parses at `pos` what [`spec_opaque_part`] describes.
pub fn opaque_part(input: &[u8], pos: usize) -> (r: Result<usize, Reject>)
    requires
        pos <= input@.len(),
    ensures
        scans(r, pos, input@.len(), spec_opaque_part(input@, pos as int)),
{
    proof {
        reveal(spec_opaque_part);
    }
    let a = one(input, pos, Class::UricNoSlash)?;
    while0(input, a, Class::Uric)
}

/// An absolute path: `/` and path segments.
#[verifier::opaque]
pub open spec fn spec_abs_path(s: Seq<u8>, i: int) -> Cursor {
    let a = spec_byte(s, i, SLASH);
    a.and(spec_path_segments(s, a.pos()))
}

/// Parses at `pos` what [`spec_abs_path`] describes.
pub fn abs_path(input: &[u8], pos: usize) -> (r: Result<usize, Reject>)
    requires
        pos <= input@.len(),
    ensures
        scans(r, pos, input@.len(), spec_abs_path(input@, pos as int)),
{
    proof {
        reveal(spec_abs_path);
    }
    let a = byte(input, pos, SLASH)?;
    path_segments(input, a)
}

/// A network path: `//`, an authority and, optionally, an absolute path.
#[verifier::opaque]
pub open spec fn spec_net_path(s: Seq<u8>, i: int) -> Cursor {
    let a = spec_byte(s, i, SLASH);
    let b = a.and(spec_byte(s, a.pos(), SLASH));
    let c = b.and(spec_authority(s, b.pos()));
    c.and(spec_abs_path(s, c.pos()).or_stay(c.pos()))
}

/// Parses at `pos` what [`spec_net_path`] describes.
pub fn net_path(input: &[u8], pos: usize) -> (r: Result<usize, Reject>)
    requires
        pos <= input@.len(),
    ensures
        scans(r, pos, input@.len(), spec_net_path(input@, pos as int)),
{
    proof {
        reveal(spec_net_path);
    }
    let a = byte(input, pos, SLASH)?;
    let b = byte(input, a, SLASH)?;
    let c = authority(input, b)?;
    let r = abs_path(input, c);
    if is_soft(&r) {
        Ok(c)
    } else {
        r
    }
}

/// A hierarchical part: a network path or an absolute path, and optionally
/// `?` and a query.
#[verifier::opaque]
pub open spec fn spec_hier_part(s: Seq<u8>, i: int) -> Cursor {
    let a = spec_net_path(s, i).or(spec_abs_path(s, i));
    let q = a.and(spec_byte(s, a.pos(), QUESTION));
    a.and(q.and(spec_query(s, q.pos())).or_stay(a.pos()))
}

/// Parses at `pos` what [`spec_hier_part`] describes.
pub fn hier_part(input: &[u8], pos: usize) -> (r: Result<usize, Reject>)
    requires
        pos <= input@.len(),
    ensures
        scans(r, pos, input@.len(), spec_hier_part(input@, pos as int)),
{
    proof {
        reveal(spec_hier_part);
    }
    let mut a = net_path(input, pos);
    if is_soft(&a) {
        a = abs_path(input, pos);
    }
    let a = a?;
    match byte(input, a, QUESTION) {
        Ok(q) => while0(input, q, Class::Uric),
        Err(_) => Ok(a),
    }
}

/// An absolute URI: a scheme, `:`, and a hierarchical or an opaque part.
#[verifier::opaque]
pub open spec fn spec_absolute_uri(s: Seq<u8>, i: int) -> Cursor {
    let a = spec_scheme(s, i);
    let b = a.and(spec_byte(s, a.pos(), COLON));
    b.and(spec_hier_part(s, b.pos()).or(spec_opaque_part(s, b.pos())))
}

/// Parses at `pos` what [`spec_absolute_uri`] describes.
pub fn absolute_uri(input: &[u8], pos: usize) -> (r: Result<usize, Reject>)
    requires
        pos <= input@.len(),
    ensures
        scans(r, pos, input@.len(), spec_absolute_uri(input@, pos as int)),
{
    proof {
        reveal(spec_absolute_uri);
    }
    let a = scheme(input, pos)?;
    let b = byte(input, a, COLON)?;
    let r = hier_part(input, b);
    if !is_soft(&r) {
        return r;
    }
    opaque_part(input, b)
}

/// The value of a generic parameter: a host, a token or a quoted string,
/// tried in this order, as text.
#[verifier::opaque]
pub open spec fn spec_gen_value(s: Seq<u8>, i: int) -> Parsed<Seq<char>> {
    spec_span_text(s, i, spec_host(s, i).or(spec_token(s, i)).or(spec_quoted_string(s, i)))
}

/// Parses at `pos` what [`spec_gen_value`] describes.
pub fn gen_value(input: &[u8], pos: usize) -> (r: Result<(String, usize), Reject>)
    requires
        pos <= input@.len(),
    ensures
        yields(r, pos, input@.len(), spec_gen_value(input@, pos as int)),
{
    proof {
        reveal(spec_gen_value);
    }
    let mut a = host(input, pos);
    if is_soft(&a) {
        a = token(input, pos);
    }
    if is_soft(&a) {
        a = quoted_string(input, pos);
    }
    let a = a?;
    let t = text(input, pos, a)?;
    Ok((t, a))
}

/// A generic parameter: a token and, optionally, `=` and a value. Where
/// no value follows the `=`, the parameter ends before it.
#[verifier::opaque]
pub open spec fn spec_generic_param(s: Seq<u8>, i: int) -> Parsed<GenericParamView> {
    let n = spec_token_str(s, i);
    let e = n.end.and(spec_padded(s, n.end.pos(), EQUALS));
    let g = spec_gen_value(s, e.pos());
    let v = e.and(g.end);
    if v.soft() || !n.end.ok() {
        Parsed { value: GenericParamView { name: n.value, value: None }, end: n.end }
    } else {
        Parsed { value: GenericParamView { name: n.value, value: Some(g.value) }, end: v }
    }
}

/// Parses at `pos` what [`spec_generic_param`] describes.
pub fn generic_param(input: &[u8], pos: usize) -> (r: Result<(GenericParam, usize), Reject>)
    requires
        pos <= input@.len(),
    ensures
        yields(r, pos, input@.len(), spec_generic_param(input@, pos as int)),
{
    proof {
        reveal(spec_generic_param);
    }
    let (name, n) = token_str(input, pos)?;
    let v = match equal(input, n) {
        Ok(e) => gen_value(input, e),
        Err(x) => Err(x),
    };
    match v {
        Ok((value, e)) => Ok((GenericParam { name, value: Some(value) }, e)),
        Err(x) => {
            if x.fatal {
                Err(x)
            } else {
                Ok((GenericParam { name, value: None }, n))
            }
        },
    }
}

/// The production of one generic parameter.
pub struct GenericParamRule;

impl Rule for GenericParamRule {
    type Out = GenericParam;

    open spec fn spec_parse(s: Seq<u8>, i: int) -> Parsed<GenericParamView> {
        spec_generic_param(s, i)
    }

    fn parse(input: &[u8], pos: usize) -> (r: Result<(GenericParam, usize), Reject>) {
        generic_param(input, pos)
    }
}

/// Any number of `;` and a generic parameter.
#[verifier::opaque]
pub open spec fn spec_generic_params(s: Seq<u8>, i: int) -> Parsed<Seq<GenericParamView>> {
    spec_many::<GenericParamRule>(s, i, Sep::Padded(SEMICOLON))
}

/// Parses at `pos` what [`spec_generic_params`] describes.
pub fn generic_params(input: &[u8], pos: usize) -> (r: Result<(Vec<GenericParam>, usize), Reject>)
    requires
        pos <= input@.len(),
    ensures
        yields(r, pos, input@.len(), spec_generic_params(input@, pos as int)),
{
    proof {
        reveal(spec_generic_params);
    }
    many::<GenericParamRule>(input, pos, Sep::Padded(SEMICOLON))
}

/// The production of a token as text.
pub struct TokenRule;

impl Rule for TokenRule {
    type Out = String;

    open spec fn spec_parse(s: Seq<u8>, i: int) -> Parsed<Seq<char>> {
        spec_token_str(s, i)
    }

    fn parse(input: &[u8], pos: usize) -> (r: Result<(String, usize), Reject>) {
        token_str(input, pos)
    }
}

/// Further option tags: any number of `,` and a token.
#[verifier::opaque]
pub open spec fn spec_option_tag(s: Seq<u8>, i: int) -> Parsed<Seq<Seq<char>>> {
    spec_many::<TokenRule>(s, i, Sep::Padded(COMMA))
}

/// Parses at `pos` what [`spec_option_tag`] describes.
pub fn option_tag(input: &[u8], pos: usize) -> (r: Result<(Vec<String>, usize), Reject>)
    requires
        pos <= input@.len(),
    ensures
        yields(r, pos, input@.len(), spec_option_tag(input@, pos as int)),
{
    proof {
        reveal(spec_option_tag);
    }
    many::<TokenRule>(input, pos, Sep::Padded(COMMA))
}

/// A dot and up to three bytes of `class`.
#[verifier::opaque]
pub open spec fn spec_fraction(s: Seq<u8>, i: int, class: Class) -> Cursor {
    let a = spec_byte(s, i, DOT);
    a.and(spec_m_n(s, a.pos(), class, 0, 3))
}

/// A preference weight between 0 and 1: `0` with up to three decimals, or
/// `1` with up to three zeros. The grammar itself keeps the value in range.
#[verifier::opaque]
pub open spec fn spec_qvalue(s: Seq<u8>, i: int) -> Cursor {
    let a = spec_byte(s, i, ZERO);
    let b = spec_byte(s, i, ONE);
    a.and(spec_fraction(s, a.pos(), Class::Digit).or_stay(a.pos())).or(
        b.and(spec_fraction(s, b.pos(), Class::ZeroDigit).or_stay(b.pos())),
    )
}

fn fraction(input: &[u8], pos: usize, class: Class) -> (r: Result<usize, Reject>)
    requires
        pos <= input@.len(),
    ensures
        scans(r, pos, input@.len(), spec_fraction(input@, pos as int, class)),
        r is Err ==> !r->Err_0.fatal,
{
    proof {
        reveal(spec_fraction);
    }
    let a = byte(input, pos, DOT)?;
    m_n(input, a, class, 0, 3)
}

/// Parses at `pos` what [`spec_qvalue`] describes.
pub fn qvalue(input: &[u8], pos: usize) -> (r: Result<usize, Reject>)
    requires
        pos <= input@.len(),
    ensures
        scans(r, pos, input@.len(), spec_qvalue(input@, pos as int)),
{
    proof {
        reveal(spec_qvalue);
    }
    if let Ok(a) = byte(input, pos, ZERO) {
        return match fraction(input, a, Class::Digit) {
            Ok(e) => Ok(e),
            Err(_) => Ok(a),
        };
    }
    let b = byte(input, pos, ONE)?;
    match fraction(input, b, Class::ZeroDigit) {
        Ok(e) => Ok(e),
        Err(_) => Ok(b),
    }
}


/// The transport `udp`, in either case.
pub fn transport_udp(input: &[u8], pos: usize) -> (r: Result<(Transport, usize), Reject>)
    requires
        pos <= input@.len(),
    ensures
        yields(r, pos, input@.len(), spec_keyword(input@, pos as int, "udp", TransportView::UDP)),
{
    let e = tag_no_case(input, pos, "udp")?;
    Ok((Transport::UDP, e))
}

/// The transport `tcp`, in either case.
pub fn transport_tcp(input: &[u8], pos: usize) -> (r: Result<(Transport, usize), Reject>)
    requires
        pos <= input@.len(),
    ensures
        yields(r, pos, input@.len(), spec_keyword(input@, pos as int, "tcp", TransportView::TCP)),
{
    let e = tag_no_case(input, pos, "tcp")?;
    Ok((Transport::TCP, e))
}

/// The transport `sctp`, in either case.
pub fn transport_sctp(input: &[u8], pos: usize) -> (r: Result<(Transport, usize), Reject>)
    requires
        pos <= input@.len(),
    ensures
        yields(r, pos, input@.len(), spec_keyword(input@, pos as int, "sctp", TransportView::SCTP)),
{
    let e = tag_no_case(input, pos, "sctp")?;
    Ok((Transport::SCTP, e))
}

/// The transport `TLS`, in either case.
pub fn transport_tls(input: &[u8], pos: usize) -> (r: Result<(Transport, usize), Reject>)
    requires
        pos <= input@.len(),
    ensures
        yields(r, pos, input@.len(), spec_keyword(input@, pos as int, "TLS", TransportView::TLS)),
{
    let e = tag_no_case(input, pos, "TLS")?;
    Ok((Transport::TLS, e))
}

} // verus!
