//! The Via header.

use crate::class::{COLON, COMMA, SEMICOLON, SLASH};
use crate::common::{
    generic_param, host, ipv4_address, ipv6_address, port, spec_generic_param, spec_host,
    spec_ipv4_address, spec_ipv6_address, spec_port, spec_span_text, spec_transport, spec_ttl,
    transport, ttl,
};
use crate::error::{scans, yields, Cursor, Parsed, Reject};
use crate::header::{Header, HeaderView, Via, ViaParam, ViaParamView, ViaView};
use crate::headers::auth::{param_name, spec_param_name};
use crate::headers::{named2, spec_named2};
use crate::list::{list1, many, spec_list1, spec_many, Rule, Sep};
use crate::scan::{is_soft, spec_tag_no_case, tag_no_case, text};
use crate::tokens::{
    colon, linear_whitespace, slash, spec_linear_whitespace, spec_padded, spec_token,
    spec_token_str, token, token_str,
};
use vstd::prelude::*;

verus! {

/// Who sent the request: a host and, optionally, `:` and a port.
#[verifier::opaque]
pub open spec fn spec_sent_by(s: Seq<u8>, i: int) -> Cursor {
    let h = spec_host(s, i);
    let c = h.and(spec_padded(s, h.pos(), COLON));
    h.and(c.and(spec_port(s, c.pos()).end).or_stay(h.pos()))
}

/// Parses at `pos` what [`spec_sent_by`] describes.
pub fn sent_by(input: &[u8], pos: usize) -> (r: Result<usize, Reject>)
    requires
        pos <= input@.len(),
    ensures
        scans(r, pos, input@.len(), spec_sent_by(input@, pos as int)),
{
    proof {
        reveal(spec_sent_by);
    }
    let h = host(input, pos)?;
    let p = match colon(input, h) {
        Ok(c) => match port(input, c) {
            Ok((_, e)) => Ok(e),
            Err(x) => Err(x),
        },
        Err(x) => Err(x),
    };
    if is_soft(&p) {
        Ok(h)
    } else {
        p
    }
}

/// The protocol that sent the request: a name (`SIP` in either case, or a
/// token), `/`, a version token, `/` and a transport.
#[verifier::opaque]
pub open spec fn spec_sent_protocol(s: Seq<u8>, i: int) -> Cursor {
    let a = spec_tag_no_case(s, i, "SIP").or(spec_token(s, i));
    let b = a.and(spec_padded(s, a.pos(), SLASH));
    let c = b.and(spec_token(s, b.pos()));
    let d = c.and(spec_padded(s, c.pos(), SLASH));
    d.and(spec_transport(s, d.pos()).end)
}

/// Parses at `pos` what [`spec_sent_protocol`] describes.
pub fn sent_protocol(input: &[u8], pos: usize) -> (r: Result<usize, Reject>)
    requires
        pos <= input@.len(),
    ensures
        scans(r, pos, input@.len(), spec_sent_protocol(input@, pos as int)),
{
    proof {
        reveal(spec_sent_protocol);
    }
    let mut a = tag_no_case(input, pos, "SIP");
    if is_soft(&a) {
        a = token(input, pos);
    }
    let a = a?;
    let b = slash(input, a)?;
    let c = token(input, b)?;
    let d = slash(input, c)?;
    let (_, e) = transport(input, d)?;
    Ok(e)
}

/// The Via parameter `ttl=`: a time-to-live of at most 255.
#[verifier::opaque]
pub open spec fn spec_via_ttl(s: Seq<u8>, i: int) -> Parsed<ViaParamView> {
    let a = spec_param_name(s, i, "ttl");
    let n = spec_ttl(s, a.pos());
    Parsed { value: ViaParamView::Ttl(n.value), end: a.and(n.end) }
}

fn via_ttl(input: &[u8], pos: usize) -> (r: Result<(ViaParam, usize), Reject>)
    requires
        pos <= input@.len(),
    ensures
        yields(r, pos, input@.len(), spec_via_ttl(input@, pos as int)),
{
    proof {
        reveal(spec_via_ttl);
    }
    let a = param_name(input, pos, "ttl")?;
    let (n, e) = ttl(input, a)?;
    Ok((ViaParam::Ttl(n), e))
}

/// The Via parameter `maddr=`: a host.
#[verifier::opaque]
pub open spec fn spec_via_maddr(s: Seq<u8>, i: int) -> Parsed<ViaParamView> {
    let a = spec_param_name(s, i, "maddr");
    let t = spec_span_text(s, a.pos(), a.and(spec_host(s, a.pos())));
    Parsed { value: ViaParamView::MAddr(t.value), end: t.end }
}

fn via_maddr(input: &[u8], pos: usize) -> (r: Result<(ViaParam, usize), Reject>)
    requires
        pos <= input@.len(),
    ensures
        yields(r, pos, input@.len(), spec_via_maddr(input@, pos as int)),
{
    proof {
        reveal(spec_via_maddr);
    }
    let a = param_name(input, pos, "maddr")?;
    let e = host(input, a)?;
    let t = text(input, a, e)?;
    Ok((ViaParam::MAddr(t), e))
}

/// The Via parameter `received=`: an IPv4 or an IPv6 address.
#[verifier::opaque]
pub open spec fn spec_via_received(s: Seq<u8>, i: int) -> Parsed<ViaParamView> {
    let a = spec_param_name(s, i, "received");
    let t = spec_span_text(
        s,
        a.pos(),
        a.and(spec_ipv4_address(s, a.pos()).or(spec_ipv6_address(s, a.pos()))),
    );
    Parsed { value: ViaParamView::Received(t.value), end: t.end }
}

fn via_received(input: &[u8], pos: usize) -> (r: Result<(ViaParam, usize), Reject>)
    requires
        pos <= input@.len(),
    ensures
        yields(r, pos, input@.len(), spec_via_received(input@, pos as int)),
{
    proof {
        reveal(spec_via_received);
    }
    let a = param_name(input, pos, "received")?;
    let mut e = ipv4_address(input, a);
    if is_soft(&e) {
        e = ipv6_address(input, a);
    }
    let e = e?;
    let t = text(input, a, e)?;
    Ok((ViaParam::Received(t), e))
}

/// The Via parameter `branch=`: a token.
#[verifier::opaque]
pub open spec fn spec_via_branch(s: Seq<u8>, i: int) -> Parsed<ViaParamView> {
    let a = spec_param_name(s, i, "branch");
    let t = spec_token_str(s, a.pos());
    Parsed { value: ViaParamView::Branch(t.value), end: a.and(t.end) }
}

fn via_branch(input: &[u8], pos: usize) -> (r: Result<(ViaParam, usize), Reject>)
    requires
        pos <= input@.len(),
    ensures
        yields(r, pos, input@.len(), spec_via_branch(input@, pos as int)),
{
    proof {
        reveal(spec_via_branch);
    }
    let a = param_name(input, pos, "branch")?;
    let (t, e) = token_str(input, a)?;
    Ok((ViaParam::Branch(t), e))
}

/// A Via parameter: the named ones first, then a generic parameter.
#[verifier::opaque]
pub open spec fn spec_via_params(s: Seq<u8>, i: int) -> Parsed<ViaParamView> {
    let g = spec_generic_param(s, i);
    spec_via_ttl(s, i).or(spec_via_maddr(s, i)).or(spec_via_received(s, i)).or(
        spec_via_branch(s, i),
    ).or(Parsed { value: ViaParamView::Extension(g.value), end: g.end })
}

/// Parses at `pos` what [`spec_via_params`] describes.
pub fn via_params(input: &[u8], pos: usize) -> (r: Result<(ViaParam, usize), Reject>)
    requires
        pos <= input@.len(),
    ensures
        yields(r, pos, input@.len(), spec_via_params(input@, pos as int)),
{
    proof {
        reveal(spec_via_params);
    }
    let r = via_ttl(input, pos);
    if !is_soft(&r) {
        return r;
    }
    let r = via_maddr(input, pos);
    if !is_soft(&r) {
        return r;
    }
    let r = via_received(input, pos);
    if !is_soft(&r) {
        return r;
    }
    let r = via_branch(input, pos);
    if !is_soft(&r) {
        return r;
    }
    let (g, e) = generic_param(input, pos)?;
    Ok((ViaParam::Extension(g), e))
}

/// The production of one Via parameter.
pub struct ViaParamRule;

impl Rule for ViaParamRule {
    type Out = ViaParam;

    open spec fn spec_parse(s: Seq<u8>, i: int) -> Parsed<ViaParamView> {
        spec_via_params(s, i)
    }

    fn parse(input: &[u8], pos: usize) -> (r: Result<(ViaParam, usize), Reject>) {
        via_params(input, pos)
    }
}

/// One hop: the sending protocol, linear whitespace, the sender, and any
/// number of `;` and a parameter.
#[verifier::opaque]
pub open spec fn spec_via_parm(s: Seq<u8>, i: int) -> Parsed<ViaView> {
    let a = spec_sent_protocol(s, i);
    let b = a.and(spec_linear_whitespace(s, a.pos()));
    let c = b.and(spec_sent_by(s, b.pos()));
    let ps = spec_many::<ViaParamRule>(s, c.pos(), Sep::Padded(SEMICOLON));
    let d = c.and(ps.end);
    let protocol = spec_span_text(s, i, d.and(a));
    let sender = spec_span_text(s, b.pos(), protocol.end.and(c));
    Parsed {
        value: ViaView { protocol: protocol.value, sent_by: sender.value, params: ps.value },
        end: sender.end.and(d),
    }
}

/// Parses at `pos` what [`spec_via_parm`] describes.
pub fn via_parm(input: &[u8], pos: usize) -> (r: Result<(Via, usize), Reject>)
    requires
        pos <= input@.len(),
    ensures
        yields(r, pos, input@.len(), spec_via_parm(input@, pos as int)),
{
    proof {
        reveal(spec_via_parm);
    }
    let a = sent_protocol(input, pos)?;
    let b = linear_whitespace(input, a)?;
    let c = sent_by(input, b)?;
    let (params, d) = many::<ViaParamRule>(input, c, Sep::Padded(SEMICOLON))?;
    let protocol = text(input, pos, a)?;
    let sent_by = text(input, b, c)?;
    Ok((Via { protocol, sent_by, params }, d))
}

/// The production of one hop.
pub struct ViaRule;

impl Rule for ViaRule {
    type Out = Via;

    open spec fn spec_parse(s: Seq<u8>, i: int) -> Parsed<ViaView> {
        spec_via_parm(s, i)
    }

    fn parse(input: &[u8], pos: usize) -> (r: Result<(Via, usize), Reject>) {
        via_parm(input, pos)
    }
}

/// The Via header, `v` for short: at least one hop, in wire order.
#[verifier::opaque]
pub open spec fn spec_via(s: Seq<u8>, i: int) -> Parsed<HeaderView> {
    let a = spec_named2(s, i, "Via", "v");
    let l = spec_list1::<ViaRule>(s, a.pos(), Sep::Padded(COMMA));
    Parsed { value: HeaderView::Via(l.value), end: a.and(l.end) }
}

/// Parses at `pos` what [`spec_via`] describes.
pub fn via(input: &[u8], pos: usize) -> (r: Result<(Header, usize), Reject>)
    requires
        pos <= input@.len(),
    ensures
        yields(r, pos, input@.len(), spec_via(input@, pos as int)),
{
    proof {
        reveal(spec_via);
    }
    let a = named2(input, pos, "Via", "v")?;
    let (l, e) = list1::<ViaRule>(input, a, Sep::Padded(COMMA))?;
    Ok((Header::Via(l), e))
}

} // verus!
