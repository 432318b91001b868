//! The headers that hold an address: Contact, From, To, Route, Record-Route
//! and Reply-To.

use crate::class::{COMMA, DQUOTE, GREATER, LESS, SEMICOLON, STAR};
use crate::common::{
    absolute_uri, generic_param, generic_params, sip_uri, spec_absolute_uri, spec_generic_param,
    spec_generic_params, spec_sip_uri,
};
use crate::error::{yields, Cursor, Parsed, Reject};
use crate::header::{
    Contact, ContactParam, ContactParamView, ContactValue, ContactValueView, ContactView, From,
    FromParam, FromParamView, FromView, Header, HeaderView, RecordRoute, RecordRouteView, ReplyTo,
    ReplyToView, Route, RouteView, To, ToParam, ToParamView, ToView,
};
use crate::headers::auth::{param_name, spec_param_name};
use crate::headers::content::{q_param, spec_q_param};
use crate::headers::{named, named2, spec_named, spec_named2};
use crate::list::{list1, many, repeat1, spec_list1, spec_many, spec_repeat1, Rule, Sep, Span};
use crate::scan::{byte, integer, is_soft, spec_byte, spec_integer, spec_text, text};
use crate::tokens::{
    left_angle_quote, left_double_quote, linear_whitespace, quoted_items, right_angle_quote,
    spec_closing, spec_linear_whitespace, spec_padded, spec_quoted_items, spec_token,
    spec_token_str, star, token, token_str,
};
use vstd::prelude::*;

verus! {

/// The Contact parameter `expires=`.
#[verifier::opaque]
pub open spec fn spec_contact_params_expires(s: Seq<u8>, i: int) -> Parsed<ContactParamView> {
    let a = spec_param_name(s, i, "expires");
    let n = spec_integer(s, a.pos());
    Parsed { value: ContactParamView::Expires(n.value), end: a.and(n.end) }
}

/// Parses at `pos` what [`spec_contact_params_expires`] describes.
pub fn contact_params_expires(input: &[u8], pos: usize) -> (r: Result<(ContactParam, usize), Reject>)
    requires
        pos <= input@.len(),
    ensures
        yields(r, pos, input@.len(), spec_contact_params_expires(input@, pos as int)),
{
    proof {
        reveal(spec_contact_params_expires);
    }
    let a = param_name(input, pos, "expires")?;
    let (n, e) = integer(input, a)?;
    Ok((ContactParam::Expires(n), e))
}

/// The Contact parameter `q=`.
#[verifier::opaque]
pub open spec fn spec_contact_params_q(s: Seq<u8>, i: int) -> Parsed<ContactParamView> {
    let q = spec_q_param(s, i);
    Parsed { value: ContactParamView::Q(q.value), end: q.end }
}

/// Parses at `pos` what [`spec_contact_params_q`] describes.
pub fn contact_params_q(input: &[u8], pos: usize) -> (r: Result<(ContactParam, usize), Reject>)
    requires
        pos <= input@.len(),
    ensures
        yields(r, pos, input@.len(), spec_contact_params_q(input@, pos as int)),
{
    proof {
        reveal(spec_contact_params_q);
    }
    let (q, e) = q_param(input, pos)?;
    Ok((ContactParam::Q(q), e))
}

/// Any other Contact parameter: a generic parameter.
#[verifier::opaque]
pub open spec fn spec_contact_params_extension(s: Seq<u8>, i: int) -> Parsed<ContactParamView> {
    let g = spec_generic_param(s, i);
    Parsed { value: ContactParamView::Extension(g.value), end: g.end }
}

/// Parses at `pos` what [`spec_contact_params_extension`] describes.
pub fn contact_params_extension(input: &[u8], pos: usize) -> (r: Result<
    (ContactParam, usize),
    Reject,
>)
    requires
        pos <= input@.len(),
    ensures
        yields(r, pos, input@.len(), spec_contact_params_extension(input@, pos as int)),
{
    proof {
        reveal(spec_contact_params_extension);
    }
    let (g, e) = generic_param(input, pos)?;
    Ok((ContactParam::Extension(g), e))
}

/// A Contact parameter: `q=`, `expires=` or a generic parameter.
#[verifier::opaque]
pub open spec fn spec_contact_params(s: Seq<u8>, i: int) -> Parsed<ContactParamView> {
    spec_contact_params_q(s, i).or(spec_contact_params_expires(s, i)).or(
        spec_contact_params_extension(s, i),
    )
}

/// Parses at `pos` what [`spec_contact_params`] describes.
pub fn contact_params(input: &[u8], pos: usize) -> (r: Result<(ContactParam, usize), Reject>)
    requires
        pos <= input@.len(),
    ensures
        yields(r, pos, input@.len(), spec_contact_params(input@, pos as int)),
{
    proof {
        reveal(spec_contact_params);
    }
    let r = contact_params_q(input, pos);
    if !is_soft(&r) {
        return r;
    }
    let r = contact_params_expires(input, pos);
    if !is_soft(&r) {
        return r;
    }
    contact_params_extension(input, pos)
}

/// The production of one Contact parameter.
pub struct ContactParamRule;

impl Rule for ContactParamRule {
    type Out = ContactParam;

    open spec fn spec_parse(s: Seq<u8>, i: int) -> Parsed<ContactParamView> {
        spec_contact_params(s, i)
    }

    fn parse(input: &[u8], pos: usize) -> (r: Result<(ContactParam, usize), Reject>) {
        contact_params(input, pos)
    }
}

/// A token and the linear whitespace after it: one word of a display name.
pub struct NameWord;

impl Span for NameWord {
    open spec fn spec_span(s: Seq<u8>, i: int) -> Cursor {
        let a = spec_token(s, i);
        a.and(spec_linear_whitespace(s, a.pos()))
    }

    fn span(input: &[u8], pos: usize) -> (r: Result<usize, Reject>) {
        let a = token(input, pos)?;
        linear_whitespace(input, a)
    }
}

/// A display name in quotes. The value is the span between the quotes.
#[verifier::opaque]
pub open spec fn spec_quoted_name(s: Seq<u8>, i: int) -> Parsed<(usize, usize)> {
    let a = spec_closing(s, i, DQUOTE);
    let b = a.and(spec_quoted_items(s, a.pos()));
    Parsed { value: (a.pos() as usize, b.pos() as usize), end: b.and(spec_byte(s, b.pos(), DQUOTE)) }
}

fn quoted_name(input: &[u8], pos: usize) -> (r: Result<((usize, usize), usize), Reject>)
    requires
        pos <= input@.len(),
    ensures
        yields(r, pos, input@.len(), spec_quoted_name(input@, pos as int)),
        r matches Ok((v, e)) ==> pos <= v.0 <= v.1 <= e,
{
    proof {
        reveal(spec_quoted_name);
    }
    let a = left_double_quote(input, pos)?;
    let b = quoted_items(input, a)?;
    let c = byte(input, b, DQUOTE)?;
    Ok(((a, b), c))
}

/// A display name: words, each followed by linear whitespace, or a quoted
/// string. The value is the span of the name: the words with the whitespace
/// after them, or what stands between the quotes.
#[verifier::opaque]
pub open spec fn spec_display_name(s: Seq<u8>, i: int) -> Parsed<(usize, usize)> {
    let w = spec_repeat1::<NameWord>(s, i);
    Parsed { value: (i as usize, w.pos() as usize), end: w }.or(spec_quoted_name(s, i))
}

/// Parses at `pos` what [`spec_display_name`] describes.
pub fn display_name(input: &[u8], pos: usize) -> (r: Result<((usize, usize), usize), Reject>)
    requires
        pos <= input@.len(),
    ensures
        yields(r, pos, input@.len(), spec_display_name(input@, pos as int)),
        r matches Ok((v, e)) ==> pos <= v.0 <= v.1 <= e,
{
    proof {
        reveal(spec_display_name);
    }
    match repeat1::<NameWord>(input, pos) {
        Ok(e) => {
            return Ok(((pos, e), e));
        },
        Err(x) => if x.fatal {
            return Err(x);
        },
    }
    quoted_name(input, pos)
}

/// An address without angle brackets: a SIP URI or an absolute URI. The
/// value holds no display name, and the span of the address.
#[verifier::opaque]
pub open spec fn spec_addr_spec(s: Seq<u8>, i: int) -> Parsed<(Option<(usize, usize)>, (usize, usize))> {
    let a = spec_sip_uri(s, i).or(spec_absolute_uri(s, i));
    Parsed { value: (None, (i as usize, a.pos() as usize)), end: a }
}

/// Parses at `pos` what [`spec_addr_spec`] describes.
pub fn addr_spec(input: &[u8], pos: usize) -> (r: Result<
    ((Option<(usize, usize)>, (usize, usize)), usize),
    Reject,
>)
    requires
        pos <= input@.len(),
    ensures
        yields(r, pos, input@.len(), spec_addr_spec(input@, pos as int)),
        r matches Ok((v, e)) ==> spans_inside(v, e),
{
    proof {
        reveal(spec_addr_spec);
    }
    let mut a = sip_uri(input, pos);
    if is_soft(&a) {
        a = absolute_uri(input, pos);
    }
    let a = a?;
    Ok(((None, (pos, a)), a))
}

/// The spans of a name and an address lie in order before `e`.
pub open spec fn spans_inside(v: (Option<(usize, usize)>, (usize, usize)), e: usize) -> bool {
    &&& v.1.0 <= v.1.1 <= e
    &&& v.0 matches Some(n) ==> n.0 <= n.1 <= e
}

/// An address in angle brackets, which a display name may precede. The
/// value is the span of the name, if there is one, and that of the address.
#[verifier::opaque]
pub open spec fn spec_name_addr(s: Seq<u8>, i: int) -> Parsed<(Option<(usize, usize)>, (usize, usize))> {
    let n = spec_display_name(s, i);
    let a = n.end.or_stay(i);
    let b = a.and(spec_padded(s, a.pos(), LESS));
    let u = spec_addr_spec(s, b.pos());
    let c = b.and(u.end);
    Parsed {
        value: (
            if n.end.ok() {
                Some(n.value)
            } else {
                None
            },
            u.value.1,
        ),
        end: c.and(spec_padded(s, c.pos(), GREATER)),
    }
}

/// Parses at `pos` what [`spec_name_addr`] describes.
pub fn name_addr(input: &[u8], pos: usize) -> (r: Result<
    ((Option<(usize, usize)>, (usize, usize)), usize),
    Reject,
>)
    requires
        pos <= input@.len(),
    ensures
        yields(r, pos, input@.len(), spec_name_addr(input@, pos as int)),
        r matches Ok((v, e)) ==> spans_inside(v, e),
{
    proof {
        reveal(spec_name_addr);
    }
    let (name, a) = match display_name(input, pos) {
        Ok((n, a)) => (Some(n), a),
        Err(x) => {
            if x.fatal {
                return Err(x);
            }
            (None, pos)
        },
    };
    let b = left_angle_quote(input, a)?;
    let ((_, addr), c) = addr_spec(input, b)?;
    let d = right_angle_quote(input, c)?;
    Ok(((name, addr), d))
}

/// An address in either form, the bracketed one tried first.
#[verifier::opaque]
pub open spec fn spec_any_addr(s: Seq<u8>, i: int) -> Parsed<(Option<(usize, usize)>, (usize, usize))> {
    spec_name_addr(s, i).or(spec_addr_spec(s, i))
}

/// Parses at `pos` what [`spec_any_addr`] describes.
pub fn any_addr(input: &[u8], pos: usize) -> (r: Result<
    ((Option<(usize, usize)>, (usize, usize)), usize),
    Reject,
>)
    requires
        pos <= input@.len(),
    ensures
        yields(r, pos, input@.len(), spec_any_addr(input@, pos as int)),
        r matches Ok((v, e)) ==> spans_inside(v, e),
{
    proof {
        reveal(spec_any_addr);
    }
    let r = name_addr(input, pos);
    if !is_soft(&r) {
        return r;
    }
    addr_spec(input, pos)
}

/// The texts of an address and of its display name, in this order; `end`
/// is where the production that holds them ends. The value is the pair of
/// address and name.
pub open spec fn spec_addr_texts(
    s: Seq<u8>,
    v: (Option<(usize, usize)>, (usize, usize)),
    end: Cursor,
) -> Parsed<(Seq<char>, Option<Seq<char>>)> {
    let addr = spec_text(s, v.1.0 as int, v.1.1 as int);
    let a = end.and(addr.end);
    match v.0 {
        None => Parsed { value: (addr.value, None), end: a.and(end) },
        Some(n) => {
            let name = spec_text(s, n.0 as int, n.1 as int);
            Parsed { value: (addr.value, Some(name.value)), end: a.and(name.end).and(end) }
        },
    }
}

/// The texts of the address and of the display name whose spans `v` holds.
pub fn addr_texts(input: &[u8], v: (Option<(usize, usize)>, (usize, usize)), e: usize) -> (r: Result<
    (String, Option<String>),
    Reject,
>)
    requires
        spans_inside(v, e),
        e <= input@.len(),
    ensures
        match r {
            Ok(t) => spec_addr_texts(input@, v, Cursor::At(e as int)).end == Cursor::At(e as int)
                && t.deep_view() == spec_addr_texts(input@, v, Cursor::At(e as int)).value,
            Err(x) => spec_addr_texts(input@, v, Cursor::At(e as int)).end == Cursor::Off(x),
        },
{
    let addr = text(input, v.1.0, v.1.1)?;
    match v.0 {
        None => Ok((addr, None)),
        Some(n) => {
            let name = text(input, n.0, n.1)?;
            Ok((addr, Some(name)))
        },
    }
}

/// One entry of a Contact header: an address and its parameters, in wire
/// order.
#[verifier::opaque]
pub open spec fn spec_contact_param(s: Seq<u8>, i: int) -> Parsed<ContactView> {
    let a = spec_any_addr(s, i);
    let ps = spec_many::<ContactParamRule>(s, a.end.pos(), Sep::Padded(SEMICOLON));
    let t = spec_addr_texts(s, a.value, a.end.and(ps.end));
    Parsed { value: ContactView { addr: t.value.0, name: t.value.1, params: ps.value }, end: t.end }
}

/// Parses at `pos` what [`spec_contact_param`] describes.
pub fn contact_param(input: &[u8], pos: usize) -> (r: Result<(Contact, usize), Reject>)
    requires
        pos <= input@.len(),
    ensures
        yields(r, pos, input@.len(), spec_contact_param(input@, pos as int)),
{
    proof {
        reveal(spec_contact_param);
    }
    let (v, a) = any_addr(input, pos)?;
    let (params, e) = many::<ContactParamRule>(input, a, Sep::Padded(SEMICOLON))?;
    let (addr, name) = addr_texts(input, v, e)?;
    Ok((Contact { addr, name, params }, e))
}

/// The production of one Contact entry.
pub struct ContactRule;

impl Rule for ContactRule {
    type Out = Contact;

    open spec fn spec_parse(s: Seq<u8>, i: int) -> Parsed<ContactView> {
        spec_contact_param(s, i)
    }

    fn parse(input: &[u8], pos: usize) -> (r: Result<(Contact, usize), Reject>) {
        contact_param(input, pos)
    }
}

/// The wildcard contact `*`.
#[verifier::opaque]
pub open spec fn spec_contact_star(s: Seq<u8>, i: int) -> Parsed<ContactValueView> {
    Parsed { value: ContactValueView::Any, end: spec_padded(s, i, STAR) }
}

/// Parses at `pos` what [`spec_contact_star`] describes.
pub fn contact_star(input: &[u8], pos: usize) -> (r: Result<(ContactValue, usize), Reject>)
    requires
        pos <= input@.len(),
    ensures
        yields(r, pos, input@.len(), spec_contact_star(input@, pos as int)),
{
    proof {
        reveal(spec_contact_star);
    }
    let e = star(input, pos)?;
    Ok((ContactValue::Any, e))
}

/// The Contact header, `m` for short: the wildcard, or at least one entry.
#[verifier::opaque]
pub open spec fn spec_contact(s: Seq<u8>, i: int) -> Parsed<HeaderView> {
    let a = spec_named2(s, i, "Contact", "m");
    let l = spec_list1::<ContactRule>(s, a.pos(), Sep::Padded(COMMA));
    let v = spec_contact_star(s, a.pos()).or(
        Parsed { value: ContactValueView::Specific(l.value), end: l.end },
    );
    Parsed { value: HeaderView::Contact(v.value), end: a.and(v.end) }
}

/// Parses at `pos` what [`spec_contact`] describes.
pub fn contact(input: &[u8], pos: usize) -> (r: Result<(Header, usize), Reject>)
    requires
        pos <= input@.len(),
    ensures
        yields(r, pos, input@.len(), spec_contact(input@, pos as int)),
{
    proof {
        reveal(spec_contact);
    }
    let a = named2(input, pos, "Contact", "m")?;
    match contact_star(input, a) {
        Ok((v, e)) => {
            return Ok((Header::Contact(v), e));
        },
        Err(x) => if x.fatal {
            return Err(x);
        },
    }
    let (l, e) = list1::<ContactRule>(input, a, Sep::Padded(COMMA))?;
    Ok((Header::Contact(ContactValue::Specific(l)), e))
}

/// The parameter `tag=`: a token.
#[verifier::opaque]
pub open spec fn spec_tag_param(s: Seq<u8>, i: int) -> Parsed<Seq<char>> {
    let a = spec_param_name(s, i, "tag");
    let t = spec_token_str(s, a.pos());
    Parsed { value: t.value, end: a.and(t.end) }
}

/// Parses at `pos` what [`spec_tag_param`] describes.
pub fn tag_param(input: &[u8], pos: usize) -> (r: Result<(String, usize), Reject>)
    requires
        pos <= input@.len(),
    ensures
        yields(r, pos, input@.len(), spec_tag_param(input@, pos as int)),
{
    proof {
        reveal(spec_tag_param);
    }
    let a = param_name(input, pos, "tag")?;
    token_str(input, a)
}

/// A From parameter: `tag=` or a generic parameter.
#[verifier::opaque]
pub open spec fn spec_from_param(s: Seq<u8>, i: int) -> Parsed<FromParamView> {
    let t = spec_tag_param(s, i);
    let g = spec_generic_param(s, i);
    Parsed { value: FromParamView::Tag(t.value), end: t.end }.or(
        Parsed { value: FromParamView::Extension(g.value), end: g.end },
    )
}

/// Parses at `pos` what [`spec_from_param`] describes.
pub fn from_param(input: &[u8], pos: usize) -> (r: Result<(FromParam, usize), Reject>)
    requires
        pos <= input@.len(),
    ensures
        yields(r, pos, input@.len(), spec_from_param(input@, pos as int)),
{
    proof {
        reveal(spec_from_param);
    }
    match tag_param(input, pos) {
        Ok((t, e)) => {
            return Ok((FromParam::Tag(t), e));
        },
        Err(x) => if x.fatal {
            return Err(x);
        },
    }
    let (g, e) = generic_param(input, pos)?;
    Ok((FromParam::Extension(g), e))
}

/// The production of one From parameter.
pub struct FromParamRule;

impl Rule for FromParamRule {
    type Out = FromParam;

    open spec fn spec_parse(s: Seq<u8>, i: int) -> Parsed<FromParamView> {
        spec_from_param(s, i)
    }

    fn parse(input: &[u8], pos: usize) -> (r: Result<(FromParam, usize), Reject>) {
        from_param(input, pos)
    }
}

/// The value of a From header: an address and its parameters.
#[verifier::opaque]
pub open spec fn spec_from_spec(s: Seq<u8>, i: int) -> Parsed<FromView> {
    let a = spec_any_addr(s, i);
    let ps = spec_many::<FromParamRule>(s, a.end.pos(), Sep::Padded(SEMICOLON));
    let t = spec_addr_texts(s, a.value, a.end.and(ps.end));
    Parsed { value: FromView { addr: t.value.0, name: t.value.1, params: ps.value }, end: t.end }
}

/// Parses at `pos` what [`spec_from_spec`] describes.
pub fn from_spec(input: &[u8], pos: usize) -> (r: Result<(From, usize), Reject>)
    requires
        pos <= input@.len(),
    ensures
        yields(r, pos, input@.len(), spec_from_spec(input@, pos as int)),
{
    proof {
        reveal(spec_from_spec);
    }
    let (v, a) = any_addr(input, pos)?;
    let (params, e) = many::<FromParamRule>(input, a, Sep::Padded(SEMICOLON))?;
    let (addr, name) = addr_texts(input, v, e)?;
    Ok((From { addr, name, params }, e))
}

/// The From header, `f` for short.
#[verifier::opaque]
pub open spec fn spec_from(s: Seq<u8>, i: int) -> Parsed<HeaderView> {
    let a = spec_named2(s, i, "From", "f");
    let f = spec_from_spec(s, a.pos());
    Parsed { value: HeaderView::From(f.value), end: a.and(f.end) }
}

/// Parses at `pos` what [`spec_from`] describes.
pub fn from(input: &[u8], pos: usize) -> (r: Result<(Header, usize), Reject>)
    requires
        pos <= input@.len(),
    ensures
        yields(r, pos, input@.len(), spec_from(input@, pos as int)),
{
    proof {
        reveal(spec_from);
    }
    let a = named2(input, pos, "From", "f")?;
    let (f, e) = from_spec(input, a)?;
    Ok((Header::From(f), e))
}

/// A To parameter: `tag=` or a generic parameter.
#[verifier::opaque]
pub open spec fn spec_to_param(s: Seq<u8>, i: int) -> Parsed<ToParamView> {
    let t = spec_tag_param(s, i);
    let g = spec_generic_param(s, i);
    Parsed { value: ToParamView::Tag(t.value), end: t.end }.or(
        Parsed { value: ToParamView::Extension(g.value), end: g.end },
    )
}

/// Parses at `pos` what [`spec_to_param`] describes.
pub fn to_param(input: &[u8], pos: usize) -> (r: Result<(ToParam, usize), Reject>)
    requires
        pos <= input@.len(),
    ensures
        yields(r, pos, input@.len(), spec_to_param(input@, pos as int)),
{
    proof {
        reveal(spec_to_param);
    }
    match tag_param(input, pos) {
        Ok((t, e)) => {
            return Ok((ToParam::Tag(t), e));
        },
        Err(x) => if x.fatal {
            return Err(x);
        },
    }
    let (g, e) = generic_param(input, pos)?;
    Ok((ToParam::Extension(g), e))
}

/// The production of one To parameter.
pub struct ToParamRule;

impl Rule for ToParamRule {
    type Out = ToParam;

    open spec fn spec_parse(s: Seq<u8>, i: int) -> Parsed<ToParamView> {
        spec_to_param(s, i)
    }

    fn parse(input: &[u8], pos: usize) -> (r: Result<(ToParam, usize), Reject>) {
        to_param(input, pos)
    }
}

/// The To header, `t` for short: an address and its parameters.
#[verifier::opaque]
pub open spec fn spec_to(s: Seq<u8>, i: int) -> Parsed<HeaderView> {
    let n = spec_named2(s, i, "To", "t");
    let a = spec_any_addr(s, n.pos());
    let b = n.and(a.end);
    let ps = spec_many::<ToParamRule>(s, b.pos(), Sep::Padded(SEMICOLON));
    let t = spec_addr_texts(s, a.value, b.and(ps.end));
    Parsed {
        value: HeaderView::To(ToView { addr: t.value.0, name: t.value.1, params: ps.value }),
        end: t.end,
    }
}

/// Parses at `pos` what [`spec_to`] describes.
pub fn to(input: &[u8], pos: usize) -> (r: Result<(Header, usize), Reject>)
    requires
        pos <= input@.len(),
    ensures
        yields(r, pos, input@.len(), spec_to(input@, pos as int)),
{
    proof {
        reveal(spec_to);
    }
    let n = named2(input, pos, "To", "t")?;
    let (v, a) = any_addr(input, n)?;
    let (params, e) = many::<ToParamRule>(input, a, Sep::Padded(SEMICOLON))?;
    let (addr, name) = addr_texts(input, v, e)?;
    Ok((Header::To(To { addr, name, params }), e))
}

/// One entry of a Record-Route header: a bracketed address and generic
/// parameters.
#[verifier::opaque]
pub open spec fn spec_rec_route(s: Seq<u8>, i: int) -> Parsed<RecordRouteView> {
    let a = spec_name_addr(s, i);
    let ps = spec_generic_params(s, a.end.pos());
    let t = spec_addr_texts(s, a.value, a.end.and(ps.end));
    Parsed {
        value: RecordRouteView { addr: t.value.0, name: t.value.1, params: ps.value },
        end: t.end,
    }
}

/// Parses at `pos` what [`spec_rec_route`] describes.
pub fn rec_route(input: &[u8], pos: usize) -> (r: Result<(RecordRoute, usize), Reject>)
    requires
        pos <= input@.len(),
    ensures
        yields(r, pos, input@.len(), spec_rec_route(input@, pos as int)),
{
    proof {
        reveal(spec_rec_route);
    }
    let (v, a) = name_addr(input, pos)?;
    let (params, e) = generic_params(input, a)?;
    let (addr, name) = addr_texts(input, v, e)?;
    Ok((RecordRoute { addr, name, params }, e))
}

/// The production of one Record-Route entry.
pub struct RecordRouteRule;

impl Rule for RecordRouteRule {
    type Out = RecordRoute;

    open spec fn spec_parse(s: Seq<u8>, i: int) -> Parsed<RecordRouteView> {
        spec_rec_route(s, i)
    }

    fn parse(input: &[u8], pos: usize) -> (r: Result<(RecordRoute, usize), Reject>) {
        rec_route(input, pos)
    }
}

/// The Record-Route header: at least one entry.
#[verifier::opaque]
pub open spec fn spec_record_route(s: Seq<u8>, i: int) -> Parsed<HeaderView> {
    let a = spec_named(s, i, "Record-Route");
    let l = spec_list1::<RecordRouteRule>(s, a.pos(), Sep::Padded(COMMA));
    Parsed { value: HeaderView::RecordRoute(l.value), end: a.and(l.end) }
}

/// Parses at `pos` what [`spec_record_route`] describes.
pub fn record_route(input: &[u8], pos: usize) -> (r: Result<(Header, usize), Reject>)
    requires
        pos <= input@.len(),
    ensures
        yields(r, pos, input@.len(), spec_record_route(input@, pos as int)),
{
    proof {
        reveal(spec_record_route);
    }
    let a = named(input, pos, "Record-Route")?;
    let (l, e) = list1::<RecordRouteRule>(input, a, Sep::Padded(COMMA))?;
    Ok((Header::RecordRoute(l), e))
}

/// The value of a Reply-To header: an address and generic parameters.
#[verifier::opaque]
pub open spec fn spec_rplyto_spec(s: Seq<u8>, i: int) -> Parsed<ReplyToView> {
    let a = spec_any_addr(s, i);
    let ps = spec_generic_params(s, a.end.pos());
    let t = spec_addr_texts(s, a.value, a.end.and(ps.end));
    Parsed { value: ReplyToView { addr: t.value.0, name: t.value.1, params: ps.value }, end: t.end }
}

/// Parses at `pos` what [`spec_rplyto_spec`] describes.
pub fn rplyto_spec(input: &[u8], pos: usize) -> (r: Result<(ReplyTo, usize), Reject>)
    requires
        pos <= input@.len(),
    ensures
        yields(r, pos, input@.len(), spec_rplyto_spec(input@, pos as int)),
{
    proof {
        reveal(spec_rplyto_spec);
    }
    let (v, a) = any_addr(input, pos)?;
    let (params, e) = generic_params(input, a)?;
    let (addr, name) = addr_texts(input, v, e)?;
    Ok((ReplyTo { addr, name, params }, e))
}

/// The Reply-To header.
#[verifier::opaque]
pub open spec fn spec_reply_to(s: Seq<u8>, i: int) -> Parsed<HeaderView> {
    let a = spec_named(s, i, "Reply-To");
    let v = spec_rplyto_spec(s, a.pos());
    Parsed { value: HeaderView::ReplyTo(v.value), end: a.and(v.end) }
}

/// Parses at `pos` what [`spec_reply_to`] describes.
pub fn reply_to(input: &[u8], pos: usize) -> (r: Result<(Header, usize), Reject>)
    requires
        pos <= input@.len(),
    ensures
        yields(r, pos, input@.len(), spec_reply_to(input@, pos as int)),
{
    proof {
        reveal(spec_reply_to);
    }
    let a = named(input, pos, "Reply-To")?;
    let (v, e) = rplyto_spec(input, a)?;
    Ok((Header::ReplyTo(v), e))
}

/// One entry of a Route header: a bracketed address and generic parameters.
#[verifier::opaque]
pub open spec fn spec_route_param(s: Seq<u8>, i: int) -> Parsed<RouteView> {
    let a = spec_name_addr(s, i);
    let ps = spec_generic_params(s, a.end.pos());
    let t = spec_addr_texts(s, a.value, a.end.and(ps.end));
    Parsed { value: RouteView { addr: t.value.0, name: t.value.1, params: ps.value }, end: t.end }
}

/// Parses at `pos` what [`spec_route_param`] describes.
pub fn route_param(input: &[u8], pos: usize) -> (r: Result<(Route, usize), Reject>)
    requires
        pos <= input@.len(),
    ensures
        yields(r, pos, input@.len(), spec_route_param(input@, pos as int)),
{
    proof {
        reveal(spec_route_param);
    }
    let (v, a) = name_addr(input, pos)?;
    let (params, e) = generic_params(input, a)?;
    let (addr, name) = addr_texts(input, v, e)?;
    Ok((Route { addr, name, params }, e))
}

/// The production of one Route entry.
pub struct RouteRule;

impl Rule for RouteRule {
    type Out = Route;

    open spec fn spec_parse(s: Seq<u8>, i: int) -> Parsed<RouteView> {
        spec_route_param(s, i)
    }

    fn parse(input: &[u8], pos: usize) -> (r: Result<(Route, usize), Reject>) {
        route_param(input, pos)
    }
}

/// The Route header: at least one entry.
#[verifier::opaque]
pub open spec fn spec_route(s: Seq<u8>, i: int) -> Parsed<HeaderView> {
    let a = spec_named(s, i, "Route");
    let l = spec_list1::<RouteRule>(s, a.pos(), Sep::Padded(COMMA));
    Parsed { value: HeaderView::Route(l.value), end: a.and(l.end) }
}

/// Parses at `pos` what [`spec_route`] describes.
pub fn route(input: &[u8], pos: usize) -> (r: Result<(Header, usize), Reject>)
    requires
        pos <= input@.len(),
    ensures
        yields(r, pos, input@.len(), spec_route(input@, pos as int)),
{
    proof {
        reveal(spec_route);
    }
    let a = named(input, pos, "Route")?;
    let (l, e) = list1::<RouteRule>(input, a, Sep::Padded(COMMA))?;
    Ok((Header::Route(l), e))
}

} // verus!
