//! The Call-ID, Call-Info and In-Reply-To headers.

use crate::class::{AT_SIGN, COMMA, GREATER, LESS, SEMICOLON};
use crate::common::{
    absolute_uri, generic_param, spec_absolute_uri, spec_generic_param, spec_keyword,
    spec_span_text,
};
use crate::error::{yields, Cursor, Parsed, Reject};
use crate::header::{
    Header, HeaderView, Info, InfoParam, InfoParamPurpose, InfoParamPurposeView, InfoParamView,
    InfoView,
};
use crate::headers::auth::{param_name, spec_param_name};
use crate::headers::{named, named2, spec_named, spec_named2};
use crate::list::{list0, list1, spec_list0, spec_list1, Rule, Sep};
use crate::scan::{byte, is_soft, spec_byte, tag_no_case, text};
use crate::tokens::{
    spec_padded, left_angle_quote, right_angle_quote, spec_token_str, spec_word, token_str, word,
};
use vstd::prelude::*;

verus! {

/// A call identifier: a word and, optionally, `@` and a word, as text.
#[verifier::opaque]
pub open spec fn spec_callid(s: Seq<u8>, i: int) -> Parsed<Seq<char>> {
    let a = spec_word(s, i);
    let b = a.and(spec_byte(s, a.pos(), AT_SIGN));
    spec_span_text(s, i, a.and(b.and(spec_word(s, b.pos())).or_stay(a.pos())))
}

/// Parses at `pos` what [`spec_callid`] describes.
pub fn callid(input: &[u8], pos: usize) -> (r: Result<(String, usize), Reject>)
    requires
        pos <= input@.len(),
    ensures
        yields(r, pos, input@.len(), spec_callid(input@, pos as int)),
{
    proof {
        reveal(spec_callid);
    }
    let a = word(input, pos)?;
    let tail = match byte(input, a, AT_SIGN) {
        Ok(b) => word(input, b),
        Err(x) => Err(x),
    };
    let e = if is_soft(&tail) {
        a
    } else {
        tail?
    };
    let t = text(input, pos, e)?;
    Ok((t, e))
}

/// The production of one call identifier.
pub struct CallIdRule;

impl Rule for CallIdRule {
    type Out = String;

    open spec fn spec_parse(s: Seq<u8>, i: int) -> Parsed<Seq<char>> {
        spec_callid(s, i)
    }

    fn parse(input: &[u8], pos: usize) -> (r: Result<(String, usize), Reject>) {
        callid(input, pos)
    }
}

/// The Call-ID header, `i` for short.
#[verifier::opaque]
pub open spec fn spec_call_id(s: Seq<u8>, i: int) -> Parsed<HeaderView> {
    let a = spec_named2(s, i, "Call-ID", "i");
    let c = spec_callid(s, a.pos());
    Parsed { value: HeaderView::CallID(c.value), end: a.and(c.end) }
}

/// Parses at `pos` what [`spec_call_id`] describes.
pub fn call_id(input: &[u8], pos: usize) -> (r: Result<(Header, usize), Reject>)
    requires
        pos <= input@.len(),
    ensures
        yields(r, pos, input@.len(), spec_call_id(input@, pos as int)),
{
    proof {
        reveal(spec_call_id);
    }
    let a = named2(input, pos, "Call-ID", "i")?;
    let (c, e) = callid(input, a)?;
    Ok((Header::CallID(c), e))
}

/// The In-Reply-To header: at least one call identifier, the first of
/// which is not empty.
#[verifier::opaque]
pub open spec fn spec_in_reply_to(s: Seq<u8>, i: int) -> Parsed<HeaderView> {
    let a = spec_named(s, i, "In-Reply-To");
    let l = spec_list1::<CallIdRule>(s, a.pos(), Sep::Padded(COMMA));
    Parsed { value: HeaderView::InReplyTo(l.value), end: a.and(l.end) }
}

/// Parses at `pos` what [`spec_in_reply_to`] describes.
pub fn in_reply_to(input: &[u8], pos: usize) -> (r: Result<(Header, usize), Reject>)
    requires
        pos <= input@.len(),
    ensures
        yields(r, pos, input@.len(), spec_in_reply_to(input@, pos as int)),
{
    proof {
        reveal(spec_in_reply_to);
    }
    let a = named(input, pos, "In-Reply-To")?;
    let (l, e) = list1::<CallIdRule>(input, a, Sep::Padded(COMMA))?;
    Ok((Header::InReplyTo(l), e))
}

/// The parameter `purpose=`: `icon`, `info`, `card` or a token.
#[verifier::opaque]
pub open spec fn spec_info_param_purpose(s: Seq<u8>, i: int) -> Parsed<InfoParamView> {
    let a = spec_param_name(s, i, "purpose");
    let t = spec_token_str(s, a.pos());
    let p = spec_keyword(s, a.pos(), "icon", InfoParamPurposeView::Icon).or(
        spec_keyword(s, a.pos(), "info", InfoParamPurposeView::Info),
    ).or(spec_keyword(s, a.pos(), "card", InfoParamPurposeView::Card)).or(
        Parsed { value: InfoParamPurposeView::Other(t.value), end: t.end },
    );
    Parsed { value: InfoParamView::Purpose(p.value), end: a.and(p.end) }
}

/// Parses at `pos` what [`spec_info_param_purpose`] describes.
pub fn info_param_purpose(input: &[u8], pos: usize) -> (r: Result<(InfoParam, usize), Reject>)
    requires
        pos <= input@.len(),
    ensures
        yields(r, pos, input@.len(), spec_info_param_purpose(input@, pos as int)),
{
    proof {
        reveal(spec_info_param_purpose);
    }
    let a = param_name(input, pos, "purpose")?;
    if let Ok(e) = tag_no_case(input, a, "icon") {
        return Ok((InfoParam::Purpose(InfoParamPurpose::Icon), e));
    }
    if let Ok(e) = tag_no_case(input, a, "info") {
        return Ok((InfoParam::Purpose(InfoParamPurpose::Info), e));
    }
    if let Ok(e) = tag_no_case(input, a, "card") {
        return Ok((InfoParam::Purpose(InfoParamPurpose::Card), e));
    }
    let (t, e) = token_str(input, a)?;
    Ok((InfoParam::Purpose(InfoParamPurpose::Other(t)), e))
}

/// A Call-Info parameter: `purpose=` or a generic parameter.
#[verifier::opaque]
pub open spec fn spec_info_param(s: Seq<u8>, i: int) -> Parsed<InfoParamView> {
    let g = spec_generic_param(s, i);
    spec_info_param_purpose(s, i).or(Parsed { value: InfoParamView::Extension(g.value), end: g.end })
}

/// Parses at `pos` what [`spec_info_param`] describes.
pub fn info_param(input: &[u8], pos: usize) -> (r: Result<(InfoParam, usize), Reject>)
    requires
        pos <= input@.len(),
    ensures
        yields(r, pos, input@.len(), spec_info_param(input@, pos as int)),
{
    proof {
        reveal(spec_info_param);
    }
    let r = info_param_purpose(input, pos);
    if !is_soft(&r) {
        return r;
    }
    let (g, e) = generic_param(input, pos)?;
    Ok((InfoParam::Extension(g), e))
}

/// The production of one Call-Info parameter.
pub struct InfoParamRule;

impl Rule for InfoParamRule {
    type Out = InfoParam;

    open spec fn spec_parse(s: Seq<u8>, i: int) -> Parsed<InfoParamView> {
        spec_info_param(s, i)
    }

    fn parse(input: &[u8], pos: usize) -> (r: Result<(InfoParam, usize), Reject>) {
        info_param(input, pos)
    }
}

/// An absolute URI in angle brackets. The value is the span of the URI.
#[verifier::opaque]
pub open spec fn spec_bracketed_uri(s: Seq<u8>, i: int) -> Parsed<(usize, usize)> {
    let a = spec_padded(s, i, LESS);
    let b = a.and(spec_absolute_uri(s, a.pos()));
    Parsed { value: (a.pos() as usize, b.pos() as usize), end: b.and(spec_padded(s, b.pos(), GREATER)) }
}

/// Parses at `pos` what [`spec_bracketed_uri`] describes.
pub fn bracketed_uri(input: &[u8], pos: usize) -> (r: Result<((usize, usize), usize), Reject>)
    requires
        pos <= input@.len(),
    ensures
        yields(r, pos, input@.len(), spec_bracketed_uri(input@, pos as int)),
        r matches Ok((v, e)) ==> v.0 <= v.1 <= e,
{
    proof {
        reveal(spec_bracketed_uri);
    }
    let a = left_angle_quote(input, pos)?;
    let b = absolute_uri(input, a)?;
    let c = right_angle_quote(input, b)?;
    Ok(((a, b), c))
}

/// One entry of a Call-Info header: a bracketed URI and parameters that
/// `;` separates. No `;` stands between the URI and the first parameter.
#[verifier::opaque]
pub open spec fn spec_info(s: Seq<u8>, i: int) -> Parsed<InfoView> {
    let u = spec_bracketed_uri(s, i);
    let ps = spec_list0::<InfoParamRule>(s, u.end.pos(), Sep::Padded(SEMICOLON));
    let t = spec_span_text(s, u.value.0 as int, u.end.and(ps.end).and(Cursor::At(u.value.1 as int)));
    Parsed { value: InfoView { uri: t.value, params: ps.value }, end: t.end.and(ps.end) }
}

/// Parses at `pos` what [`spec_info`] describes.
pub fn info(input: &[u8], pos: usize) -> (r: Result<(Info, usize), Reject>)
    requires
        pos <= input@.len(),
    ensures
        yields(r, pos, input@.len(), spec_info(input@, pos as int)),
{
    proof {
        reveal(spec_info);
    }
    let ((from, to), a) = bracketed_uri(input, pos)?;
    let (params, e) = list0::<InfoParamRule>(input, a, Sep::Padded(SEMICOLON))?;
    let uri = text(input, from, to)?;
    Ok((Info { uri, params }, e))
}

/// The production of one Call-Info entry.
pub struct InfoRule;

impl Rule for InfoRule {
    type Out = Info;

    open spec fn spec_parse(s: Seq<u8>, i: int) -> Parsed<InfoView> {
        spec_info(s, i)
    }

    fn parse(input: &[u8], pos: usize) -> (r: Result<(Info, usize), Reject>) {
        info(input, pos)
    }
}

/// The Call-Info header: at least one entry.
#[verifier::opaque]
pub open spec fn spec_call_info(s: Seq<u8>, i: int) -> Parsed<HeaderView> {
    let a = spec_named(s, i, "Call-Info");
    let l = spec_list1::<InfoRule>(s, a.pos(), Sep::Padded(COMMA));
    Parsed { value: HeaderView::CallInfo(l.value), end: a.and(l.end) }
}

/// Parses at `pos` what [`spec_call_info`] describes.
pub fn call_info(input: &[u8], pos: usize) -> (r: Result<(Header, usize), Reject>)
    requires
        pos <= input@.len(),
    ensures
        yields(r, pos, input@.len(), spec_call_info(input@, pos as int)),
{
    proof {
        reveal(spec_call_info);
    }
    let a = named(input, pos, "Call-Info")?;
    let (l, e) = list1::<InfoRule>(input, a, Sep::Padded(COMMA))?;
    Ok((Header::CallInfo(l), e))
}

} // verus!
