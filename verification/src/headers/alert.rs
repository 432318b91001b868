//! The Alert-Info and Error-Info headers.

use crate::class::COMMA;
use crate::common::{generic_params, spec_generic_params, spec_span_text};
use crate::error::{yields, Cursor, Parsed, Reject};
use crate::header::{AlertInfo, AlertInfoView, ErrorInfo, ErrorInfoView, Header, HeaderView};
use crate::headers::call::{bracketed_uri, spec_bracketed_uri};
use crate::headers::{named, spec_named};
use crate::list::{list1, spec_list1, Rule, Sep};
use crate::scan::text;
use vstd::prelude::*;

verus! {

/// A bracketed URI with generic parameters. The value is the URI's text and
/// the parameters.
#[verifier::opaque]
pub open spec fn spec_uri_with_params(s: Seq<u8>, i: int) -> Parsed<
    (Seq<char>, Seq<crate::header::GenericParamView>),
> {
    let u = spec_bracketed_uri(s, i);
    let ps = spec_generic_params(s, u.end.pos());
    let t = spec_span_text(s, u.value.0 as int, u.end.and(ps.end).and(Cursor::At(u.value.1 as int)));
    Parsed { value: (t.value, ps.value), end: t.end.and(ps.end) }
}

/// Parses at `pos` what [`spec_uri_with_params`] describes.
pub fn uri_with_params(input: &[u8], pos: usize) -> (r: Result<
    ((String, Vec<crate::header::GenericParam>), usize),
    Reject,
>)
    requires
        pos <= input@.len(),
    ensures
        yields(r, pos, input@.len(), spec_uri_with_params(input@, pos as int)),
{
    proof {
        reveal(spec_uri_with_params);
    }
    let ((from, to), a) = bracketed_uri(input, pos)?;
    let (params, e) = generic_params(input, a)?;
    let uri = text(input, from, to)?;
    Ok(((uri, params), e))
}

/// One entry of an Alert-Info header.
#[verifier::opaque]
pub open spec fn spec_alert_param(s: Seq<u8>, i: int) -> Parsed<AlertInfoView> {
    let p = spec_uri_with_params(s, i);
    Parsed { value: AlertInfoView { uri: p.value.0, params: p.value.1 }, end: p.end }
}

/// Parses at `pos` what [`spec_alert_param`] describes.
pub fn alert_param(input: &[u8], pos: usize) -> (r: Result<(AlertInfo, usize), Reject>)
    requires
        pos <= input@.len(),
    ensures
        yields(r, pos, input@.len(), spec_alert_param(input@, pos as int)),
{
    proof {
        reveal(spec_alert_param);
    }
    let ((uri, params), e) = uri_with_params(input, pos)?;
    Ok((AlertInfo { uri, params }, e))
}

/// The production of one Alert-Info entry.
pub struct AlertInfoRule;

impl Rule for AlertInfoRule {
    type Out = AlertInfo;

    open spec fn spec_parse(s: Seq<u8>, i: int) -> Parsed<AlertInfoView> {
        spec_alert_param(s, i)
    }

    fn parse(input: &[u8], pos: usize) -> (r: Result<(AlertInfo, usize), Reject>) {
        alert_param(input, pos)
    }
}

/// The Alert-Info header: at least one entry.
#[verifier::opaque]
pub open spec fn spec_alert_info(s: Seq<u8>, i: int) -> Parsed<HeaderView> {
    let a = spec_named(s, i, "Alert-Info");
    let l = spec_list1::<AlertInfoRule>(s, a.pos(), Sep::Padded(COMMA));
    Parsed { value: HeaderView::AlertInfo(l.value), end: a.and(l.end) }
}

/// Parses at `pos` what [`spec_alert_info`] describes.
pub fn alert_info(input: &[u8], pos: usize) -> (r: Result<(Header, usize), Reject>)
    requires
        pos <= input@.len(),
    ensures
        yields(r, pos, input@.len(), spec_alert_info(input@, pos as int)),
{
    proof {
        reveal(spec_alert_info);
    }
    let a = named(input, pos, "Alert-Info")?;
    let (l, e) = list1::<AlertInfoRule>(input, a, Sep::Padded(COMMA))?;
    Ok((Header::AlertInfo(l), e))
}

/// One entry of an Error-Info header.
#[verifier::opaque]
pub open spec fn spec_error_uri(s: Seq<u8>, i: int) -> Parsed<ErrorInfoView> {
    let p = spec_uri_with_params(s, i);
    Parsed { value: ErrorInfoView { uri: p.value.0, params: p.value.1 }, end: p.end }
}

/// Parses at `pos` what [`spec_error_uri`] describes.
pub fn error_uri(input: &[u8], pos: usize) -> (r: Result<(ErrorInfo, usize), Reject>)
    requires
        pos <= input@.len(),
    ensures
        yields(r, pos, input@.len(), spec_error_uri(input@, pos as int)),
{
    proof {
        reveal(spec_error_uri);
    }
    let ((uri, params), e) = uri_with_params(input, pos)?;
    Ok((ErrorInfo { uri, params }, e))
}

/// The production of one Error-Info entry.
pub struct ErrorInfoRule;

impl Rule for ErrorInfoRule {
    type Out = ErrorInfo;

    open spec fn spec_parse(s: Seq<u8>, i: int) -> Parsed<ErrorInfoView> {
        spec_error_uri(s, i)
    }

    fn parse(input: &[u8], pos: usize) -> (r: Result<(ErrorInfo, usize), Reject>) {
        error_uri(input, pos)
    }
}

/// The Error-Info header: at least one entry.
#[verifier::opaque]
pub open spec fn spec_error_info(s: Seq<u8>, i: int) -> Parsed<HeaderView> {
    let a = spec_named(s, i, "Error-Info");
    let l = spec_list1::<ErrorInfoRule>(s, a.pos(), Sep::Padded(COMMA));
    Parsed { value: HeaderView::ErrorInfo(l.value), end: a.and(l.end) }
}

/// Parses at `pos` what [`spec_error_info`] describes.
pub fn error_info(input: &[u8], pos: usize) -> (r: Result<(Header, usize), Reject>)
    requires
        pos <= input@.len(),
    ensures
        yields(r, pos, input@.len(), spec_error_info(input@, pos as int)),
{
    proof {
        reveal(spec_error_info);
    }
    let a = named(input, pos, "Error-Info")?;
    let (l, e) = list1::<ErrorInfoRule>(input, a, Sep::Padded(COMMA))?;
    Ok((Header::ErrorInfo(l), e))
}

} // verus!
