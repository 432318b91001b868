//! The authentication headers: challenges, credentials and
//! Authentication-Info.

use crate::class::{Class, COMMA, EQUALS, STAR};
use crate::common::{
    abs_path, absolute_uri, authority, spec_abs_path, spec_absolute_uri, spec_authority,
    spec_keyword, spec_span_text, TokenRule,
};
use crate::error::{scans, yields, Cursor, Parsed, Reject};
use crate::header::{
    AlgorithmKind, AlgorithmKindView, AuthenticationInfo, AuthenticationInfoView, Challenge,
    ChallengeView, Credentials, CredentialsView, DigestParam, DigestParamView,
    DigestResponseParam, DigestResponseParamView, Header, HeaderView, QOPValue, QOPValueView,
};
use crate::headers::content::{name_value, spec_name_value};
use crate::headers::{named, spec_named};
use crate::list::{list1, spec_list1, Rule, Sep};
use crate::scan::{
    byte, is_soft, m_n, spec_byte, spec_m_n, spec_tag_no_case, spec_while0, tag_no_case, text,
    while0,
};
use crate::tokens::{
    equal, left_double_quote, linear_whitespace, quoted_string, right_double_quote, spec_closing,
    spec_linear_whitespace, spec_opening, spec_padded, spec_quoted_string, spec_token_str,
    token_str,
};
use crate::class::DQUOTE;
use vstd::prelude::*;

verus! {

/// The production of one authentication parameter: a name, `=`, and a token
/// or a quoted string.
pub struct AuthParamRule;

impl Rule for AuthParamRule {
    type Out = (String, String);

    open spec fn spec_parse(s: Seq<u8>, i: int) -> Parsed<(Seq<char>, Seq<char>)> {
        spec_name_value(s, i)
    }

    fn parse(input: &[u8], pos: usize) -> (r: Result<((String, String), usize), Reject>) {
        name_value(input, pos)
    }
}

/// A parameter's name in either case, and `=`.
#[verifier::opaque]
pub open spec fn spec_param_name(s: Seq<u8>, i: int, name: &str) -> Cursor {
    let a = spec_tag_no_case(s, i, name);
    a.and(spec_padded(s, a.pos(), EQUALS))
}

/// Parses at `pos` what [`spec_param_name`] describes.
pub fn param_name(input: &[u8], pos: usize, name: &str) -> (r: Result<usize, Reject>)
    requires
        pos <= input@.len(),
    ensures
        scans(r, pos, input@.len(), spec_param_name(input@, pos as int, name)),
{
    proof {
        reveal(spec_param_name);
    }
    let a = tag_no_case(input, pos, name)?;
    equal(input, a)
}

/// A parameter whose value is a quoted string; the text holds the quotes.
#[verifier::opaque]
pub open spec fn spec_quoted_param(s: Seq<u8>, i: int, name: &str) -> Parsed<Seq<char>> {
    let a = spec_param_name(s, i, name);
    spec_span_text(s, a.pos(), a.and(spec_quoted_string(s, a.pos())))
}

/// Parses at `pos` what [`spec_quoted_param`] describes.
pub fn quoted_param(input: &[u8], pos: usize, name: &str) -> (r: Result<(String, usize), Reject>)
    requires
        pos <= input@.len(),
    ensures
        yields(r, pos, input@.len(), spec_quoted_param(input@, pos as int, name)),
{
    proof {
        reveal(spec_quoted_param);
    }
    let a = param_name(input, pos, name)?;
    let b = quoted_string(input, a)?;
    let t = text(input, a, b)?;
    Ok((t, b))
}

/// A request digest: exactly 32 lower-case hexadecimal digits between
/// double quotes. The text is the digits alone.
#[verifier::opaque]
pub open spec fn spec_request_digest(s: Seq<u8>, i: int) -> Parsed<Seq<char>> {
    let a = spec_closing(s, i, DQUOTE);
    let b = a.and(spec_m_n(s, a.pos(), Class::LowercaseHexadecimal, 32, 32));
    let c = b.and(spec_opening(s, b.pos(), DQUOTE));
    let t = spec_span_text(s, a.pos(), c.and(b));
    Parsed { value: t.value, end: t.end.and(c) }
}

fn request_digest(input: &[u8], pos: usize) -> (r: Result<(String, usize), Reject>)
    requires
        pos <= input@.len(),
    ensures
        yields(r, pos, input@.len(), spec_request_digest(input@, pos as int)),
{
    proof {
        reveal(spec_request_digest);
    }
    let a = left_double_quote(input, pos)?;
    let b = m_n(input, a, Class::LowercaseHexadecimal, 32, 32)?;
    let c = right_double_quote(input, b)?;
    let t = text(input, a, b)?;
    Ok((t, c))
}

/// The nonce count: `nc=` and exactly eight lower-case hexadecimal digits.
#[verifier::opaque]
pub open spec fn spec_nonce_count(s: Seq<u8>, i: int) -> Parsed<Seq<char>> {
    let a = spec_param_name(s, i, "nc");
    spec_span_text(s, a.pos(), a.and(spec_m_n(s, a.pos(), Class::LowercaseHexadecimal, 8, 8)))
}

fn nonce_count(input: &[u8], pos: usize) -> (r: Result<(String, usize), Reject>)
    requires
        pos <= input@.len(),
    ensures
        yields(r, pos, input@.len(), spec_nonce_count(input@, pos as int)),
{
    proof {
        reveal(spec_nonce_count);
    }
    let a = param_name(input, pos, "nc")?;
    let b = m_n(input, a, Class::LowercaseHexadecimal, 8, 8)?;
    let t = text(input, a, b)?;
    Ok((t, b))
}

/// A quality of protection: `auth`, `auth-int` or a token, tried in this
/// order, so that `auth` is taken from the front of `auth-int`.
#[verifier::opaque]
pub open spec fn spec_qop_value(s: Seq<u8>, i: int) -> Parsed<QOPValueView> {
    let t = spec_token_str(s, i);
    spec_keyword(s, i, "auth", QOPValueView::Auth).or(
        spec_keyword(s, i, "auth-int", QOPValueView::AuthInt),
    ).or(Parsed { value: QOPValueView::Extension(t.value), end: t.end })
}

/// Parses at `pos` what [`spec_qop_value`] describes.
pub fn qop_value(input: &[u8], pos: usize) -> (r: Result<(QOPValue, usize), Reject>)
    requires
        pos <= input@.len(),
    ensures
        yields(r, pos, input@.len(), spec_qop_value(input@, pos as int)),
{
    proof {
        reveal(spec_qop_value);
    }
    if let Ok(e) = tag_no_case(input, pos, "auth") {
        return Ok((QOPValue::Auth, e));
    }
    if let Ok(e) = tag_no_case(input, pos, "auth-int") {
        return Ok((QOPValue::AuthInt, e));
    }
    let (t, e) = token_str(input, pos)?;
    Ok((QOPValue::Extension(t), e))
}

/// The production of one quality of protection.
pub struct QopValueRule;

impl Rule for QopValueRule {
    type Out = QOPValue;

    open spec fn spec_parse(s: Seq<u8>, i: int) -> Parsed<QOPValueView> {
        spec_qop_value(s, i)
    }

    fn parse(input: &[u8], pos: usize) -> (r: Result<(QOPValue, usize), Reject>) {
        qop_value(input, pos)
    }
}

/// The parameter `qop=` of a response: one quality of protection.
#[verifier::opaque]
pub open spec fn spec_message_qop(s: Seq<u8>, i: int) -> Parsed<QOPValueView> {
    let a = spec_param_name(s, i, "qop");
    let q = spec_qop_value(s, a.pos());
    Parsed { value: q.value, end: a.and(q.end) }
}

fn message_qop(input: &[u8], pos: usize) -> (r: Result<(QOPValue, usize), Reject>)
    requires
        pos <= input@.len(),
    ensures
        yields(r, pos, input@.len(), spec_message_qop(input@, pos as int)),
{
    proof {
        reveal(spec_message_qop);
    }
    let a = param_name(input, pos, "qop")?;
    qop_value(input, a)
}

/// The URI of a digest response: `*`, an absolute URI, an absolute path or
/// an authority, tried in this order.
#[verifier::opaque]
pub open spec fn spec_digest_uri_value(s: Seq<u8>, i: int) -> Cursor {
    spec_byte(s, i, STAR).or(spec_absolute_uri(s, i)).or(spec_abs_path(s, i)).or(
        spec_authority(s, i),
    )
}

fn digest_uri_value(input: &[u8], pos: usize) -> (r: Result<usize, Reject>)
    requires
        pos <= input@.len(),
    ensures
        scans(r, pos, input@.len(), spec_digest_uri_value(input@, pos as int)),
{
    proof {
        reveal(spec_digest_uri_value);
    }
    let r = byte(input, pos, STAR);
    if !is_soft(&r) {
        return r;
    }
    let r = absolute_uri(input, pos);
    if !is_soft(&r) {
        return r;
    }
    let r = abs_path(input, pos);
    if !is_soft(&r) {
        return r;
    }
    authority(input, pos)
}

/// The parameter `uri=`: a digest URI between double quotes, as text
/// without the quotes.
#[verifier::opaque]
pub open spec fn spec_dig_resp_uri(s: Seq<u8>, i: int) -> Parsed<Seq<char>> {
    let a = spec_param_name(s, i, "uri");
    let b = a.and(spec_closing(s, a.pos(), DQUOTE));
    let c = b.and(spec_digest_uri_value(s, b.pos()));
    let d = c.and(spec_opening(s, c.pos(), DQUOTE));
    let t = spec_span_text(s, b.pos(), d.and(c));
    Parsed { value: t.value, end: t.end.and(d) }
}

fn dig_resp_uri(input: &[u8], pos: usize) -> (r: Result<(String, usize), Reject>)
    requires
        pos <= input@.len(),
    ensures
        yields(r, pos, input@.len(), spec_dig_resp_uri(input@, pos as int)),
{
    proof {
        reveal(spec_dig_resp_uri);
    }
    let a = param_name(input, pos, "uri")?;
    let b = left_double_quote(input, a)?;
    let c = digest_uri_value(input, b)?;
    let d = right_double_quote(input, c)?;
    let t = text(input, b, c)?;
    Ok((t, d))
}

/// The parameter `response=`: a request digest.
#[verifier::opaque]
pub open spec fn spec_dig_resp_response(s: Seq<u8>, i: int) -> Parsed<Seq<char>> {
    let a = spec_param_name(s, i, "response");
    let d = spec_request_digest(s, a.pos());
    Parsed { value: d.value, end: a.and(d.end) }
}

fn dig_resp_response(input: &[u8], pos: usize) -> (r: Result<(String, usize), Reject>)
    requires
        pos <= input@.len(),
    ensures
        yields(r, pos, input@.len(), spec_dig_resp_response(input@, pos as int)),
{
    proof {
        reveal(spec_dig_resp_response);
    }
    let a = param_name(input, pos, "response")?;
    request_digest(input, a)
}

/// The parameter `algorithm=`: `MD5-sess`, `MD5` or a token, tried in
/// this order.
#[verifier::opaque]
pub open spec fn spec_algorithm(s: Seq<u8>, i: int) -> Parsed<AlgorithmKindView> {
    let a = spec_param_name(s, i, "algorithm");
    let t = spec_token_str(s, a.pos());
    let k = spec_keyword(s, a.pos(), "MD5-sess", AlgorithmKindView::MD5Sess).or(
        spec_keyword(s, a.pos(), "MD5", AlgorithmKindView::MD5),
    ).or(Parsed { value: AlgorithmKindView::Extension(t.value), end: t.end });
    Parsed { value: k.value, end: a.and(k.end) }
}

/// Parses at `pos` what [`spec_algorithm`] describes.
pub fn algorithm(input: &[u8], pos: usize) -> (r: Result<(AlgorithmKind, usize), Reject>)
    requires
        pos <= input@.len(),
    ensures
        yields(r, pos, input@.len(), spec_algorithm(input@, pos as int)),
{
    proof {
        reveal(spec_algorithm);
    }
    let a = param_name(input, pos, "algorithm")?;
    if let Ok(e) = tag_no_case(input, a, "MD5-sess") {
        return Ok((AlgorithmKind::MD5Sess, e));
    }
    if let Ok(e) = tag_no_case(input, a, "MD5") {
        return Ok((AlgorithmKind::MD5, e));
    }
    let (t, e) = token_str(input, a)?;
    Ok((AlgorithmKind::Extension(t), e))
}

/// A parameter of a digest response: the named ones first, then any
/// authentication parameter.
#[verifier::opaque]
pub open spec fn spec_dig_resp(s: Seq<u8>, i: int) -> Parsed<DigestResponseParamView> {
    let username = spec_quoted_param(s, i, "username");
    let realm = spec_quoted_param(s, i, "realm");
    let nonce = spec_quoted_param(s, i, "nonce");
    let uri = spec_dig_resp_uri(s, i);
    let response = spec_dig_resp_response(s, i);
    let algorithm = spec_algorithm(s, i);
    let cnonce = spec_quoted_param(s, i, "cnonce");
    let opaque = spec_quoted_param(s, i, "opaque");
    let qop = spec_message_qop(s, i);
    let nc = spec_nonce_count(s, i);
    let other = spec_name_value(s, i);
    Parsed { value: DigestResponseParamView::Username(username.value), end: username.end }.or(
        Parsed { value: DigestResponseParamView::Realm(realm.value), end: realm.end },
    ).or(Parsed { value: DigestResponseParamView::Nonce(nonce.value), end: nonce.end }).or(
        Parsed { value: DigestResponseParamView::URI(uri.value), end: uri.end },
    ).or(Parsed { value: DigestResponseParamView::Response(response.value), end: response.end }).or(
        Parsed { value: DigestResponseParamView::Algorithm(algorithm.value), end: algorithm.end },
    ).or(Parsed { value: DigestResponseParamView::CNonce(cnonce.value), end: cnonce.end }).or(
        Parsed { value: DigestResponseParamView::Opaque(opaque.value), end: opaque.end },
    ).or(Parsed { value: DigestResponseParamView::QOP(qop.value), end: qop.end }).or(
        Parsed { value: DigestResponseParamView::NonceCount(nc.value), end: nc.end },
    ).or(
        Parsed {
            value: DigestResponseParamView::Extension(other.value.0, other.value.1),
            end: other.end,
        },
    )
}

/// Parses at `pos` what [`spec_dig_resp`] describes.
pub fn dig_resp(input: &[u8], pos: usize) -> (r: Result<(DigestResponseParam, usize), Reject>)
    requires
        pos <= input@.len(),
    ensures
        yields(r, pos, input@.len(), spec_dig_resp(input@, pos as int)),
{
    proof {
        reveal(spec_dig_resp);
    }
    match quoted_param(input, pos, "username") {
        Ok((v, e)) => {
            return Ok((DigestResponseParam::Username(v), e));
        },
        Err(x) => if x.fatal {
            return Err(x);
        },
    }
    match quoted_param(input, pos, "realm") {
        Ok((v, e)) => {
            return Ok((DigestResponseParam::Realm(v), e));
        },
        Err(x) => if x.fatal {
            return Err(x);
        },
    }
    match quoted_param(input, pos, "nonce") {
        Ok((v, e)) => {
            return Ok((DigestResponseParam::Nonce(v), e));
        },
        Err(x) => if x.fatal {
            return Err(x);
        },
    }
    match dig_resp_uri(input, pos) {
        Ok((v, e)) => {
            return Ok((DigestResponseParam::URI(v), e));
        },
        Err(x) => if x.fatal {
            return Err(x);
        },
    }
    match dig_resp_response(input, pos) {
        Ok((v, e)) => {
            return Ok((DigestResponseParam::Response(v), e));
        },
        Err(x) => if x.fatal {
            return Err(x);
        },
    }
    match algorithm(input, pos) {
        Ok((v, e)) => {
            return Ok((DigestResponseParam::Algorithm(v), e));
        },
        Err(x) => if x.fatal {
            return Err(x);
        },
    }
    match quoted_param(input, pos, "cnonce") {
        Ok((v, e)) => {
            return Ok((DigestResponseParam::CNonce(v), e));
        },
        Err(x) => if x.fatal {
            return Err(x);
        },
    }
    match quoted_param(input, pos, "opaque") {
        Ok((v, e)) => {
            return Ok((DigestResponseParam::Opaque(v), e));
        },
        Err(x) => if x.fatal {
            return Err(x);
        },
    }
    match message_qop(input, pos) {
        Ok((v, e)) => {
            return Ok((DigestResponseParam::QOP(v), e));
        },
        Err(x) => if x.fatal {
            return Err(x);
        },
    }
    match nonce_count(input, pos) {
        Ok((v, e)) => {
            return Ok((DigestResponseParam::NonceCount(v), e));
        },
        Err(x) => if x.fatal {
            return Err(x);
        },
    }
    let ((name, value), e) = name_value(input, pos)?;
    Ok((DigestResponseParam::Extension(name, value), e))
}

/// The production of one parameter of a digest response.
pub struct DigRespRule;

impl Rule for DigRespRule {
    type Out = DigestResponseParam;

    open spec fn spec_parse(s: Seq<u8>, i: int) -> Parsed<DigestResponseParamView> {
        spec_dig_resp(s, i)
    }

    fn parse(input: &[u8], pos: usize) -> (r: Result<(DigestResponseParam, usize), Reject>) {
        dig_resp(input, pos)
    }
}

/// A scheme's name and the linear whitespace after it.
#[verifier::opaque]
pub open spec fn spec_scheme_name(s: Seq<u8>, i: int) -> Parsed<Seq<char>> {
    let t = spec_token_str(s, i);
    Parsed { value: t.value, end: t.end.and(spec_linear_whitespace(s, t.end.pos())) }
}

fn scheme_name(input: &[u8], pos: usize) -> (r: Result<(String, usize), Reject>)
    requires
        pos <= input@.len(),
    ensures
        yields(r, pos, input@.len(), spec_scheme_name(input@, pos as int)),
{
    proof {
        reveal(spec_scheme_name);
    }
    let (t, a) = token_str(input, pos)?;
    let b = linear_whitespace(input, a)?;
    Ok((t, b))
}

/// `Digest` in either case and the linear whitespace after it.
#[verifier::opaque]
pub open spec fn spec_digest_scheme(s: Seq<u8>, i: int) -> Cursor {
    let a = spec_tag_no_case(s, i, "Digest");
    a.and(spec_linear_whitespace(s, a.pos()))
}

fn digest_scheme(input: &[u8], pos: usize) -> (r: Result<usize, Reject>)
    requires
        pos <= input@.len(),
    ensures
        scans(r, pos, input@.len(), spec_digest_scheme(input@, pos as int)),
{
    proof {
        reveal(spec_digest_scheme);
    }
    let a = tag_no_case(input, pos, "Digest")?;
    linear_whitespace(input, a)
}

/// Credentials: a digest response, or another scheme with its parameters.
#[verifier::opaque]
pub open spec fn spec_credentials(s: Seq<u8>, i: int) -> Parsed<CredentialsView> {
    let d = spec_digest_scheme(s, i);
    let dl = spec_list1::<DigRespRule>(s, d.pos(), Sep::Padded(COMMA));
    let n = spec_scheme_name(s, i);
    let nl = spec_list1::<AuthParamRule>(s, n.end.pos(), Sep::Padded(COMMA));
    Parsed { value: CredentialsView::DigestResponse(dl.value), end: d.and(dl.end) }.or(
        Parsed { value: CredentialsView::OtherResponse(n.value, nl.value), end: n.end.and(nl.end) },
    )
}

/// Parses at `pos` what [`spec_credentials`] describes.
pub fn credentials(input: &[u8], pos: usize) -> (r: Result<(Credentials, usize), Reject>)
    requires
        pos <= input@.len(),
    ensures
        yields(r, pos, input@.len(), spec_credentials(input@, pos as int)),
{
    proof {
        reveal(spec_credentials);
    }
    let digest = match digest_scheme(input, pos) {
        Ok(d) => list1::<DigRespRule>(input, d, Sep::Padded(COMMA)),
        Err(x) => Err(x),
    };
    match digest {
        Ok((l, e)) => {
            return Ok((Credentials::DigestResponse(l), e));
        },
        Err(x) => if x.fatal {
            return Err(x);
        },
    }
    let (name, n) = scheme_name(input, pos)?;
    let (l, e) = list1::<AuthParamRule>(input, n, Sep::Padded(COMMA))?;
    Ok((Credentials::OtherResponse(name, l), e))
}

/// The Authorization header.
#[verifier::opaque]
pub open spec fn spec_authorization(s: Seq<u8>, i: int) -> Parsed<HeaderView> {
    let a = spec_named(s, i, "Authorization");
    let c = spec_credentials(s, a.pos());
    Parsed { value: HeaderView::Authorization(c.value), end: a.and(c.end) }
}

/// Parses at `pos` what [`spec_authorization`] describes.
pub fn authorization(input: &[u8], pos: usize) -> (r: Result<(Header, usize), Reject>)
    requires
        pos <= input@.len(),
    ensures
        yields(r, pos, input@.len(), spec_authorization(input@, pos as int)),
{
    proof {
        reveal(spec_authorization);
    }
    let a = named(input, pos, "Authorization")?;
    let (c, e) = credentials(input, a)?;
    Ok((Header::Authorization(c), e))
}

/// The Proxy-Authorization header.
#[verifier::opaque]
pub open spec fn spec_proxy_authorization(s: Seq<u8>, i: int) -> Parsed<HeaderView> {
    let a = spec_named(s, i, "Proxy-Authorization");
    let c = spec_credentials(s, a.pos());
    Parsed { value: HeaderView::ProxyAuthorization(c.value), end: a.and(c.end) }
}

/// Parses at `pos` what [`spec_proxy_authorization`] describes.
pub fn proxy_authorization(input: &[u8], pos: usize) -> (r: Result<(Header, usize), Reject>)
    requires
        pos <= input@.len(),
    ensures
        yields(r, pos, input@.len(), spec_proxy_authorization(input@, pos as int)),
{
    proof {
        reveal(spec_proxy_authorization);
    }
    let a = named(input, pos, "Proxy-Authorization")?;
    let (c, e) = credentials(input, a)?;
    Ok((Header::ProxyAuthorization(c), e))
}

/// The parameter `rspauth=`: any number of lower-case hexadecimal digits
/// between double quotes. The text holds the quotes and the whitespace
/// around them.
#[verifier::opaque]
pub open spec fn spec_ainfo_response_auth(s: Seq<u8>, i: int) -> Parsed<Seq<char>> {
    let a = spec_param_name(s, i, "rspauth");
    let b = a.and(spec_closing(s, a.pos(), DQUOTE));
    let c = b.and(spec_while0(s, b.pos(), Class::LowercaseHexadecimal));
    spec_span_text(s, a.pos(), c.and(spec_opening(s, c.pos(), DQUOTE)))
}

fn ainfo_response_auth(input: &[u8], pos: usize) -> (r: Result<(String, usize), Reject>)
    requires
        pos <= input@.len(),
    ensures
        yields(r, pos, input@.len(), spec_ainfo_response_auth(input@, pos as int)),
{
    proof {
        reveal(spec_ainfo_response_auth);
    }
    let a = param_name(input, pos, "rspauth")?;
    let b = left_double_quote(input, a)?;
    let c = while0(input, b, Class::LowercaseHexadecimal)?;
    let d = right_double_quote(input, c)?;
    let t = text(input, a, d)?;
    Ok((t, d))
}

/// One entry of an Authentication-Info header.
#[verifier::opaque]
pub open spec fn spec_ainfo(s: Seq<u8>, i: int) -> Parsed<AuthenticationInfoView> {
    let nextnonce = spec_quoted_param(s, i, "nextnonce");
    let qop = spec_message_qop(s, i);
    let rspauth = spec_ainfo_response_auth(s, i);
    let cnonce = spec_quoted_param(s, i, "cnonce");
    let nc = spec_nonce_count(s, i);
    Parsed { value: AuthenticationInfoView::NextNonce(nextnonce.value), end: nextnonce.end }.or(
        Parsed { value: AuthenticationInfoView::QOP(qop.value), end: qop.end },
    ).or(Parsed { value: AuthenticationInfoView::ResponseAuth(rspauth.value), end: rspauth.end }).or(
        Parsed { value: AuthenticationInfoView::CNonce(cnonce.value), end: cnonce.end },
    ).or(Parsed { value: AuthenticationInfoView::NonceCount(nc.value), end: nc.end })
}

/// Parses at `pos` what [`spec_ainfo`] describes.
pub fn ainfo(input: &[u8], pos: usize) -> (r: Result<(AuthenticationInfo, usize), Reject>)
    requires
        pos <= input@.len(),
    ensures
        yields(r, pos, input@.len(), spec_ainfo(input@, pos as int)),
{
    proof {
        reveal(spec_ainfo);
    }
    match quoted_param(input, pos, "nextnonce") {
        Ok((v, e)) => {
            return Ok((AuthenticationInfo::NextNonce(v), e));
        },
        Err(x) => if x.fatal {
            return Err(x);
        },
    }
    match message_qop(input, pos) {
        Ok((v, e)) => {
            return Ok((AuthenticationInfo::QOP(v), e));
        },
        Err(x) => if x.fatal {
            return Err(x);
        },
    }
    match ainfo_response_auth(input, pos) {
        Ok((v, e)) => {
            return Ok((AuthenticationInfo::ResponseAuth(v), e));
        },
        Err(x) => if x.fatal {
            return Err(x);
        },
    }
    match quoted_param(input, pos, "cnonce") {
        Ok((v, e)) => {
            return Ok((AuthenticationInfo::CNonce(v), e));
        },
        Err(x) => if x.fatal {
            return Err(x);
        },
    }
    let (v, e) = nonce_count(input, pos)?;
    Ok((AuthenticationInfo::NonceCount(v), e))
}

/// The production of one Authentication-Info entry.
pub struct AinfoRule;

impl Rule for AinfoRule {
    type Out = AuthenticationInfo;

    open spec fn spec_parse(s: Seq<u8>, i: int) -> Parsed<AuthenticationInfoView> {
        spec_ainfo(s, i)
    }

    fn parse(input: &[u8], pos: usize) -> (r: Result<(AuthenticationInfo, usize), Reject>) {
        ainfo(input, pos)
    }
}

/// The Authentication-Info header: at least one entry.
#[verifier::opaque]
pub open spec fn spec_authentication_info(s: Seq<u8>, i: int) -> Parsed<HeaderView> {
    let a = spec_named(s, i, "Authentication-Info");
    let l = spec_list1::<AinfoRule>(s, a.pos(), Sep::Padded(COMMA));
    Parsed { value: HeaderView::AuthenticationInfo(l.value), end: a.and(l.end) }
}

/// Parses at `pos` what [`spec_authentication_info`] describes.
pub fn authentication_info(input: &[u8], pos: usize) -> (r: Result<(Header, usize), Reject>)
    requires
        pos <= input@.len(),
    ensures
        yields(r, pos, input@.len(), spec_authentication_info(input@, pos as int)),
{
    proof {
        reveal(spec_authentication_info);
    }
    let a = named(input, pos, "Authentication-Info")?;
    let (l, e) = list1::<AinfoRule>(input, a, Sep::Padded(COMMA))?;
    Ok((Header::AuthenticationInfo(l), e))
}

/// The parameter `qop=` of a challenge: qualities of protection between
/// double quotes, separated by bare commas.
#[verifier::opaque]
pub open spec fn spec_qop_options(s: Seq<u8>, i: int) -> Parsed<Seq<QOPValueView>> {
    let a = spec_param_name(s, i, "qop");
    let b = a.and(spec_closing(s, a.pos(), DQUOTE));
    let l = spec_list1::<QopValueRule>(s, b.pos(), Sep::Plain(COMMA));
    let c = b.and(l.end);
    Parsed { value: l.value, end: c.and(spec_opening(s, c.pos(), DQUOTE)) }
}

/// Parses at `pos` what [`spec_qop_options`] describes.
pub fn qop_options(input: &[u8], pos: usize) -> (r: Result<(Vec<QOPValue>, usize), Reject>)
    requires
        pos <= input@.len(),
    ensures
        yields(r, pos, input@.len(), spec_qop_options(input@, pos as int)),
{
    proof {
        reveal(spec_qop_options);
    }
    let a = param_name(input, pos, "qop")?;
    let b = left_double_quote(input, a)?;
    let (l, c) = list1::<QopValueRule>(input, b, Sep::Plain(COMMA))?;
    let d = right_double_quote(input, c)?;
    Ok((l, d))
}

/// The parameter `stale=`: `true` or `false`, in either case.
#[verifier::opaque]
pub open spec fn spec_stale(s: Seq<u8>, i: int) -> Parsed<bool> {
    let a = spec_param_name(s, i, "stale");
    let v = spec_keyword(s, a.pos(), "true", true).or(spec_keyword(s, a.pos(), "false", false));
    Parsed { value: v.value, end: a.and(v.end) }
}

/// Parses at `pos` what [`spec_stale`] describes.
pub fn stale(input: &[u8], pos: usize) -> (r: Result<(bool, usize), Reject>)
    requires
        pos <= input@.len(),
    ensures
        yields(r, pos, input@.len(), spec_stale(input@, pos as int)),
{
    proof {
        reveal(spec_stale);
    }
    let a = param_name(input, pos, "stale")?;
    if let Ok(e) = tag_no_case(input, a, "true") {
        return Ok((true, e));
    }
    let e = tag_no_case(input, a, "false")?;
    Ok((false, e))
}

/// One URI of a protection domain: an absolute URI or an absolute path.
#[verifier::opaque]
pub open spec fn spec_domain_uri(s: Seq<u8>, i: int) -> Parsed<Seq<char>> {
    spec_span_text(s, i, spec_absolute_uri(s, i).or(spec_abs_path(s, i)))
}

fn domain_uri(input: &[u8], pos: usize) -> (r: Result<(String, usize), Reject>)
    requires
        pos <= input@.len(),
    ensures
        yields(r, pos, input@.len(), spec_domain_uri(input@, pos as int)),
{
    proof {
        reveal(spec_domain_uri);
    }
    let mut a = absolute_uri(input, pos);
    if is_soft(&a) {
        a = abs_path(input, pos);
    }
    let a = a?;
    let t = text(input, pos, a)?;
    Ok((t, a))
}

/// The production of one URI of a protection domain.
pub struct DomainUriRule;

impl Rule for DomainUriRule {
    type Out = String;

    open spec fn spec_parse(s: Seq<u8>, i: int) -> Parsed<Seq<char>> {
        spec_domain_uri(s, i)
    }

    fn parse(input: &[u8], pos: usize) -> (r: Result<(String, usize), Reject>) {
        domain_uri(input, pos)
    }
}

/// The parameter `domain=`: URIs between double quotes, separated by
/// spaces.
#[verifier::opaque]
pub open spec fn spec_domain(s: Seq<u8>, i: int) -> Parsed<Seq<Seq<char>>> {
    let a = spec_param_name(s, i, "domain");
    let b = a.and(spec_closing(s, a.pos(), DQUOTE));
    let l = spec_list1::<DomainUriRule>(s, b.pos(), Sep::Spaces);
    let c = b.and(l.end);
    Parsed { value: l.value, end: c.and(spec_opening(s, c.pos(), DQUOTE)) }
}

/// Parses at `pos` what [`spec_domain`] describes.
pub fn domain(input: &[u8], pos: usize) -> (r: Result<(Vec<String>, usize), Reject>)
    requires
        pos <= input@.len(),
    ensures
        yields(r, pos, input@.len(), spec_domain(input@, pos as int)),
{
    proof {
        reveal(spec_domain);
    }
    let a = param_name(input, pos, "domain")?;
    let b = left_double_quote(input, a)?;
    let (l, c) = list1::<DomainUriRule>(input, b, Sep::Spaces)?;
    let d = right_double_quote(input, c)?;
    Ok((l, d))
}

/// A parameter of a digest challenge: the named ones first, then any
/// authentication parameter.
#[verifier::opaque]
pub open spec fn spec_digest_cln(s: Seq<u8>, i: int) -> Parsed<DigestParamView> {
    let realm = spec_quoted_param(s, i, "realm");
    let domain = spec_domain(s, i);
    let nonce = spec_quoted_param(s, i, "nonce");
    let opaque = spec_quoted_param(s, i, "opaque");
    let stale = spec_stale(s, i);
    let algorithm = spec_algorithm(s, i);
    let qop = spec_qop_options(s, i);
    let other = spec_name_value(s, i);
    Parsed { value: DigestParamView::Realm(realm.value), end: realm.end }.or(
        Parsed { value: DigestParamView::Domain(domain.value), end: domain.end },
    ).or(Parsed { value: DigestParamView::Nonce(nonce.value), end: nonce.end }).or(
        Parsed { value: DigestParamView::Opaque(opaque.value), end: opaque.end },
    ).or(Parsed { value: DigestParamView::Stale(stale.value), end: stale.end }).or(
        Parsed { value: DigestParamView::Algorithm(algorithm.value), end: algorithm.end },
    ).or(Parsed { value: DigestParamView::QOPOptions(qop.value), end: qop.end }).or(
        Parsed { value: DigestParamView::Extension(other.value.0, other.value.1), end: other.end },
    )
}

/// Parses at `pos` what [`spec_digest_cln`] describes.
pub fn digest_cln(input: &[u8], pos: usize) -> (r: Result<(DigestParam, usize), Reject>)
    requires
        pos <= input@.len(),
    ensures
        yields(r, pos, input@.len(), spec_digest_cln(input@, pos as int)),
{
    proof {
        reveal(spec_digest_cln);
    }
    match quoted_param(input, pos, "realm") {
        Ok((v, e)) => {
            return Ok((DigestParam::Realm(v), e));
        },
        Err(x) => if x.fatal {
            return Err(x);
        },
    }
    match domain(input, pos) {
        Ok((v, e)) => {
            return Ok((DigestParam::Domain(v), e));
        },
        Err(x) => if x.fatal {
            return Err(x);
        },
    }
    match quoted_param(input, pos, "nonce") {
        Ok((v, e)) => {
            return Ok((DigestParam::Nonce(v), e));
        },
        Err(x) => if x.fatal {
            return Err(x);
        },
    }
    match quoted_param(input, pos, "opaque") {
        Ok((v, e)) => {
            return Ok((DigestParam::Opaque(v), e));
        },
        Err(x) => if x.fatal {
            return Err(x);
        },
    }
    match stale(input, pos) {
        Ok((v, e)) => {
            return Ok((DigestParam::Stale(v), e));
        },
        Err(x) => if x.fatal {
            return Err(x);
        },
    }
    match algorithm(input, pos) {
        Ok((v, e)) => {
            return Ok((DigestParam::Algorithm(v), e));
        },
        Err(x) => if x.fatal {
            return Err(x);
        },
    }
    match qop_options(input, pos) {
        Ok((v, e)) => {
            return Ok((DigestParam::QOPOptions(v), e));
        },
        Err(x) => if x.fatal {
            return Err(x);
        },
    }
    let ((name, value), e) = name_value(input, pos)?;
    Ok((DigestParam::Extension(name, value), e))
}

/// The production of one parameter of a digest challenge.
pub struct DigestClnRule;

impl Rule for DigestClnRule {
    type Out = DigestParam;

    open spec fn spec_parse(s: Seq<u8>, i: int) -> Parsed<DigestParamView> {
        spec_digest_cln(s, i)
    }

    fn parse(input: &[u8], pos: usize) -> (r: Result<(DigestParam, usize), Reject>) {
        digest_cln(input, pos)
    }
}

/// A challenge: a digest challenge, or another scheme with its parameters.
#[verifier::opaque]
pub open spec fn spec_challenge(s: Seq<u8>, i: int) -> Parsed<ChallengeView> {
    let d = spec_digest_scheme(s, i);
    let dl = spec_list1::<DigestClnRule>(s, d.pos(), Sep::Padded(COMMA));
    let n = spec_scheme_name(s, i);
    let nl = spec_list1::<AuthParamRule>(s, n.end.pos(), Sep::Padded(COMMA));
    Parsed { value: ChallengeView::Digest(dl.value), end: d.and(dl.end) }.or(
        Parsed { value: ChallengeView::Other(n.value, nl.value), end: n.end.and(nl.end) },
    )
}

/// Parses at `pos` what [`spec_challenge`] describes.
pub fn challenge(input: &[u8], pos: usize) -> (r: Result<(Challenge, usize), Reject>)
    requires
        pos <= input@.len(),
    ensures
        yields(r, pos, input@.len(), spec_challenge(input@, pos as int)),
{
    proof {
        reveal(spec_challenge);
    }
    let digest = match digest_scheme(input, pos) {
        Ok(d) => list1::<DigestClnRule>(input, d, Sep::Padded(COMMA)),
        Err(x) => Err(x),
    };
    match digest {
        Ok((l, e)) => {
            return Ok((Challenge::Digest(l), e));
        },
        Err(x) => if x.fatal {
            return Err(x);
        },
    }
    let (name, n) = scheme_name(input, pos)?;
    let (l, e) = list1::<AuthParamRule>(input, n, Sep::Padded(COMMA))?;
    Ok((Challenge::Other(name, l), e))
}

/// The Proxy-Authenticate header.
#[verifier::opaque]
pub open spec fn spec_proxy_authenticate(s: Seq<u8>, i: int) -> Parsed<HeaderView> {
    let a = spec_named(s, i, "Proxy-Authenticate");
    let c = spec_challenge(s, a.pos());
    Parsed { value: HeaderView::ProxyAuthenticate(c.value), end: a.and(c.end) }
}

/// Parses at `pos` what [`spec_proxy_authenticate`] describes.
pub fn proxy_authenticate(input: &[u8], pos: usize) -> (r: Result<(Header, usize), Reject>)
    requires
        pos <= input@.len(),
    ensures
        yields(r, pos, input@.len(), spec_proxy_authenticate(input@, pos as int)),
{
    proof {
        reveal(spec_proxy_authenticate);
    }
    let a = named(input, pos, "Proxy-Authenticate")?;
    let (c, e) = challenge(input, a)?;
    Ok((Header::ProxyAuthenticate(c), e))
}

/// The WWW-Authenticate header.
#[verifier::opaque]
pub open spec fn spec_www_authenticate(s: Seq<u8>, i: int) -> Parsed<HeaderView> {
    let a = spec_named(s, i, "WWW-Authenticate");
    let c = spec_challenge(s, a.pos());
    Parsed { value: HeaderView::WWWAuthenticate(c.value), end: a.and(c.end) }
}

/// Parses at `pos` what [`spec_www_authenticate`] describes.
pub fn www_authenticate(input: &[u8], pos: usize) -> (r: Result<(Header, usize), Reject>)
    requires
        pos <= input@.len(),
    ensures
        yields(r, pos, input@.len(), spec_www_authenticate(input@, pos as int)),
{
    proof {
        reveal(spec_www_authenticate);
    }
    let a = named(input, pos, "WWW-Authenticate")?;
    let (c, e) = challenge(input, a)?;
    Ok((Header::WWWAuthenticate(c), e))
}

/// The Proxy-Require header: at least one option tag.
#[verifier::opaque]
pub open spec fn spec_proxy_require(s: Seq<u8>, i: int) -> Parsed<HeaderView> {
    let a = spec_named(s, i, "Proxy-Require");
    let l = spec_list1::<TokenRule>(s, a.pos(), Sep::Padded(COMMA));
    Parsed { value: HeaderView::ProxyRequire(l.value), end: a.and(l.end) }
}

/// Parses at `pos` what [`spec_proxy_require`] describes.
pub fn proxy_require(input: &[u8], pos: usize) -> (r: Result<(Header, usize), Reject>)
    requires
        pos <= input@.len(),
    ensures
        yields(r, pos, input@.len(), spec_proxy_require(input@, pos as int)),
{
    proof {
        reveal(spec_proxy_require);
    }
    let a = named(input, pos, "Proxy-Require")?;
    let (l, e) = list1::<TokenRule>(input, a, Sep::Padded(COMMA))?;
    Ok((Header::ProxyRequire(l), e))
}

} // verus!
