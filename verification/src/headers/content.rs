//! The Accept family and the Content family of headers.

use crate::class::{Class, COMMA, EQUALS, HYPHEN, SEMICOLON, SLASH, STAR};
use crate::common::{
    generic_param, qvalue, spec_generic_param, spec_keyword, spec_qvalue, spec_span_text, TokenRule,
};
use crate::error::{yields, Cursor, Parsed, Reject};
use crate::header::{
    Accept, AcceptParam, AcceptParamView, AcceptView, ContentCoding, ContentCodingView,
    ContentDisposition, ContentDispositionView, DispositionParam, DispositionParamView,
    DispositionType, DispositionTypeView, Encoding, EncodingView, Header, HeaderView, Language,
    LanguageRange, LanguageRangeView, LanguageView, Media, MediaParam, MediaParamView,
    MediaSubType, MediaSubTypeView, MediaType, MediaTypeView, MediaView,
};
use crate::headers::{named, named2, spec_named, spec_named2};
use crate::list::{list0, list1, many, repeat, spec_list0, spec_list1, spec_many, spec_repeat, Rule, Sep, Span};
use crate::scan::{
    byte, integer, is_soft, m_n, spec_byte, spec_integer, spec_m_n, spec_tag_no_case, tag_no_case,
    text,
};
use crate::tokens::{
    equal, quoted_string, slash, spec_padded, spec_quoted_string, spec_token, spec_token_str,
    token, token_str,
};
use vstd::prelude::*;

verus! {

/// An extension name: `x-` in either case and a token, as text.
#[verifier::opaque]
pub open spec fn spec_x_token(s: Seq<u8>, i: int) -> Parsed<Seq<char>> {
    let a = spec_tag_no_case(s, i, "x-");
    spec_span_text(s, i, a.and(spec_token(s, a.pos())))
}

fn x_token(input: &[u8], pos: usize) -> (r: Result<(String, usize), Reject>)
    requires
        pos <= input@.len(),
    ensures
        yields(r, pos, input@.len(), spec_x_token(input@, pos as int)),
{
    proof {
        reveal(spec_x_token);
    }
    let a = tag_no_case(input, pos, "x-")?;
    let b = token(input, a)?;
    let t = text(input, pos, b)?;
    Ok((t, b))
}

/// A media type's top-level type: `*`, a known name, an `x-` name or a
/// token, tried in this order.
#[verifier::opaque]
pub open spec fn spec_m_type(s: Seq<u8>, i: int) -> Parsed<MediaTypeView> {
    let x = spec_x_token(s, i);
    let t = spec_token_str(s, i);
    Parsed { value: MediaTypeView::Any, end: spec_byte(s, i, STAR) }.or(
        spec_keyword(s, i, "text", MediaTypeView::Text),
    ).or(spec_keyword(s, i, "audio", MediaTypeView::Audio)).or(
        spec_keyword(s, i, "image", MediaTypeView::Image),
    ).or(spec_keyword(s, i, "video", MediaTypeView::Video)).or(
        spec_keyword(s, i, "multipart", MediaTypeView::Multipart),
    ).or(spec_keyword(s, i, "application", MediaTypeView::Application)).or(
        spec_keyword(s, i, "message", MediaTypeView::Message),
    ).or(Parsed { value: MediaTypeView::XExtension(x.value), end: x.end }).or(
        Parsed { value: MediaTypeView::IETFExtension(t.value), end: t.end },
    )
}

/// Parses at `pos` what [`spec_m_type`] describes.
pub fn m_type(input: &[u8], pos: usize) -> (r: Result<(MediaType, usize), Reject>)
    requires
        pos <= input@.len(),
    ensures
        yields(r, pos, input@.len(), spec_m_type(input@, pos as int)),
{
    proof {
        reveal(spec_m_type);
    }
    if let Ok(e) = byte(input, pos, STAR) {
        return Ok((MediaType::Any, e));
    }
    if let Ok(e) = tag_no_case(input, pos, "text") {
        return Ok((MediaType::Text, e));
    }
    if let Ok(e) = tag_no_case(input, pos, "audio") {
        return Ok((MediaType::Audio, e));
    }
    if let Ok(e) = tag_no_case(input, pos, "image") {
        return Ok((MediaType::Image, e));
    }
    if let Ok(e) = tag_no_case(input, pos, "video") {
        return Ok((MediaType::Video, e));
    }
    if let Ok(e) = tag_no_case(input, pos, "multipart") {
        return Ok((MediaType::Multipart, e));
    }
    if let Ok(e) = tag_no_case(input, pos, "application") {
        return Ok((MediaType::Application, e));
    }
    if let Ok(e) = tag_no_case(input, pos, "message") {
        return Ok((MediaType::Message, e));
    }
    match x_token(input, pos) {
        Ok((t, e)) => {
            return Ok((MediaType::XExtension(t), e));
        },
        Err(x) => {
            if x.fatal {
                return Err(x);
            }
        },
    }
    let (t, e) = token_str(input, pos)?;
    Ok((MediaType::IETFExtension(t), e))
}

/// A media type's subtype: `*`, an `x-` name or a token.
#[verifier::opaque]
pub open spec fn spec_m_subtype(s: Seq<u8>, i: int) -> Parsed<MediaSubTypeView> {
    let x = spec_x_token(s, i);
    let t = spec_token_str(s, i);
    Parsed { value: MediaSubTypeView::Any, end: spec_byte(s, i, STAR) }.or(
        Parsed { value: MediaSubTypeView::XExtension(x.value), end: x.end },
    ).or(Parsed { value: MediaSubTypeView::IETFExtension(t.value), end: t.end })
}

/// Parses at `pos` what [`spec_m_subtype`] describes.
pub fn m_subtype(input: &[u8], pos: usize) -> (r: Result<(MediaSubType, usize), Reject>)
    requires
        pos <= input@.len(),
    ensures
        yields(r, pos, input@.len(), spec_m_subtype(input@, pos as int)),
{
    proof {
        reveal(spec_m_subtype);
    }
    if let Ok(e) = byte(input, pos, STAR) {
        return Ok((MediaSubType::Any, e));
    }
    match x_token(input, pos) {
        Ok((t, e)) => {
            return Ok((MediaSubType::XExtension(t), e));
        },
        Err(x) => {
            if x.fatal {
                return Err(x);
            }
        },
    }
    let (t, e) = token_str(input, pos)?;
    Ok((MediaSubType::IETFExtension(t), e))
}

/// A name, `=`, and a token or a quoted string: the shape of media and
/// authentication parameters. The value is the pair of name and value.
#[verifier::opaque]
pub open spec fn spec_name_value(s: Seq<u8>, i: int) -> Parsed<(Seq<char>, Seq<char>)> {
    let n = spec_token_str(s, i);
    let e = n.end.and(spec_padded(s, n.end.pos(), EQUALS));
    let v = spec_span_text(
        s,
        e.pos(),
        e.and(spec_token(s, e.pos()).or(spec_quoted_string(s, e.pos()))),
    );
    Parsed { value: (n.value, v.value), end: v.end }
}

/// Parses at `pos` what [`spec_name_value`] describes.
pub fn name_value(input: &[u8], pos: usize) -> (r: Result<((String, String), usize), Reject>)
    requires
        pos <= input@.len(),
    ensures
        yields(r, pos, input@.len(), spec_name_value(input@, pos as int)),
{
    proof {
        reveal(spec_name_value);
    }
    let (name, n) = token_str(input, pos)?;
    let e = equal(input, n)?;
    let mut v = token(input, e);
    if is_soft(&v) {
        v = quoted_string(input, e);
    }
    let v = v?;
    let value = text(input, e, v)?;
    Ok(((name, value), v))
}

/// A media parameter.
#[verifier::opaque]
pub open spec fn spec_m_parameter(s: Seq<u8>, i: int) -> Parsed<MediaParamView> {
    let p = spec_name_value(s, i);
    Parsed { value: MediaParamView { name: p.value.0, value: p.value.1 }, end: p.end }
}

/// Parses at `pos` what [`spec_m_parameter`] describes.
pub fn m_parameter(input: &[u8], pos: usize) -> (r: Result<(MediaParam, usize), Reject>)
    requires
        pos <= input@.len(),
    ensures
        yields(r, pos, input@.len(), spec_m_parameter(input@, pos as int)),
{
    proof {
        reveal(spec_m_parameter);
    }
    let ((name, value), e) = name_value(input, pos)?;
    Ok((MediaParam { name, value }, e))
}

/// The production of one media parameter.
pub struct MediaParamRule;

impl Rule for MediaParamRule {
    type Out = MediaParam;

    open spec fn spec_parse(s: Seq<u8>, i: int) -> Parsed<MediaParamView> {
        spec_m_parameter(s, i)
    }

    fn parse(input: &[u8], pos: usize) -> (r: Result<(MediaParam, usize), Reject>) {
        m_parameter(input, pos)
    }
}

/// A media range or media type: a type, `/`, a subtype, and any number of
/// `;` and a media parameter.
#[verifier::opaque]
pub open spec fn spec_media_range(s: Seq<u8>, i: int) -> Parsed<MediaView> {
    let t = spec_m_type(s, i);
    let a = t.end.and(spec_padded(s, t.end.pos(), SLASH));
    let u = spec_m_subtype(s, a.pos());
    let b = a.and(u.end);
    let ps = spec_many::<MediaParamRule>(s, b.pos(), Sep::Padded(SEMICOLON));
    Parsed {
        value: MediaView { type_: t.value, subtype: u.value, params: ps.value },
        end: b.and(ps.end),
    }
}

/// Parses at `pos` what [`spec_media_range`] describes.
pub fn media_range(input: &[u8], pos: usize) -> (r: Result<(Media, usize), Reject>)
    requires
        pos <= input@.len(),
    ensures
        yields(r, pos, input@.len(), spec_media_range(input@, pos as int)),
{
    proof {
        reveal(spec_media_range);
    }
    let (type_, t) = m_type(input, pos)?;
    let a = slash(input, t)?;
    let (subtype, b) = m_subtype(input, a)?;
    let (params, e) = many::<MediaParamRule>(input, b, Sep::Padded(SEMICOLON))?;
    Ok((Media { type_, subtype, params }, e))
}

/// The parameter `q=` with a preference weight, kept as written.
#[verifier::opaque]
pub open spec fn spec_q_param(s: Seq<u8>, i: int) -> Parsed<Seq<char>> {
    let a = spec_tag_no_case(s, i, "q");
    let b = a.and(spec_padded(s, a.pos(), EQUALS));
    spec_span_text(s, b.pos(), b.and(spec_qvalue(s, b.pos())))
}

/// Parses at `pos` what [`spec_q_param`] describes.
pub fn q_param(input: &[u8], pos: usize) -> (r: Result<(String, usize), Reject>)
    requires
        pos <= input@.len(),
    ensures
        yields(r, pos, input@.len(), spec_q_param(input@, pos as int)),
{
    proof {
        reveal(spec_q_param);
    }
    let a = tag_no_case(input, pos, "q")?;
    let b = equal(input, a)?;
    let c = qvalue(input, b)?;
    let t = text(input, b, c)?;
    Ok((t, c))
}

/// An accept parameter: `q=` and a weight, or a generic parameter.
#[verifier::opaque]
pub open spec fn spec_accept_param(s: Seq<u8>, i: int) -> Parsed<AcceptParamView> {
    let q = spec_q_param(s, i);
    let g = spec_generic_param(s, i);
    Parsed { value: AcceptParamView::Q(q.value), end: q.end }.or(
        Parsed { value: AcceptParamView::Extension(g.value), end: g.end },
    )
}

/// Parses at `pos` what [`spec_accept_param`] describes.
pub fn accept_param(input: &[u8], pos: usize) -> (r: Result<(AcceptParam, usize), Reject>)
    requires
        pos <= input@.len(),
    ensures
        yields(r, pos, input@.len(), spec_accept_param(input@, pos as int)),
{
    proof {
        reveal(spec_accept_param);
    }
    match q_param(input, pos) {
        Ok((q, e)) => {
            return Ok((AcceptParam::Q(q), e));
        },
        Err(x) => {
            if x.fatal {
                return Err(x);
            }
        },
    }
    let (g, e) = generic_param(input, pos)?;
    Ok((AcceptParam::Extension(g), e))
}

/// The production of one accept parameter.
pub struct AcceptParamRule;

impl Rule for AcceptParamRule {
    type Out = AcceptParam;

    open spec fn spec_parse(s: Seq<u8>, i: int) -> Parsed<AcceptParamView> {
        spec_accept_param(s, i)
    }

    fn parse(input: &[u8], pos: usize) -> (r: Result<(AcceptParam, usize), Reject>) {
        accept_param(input, pos)
    }
}

/// One entry of an Accept header: a media range and its accept parameters.
/// The media parameters take every parameter of the name-and-value shape,
/// `q=` included; only what they leave is read as an accept parameter.
#[verifier::opaque]
pub open spec fn spec_accept_range(s: Seq<u8>, i: int) -> Parsed<AcceptView> {
    let m = spec_media_range(s, i);
    let ps = spec_many::<AcceptParamRule>(s, m.end.pos(), Sep::Padded(SEMICOLON));
    Parsed { value: AcceptView { media: m.value, params: ps.value }, end: m.end.and(ps.end) }
}

/// Parses at `pos` what [`spec_accept_range`] describes.
pub fn accept_range(input: &[u8], pos: usize) -> (r: Result<(Accept, usize), Reject>)
    requires
        pos <= input@.len(),
    ensures
        yields(r, pos, input@.len(), spec_accept_range(input@, pos as int)),
{
    proof {
        reveal(spec_accept_range);
    }
    let (media, m) = media_range(input, pos)?;
    let (params, e) = many::<AcceptParamRule>(input, m, Sep::Padded(SEMICOLON))?;
    Ok((Accept { media, params }, e))
}

/// The production of one Accept entry.
pub struct AcceptRule;

impl Rule for AcceptRule {
    type Out = Accept;

    open spec fn spec_parse(s: Seq<u8>, i: int) -> Parsed<AcceptView> {
        spec_accept_range(s, i)
    }

    fn parse(input: &[u8], pos: usize) -> (r: Result<(Accept, usize), Reject>) {
        accept_range(input, pos)
    }
}

/// The Accept header: any number of entries, none included.
#[verifier::opaque]
pub open spec fn spec_accept(s: Seq<u8>, i: int) -> Parsed<HeaderView> {
    let a = spec_named(s, i, "Accept");
    let l = spec_list0::<AcceptRule>(s, a.pos(), Sep::Padded(COMMA));
    Parsed { value: HeaderView::Accept(l.value), end: a.and(l.end) }
}

/// Parses at `pos` what [`spec_accept`] describes.
pub fn accept(input: &[u8], pos: usize) -> (r: Result<(Header, usize), Reject>)
    requires
        pos <= input@.len(),
    ensures
        yields(r, pos, input@.len(), spec_accept(input@, pos as int)),
{
    proof {
        reveal(spec_accept);
    }
    let a = named(input, pos, "Accept")?;
    let (l, e) = list0::<AcceptRule>(input, a, Sep::Padded(COMMA))?;
    Ok((Header::Accept(l), e))
}

/// A content coding: `*` or a token.
#[verifier::opaque]
pub open spec fn spec_codings(s: Seq<u8>, i: int) -> Parsed<ContentCodingView> {
    let t = spec_token_str(s, i);
    Parsed { value: ContentCodingView::Any, end: spec_byte(s, i, STAR) }.or(
        Parsed { value: ContentCodingView::Other(t.value), end: t.end },
    )
}

/// Parses at `pos` what [`spec_codings`] describes.
pub fn codings(input: &[u8], pos: usize) -> (r: Result<(ContentCoding, usize), Reject>)
    requires
        pos <= input@.len(),
    ensures
        yields(r, pos, input@.len(), spec_codings(input@, pos as int)),
{
    proof {
        reveal(spec_codings);
    }
    if let Ok(e) = byte(input, pos, STAR) {
        return Ok((ContentCoding::Any, e));
    }
    let (t, e) = token_str(input, pos)?;
    Ok((ContentCoding::Other(t), e))
}

/// One entry of an Accept-Encoding header.
#[verifier::opaque]
pub open spec fn spec_encoding(s: Seq<u8>, i: int) -> Parsed<EncodingView> {
    let c = spec_codings(s, i);
    let ps = spec_many::<AcceptParamRule>(s, c.end.pos(), Sep::Padded(SEMICOLON));
    Parsed { value: EncodingView { coding: c.value, params: ps.value }, end: c.end.and(ps.end) }
}

/// Parses at `pos` what [`spec_encoding`] describes.
pub fn encoding(input: &[u8], pos: usize) -> (r: Result<(Encoding, usize), Reject>)
    requires
        pos <= input@.len(),
    ensures
        yields(r, pos, input@.len(), spec_encoding(input@, pos as int)),
{
    proof {
        reveal(spec_encoding);
    }
    let (coding, c) = codings(input, pos)?;
    let (params, e) = many::<AcceptParamRule>(input, c, Sep::Padded(SEMICOLON))?;
    Ok((Encoding { coding, params }, e))
}

/// The production of one Accept-Encoding entry.
pub struct EncodingRule;

impl Rule for EncodingRule {
    type Out = Encoding;

    open spec fn spec_parse(s: Seq<u8>, i: int) -> Parsed<EncodingView> {
        spec_encoding(s, i)
    }

    fn parse(input: &[u8], pos: usize) -> (r: Result<(Encoding, usize), Reject>) {
        encoding(input, pos)
    }
}

/// The Accept-Encoding header: any number of entries.
#[verifier::opaque]
pub open spec fn spec_accept_encoding(s: Seq<u8>, i: int) -> Parsed<HeaderView> {
    let a = spec_named(s, i, "Accept-Encoding");
    let l = spec_list0::<EncodingRule>(s, a.pos(), Sep::Padded(COMMA));
    Parsed { value: HeaderView::AcceptEncoding(l.value), end: a.and(l.end) }
}

/// Parses at `pos` what [`spec_accept_encoding`] describes.
pub fn accept_encoding(input: &[u8], pos: usize) -> (r: Result<(Header, usize), Reject>)
    requires
        pos <= input@.len(),
    ensures
        yields(r, pos, input@.len(), spec_accept_encoding(input@, pos as int)),
{
    proof {
        reveal(spec_accept_encoding);
    }
    let a = named(input, pos, "Accept-Encoding")?;
    let (l, e) = list0::<EncodingRule>(input, a, Sep::Padded(COMMA))?;
    Ok((Header::AcceptEncoding(l), e))
}

/// A hyphen and a subtag of one to eight letters.
pub struct Subtag;

impl Span for Subtag {
    open spec fn spec_span(s: Seq<u8>, i: int) -> Cursor {
        let a = spec_byte(s, i, HYPHEN);
        a.and(spec_m_n(s, a.pos(), Class::Alphabetic, 1, 8))
    }

    fn span(input: &[u8], pos: usize) -> (r: Result<usize, Reject>) {
        let a = byte(input, pos, HYPHEN)?;
        m_n(input, a, Class::Alphabetic, 1, 8)
    }
}

/// A language tag: a primary tag of one to eight letters and any number of
/// subtags, as text.
#[verifier::opaque]
pub open spec fn spec_language_tag(s: Seq<u8>, i: int) -> Parsed<Seq<char>> {
    let a = spec_m_n(s, i, Class::Alphabetic, 1, 8);
    spec_span_text(s, i, a.and(spec_repeat::<Subtag>(s, a.pos())))
}

/// Parses at `pos` what [`spec_language_tag`] describes.
pub fn language_tag(input: &[u8], pos: usize) -> (r: Result<(String, usize), Reject>)
    requires
        pos <= input@.len(),
    ensures
        yields(r, pos, input@.len(), spec_language_tag(input@, pos as int)),
{
    proof {
        reveal(spec_language_tag);
    }
    let a = m_n(input, pos, Class::Alphabetic, 1, 8)?;
    let b = repeat::<Subtag>(input, a)?;
    let t = text(input, pos, b)?;
    Ok((t, b))
}

/// A language range: `*` or a language tag.
#[verifier::opaque]
pub open spec fn spec_language_range(s: Seq<u8>, i: int) -> Parsed<LanguageRangeView> {
    let t = spec_language_tag(s, i);
    Parsed { value: LanguageRangeView::Any, end: spec_byte(s, i, STAR) }.or(
        Parsed { value: LanguageRangeView::Other(t.value), end: t.end },
    )
}

/// Parses at `pos` what [`spec_language_range`] describes.
pub fn language_range(input: &[u8], pos: usize) -> (r: Result<(LanguageRange, usize), Reject>)
    requires
        pos <= input@.len(),
    ensures
        yields(r, pos, input@.len(), spec_language_range(input@, pos as int)),
{
    proof {
        reveal(spec_language_range);
    }
    if let Ok(e) = byte(input, pos, STAR) {
        return Ok((LanguageRange::Any, e));
    }
    let (t, e) = language_tag(input, pos)?;
    Ok((LanguageRange::Other(t), e))
}

/// One entry of an Accept-Language header.
#[verifier::opaque]
pub open spec fn spec_language(s: Seq<u8>, i: int) -> Parsed<LanguageView> {
    let r = spec_language_range(s, i);
    let ps = spec_many::<AcceptParamRule>(s, r.end.pos(), Sep::Padded(SEMICOLON));
    Parsed { value: LanguageView { range: r.value, params: ps.value }, end: r.end.and(ps.end) }
}

/// Parses at `pos` what [`spec_language`] describes.
pub fn language(input: &[u8], pos: usize) -> (r: Result<(Language, usize), Reject>)
    requires
        pos <= input@.len(),
    ensures
        yields(r, pos, input@.len(), spec_language(input@, pos as int)),
{
    proof {
        reveal(spec_language);
    }
    let (range, c) = language_range(input, pos)?;
    let (params, e) = many::<AcceptParamRule>(input, c, Sep::Padded(SEMICOLON))?;
    Ok((Language { range, params }, e))
}

/// The production of one Accept-Language entry.
pub struct LanguageRule;

impl Rule for LanguageRule {
    type Out = Language;

    open spec fn spec_parse(s: Seq<u8>, i: int) -> Parsed<LanguageView> {
        spec_language(s, i)
    }

    fn parse(input: &[u8], pos: usize) -> (r: Result<(Language, usize), Reject>) {
        language(input, pos)
    }
}

/// The Accept-Language header: any number of entries.
#[verifier::opaque]
pub open spec fn spec_accept_language(s: Seq<u8>, i: int) -> Parsed<HeaderView> {
    let a = spec_named(s, i, "Accept-Language");
    let l = spec_list0::<LanguageRule>(s, a.pos(), Sep::Padded(COMMA));
    Parsed { value: HeaderView::AcceptLanguage(l.value), end: a.and(l.end) }
}

/// Parses at `pos` what [`spec_accept_language`] describes.
pub fn accept_language(input: &[u8], pos: usize) -> (r: Result<(Header, usize), Reject>)
    requires
        pos <= input@.len(),
    ensures
        yields(r, pos, input@.len(), spec_accept_language(input@, pos as int)),
{
    proof {
        reveal(spec_accept_language);
    }
    let a = named(input, pos, "Accept-Language")?;
    let (l, e) = list0::<LanguageRule>(input, a, Sep::Padded(COMMA))?;
    Ok((Header::AcceptLanguage(l), e))
}

/// A media type: what a media range is, with no weight on it. The
/// wildcards of a media range are accepted here as well.
pub open spec fn spec_media_type(s: Seq<u8>, i: int) -> Parsed<MediaView> {
    spec_media_range(s, i)
}

/// Parses at `pos` what [`spec_media_type`] describes.
pub fn media_type(input: &[u8], pos: usize) -> (r: Result<(Media, usize), Reject>)
    requires
        pos <= input@.len(),
    ensures
        yields(r, pos, input@.len(), spec_media_type(input@, pos as int)),
{
    media_range(input, pos)
}

/// The Content-Type header, `c` for short: one media type.
#[verifier::opaque]
pub open spec fn spec_content_type(s: Seq<u8>, i: int) -> Parsed<HeaderView> {
    let a = spec_named2(s, i, "Content-Type", "c");
    let m = spec_media_type(s, a.pos());
    Parsed { value: HeaderView::ContentType(m.value), end: a.and(m.end) }
}

/// Parses at `pos` what [`spec_content_type`] describes.
pub fn content_type(input: &[u8], pos: usize) -> (r: Result<(Header, usize), Reject>)
    requires
        pos <= input@.len(),
    ensures
        yields(r, pos, input@.len(), spec_content_type(input@, pos as int)),
{
    proof {
        reveal(spec_content_type);
    }
    let a = named2(input, pos, "Content-Type", "c")?;
    let (m, e) = media_type(input, a)?;
    Ok((Header::ContentType(m), e))
}

/// The Content-Length header, `l` for short: one integer.
#[verifier::opaque]
pub open spec fn spec_content_length(s: Seq<u8>, i: int) -> Parsed<HeaderView> {
    let a = spec_named2(s, i, "Content-Length", "l");
    let n = spec_integer(s, a.pos());
    Parsed { value: HeaderView::ContentLength(n.value), end: a.and(n.end) }
}

/// Parses at `pos` what [`spec_content_length`] describes.
pub fn content_length(input: &[u8], pos: usize) -> (r: Result<(Header, usize), Reject>)
    requires
        pos <= input@.len(),
    ensures
        yields(r, pos, input@.len(), spec_content_length(input@, pos as int)),
{
    proof {
        reveal(spec_content_length);
    }
    let a = named2(input, pos, "Content-Length", "l")?;
    let (n, e) = integer(input, a)?;
    Ok((Header::ContentLength(n), e))
}

/// The Content-Encoding header, `e` for short: at least one coding.
#[verifier::opaque]
pub open spec fn spec_content_encoding(s: Seq<u8>, i: int) -> Parsed<HeaderView> {
    let a = spec_named2(s, i, "Content-Encoding", "e");
    let l = spec_list1::<TokenRule>(s, a.pos(), Sep::Padded(COMMA));
    Parsed { value: HeaderView::ContentEncoding(l.value), end: a.and(l.end) }
}

/// Parses at `pos` what [`spec_content_encoding`] describes.
pub fn content_encoding(input: &[u8], pos: usize) -> (r: Result<(Header, usize), Reject>)
    requires
        pos <= input@.len(),
    ensures
        yields(r, pos, input@.len(), spec_content_encoding(input@, pos as int)),
{
    proof {
        reveal(spec_content_encoding);
    }
    let a = named2(input, pos, "Content-Encoding", "e")?;
    let (l, e) = list1::<TokenRule>(input, a, Sep::Padded(COMMA))?;
    Ok((Header::ContentEncoding(l), e))
}

/// The parameter `handling=` with its value.
#[verifier::opaque]
pub open spec fn spec_handling(s: Seq<u8>, i: int) -> Parsed<DispositionParamView> {
    let a = spec_tag_no_case(s, i, "handling");
    let b = a.and(spec_padded(s, a.pos(), EQUALS));
    let t = spec_token_str(s, b.pos());
    Parsed {
        value: DispositionParamView::HandlingOptional,
        end: b.and(spec_tag_no_case(s, b.pos(), "optional")),
    }.or(
        Parsed {
            value: DispositionParamView::HandlingRequired,
            end: b.and(spec_tag_no_case(s, b.pos(), "required")),
        },
    ).or(Parsed { value: DispositionParamView::OtherHandling(t.value), end: b.and(t.end) })
}

fn handling(input: &[u8], pos: usize) -> (r: Result<(DispositionParam, usize), Reject>)
    requires
        pos <= input@.len(),
    ensures
        yields(r, pos, input@.len(), spec_handling(input@, pos as int)),
{
    proof {
        reveal(spec_handling);
    }
    let a = tag_no_case(input, pos, "handling")?;
    let b = equal(input, a)?;
    if let Ok(e) = tag_no_case(input, b, "optional") {
        return Ok((DispositionParam::HandlingOptional, e));
    }
    if let Ok(e) = tag_no_case(input, b, "required") {
        return Ok((DispositionParam::HandlingRequired, e));
    }
    let (t, e) = token_str(input, b)?;
    Ok((DispositionParam::OtherHandling(t), e))
}

/// A disposition parameter: `handling=` or a generic parameter.
#[verifier::opaque]
pub open spec fn spec_disposition_param(s: Seq<u8>, i: int) -> Parsed<DispositionParamView> {
    let g = spec_generic_param(s, i);
    spec_handling(s, i).or(Parsed { value: DispositionParamView::Extension(g.value), end: g.end })
}

/// Parses at `pos` what [`spec_disposition_param`] describes.
pub fn disposition_param(input: &[u8], pos: usize) -> (r: Result<(DispositionParam, usize), Reject>)
    requires
        pos <= input@.len(),
    ensures
        yields(r, pos, input@.len(), spec_disposition_param(input@, pos as int)),
{
    proof {
        reveal(spec_disposition_param);
    }
    let r = handling(input, pos);
    if !is_soft(&r) {
        return r;
    }
    let (g, e) = generic_param(input, pos)?;
    Ok((DispositionParam::Extension(g), e))
}

/// The production of one disposition parameter.
pub struct DispositionParamRule;

impl Rule for DispositionParamRule {
    type Out = DispositionParam;

    open spec fn spec_parse(s: Seq<u8>, i: int) -> Parsed<DispositionParamView> {
        spec_disposition_param(s, i)
    }

    fn parse(input: &[u8], pos: usize) -> (r: Result<(DispositionParam, usize), Reject>) {
        disposition_param(input, pos)
    }
}

/// A disposition type: a known name or a token.
#[verifier::opaque]
pub open spec fn spec_disp_type(s: Seq<u8>, i: int) -> Parsed<DispositionTypeView> {
    let t = spec_token_str(s, i);
    spec_keyword(s, i, "render", DispositionTypeView::Render).or(
        spec_keyword(s, i, "session", DispositionTypeView::Session),
    ).or(spec_keyword(s, i, "icon", DispositionTypeView::Icon)).or(
        spec_keyword(s, i, "alert", DispositionTypeView::Alert),
    ).or(Parsed { value: DispositionTypeView::Extension(t.value), end: t.end })
}

/// Parses at `pos` what [`spec_disp_type`] describes.
pub fn disp_type(input: &[u8], pos: usize) -> (r: Result<(DispositionType, usize), Reject>)
    requires
        pos <= input@.len(),
    ensures
        yields(r, pos, input@.len(), spec_disp_type(input@, pos as int)),
{
    proof {
        reveal(spec_disp_type);
    }
    if let Ok(e) = tag_no_case(input, pos, "render") {
        return Ok((DispositionType::Render, e));
    }
    if let Ok(e) = tag_no_case(input, pos, "session") {
        return Ok((DispositionType::Session, e));
    }
    if let Ok(e) = tag_no_case(input, pos, "icon") {
        return Ok((DispositionType::Icon, e));
    }
    if let Ok(e) = tag_no_case(input, pos, "alert") {
        return Ok((DispositionType::Alert, e));
    }
    let (t, e) = token_str(input, pos)?;
    Ok((DispositionType::Extension(t), e))
}

/// The Content-Disposition header: a type and its parameters.
#[verifier::opaque]
pub open spec fn spec_content_disposition(s: Seq<u8>, i: int) -> Parsed<HeaderView> {
    let a = spec_named(s, i, "Content-Disposition");
    let d = spec_disp_type(s, a.pos());
    let b = a.and(d.end);
    let ps = spec_many::<DispositionParamRule>(s, b.pos(), Sep::Padded(SEMICOLON));
    Parsed {
        value: HeaderView::ContentDisposition(
            ContentDispositionView { disposition: d.value, params: ps.value },
        ),
        end: b.and(ps.end),
    }
}

/// Parses at `pos` what [`spec_content_disposition`] describes.
pub fn content_disposition(input: &[u8], pos: usize) -> (r: Result<(Header, usize), Reject>)
    requires
        pos <= input@.len(),
    ensures
        yields(r, pos, input@.len(), spec_content_disposition(input@, pos as int)),
{
    proof {
        reveal(spec_content_disposition);
    }
    let a = named(input, pos, "Content-Disposition")?;
    let (disposition, b) = disp_type(input, a)?;
    let (params, e) = many::<DispositionParamRule>(input, b, Sep::Padded(SEMICOLON))?;
    Ok((Header::ContentDisposition(ContentDisposition { disposition, params }), e))
}

/// The production of one language tag.
pub struct LanguageTagRule;

impl Rule for LanguageTagRule {
    type Out = String;

    open spec fn spec_parse(s: Seq<u8>, i: int) -> Parsed<Seq<char>> {
        spec_language_tag(s, i)
    }

    fn parse(input: &[u8], pos: usize) -> (r: Result<(String, usize), Reject>) {
        language_tag(input, pos)
    }
}

/// The Content-Language header: at least one language tag.
#[verifier::opaque]
pub open spec fn spec_content_language(s: Seq<u8>, i: int) -> Parsed<HeaderView> {
    let a = spec_named(s, i, "Content-Language");
    let l = spec_list1::<LanguageTagRule>(s, a.pos(), Sep::Padded(COMMA));
    Parsed { value: HeaderView::ContentLanguage(l.value), end: a.and(l.end) }
}

/// Parses at `pos` what [`spec_content_language`] describes.
pub fn content_language(input: &[u8], pos: usize) -> (r: Result<(Header, usize), Reject>)
    requires
        pos <= input@.len(),
    ensures
        yields(r, pos, input@.len(), spec_content_language(input@, pos as int)),
{
    proof {
        reveal(spec_content_language);
    }
    let a = named(input, pos, "Content-Language")?;
    let (l, e) = list1::<LanguageTagRule>(input, a, Sep::Padded(COMMA))?;
    Ok((Header::ContentLanguage(l), e))
}

} // verus!
