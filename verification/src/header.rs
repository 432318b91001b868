//! The header fields of a message and the values that they hold.
//!
//! Every closed set of names has a catch-all variant that keeps an unknown
//! name verbatim, so that no well-formed extension makes a parse fail.

use crate::sip::{Method, MethodView, Transport, TransportView, User, UserView};
use vstd::prelude::*;

verus! {

/// A language range of an Accept-Language header.
#[derive(Clone, Debug, PartialEq, Eq)]
pub enum LanguageRange {
    /// The range `*`: every language is accepted alike.
    Any,
    /// A primary tag and any number of subtags, joined by hyphens.
    Other(String),
}

/// What a [`LanguageRange`] holds, as a mathematical value.
pub enum LanguageRangeView {
    Any,
    Other(Seq<char>),
}

impl DeepView for LanguageRange {
    type V = LanguageRangeView;

    open spec fn deep_view(&self) -> LanguageRangeView {
        match *self {
            LanguageRange::Any => LanguageRangeView::Any,
            LanguageRange::Other(x0) => LanguageRangeView::Other(x0.deep_view()),
        }
    }
}

/// One entry of an Accept-Language header.
#[derive(Clone, Debug, PartialEq, Eq)]
pub struct Language {
    pub range: LanguageRange,
    pub params: Vec<AcceptParam>,
}

/// What a [`Language`] holds, as a mathematical value.
pub struct LanguageView {
    pub range: LanguageRangeView,
    pub params: Seq<AcceptParamView>,
}

impl DeepView for Language {
    type V = LanguageView;

    open spec fn deep_view(&self) -> LanguageView {
        LanguageView {
            range: self.range.deep_view(),
            params: self.params.deep_view(),
        }
    }
}

/// A content coding.
#[derive(Clone, Debug, PartialEq, Eq)]
pub enum ContentCoding {
    /// The coding `*`.
    Any,
    /// A named coding, verbatim.
    Other(String),
}

/// What a [`ContentCoding`] holds, as a mathematical value.
pub enum ContentCodingView {
    Any,
    Other(Seq<char>),
}

impl DeepView for ContentCoding {
    type V = ContentCodingView;

    open spec fn deep_view(&self) -> ContentCodingView {
        match *self {
            ContentCoding::Any => ContentCodingView::Any,
            ContentCoding::Other(x0) => ContentCodingView::Other(x0.deep_view()),
        }
    }
}

/// One entry of an Accept-Encoding header.
#[derive(Clone, Debug, PartialEq, Eq)]
pub struct Encoding {
    pub coding: ContentCoding,
    pub params: Vec<AcceptParam>,
}

/// What a [`Encoding`] holds, as a mathematical value.
pub struct EncodingView {
    pub coding: ContentCodingView,
    pub params: Seq<AcceptParamView>,
}

impl DeepView for Encoding {
    type V = EncodingView;

    open spec fn deep_view(&self) -> EncodingView {
        EncodingView {
            coding: self.coding.deep_view(),
            params: self.params.deep_view(),
        }
    }
}

/// The subtype of a media type.
#[derive(Clone, Debug, PartialEq, Eq)]
pub enum MediaSubType {
    Any,
    IETFExtension(String),
    IANAExtension(String),
    XExtension(String),
}

/// What a [`MediaSubType`] holds, as a mathematical value.
pub enum MediaSubTypeView {
    Any,
    IETFExtension(Seq<char>),
    IANAExtension(Seq<char>),
    XExtension(Seq<char>),
}

impl DeepView for MediaSubType {
    type V = MediaSubTypeView;

    open spec fn deep_view(&self) -> MediaSubTypeView {
        match *self {
            MediaSubType::Any => MediaSubTypeView::Any,
            MediaSubType::IETFExtension(x0) => MediaSubTypeView::IETFExtension(x0.deep_view()),
            MediaSubType::IANAExtension(x0) => MediaSubTypeView::IANAExtension(x0.deep_view()),
            MediaSubType::XExtension(x0) => MediaSubTypeView::XExtension(x0.deep_view()),
        }
    }
}

/// The top-level type of a media type.
#[derive(Clone, Debug, PartialEq, Eq)]
pub enum MediaType {
    Any,
    Text,
    Image,
    Audio,
    Video,
    Application,
    Message,
    Multipart,
    IETFExtension(String),
    XExtension(String),
}

/// What a [`MediaType`] holds, as a mathematical value.
pub enum MediaTypeView {
    Any,
    Text,
    Image,
    Audio,
    Video,
    Application,
    Message,
    Multipart,
    IETFExtension(Seq<char>),
    XExtension(Seq<char>),
}

impl DeepView for MediaType {
    type V = MediaTypeView;

    open spec fn deep_view(&self) -> MediaTypeView {
        match *self {
            MediaType::Any => MediaTypeView::Any,
            MediaType::Text => MediaTypeView::Text,
            MediaType::Image => MediaTypeView::Image,
            MediaType::Audio => MediaTypeView::Audio,
            MediaType::Video => MediaTypeView::Video,
            MediaType::Application => MediaTypeView::Application,
            MediaType::Message => MediaTypeView::Message,
            MediaType::Multipart => MediaTypeView::Multipart,
            MediaType::IETFExtension(x0) => MediaTypeView::IETFExtension(x0.deep_view()),
            MediaType::XExtension(x0) => MediaTypeView::XExtension(x0.deep_view()),
        }
    }
}

/// A parameter of a media type.
#[derive(Clone, Debug, PartialEq, Eq)]
pub struct MediaParam {
    pub name: String,
    pub value: String,
}

/// What a [`MediaParam`] holds, as a mathematical value.
pub struct MediaParamView {
    pub name: Seq<char>,
    pub value: Seq<char>,
}

impl DeepView for MediaParam {
    type V = MediaParamView;

    open spec fn deep_view(&self) -> MediaParamView {
        MediaParamView {
            name: self.name.deep_view(),
            value: self.value.deep_view(),
        }
    }
}

/// A media type with its parameters.
#[derive(Clone, Debug, PartialEq, Eq)]
pub struct Media {
    pub type_: MediaType,
    pub subtype: MediaSubType,
    pub params: Vec<MediaParam>,
}

/// What a [`Media`] holds, as a mathematical value.
pub struct MediaView {
    pub type_: MediaTypeView,
    pub subtype: MediaSubTypeView,
    pub params: Seq<MediaParamView>,
}

impl DeepView for Media {
    type V = MediaView;

    open spec fn deep_view(&self) -> MediaView {
        MediaView {
            type_: self.type_.deep_view(),
            subtype: self.subtype.deep_view(),
            params: self.params.deep_view(),
        }
    }
}

/// A parameter of an Accept-family entry.
#[derive(Clone, Debug, PartialEq, Eq)]
pub enum AcceptParam {
    /// The preference weight, as written.
    Q(String),
    Extension(GenericParam),
}

/// What a [`AcceptParam`] holds, as a mathematical value.
pub enum AcceptParamView {
    Q(Seq<char>),
    Extension(GenericParamView),
}

impl DeepView for AcceptParam {
    type V = AcceptParamView;

    open spec fn deep_view(&self) -> AcceptParamView {
        match *self {
            AcceptParam::Q(x0) => AcceptParamView::Q(x0.deep_view()),
            AcceptParam::Extension(x0) => AcceptParamView::Extension(x0.deep_view()),
        }
    }
}

/// One entry of an Accept header.
#[derive(Clone, Debug, PartialEq, Eq)]
pub struct Accept {
    pub media: Media,
    pub params: Vec<AcceptParam>,
}

/// What a [`Accept`] holds, as a mathematical value.
pub struct AcceptView {
    pub media: MediaView,
    pub params: Seq<AcceptParamView>,
}

impl DeepView for Accept {
    type V = AcceptView;

    open spec fn deep_view(&self) -> AcceptView {
        AcceptView {
            media: self.media.deep_view(),
            params: self.params.deep_view(),
        }
    }
}

/// One entry of an Alert-Info header.
#[derive(Clone, Debug, PartialEq, Eq)]
pub struct AlertInfo {
    pub uri: String,
    pub params: Vec<GenericParam>,
}

/// What a [`AlertInfo`] holds, as a mathematical value.
pub struct AlertInfoView {
    pub uri: Seq<char>,
    pub params: Seq<GenericParamView>,
}

impl DeepView for AlertInfo {
    type V = AlertInfoView;

    open spec fn deep_view(&self) -> AlertInfoView {
        AlertInfoView {
            uri: self.uri.deep_view(),
            params: self.params.deep_view(),
        }
    }
}

/// A parameter of a SIP URI.
#[derive(Clone, Debug, PartialEq, Eq)]
pub enum URIParam {
    Transport(Transport),
    User(User),
    Method(Method),
    TTL(i32),
    MAddr(String),
    LR,
    Other(String, Option<String>),
}

/// What a [`URIParam`] holds, as a mathematical value.
pub enum URIParamView {
    Transport(TransportView),
    User(UserView),
    Method(MethodView),
    TTL(i32),
    MAddr(Seq<char>),
    LR,
    Other(Seq<char>, Option<Seq<char>>),
}

impl DeepView for URIParam {
    type V = URIParamView;

    open spec fn deep_view(&self) -> URIParamView {
        match *self {
            URIParam::Transport(x0) => URIParamView::Transport(x0.deep_view()),
            URIParam::User(x0) => URIParamView::User(x0.deep_view()),
            URIParam::Method(x0) => URIParamView::Method(x0.deep_view()),
            URIParam::TTL(x0) => URIParamView::TTL(x0.deep_view()),
            URIParam::MAddr(x0) => URIParamView::MAddr(x0.deep_view()),
            URIParam::LR => URIParamView::LR,
            URIParam::Other(x0, x1) => URIParamView::Other(x0.deep_view(), x1.deep_view()),
        }
    }
}

/// A header carried in a SIP URI.
#[derive(Clone, Debug, PartialEq, Eq)]
pub struct URIHeader {
    pub name: String,
    pub value: String,
}

/// What a [`URIHeader`] holds, as a mathematical value.
pub struct URIHeaderView {
    pub name: Seq<char>,
    pub value: Seq<char>,
}

impl DeepView for URIHeader {
    type V = URIHeaderView;

    open spec fn deep_view(&self) -> URIHeaderView {
        URIHeaderView {
            name: self.name.deep_view(),
            value: self.value.deep_view(),
        }
    }
}

/// A parameter of a Via entry.
#[derive(Clone, Debug, PartialEq, Eq)]
pub enum ViaParam {
    Ttl(i32),
    MAddr(String),
    Received(String),
    Branch(String),
    Extension(GenericParam),
}

/// What a [`ViaParam`] holds, as a mathematical value.
pub enum ViaParamView {
    Ttl(i32),
    MAddr(Seq<char>),
    Received(Seq<char>),
    Branch(Seq<char>),
    Extension(GenericParamView),
}

impl DeepView for ViaParam {
    type V = ViaParamView;

    open spec fn deep_view(&self) -> ViaParamView {
        match *self {
            ViaParam::Ttl(x0) => ViaParamView::Ttl(x0.deep_view()),
            ViaParam::MAddr(x0) => ViaParamView::MAddr(x0.deep_view()),
            ViaParam::Received(x0) => ViaParamView::Received(x0.deep_view()),
            ViaParam::Branch(x0) => ViaParamView::Branch(x0.deep_view()),
            ViaParam::Extension(x0) => ViaParamView::Extension(x0.deep_view()),
        }
    }
}

/// One hop of a Via header.
#[derive(Clone, Debug, PartialEq, Eq)]
pub struct Via {
    pub protocol: String,
    pub sent_by: String,
    pub params: Vec<ViaParam>,
}

/// What a [`Via`] holds, as a mathematical value.
pub struct ViaView {
    pub protocol: Seq<char>,
    pub sent_by: Seq<char>,
    pub params: Seq<ViaParamView>,
}

impl DeepView for Via {
    type V = ViaView;

    open spec fn deep_view(&self) -> ViaView {
        ViaView {
            protocol: self.protocol.deep_view(),
            sent_by: self.sent_by.deep_view(),
            params: self.params.deep_view(),
        }
    }
}

/// The purpose of a Call-Info entry.
#[derive(Clone, Debug, PartialEq, Eq)]
pub enum InfoParamPurpose {
    Icon,
    Info,
    Card,
    Other(String),
}

/// What a [`InfoParamPurpose`] holds, as a mathematical value.
pub enum InfoParamPurposeView {
    Icon,
    Info,
    Card,
    Other(Seq<char>),
}

impl DeepView for InfoParamPurpose {
    type V = InfoParamPurposeView;

    open spec fn deep_view(&self) -> InfoParamPurposeView {
        match *self {
            InfoParamPurpose::Icon => InfoParamPurposeView::Icon,
            InfoParamPurpose::Info => InfoParamPurposeView::Info,
            InfoParamPurpose::Card => InfoParamPurposeView::Card,
            InfoParamPurpose::Other(x0) => InfoParamPurposeView::Other(x0.deep_view()),
        }
    }
}

/// A parameter of a Call-Info entry.
#[derive(Clone, Debug, PartialEq, Eq)]
pub enum InfoParam {
    Purpose(InfoParamPurpose),
    Extension(GenericParam),
}

/// What a [`InfoParam`] holds, as a mathematical value.
pub enum InfoParamView {
    Purpose(InfoParamPurposeView),
    Extension(GenericParamView),
}

impl DeepView for InfoParam {
    type V = InfoParamView;

    open spec fn deep_view(&self) -> InfoParamView {
        match *self {
            InfoParam::Purpose(x0) => InfoParamView::Purpose(x0.deep_view()),
            InfoParam::Extension(x0) => InfoParamView::Extension(x0.deep_view()),
        }
    }
}

/// One entry of a Call-Info header.
#[derive(Clone, Debug, PartialEq, Eq)]
pub struct Info {
    pub uri: String,
    pub params: Vec<InfoParam>,
}

/// What a [`Info`] holds, as a mathematical value.
pub struct InfoView {
    pub uri: Seq<char>,
    pub params: Seq<InfoParamView>,
}

impl DeepView for Info {
    type V = InfoView;

    open spec fn deep_view(&self) -> InfoView {
        InfoView {
            uri: self.uri.deep_view(),
            params: self.params.deep_view(),
        }
    }
}

/// A digest algorithm.
#[derive(Clone, Debug, PartialEq, Eq)]
pub enum AlgorithmKind {
    MD5,
    MD5Sess,
    Extension(String),
}

/// What a [`AlgorithmKind`] holds, as a mathematical value.
pub enum AlgorithmKindView {
    MD5,
    MD5Sess,
    Extension(Seq<char>),
}

impl DeepView for AlgorithmKind {
    type V = AlgorithmKindView;

    open spec fn deep_view(&self) -> AlgorithmKindView {
        match *self {
            AlgorithmKind::MD5 => AlgorithmKindView::MD5,
            AlgorithmKind::MD5Sess => AlgorithmKindView::MD5Sess,
            AlgorithmKind::Extension(x0) => AlgorithmKindView::Extension(x0.deep_view()),
        }
    }
}

/// A quality of protection.
#[derive(Clone, Debug, PartialEq, Eq)]
pub enum QOPValue {
    Auth,
    AuthInt,
    Extension(String),
}

/// What a [`QOPValue`] holds, as a mathematical value.
pub enum QOPValueView {
    Auth,
    AuthInt,
    Extension(Seq<char>),
}

impl DeepView for QOPValue {
    type V = QOPValueView;

    open spec fn deep_view(&self) -> QOPValueView {
        match *self {
            QOPValue::Auth => QOPValueView::Auth,
            QOPValue::AuthInt => QOPValueView::AuthInt,
            QOPValue::Extension(x0) => QOPValueView::Extension(x0.deep_view()),
        }
    }
}

/// A parameter of a digest challenge.
#[derive(Clone, Debug, PartialEq, Eq)]
pub enum DigestParam {
    Realm(String),
    Domain(Vec<String>),
    Nonce(String),
    Opaque(String),
    Stale(bool),
    Algorithm(AlgorithmKind),
    QOPOptions(Vec<QOPValue>),
    Extension(String, String),
}

/// What a [`DigestParam`] holds, as a mathematical value.
pub enum DigestParamView {
    Realm(Seq<char>),
    Domain(Seq<Seq<char>>),
    Nonce(Seq<char>),
    Opaque(Seq<char>),
    Stale(bool),
    Algorithm(AlgorithmKindView),
    QOPOptions(Seq<QOPValueView>),
    Extension(Seq<char>, Seq<char>),
}

impl DeepView for DigestParam {
    type V = DigestParamView;

    open spec fn deep_view(&self) -> DigestParamView {
        match *self {
            DigestParam::Realm(x0) => DigestParamView::Realm(x0.deep_view()),
            DigestParam::Domain(x0) => DigestParamView::Domain(x0.deep_view()),
            DigestParam::Nonce(x0) => DigestParamView::Nonce(x0.deep_view()),
            DigestParam::Opaque(x0) => DigestParamView::Opaque(x0.deep_view()),
            DigestParam::Stale(x0) => DigestParamView::Stale(x0.deep_view()),
            DigestParam::Algorithm(x0) => DigestParamView::Algorithm(x0.deep_view()),
            DigestParam::QOPOptions(x0) => DigestParamView::QOPOptions(x0.deep_view()),
            DigestParam::Extension(x0, x1) => DigestParamView::Extension(x0.deep_view(), x1.deep_view()),
        }
    }
}

/// An authentication challenge.
#[derive(Clone, Debug, PartialEq, Eq)]
pub enum Challenge {
    Digest(Vec<DigestParam>),
    /// Another scheme with its parameters.
    Other(String, Vec<(String, String)>),
}

/// What a [`Challenge`] holds, as a mathematical value.
pub enum ChallengeView {
    Digest(Seq<DigestParamView>),
    Other(Seq<char>, Seq<(Seq<char>, Seq<char>)>),
}

impl DeepView for Challenge {
    type V = ChallengeView;

    open spec fn deep_view(&self) -> ChallengeView {
        match *self {
            Challenge::Digest(x0) => ChallengeView::Digest(x0.deep_view()),
            Challenge::Other(x0, x1) => ChallengeView::Other(x0.deep_view(), x1.deep_view()),
        }
    }
}

/// A parameter of a digest response.
#[derive(Clone, Debug, PartialEq, Eq)]
pub enum DigestResponseParam {
    Username(String),
    Realm(String),
    Nonce(String),
    URI(String),
    Response(String),
    Algorithm(AlgorithmKind),
    CNonce(String),
    Opaque(String),
    QOP(QOPValue),
    NonceCount(String),
    Extension(String, String),
}

/// What a [`DigestResponseParam`] holds, as a mathematical value.
pub enum DigestResponseParamView {
    Username(Seq<char>),
    Realm(Seq<char>),
    Nonce(Seq<char>),
    URI(Seq<char>),
    Response(Seq<char>),
    Algorithm(AlgorithmKindView),
    CNonce(Seq<char>),
    Opaque(Seq<char>),
    QOP(QOPValueView),
    NonceCount(Seq<char>),
    Extension(Seq<char>, Seq<char>),
}

impl DeepView for DigestResponseParam {
    type V = DigestResponseParamView;

    open spec fn deep_view(&self) -> DigestResponseParamView {
        match *self {
            DigestResponseParam::Username(x0) => DigestResponseParamView::Username(x0.deep_view()),
            DigestResponseParam::Realm(x0) => DigestResponseParamView::Realm(x0.deep_view()),
            DigestResponseParam::Nonce(x0) => DigestResponseParamView::Nonce(x0.deep_view()),
            DigestResponseParam::URI(x0) => DigestResponseParamView::URI(x0.deep_view()),
            DigestResponseParam::Response(x0) => DigestResponseParamView::Response(x0.deep_view()),
            DigestResponseParam::Algorithm(x0) => DigestResponseParamView::Algorithm(x0.deep_view()),
            DigestResponseParam::CNonce(x0) => DigestResponseParamView::CNonce(x0.deep_view()),
            DigestResponseParam::Opaque(x0) => DigestResponseParamView::Opaque(x0.deep_view()),
            DigestResponseParam::QOP(x0) => DigestResponseParamView::QOP(x0.deep_view()),
            DigestResponseParam::NonceCount(x0) => DigestResponseParamView::NonceCount(x0.deep_view()),
            DigestResponseParam::Extension(x0, x1) => DigestResponseParamView::Extension(x0.deep_view(), x1.deep_view()),
        }
    }
}

/// Authentication credentials.
#[derive(Clone, Debug, PartialEq, Eq)]
pub enum Credentials {
    DigestResponse(Vec<DigestResponseParam>),
    /// Another scheme with its parameters.
    OtherResponse(String, Vec<(String, String)>),
}

/// What a [`Credentials`] holds, as a mathematical value.
pub enum CredentialsView {
    DigestResponse(Seq<DigestResponseParamView>),
    OtherResponse(Seq<char>, Seq<(Seq<char>, Seq<char>)>),
}

impl DeepView for Credentials {
    type V = CredentialsView;

    open spec fn deep_view(&self) -> CredentialsView {
        match *self {
            Credentials::DigestResponse(x0) => CredentialsView::DigestResponse(x0.deep_view()),
            Credentials::OtherResponse(x0, x1) => CredentialsView::OtherResponse(x0.deep_view(), x1.deep_view()),
        }
    }
}

/// One entry of an Authentication-Info header.
#[derive(Clone, Debug, PartialEq, Eq)]
pub enum AuthenticationInfo {
    NextNonce(String),
    QOP(QOPValue),
    ResponseAuth(String),
    CNonce(String),
    NonceCount(String),
}

/// What a [`AuthenticationInfo`] holds, as a mathematical value.
pub enum AuthenticationInfoView {
    NextNonce(Seq<char>),
    QOP(QOPValueView),
    ResponseAuth(Seq<char>),
    CNonce(Seq<char>),
    NonceCount(Seq<char>),
}

impl DeepView for AuthenticationInfo {
    type V = AuthenticationInfoView;

    open spec fn deep_view(&self) -> AuthenticationInfoView {
        match *self {
            AuthenticationInfo::NextNonce(x0) => AuthenticationInfoView::NextNonce(x0.deep_view()),
            AuthenticationInfo::QOP(x0) => AuthenticationInfoView::QOP(x0.deep_view()),
            AuthenticationInfo::ResponseAuth(x0) => AuthenticationInfoView::ResponseAuth(x0.deep_view()),
            AuthenticationInfo::CNonce(x0) => AuthenticationInfoView::CNonce(x0.deep_view()),
            AuthenticationInfo::NonceCount(x0) => AuthenticationInfoView::NonceCount(x0.deep_view()),
        }
    }
}

/// The value of a Priority header.
#[derive(Clone, Debug, PartialEq, Eq)]
pub enum Priority {
    Emergency,
    Urgent,
    Normal,
    NonUrgent,
    Extension(String),
}

/// What a [`Priority`] holds, as a mathematical value.
pub enum PriorityView {
    Emergency,
    Urgent,
    Normal,
    NonUrgent,
    Extension(Seq<char>),
}

impl DeepView for Priority {
    type V = PriorityView;

    open spec fn deep_view(&self) -> PriorityView {
        match *self {
            Priority::Emergency => PriorityView::Emergency,
            Priority::Urgent => PriorityView::Urgent,
            Priority::Normal => PriorityView::Normal,
            Priority::NonUrgent => PriorityView::NonUrgent,
            Priority::Extension(x0) => PriorityView::Extension(x0.deep_view()),
        }
    }
}

/// A parameter of a To header.
#[derive(Clone, Debug, PartialEq, Eq)]
pub enum ToParam {
    Tag(String),
    Extension(GenericParam),
}

/// What a [`ToParam`] holds, as a mathematical value.
pub enum ToParamView {
    Tag(Seq<char>),
    Extension(GenericParamView),
}

impl DeepView for ToParam {
    type V = ToParamView;

    open spec fn deep_view(&self) -> ToParamView {
        match *self {
            ToParam::Tag(x0) => ToParamView::Tag(x0.deep_view()),
            ToParam::Extension(x0) => ToParamView::Extension(x0.deep_view()),
        }
    }
}

/// The value of a To header.
#[derive(Clone, Debug, PartialEq, Eq)]
pub struct To {
    pub addr: String,
    pub name: Option<String>,
    pub params: Vec<ToParam>,
}

/// What a [`To`] holds, as a mathematical value.
pub struct ToView {
    pub addr: Seq<char>,
    pub name: Option<Seq<char>>,
    pub params: Seq<ToParamView>,
}

impl DeepView for To {
    type V = ToView;

    open spec fn deep_view(&self) -> ToView {
        ToView {
            addr: self.addr.deep_view(),
            name: self.name.deep_view(),
            params: self.params.deep_view(),
        }
    }
}

/// A parameter of the generic shape: a name and an optional value.
#[derive(Clone, Debug, PartialEq, Eq)]
pub struct GenericParam {
    pub name: String,
    pub value: Option<String>,
}

/// What a [`GenericParam`] holds, as a mathematical value.
pub struct GenericParamView {
    pub name: Seq<char>,
    pub value: Option<Seq<char>>,
}

impl DeepView for GenericParam {
    type V = GenericParamView;

    open spec fn deep_view(&self) -> GenericParamView {
        GenericParamView {
            name: self.name.deep_view(),
            value: self.value.deep_view(),
        }
    }
}

/// One entry of a Route header.
#[derive(Clone, Debug, PartialEq, Eq)]
pub struct Route {
    pub addr: String,
    pub name: Option<String>,
    pub params: Vec<GenericParam>,
}

/// What a [`Route`] holds, as a mathematical value.
pub struct RouteView {
    pub addr: Seq<char>,
    pub name: Option<Seq<char>>,
    pub params: Seq<GenericParamView>,
}

impl DeepView for Route {
    type V = RouteView;

    open spec fn deep_view(&self) -> RouteView {
        RouteView {
            addr: self.addr.deep_view(),
            name: self.name.deep_view(),
            params: self.params.deep_view(),
        }
    }
}

/// The value of a Reply-To header.
#[derive(Clone, Debug, PartialEq, Eq)]
pub struct ReplyTo {
    pub addr: String,
    pub name: Option<String>,
    pub params: Vec<GenericParam>,
}

/// What a [`ReplyTo`] holds, as a mathematical value.
pub struct ReplyToView {
    pub addr: Seq<char>,
    pub name: Option<Seq<char>>,
    pub params: Seq<GenericParamView>,
}

impl DeepView for ReplyTo {
    type V = ReplyToView;

    open spec fn deep_view(&self) -> ReplyToView {
        ReplyToView {
            addr: self.addr.deep_view(),
            name: self.name.deep_view(),
            params: self.params.deep_view(),
        }
    }
}

/// One entry of a Record-Route header.
#[derive(Clone, Debug, PartialEq, Eq)]
pub struct RecordRoute {
    pub addr: String,
    pub name: Option<String>,
    pub params: Vec<GenericParam>,
}

/// What a [`RecordRoute`] holds, as a mathematical value.
pub struct RecordRouteView {
    pub addr: Seq<char>,
    pub name: Option<Seq<char>>,
    pub params: Seq<GenericParamView>,
}

impl DeepView for RecordRoute {
    type V = RecordRouteView;

    open spec fn deep_view(&self) -> RecordRouteView {
        RecordRouteView {
            addr: self.addr.deep_view(),
            name: self.name.deep_view(),
            params: self.params.deep_view(),
        }
    }
}

/// A parameter of a From header.
#[derive(Clone, Debug, PartialEq, Eq)]
pub enum FromParam {
    Tag(String),
    Extension(GenericParam),
}

/// What a [`FromParam`] holds, as a mathematical value.
pub enum FromParamView {
    Tag(Seq<char>),
    Extension(GenericParamView),
}

impl DeepView for FromParam {
    type V = FromParamView;

    open spec fn deep_view(&self) -> FromParamView {
        match *self {
            FromParam::Tag(x0) => FromParamView::Tag(x0.deep_view()),
            FromParam::Extension(x0) => FromParamView::Extension(x0.deep_view()),
        }
    }
}

/// The value of a From header.
#[derive(Clone, Debug, PartialEq, Eq)]
pub struct From {
    pub addr: String,
    pub name: Option<String>,
    pub params: Vec<FromParam>,
}

/// What a [`From`] holds, as a mathematical value.
pub struct FromView {
    pub addr: Seq<char>,
    pub name: Option<Seq<char>>,
    pub params: Seq<FromParamView>,
}

impl DeepView for From {
    type V = FromView;

    open spec fn deep_view(&self) -> FromView {
        FromView {
            addr: self.addr.deep_view(),
            name: self.name.deep_view(),
            params: self.params.deep_view(),
        }
    }
}

/// A parameter of a Contact entry.
#[derive(Clone, Debug, PartialEq, Eq)]
pub enum ContactParam {
    /// The preference weight, as written.
    Q(String),
    Expires(i32),
    Extension(GenericParam),
}

/// What a [`ContactParam`] holds, as a mathematical value.
pub enum ContactParamView {
    Q(Seq<char>),
    Expires(i32),
    Extension(GenericParamView),
}

impl DeepView for ContactParam {
    type V = ContactParamView;

    open spec fn deep_view(&self) -> ContactParamView {
        match *self {
            ContactParam::Q(x0) => ContactParamView::Q(x0.deep_view()),
            ContactParam::Expires(x0) => ContactParamView::Expires(x0.deep_view()),
            ContactParam::Extension(x0) => ContactParamView::Extension(x0.deep_view()),
        }
    }
}

/// One entry of a Contact header.
#[derive(Clone, Debug, PartialEq, Eq)]
pub struct Contact {
    pub addr: String,
    pub name: Option<String>,
    pub params: Vec<ContactParam>,
}

/// What a [`Contact`] holds, as a mathematical value.
pub struct ContactView {
    pub addr: Seq<char>,
    pub name: Option<Seq<char>>,
    pub params: Seq<ContactParamView>,
}

impl DeepView for Contact {
    type V = ContactView;

    open spec fn deep_view(&self) -> ContactView {
        ContactView {
            addr: self.addr.deep_view(),
            name: self.name.deep_view(),
            params: self.params.deep_view(),
        }
    }
}

/// The value of a Contact header.
#[derive(Clone, Debug, PartialEq, Eq)]
pub enum ContactValue {
    /// The wildcard `*`: all registered contacts.
    Any,
    Specific(Vec<Contact>),
}

/// What a [`ContactValue`] holds, as a mathematical value.
pub enum ContactValueView {
    Any,
    Specific(Seq<ContactView>),
}

impl DeepView for ContactValue {
    type V = ContactValueView;

    open spec fn deep_view(&self) -> ContactValueView {
        match *self {
            ContactValue::Any => ContactValueView::Any,
            ContactValue::Specific(x0) => ContactValueView::Specific(x0.deep_view()),
        }
    }
}

/// One entry of an Error-Info header.
#[derive(Clone, Debug, PartialEq, Eq)]
pub struct ErrorInfo {
    pub uri: String,
    pub params: Vec<GenericParam>,
}

/// What a [`ErrorInfo`] holds, as a mathematical value.
pub struct ErrorInfoView {
    pub uri: Seq<char>,
    pub params: Seq<GenericParamView>,
}

impl DeepView for ErrorInfo {
    type V = ErrorInfoView;

    open spec fn deep_view(&self) -> ErrorInfoView {
        ErrorInfoView {
            uri: self.uri.deep_view(),
            params: self.params.deep_view(),
        }
    }
}

/// Who added a warning.
#[derive(Clone, Debug, PartialEq, Eq)]
pub enum WarningAgent {
    HostPort(String, Option<i32>),
    Pseudonym(String),
}

/// What a [`WarningAgent`] holds, as a mathematical value.
pub enum WarningAgentView {
    HostPort(Seq<char>, Option<i32>),
    Pseudonym(Seq<char>),
}

impl DeepView for WarningAgent {
    type V = WarningAgentView;

    open spec fn deep_view(&self) -> WarningAgentView {
        match *self {
            WarningAgent::HostPort(x0, x1) => WarningAgentView::HostPort(x0.deep_view(), x1.deep_view()),
            WarningAgent::Pseudonym(x0) => WarningAgentView::Pseudonym(x0.deep_view()),
        }
    }
}

/// One entry of a Warning header.
#[derive(Clone, Debug, PartialEq, Eq)]
pub struct Warning {
    pub code: String,
    pub agent: WarningAgent,
    pub text: String,
}

/// What a [`Warning`] holds, as a mathematical value.
pub struct WarningView {
    pub code: Seq<char>,
    pub agent: WarningAgentView,
    pub text: Seq<char>,
}

impl DeepView for Warning {
    type V = WarningView;

    open spec fn deep_view(&self) -> WarningView {
        WarningView {
            code: self.code.deep_view(),
            agent: self.agent.deep_view(),
            text: self.text.deep_view(),
        }
    }
}

/// The disposition of a message body.
#[derive(Clone, Debug, PartialEq, Eq)]
pub enum DispositionType {
    Render,
    Session,
    Icon,
    Alert,
    Extension(String),
}

/// What a [`DispositionType`] holds, as a mathematical value.
pub enum DispositionTypeView {
    Render,
    Session,
    Icon,
    Alert,
    Extension(Seq<char>),
}

impl DeepView for DispositionType {
    type V = DispositionTypeView;

    open spec fn deep_view(&self) -> DispositionTypeView {
        match *self {
            DispositionType::Render => DispositionTypeView::Render,
            DispositionType::Session => DispositionTypeView::Session,
            DispositionType::Icon => DispositionTypeView::Icon,
            DispositionType::Alert => DispositionTypeView::Alert,
            DispositionType::Extension(x0) => DispositionTypeView::Extension(x0.deep_view()),
        }
    }
}

/// A parameter of a Content-Disposition header.
#[derive(Clone, Debug, PartialEq, Eq)]
pub enum DispositionParam {
    HandlingOptional,
    HandlingRequired,
    OtherHandling(String),
    Extension(GenericParam),
}

/// What a [`DispositionParam`] holds, as a mathematical value.
pub enum DispositionParamView {
    HandlingOptional,
    HandlingRequired,
    OtherHandling(Seq<char>),
    Extension(GenericParamView),
}

impl DeepView for DispositionParam {
    type V = DispositionParamView;

    open spec fn deep_view(&self) -> DispositionParamView {
        match *self {
            DispositionParam::HandlingOptional => DispositionParamView::HandlingOptional,
            DispositionParam::HandlingRequired => DispositionParamView::HandlingRequired,
            DispositionParam::OtherHandling(x0) => DispositionParamView::OtherHandling(x0.deep_view()),
            DispositionParam::Extension(x0) => DispositionParamView::Extension(x0.deep_view()),
        }
    }
}

/// The value of a Content-Disposition header.
#[derive(Clone, Debug, PartialEq, Eq)]
pub struct ContentDisposition {
    pub disposition: DispositionType,
    pub params: Vec<DispositionParam>,
}

/// What a [`ContentDisposition`] holds, as a mathematical value.
pub struct ContentDispositionView {
    pub disposition: DispositionTypeView,
    pub params: Seq<DispositionParamView>,
}

impl DeepView for ContentDisposition {
    type V = ContentDispositionView;

    open spec fn deep_view(&self) -> ContentDispositionView {
        ContentDispositionView {
            disposition: self.disposition.deep_view(),
            params: self.params.deep_view(),
        }
    }
}

/// A parameter of a Retry-After header.
#[derive(Clone, Debug, PartialEq, Eq)]
pub enum RetryParam {
    AvailabilityDuration(i32),
    Extension(GenericParam),
}

/// What a [`RetryParam`] holds, as a mathematical value.
pub enum RetryParamView {
    AvailabilityDuration(i32),
    Extension(GenericParamView),
}

impl DeepView for RetryParam {
    type V = RetryParamView;

    open spec fn deep_view(&self) -> RetryParamView {
        match *self {
            RetryParam::AvailabilityDuration(x0) => RetryParamView::AvailabilityDuration(x0.deep_view()),
            RetryParam::Extension(x0) => RetryParamView::Extension(x0.deep_view()),
        }
    }
}

/// The value of a Retry-After header.
#[derive(Clone, Debug, PartialEq, Eq)]
pub struct RetryAfter {
    pub duration: i32,
    pub comment: Option<String>,
    pub params: Vec<RetryParam>,
}

/// What a [`RetryAfter`] holds, as a mathematical value.
pub struct RetryAfterView {
    pub duration: i32,
    pub comment: Option<Seq<char>>,
    pub params: Seq<RetryParamView>,
}

impl DeepView for RetryAfter {
    type V = RetryAfterView;

    open spec fn deep_view(&self) -> RetryAfterView {
        RetryAfterView {
            duration: self.duration.deep_view(),
            comment: self.comment.deep_view(),
            params: self.params.deep_view(),
        }
    }
}

/// A header field of a message, one variant per field name.
#[derive(Clone, Debug, PartialEq, Eq)]
pub enum Header {
    Accept(Vec<Accept>),
    AcceptEncoding(Vec<Encoding>),
    AcceptLanguage(Vec<Language>),
    AlertInfo(Vec<AlertInfo>),
    Allow(Vec<Method>),
    AuthenticationInfo(Vec<AuthenticationInfo>),
    Authorization(Credentials),
    CallID(String),
    CallInfo(Vec<Info>),
    Contact(ContactValue),
    ContentDisposition(ContentDisposition),
    ContentEncoding(Vec<String>),
    ContentLanguage(Vec<String>),
    ContentLength(i32),
    ContentType(Media),
    CSeq(i32, Method),
    Date(String),
    ErrorInfo(Vec<ErrorInfo>),
    Expires(i32),
    From(From),
    Via(Vec<Via>),
    InReplyTo(Vec<String>),
    MaxForwards(i32),
    MIMEVersion(String),
    MinExpires(i32),
    Organization(Option<String>),
    Priority(Priority),
    ProxyAuthenticate(Challenge),
    ProxyAuthorization(Credentials),
    ProxyRequire(Vec<String>),
    RecordRoute(Vec<RecordRoute>),
    ReplyTo(ReplyTo),
    Require(Vec<String>),
    RetryAfter(RetryAfter),
    Route(Vec<Route>),
    Server(String),
    Subject(Option<String>),
    Supported(Vec<String>),
    Timestamp(String, Option<String>),
    To(To),
    Unsupported(Vec<String>),
    UserAgent(String),
    Warning(Vec<Warning>),
    WWWAuthenticate(Challenge),
    /// Any other header: its name and its value, verbatim.
    Extension(String, String),
}

/// What a [`Header`] holds, as a mathematical value.
pub enum HeaderView {
    Accept(Seq<AcceptView>),
    AcceptEncoding(Seq<EncodingView>),
    AcceptLanguage(Seq<LanguageView>),
    AlertInfo(Seq<AlertInfoView>),
    Allow(Seq<MethodView>),
    AuthenticationInfo(Seq<AuthenticationInfoView>),
    Authorization(CredentialsView),
    CallID(Seq<char>),
    CallInfo(Seq<InfoView>),
    Contact(ContactValueView),
    ContentDisposition(ContentDispositionView),
    ContentEncoding(Seq<Seq<char>>),
    ContentLanguage(Seq<Seq<char>>),
    ContentLength(i32),
    ContentType(MediaView),
    CSeq(i32, MethodView),
    Date(Seq<char>),
    ErrorInfo(Seq<ErrorInfoView>),
    Expires(i32),
    From(FromView),
    Via(Seq<ViaView>),
    InReplyTo(Seq<Seq<char>>),
    MaxForwards(i32),
    MIMEVersion(Seq<char>),
    MinExpires(i32),
    Organization(Option<Seq<char>>),
    Priority(PriorityView),
    ProxyAuthenticate(ChallengeView),
    ProxyAuthorization(CredentialsView),
    ProxyRequire(Seq<Seq<char>>),
    RecordRoute(Seq<RecordRouteView>),
    ReplyTo(ReplyToView),
    Require(Seq<Seq<char>>),
    RetryAfter(RetryAfterView),
    Route(Seq<RouteView>),
    Server(Seq<char>),
    Subject(Option<Seq<char>>),
    Supported(Seq<Seq<char>>),
    Timestamp(Seq<char>, Option<Seq<char>>),
    To(ToView),
    Unsupported(Seq<Seq<char>>),
    UserAgent(Seq<char>),
    Warning(Seq<WarningView>),
    WWWAuthenticate(ChallengeView),
    Extension(Seq<char>, Seq<char>),
}

impl DeepView for Header {
    type V = HeaderView;

    open spec fn deep_view(&self) -> HeaderView {
        match *self {
            Header::Accept(x0) => HeaderView::Accept(x0.deep_view()),
            Header::AcceptEncoding(x0) => HeaderView::AcceptEncoding(x0.deep_view()),
            Header::AcceptLanguage(x0) => HeaderView::AcceptLanguage(x0.deep_view()),
            Header::AlertInfo(x0) => HeaderView::AlertInfo(x0.deep_view()),
            Header::Allow(x0) => HeaderView::Allow(x0.deep_view()),
            Header::AuthenticationInfo(x0) => HeaderView::AuthenticationInfo(x0.deep_view()),
            Header::Authorization(x0) => HeaderView::Authorization(x0.deep_view()),
            Header::CallID(x0) => HeaderView::CallID(x0.deep_view()),
            Header::CallInfo(x0) => HeaderView::CallInfo(x0.deep_view()),
            Header::Contact(x0) => HeaderView::Contact(x0.deep_view()),
            Header::ContentDisposition(x0) => HeaderView::ContentDisposition(x0.deep_view()),
            Header::ContentEncoding(x0) => HeaderView::ContentEncoding(x0.deep_view()),
            Header::ContentLanguage(x0) => HeaderView::ContentLanguage(x0.deep_view()),
            Header::ContentLength(x0) => HeaderView::ContentLength(x0.deep_view()),
            Header::ContentType(x0) => HeaderView::ContentType(x0.deep_view()),
            Header::CSeq(x0, x1) => HeaderView::CSeq(x0.deep_view(), x1.deep_view()),
            Header::Date(x0) => HeaderView::Date(x0.deep_view()),
            Header::ErrorInfo(x0) => HeaderView::ErrorInfo(x0.deep_view()),
            Header::Expires(x0) => HeaderView::Expires(x0.deep_view()),
            Header::From(x0) => HeaderView::From(x0.deep_view()),
            Header::Via(x0) => HeaderView::Via(x0.deep_view()),
            Header::InReplyTo(x0) => HeaderView::InReplyTo(x0.deep_view()),
            Header::MaxForwards(x0) => HeaderView::MaxForwards(x0.deep_view()),
            Header::MIMEVersion(x0) => HeaderView::MIMEVersion(x0.deep_view()),
            Header::MinExpires(x0) => HeaderView::MinExpires(x0.deep_view()),
            Header::Organization(x0) => HeaderView::Organization(x0.deep_view()),
            Header::Priority(x0) => HeaderView::Priority(x0.deep_view()),
            Header::ProxyAuthenticate(x0) => HeaderView::ProxyAuthenticate(x0.deep_view()),
            Header::ProxyAuthorization(x0) => HeaderView::ProxyAuthorization(x0.deep_view()),
            Header::ProxyRequire(x0) => HeaderView::ProxyRequire(x0.deep_view()),
            Header::RecordRoute(x0) => HeaderView::RecordRoute(x0.deep_view()),
            Header::ReplyTo(x0) => HeaderView::ReplyTo(x0.deep_view()),
            Header::Require(x0) => HeaderView::Require(x0.deep_view()),
            Header::RetryAfter(x0) => HeaderView::RetryAfter(x0.deep_view()),
            Header::Route(x0) => HeaderView::Route(x0.deep_view()),
            Header::Server(x0) => HeaderView::Server(x0.deep_view()),
            Header::Subject(x0) => HeaderView::Subject(x0.deep_view()),
            Header::Supported(x0) => HeaderView::Supported(x0.deep_view()),
            Header::Timestamp(x0, x1) => HeaderView::Timestamp(x0.deep_view(), x1.deep_view()),
            Header::To(x0) => HeaderView::To(x0.deep_view()),
            Header::Unsupported(x0) => HeaderView::Unsupported(x0.deep_view()),
            Header::UserAgent(x0) => HeaderView::UserAgent(x0.deep_view()),
            Header::Warning(x0) => HeaderView::Warning(x0.deep_view()),
            Header::WWWAuthenticate(x0) => HeaderView::WWWAuthenticate(x0.deep_view()),
            Header::Extension(x0, x1) => HeaderView::Extension(x0.deep_view(), x1.deep_view()),
        }
    }
}

} // verus!
