use xylosip::error::{ErrorKind, Reject};
use xylosip::header::{
    Accept, AcceptParam, AlertInfo, AlgorithmKind, AuthenticationInfo, Challenge, Contact,
    ContactParam, ContactValue, ContentCoding, ContentDisposition, Credentials, DigestParam,
    DigestResponseParam, DispositionParam, DispositionType, Encoding, ErrorInfo, From, FromParam,
    GenericParam, Header, Info, InfoParam, InfoParamPurpose, Language, LanguageRange, Media,
    MediaParam, MediaSubType, MediaType, Priority, QOPValue, RecordRoute, ReplyTo, RetryAfter,
    RetryParam, Route, To, ToParam, Via, ViaParam, Warning, WarningAgent,
};
use xylosip::headers::contact::{
    contact_param, contact_params_expires, contact_params_extension, contact_params_q,
    display_name, name_addr, to,
};
use xylosip::headers::message_header;
use xylosip::sip::Method;

fn val<'a, T>(
    p: fn(&[u8], usize) -> Result<(T, usize), Reject>,
    input: &'a [u8],
) -> Result<(&'a [u8], T), Reject> {
    p(input, 0).map(|(v, e)| (&input[e..], v))
}

fn header(line: &[u8]) -> Header {
    let (h, e) = message_header(line, 0).unwrap();
    assert_eq!(e, line.len());
    h
}

fn s(t: &str) -> String {
    t.to_string()
}

fn param(name: &str, value: Option<&str>) -> GenericParam {
    GenericParam { name: s(name), value: value.map(s) }
}

#[test]
fn contact_params_expires_extracts_value() {
    assert_eq!(val(contact_params_expires, b"expires=18").unwrap().1, ContactParam::Expires(18));
}

#[test]
fn contact_params_q_extracts_value() {
    assert_eq!(val(contact_params_q, b"q=1.0").unwrap().1, ContactParam::Q(s("1.0")));
}

#[test]
fn contact_params_extension_extracts_value() {
    assert_eq!(
        val(contact_params_extension, b"other").unwrap().1,
        ContactParam::Extension(GenericParam { name: s("other"), value: None })
    );

    assert_eq!(
        val(contact_params_extension, b"other=").unwrap().1,
        ContactParam::Extension(GenericParam { name: s("other"), value: None })
    );

    assert_eq!(
        val(contact_params_extension, b"other=value").unwrap().1,
        ContactParam::Extension(GenericParam { name: s("other"), value: Some(s("value")) })
    );
}

fn addr<'a>(input: &'a [u8]) -> Result<(&'a [u8], (Option<&'a [u8]>, &'a [u8])), Reject> {
    name_addr(input, 0)
        .map(|((n, a), e)| (&input[e..], (n.map(|n| &input[n.0..n.1]), &input[a.0..a.1])))
}

fn name<'a>(input: &'a [u8]) -> Result<(&'a [u8], &'a [u8]), Reject> {
    display_name(input, 0).map(|(n, e)| (&input[e..], &input[n.0..n.1]))
}

#[test]
fn name_addr_extracts_addr() {
    assert!(addr(b"<sip:example.com>").unwrap().1 == (None, b"sip:example.com"));
    assert!(addr(b"<sip:example.com:5060>").unwrap().1 == (None, b"sip:example.com:5060"));
    assert!(addr(b"<sips:john@example.com>").unwrap().1 == (None, b"sips:john@example.com"));
}

#[test]
fn display_name_can_handle_quoted_and_unquoted_strings() {
    assert!(name(b"John ").unwrap().1 == b"John ");
    assert!(name(b"\"John\"").unwrap().1 == b"John");
}

#[test]
fn name_addr_extracts_addr_and_name() {
    assert!(addr(b"John <sip:example.com>").unwrap().1 == (Some(b"John "), b"sip:example.com"));
    assert!(
        addr(b"\"John Doe\" <sip:example.com>").unwrap().1
            == (Some(b"John Doe"), b"sip:example.com")
    );
}

#[test]
fn contact_param_can_parse_full_contact() {
    assert!(
        val(contact_param, b"\"John\" <sip:j@example.com>;expires=8;q=1.0").unwrap().1
            == Contact {
                addr: s("sip:j@example.com"),
                name: Some(s("John")),
                params: vec![ContactParam::Expires(8), ContactParam::Q(s("1.0"))]
            }
    )
}

#[test]
fn to_can_parse_whole_to_line() {
    assert!(to(b"To: Bob <sip:bob@biloxi.example.com>", 0).is_ok());
}

#[test]
fn message_header_can_parse_via() {
    let h = b"Via: SIP/2.0/TCP client.atlanta.example.com:5060;branch=z9hG4bK74b43\r\n";
    let header = val(message_header, h).unwrap().1;
    match header {
        Header::Via(vias) => {
            let via = &vias[0];
            assert_eq!(via.protocol, "SIP/2.0/TCP");
            assert_eq!(via.sent_by, "client.atlanta.example.com:5060");

            match &via.params[0] {
                ViaParam::Branch(v) => assert_eq!(v, &"z9hG4bK74b43"),
                _ => panic!(),
            }
        }
        _ => panic!(),
    }
}

#[test]
fn message_header_can_parse_max_forwards() {
    let h = b"Max-Forwards: 70\r\n";
    let header = val(message_header, h).unwrap().1;
    match header {
        Header::MaxForwards(mf) => {
            assert_eq!(mf, 70);
        }
        _ => panic!(),
    }
}

#[test]
fn via_yields_one_hop_per_entry() {
    assert_eq!(
        header(b"Via: SIP/2.0/TCP client.atlanta.example.com:5060;branch=z9hG4bK74b43\r\n"),
        Header::Via(vec![Via {
            protocol: s("SIP/2.0/TCP"),
            sent_by: s("client.atlanta.example.com:5060"),
            params: vec![ViaParam::Branch(s("z9hG4bK74b43"))],
        }])
    );
    assert_eq!(
        header(b"v: SIP / 2.0 / UDP 10.0.0.1;ttl=30;maddr=a.example;received=[::1];x, Foo/1/ws h\r\n"),
        Header::Via(vec![
            Via {
                protocol: s("SIP / 2.0 / UDP"),
                sent_by: s("10.0.0.1"),
                params: vec![
                    ViaParam::Ttl(30),
                    ViaParam::MAddr(s("a.example")),
                    ViaParam::Extension(param("received", Some("[::1]"))),
                    ViaParam::Extension(param("x", None)),
                ],
            },
            Via { protocol: s("Foo/1/ws"), sent_by: s("h"), params: vec![] },
        ])
    );
    assert_eq!(
        header(b"Via: SIP/2.0/TLS h;received=192.0.2.1;received=::1\r\n"),
        Header::Via(vec![Via {
            protocol: s("SIP/2.0/TLS"),
            sent_by: s("h"),
            params: vec![ViaParam::Received(s("192.0.2.1")), ViaParam::Received(s("::1"))],
        }])
    );
}

#[test]
fn a_via_ttl_is_at_most_255() {
    assert_eq!(
        message_header(b"Via: SIP/2.0/UDP h;ttl=256\r\n", 0),
        Err(Reject { kind: ErrorKind::InvalidTTLValue, at: 23, fatal: true })
    );
    assert_eq!(
        header(b"Via: SIP/2.0/UDP h;ttl=255\r\n"),
        Header::Via(vec![Via {
            protocol: s("SIP/2.0/UDP"),
            sent_by: s("h"),
            params: vec![ViaParam::Ttl(255)],
        }])
    );
}

#[test]
fn unknown_headers_are_extension_headers() {
    assert_eq!(
        header(b"X-Custom-Thing: anything\r\n"),
        Header::Extension(s("X-Custom-Thing"), s("anything"))
    );
    assert_eq!(
        header(b"X-Folded: one\r\n two  three\r\n"),
        Header::Extension(s("X-Folded"), s("one\r\n two  three"))
    );
    assert_eq!(header(b"X-Empty:\r\n"), Header::Extension(s("X-Empty"), s("")));
    assert_eq!(
        header("X-Text: caf\u{e9} \u{20ac}\r\n".as_bytes()),
        Header::Extension(s("X-Text"), s("caf\u{e9} \u{20ac}"))
    );
}

#[test]
fn bytes_that_are_no_text_abort_with_an_encoding_error() {
    // a lead byte and a continuation byte that the grammar takes for a
    // character, and that are no valid UTF-8
    assert_eq!(
        message_header(&[b'X', b':', 0xc0, 0x80, b'\r', b'\n'], 0),
        Err(Reject { kind: ErrorKind::Utf8Error, at: 2, fatal: true })
    );
    assert_eq!(
        message_header(b"Subject: \xf8\x80\x80\x80\x80\r\n", 0),
        Err(Reject { kind: ErrorKind::Utf8Error, at: 9, fatal: true })
    );
}

#[test]
fn a_known_header_with_a_rejected_value_is_no_extension_header() {
    assert_eq!(
        message_header(b"Content-Length: 99999999999999999999\r\n", 0),
        Err(Reject { kind: ErrorKind::InvalidIntegerError, at: 16, fatal: true })
    );
    assert_eq!(
        message_header(b"l: 99999999999999999999\r\n", 0),
        Err(Reject { kind: ErrorKind::InvalidIntegerError, at: 3, fatal: true })
    );
    assert_eq!(
        message_header(b"Max-Forwards: 2147483648\r\n", 0),
        Err(Reject { kind: ErrorKind::InvalidIntegerError, at: 14, fatal: true })
    );
    assert_eq!(
        message_header(b"Contact: <sip:a@b;ttl=256>\r\n", 0),
        Err(Reject { kind: ErrorKind::InvalidTTLValue, at: 22, fatal: true })
    );
    assert_eq!(header(b"Content-Length: 151\r\n"), Header::ContentLength(151));
    assert_eq!(header(b"L : 0\r\n"), Header::ContentLength(0));
}

#[test]
fn a_header_line_ends_with_a_line_end() {
    assert_eq!(message_header(b"Max-Forwards: 70", 0).is_err(), true);
    assert_eq!(message_header(b"Max-Forwards: 70 x\r\n", 0).is_err(), true);
    assert_eq!(message_header(b"\r\n", 0).is_err(), true);
    assert_eq!(message_header(b": x\r\n", 0).is_err(), true);
}

#[test]
fn empty_accept_is_valid() {
    assert_eq!(header(b"Accept: \r\n"), Header::Accept(vec![]));
    assert_eq!(header(b"Accept:\r\n"), Header::Accept(vec![]));
    assert_eq!(header(b"Allow:\r\n"), Header::Allow(vec![]));
    assert_eq!(header(b"Accept-Encoding:\r\n"), Header::AcceptEncoding(vec![]));
    assert_eq!(header(b"Accept-Language: \r\n"), Header::AcceptLanguage(vec![]));
}

#[test]
fn accept_family() {
    assert_eq!(
        header(b"Accept: application/sdp;level=1, text/*, */*, x-a/x-b;q=0.5\r\n"),
        Header::Accept(vec![
            Accept {
                media: Media {
                    type_: MediaType::Application,
                    subtype: MediaSubType::IETFExtension(s("sdp")),
                    params: vec![MediaParam { name: s("level"), value: s("1") }],
                },
                params: vec![],
            },
            Accept {
                media: Media { type_: MediaType::Text, subtype: MediaSubType::Any, params: vec![] },
                params: vec![],
            },
            Accept {
                media: Media { type_: MediaType::Any, subtype: MediaSubType::Any, params: vec![] },
                params: vec![],
            },
            Accept {
                media: Media {
                    type_: MediaType::XExtension(s("x-a")),
                    subtype: MediaSubType::XExtension(s("x-b")),
                    params: vec![MediaParam { name: s("q"), value: s("0.5") }],
                },
                params: vec![],
            },
        ])
    );
    assert_eq!(
        header(b"Accept: text/plain;foo\r\n"),
        Header::Accept(vec![Accept {
            media: Media {
                type_: MediaType::Text,
                subtype: MediaSubType::IETFExtension(s("plain")),
                params: vec![],
            },
            params: vec![AcceptParam::Extension(param("foo", None))],
        }])
    );
    assert_eq!(
        header(b"Accept-Encoding: gzip;q=1.0, *;q=0, identity;x=y\r\n"),
        Header::AcceptEncoding(vec![
            Encoding { coding: ContentCoding::Other(s("gzip")), params: vec![AcceptParam::Q(s("1.0"))] },
            Encoding { coding: ContentCoding::Any, params: vec![AcceptParam::Q(s("0"))] },
            Encoding {
                coding: ContentCoding::Other(s("identity")),
                params: vec![AcceptParam::Extension(param("x", Some("y")))],
            },
        ])
    );
    assert_eq!(
        header(b"Accept-Language: da, en-gb;q=0.8, *\r\n"),
        Header::AcceptLanguage(vec![
            Language { range: LanguageRange::Other(s("da")), params: vec![] },
            Language { range: LanguageRange::Other(s("en-gb")), params: vec![AcceptParam::Q(s("0.8"))] },
            Language { range: LanguageRange::Any, params: vec![] },
        ])
    );
}

#[test]
fn content_family() {
    assert_eq!(
        header(b"Content-Type: application/sdp\r\n"),
        Header::ContentType(Media {
            type_: MediaType::Application,
            subtype: MediaSubType::IETFExtension(s("sdp")),
            params: vec![],
        })
    );
    assert_eq!(
        header(b"c: multipart/mixed; boundary=\"x y\"\r\n"),
        Header::ContentType(Media {
            type_: MediaType::Multipart,
            subtype: MediaSubType::IETFExtension(s("mixed")),
            params: vec![MediaParam { name: s("boundary"), value: s("\"x y\"") }],
        })
    );
    assert_eq!(
        header(b"Content-Encoding: gzip, tar\r\n"),
        Header::ContentEncoding(vec![s("gzip"), s("tar")])
    );
    assert_eq!(header(b"e: gzip\r\n"), Header::ContentEncoding(vec![s("gzip")]));
    assert_eq!(message_header(b"Content-Encoding: \r\n", 0).is_err(), true);
    assert_eq!(
        header(b"Content-Language: fr, en-US\r\n"),
        Header::ContentLanguage(vec![s("fr"), s("en-US")])
    );
    assert_eq!(
        header(b"Content-Disposition: session;handling=optional;handling=REQUIRED;handling=x;y=z\r\n"),
        Header::ContentDisposition(ContentDisposition {
            disposition: DispositionType::Session,
            params: vec![
                DispositionParam::HandlingOptional,
                DispositionParam::HandlingRequired,
                DispositionParam::OtherHandling(s("x")),
                DispositionParam::Extension(param("y", Some("z"))),
            ],
        })
    );
    assert_eq!(
        header(b"Content-Disposition: attachment\r\n"),
        Header::ContentDisposition(ContentDisposition {
            disposition: DispositionType::Extension(s("attachment")),
            params: vec![],
        })
    );
}

#[test]
fn address_headers() {
    assert_eq!(
        header(b"From: Alice <sip:alice@atlanta.example.com>;tag=9fxced76sl\r\n"),
        Header::From(From {
            addr: s("sip:alice@atlanta.example.com"),
            name: Some(s("Alice ")),
            params: vec![FromParam::Tag(s("9fxced76sl"))],
        })
    );
    assert_eq!(
        header(b"f: sip:alice@atlanta.example.com\r\n"),
        Header::From(From { addr: s("sip:alice@atlanta.example.com"), name: None, params: vec![] })
    );
    assert_eq!(
        header(b"To: Bob <sip:bob@biloxi.example.com>;x=1;tag=a\r\n"),
        Header::To(To {
            addr: s("sip:bob@biloxi.example.com"),
            name: Some(s("Bob ")),
            params: vec![ToParam::Extension(param("x", Some("1"))), ToParam::Tag(s("a"))],
        })
    );
    assert_eq!(
        header(b"Route: <sip:ss1.atlanta.example.com;lr>, <sip:outbound.example.com>;x\r\n"),
        Header::Route(vec![
            Route { addr: s("sip:ss1.atlanta.example.com;lr"), name: None, params: vec![] },
            Route { addr: s("sip:outbound.example.com"), name: None, params: vec![param("x", None)] },
        ])
    );
    assert_eq!(
        header(b"Record-Route: <sip:edge.example.com;lr>\r\n"),
        Header::RecordRoute(vec![RecordRoute {
            addr: s("sip:edge.example.com;lr"),
            name: None,
            params: vec![],
        }])
    );
    assert_eq!(
        header(b"Reply-To: \"Bob\" <sip:bob@biloxi.example.com>\r\n"),
        Header::ReplyTo(ReplyTo {
            addr: s("sip:bob@biloxi.example.com"),
            name: Some(s("Bob")),
            params: vec![],
        })
    );
    // a route needs angle brackets
    assert_eq!(message_header(b"Route: sip:edge.example.com\r\n", 0).is_err(), true);
}

#[test]
fn contact_is_a_wildcard_or_a_list() {
    assert_eq!(header(b"Contact: *\r\n"), Header::Contact(ContactValue::Any));
    assert_eq!(
        header(b"m: <sip:alice@client.atlanta.example.com;transport=tcp>, sip:b@c\r\n"),
        Header::Contact(ContactValue::Specific(vec![
            Contact {
                addr: s("sip:alice@client.atlanta.example.com;transport=tcp"),
                name: None,
                params: vec![],
            },
            Contact { addr: s("sip:b@c"), name: None, params: vec![] },
        ]))
    );
    assert_eq!(
        message_header(b"Contact: <sip:a@b>;expires=99999999999\r\n", 0),
        Err(Reject { kind: ErrorKind::InvalidIntegerError, at: 27, fatal: true })
    );
}

#[test]
fn call_headers() {
    assert_eq!(
        header(b"Call-ID: 3848276298220188511@atlanta.example.com\r\n"),
        Header::CallID(s("3848276298220188511@atlanta.example.com"))
    );
    assert_eq!(header(b"i: abc\r\n"), Header::CallID(s("abc")));
    assert_eq!(
        header(b"In-Reply-To: a@b, c\r\n"),
        Header::InReplyTo(vec![s("a@b"), s("c")])
    );
    assert_eq!(
        header(b"Call-Info: <http://x.example/a.jpg> purpose=icon;x, <http://y.example>\r\n"),
        Header::CallInfo(vec![
            Info {
                uri: s("http://x.example/a.jpg"),
                params: vec![
                    InfoParam::Purpose(InfoParamPurpose::Icon),
                    InfoParam::Extension(param("x", None)),
                ],
            },
            Info { uri: s("http://y.example"), params: vec![] },
        ])
    );
    assert_eq!(header(b"CSeq: 1 INVITE\r\n"), Header::CSeq(1, Method::Invite));
    assert_eq!(header(b"CSeq: 4711 NOTIFY\r\n"), Header::CSeq(4711, Method::Extension(s("NOTIFY"))));
    assert_eq!(message_header(b"CSeq: 1INVITE\r\n", 0).is_err(), true);
}

#[test]
fn authentication_headers() {
    assert_eq!(
        header(
            b"WWW-Authenticate: Digest realm=\"atlanta.example.com\", domain=\"sip:a.example /x\", nonce=\"84a4cc6f\", opaque=\"\", stale=FALSE, algorithm=MD5, qop=\"auth,token\", qop=\"auth,auth-int\", x=y\r\n"
        ),
        Header::WWWAuthenticate(Challenge::Digest(vec![
            DigestParam::Realm(s("\"atlanta.example.com\"")),
            DigestParam::Domain(vec![s("sip:a.example"), s("/x")]),
            DigestParam::Nonce(s("\"84a4cc6f\"")),
            DigestParam::Opaque(s("\"\"")),
            DigestParam::Stale(false),
            DigestParam::Algorithm(AlgorithmKind::MD5),
            DigestParam::QOPOptions(vec![QOPValue::Auth, QOPValue::Extension(s("token"))]),
            // `auth` is taken from the front of `auth-int`, so the options do not
            // end at the closing quote and the parameter is read as any other
            DigestParam::Extension(s("qop"), s("\"auth,auth-int\"")),
            DigestParam::Extension(s("x"), s("y")),
        ]))
    );
    assert_eq!(
        header(b"Proxy-Authenticate: Basic realm=\"x\"\r\n"),
        Header::ProxyAuthenticate(Challenge::Other(s("Basic"), vec![(s("realm"), s("\"x\""))]))
    );
    assert_eq!(
        header(
            b"Authorization: Digest username=\"bob\", realm=\"r\", nonce=\"n\", uri=\"sip:bob@biloxi.example.com\", response=\"6629fae49393a05397450978507c4ef1\", algorithm=MD5-sess, cnonce=\"c\", opaque=\"o\", qop=auth, nc=00000001, a=b\r\n"
        ),
        Header::Authorization(Credentials::DigestResponse(vec![
            DigestResponseParam::Username(s("\"bob\"")),
            DigestResponseParam::Realm(s("\"r\"")),
            DigestResponseParam::Nonce(s("\"n\"")),
            DigestResponseParam::URI(s("sip:bob@biloxi.example.com")),
            DigestResponseParam::Response(s("6629fae49393a05397450978507c4ef1")),
            DigestResponseParam::Algorithm(AlgorithmKind::MD5Sess),
            DigestResponseParam::CNonce(s("\"c\"")),
            DigestResponseParam::Opaque(s("\"o\"")),
            DigestResponseParam::QOP(QOPValue::Auth),
            DigestResponseParam::NonceCount(s("00000001")),
            DigestResponseParam::Extension(s("a"), s("b")),
        ]))
    );
    assert_eq!(
        header(b"Proxy-Authorization: Bearer t=abc\r\n"),
        Header::ProxyAuthorization(Credentials::OtherResponse(s("Bearer"), vec![(s("t"), s("abc"))]))
    );
    assert_eq!(
        header(b"Authentication-Info: nextnonce=\"47364c23\", qop=auth, rspauth=\"0a4f\", cnonce=\"c\", nc=0000000a\r\n"),
        Header::AuthenticationInfo(vec![
            AuthenticationInfo::NextNonce(s("\"47364c23\"")),
            AuthenticationInfo::QOP(QOPValue::Auth),
            AuthenticationInfo::ResponseAuth(s("\"0a4f\"")),
            AuthenticationInfo::CNonce(s("\"c\"")),
            AuthenticationInfo::NonceCount(s("0000000a")),
        ])
    );
    assert_eq!(header(b"Proxy-Require: foo, bar\r\n"), Header::ProxyRequire(vec![s("foo"), s("bar")]));
}

#[test]
fn simple_headers() {
    assert_eq!(header(b"Expires: 3600\r\n"), Header::Expires(3600));
    assert_eq!(header(b"Min-Expires: 60\r\n"), Header::MinExpires(60));
    assert_eq!(header(b"MIME-Version: 1.0\r\n"), Header::MIMEVersion(s("1.0")));
    assert_eq!(header(b"Organization: Acme, Inc.\r\n"), Header::Organization(Some(s("Acme, Inc."))));
    assert_eq!(header(b"Organization:\r\n"), Header::Organization(None));
    assert_eq!(header(b"Subject: lunch\r\n"), Header::Subject(Some(s("lunch"))));
    assert_eq!(header(b"s:\r\n"), Header::Subject(None));
    assert_eq!(header(b"Require: 100rel\r\n"), Header::Require(vec![s("100rel")]));
    assert_eq!(header(b"Supported: 100rel, timer\r\n"), Header::Supported(vec![s("100rel"), s("timer")]));
    assert_eq!(header(b"k: x\r\n"), Header::Supported(vec![s("x")]));
    assert_eq!(header(b"Unsupported: foo\r\n"), Header::Unsupported(vec![s("foo")]));
    assert_eq!(header(b"Server: HomeServer v2\r\n"), Header::Server(s("HomeServer v2")));
    assert_eq!(
        header(b"User-Agent: Softphone/Beta1.5 (build 7)\r\n"),
        Header::UserAgent(s("Softphone/Beta1.5 (build 7)"))
    );
    assert_eq!(header(b"Timestamp: 54\r\n"), Header::Timestamp(s("54"), None));
    assert_eq!(header(b"Timestamp: 54.2 0.5\r\n"), Header::Timestamp(s("54.2"), Some(s("0.5"))));
    assert_eq!(
        header(b"Date: Sat, 13 Nov 2010 23:29:00 GMT\r\n"),
        Header::Date(s("Sat, 13 Nov 2010 23:29:00 GMT"))
    );
    assert_eq!(message_header(b"Date: Sat, 13 Nov 2010 23:29 GMT\r\n", 0).is_err(), true);
    assert_eq!(message_header(b"Date: 2010-11-13T23:29:00Z\r\n", 0).is_err(), true);
    assert_eq!(header(b"Priority: emergency\r\n"), Header::Priority(Priority::Emergency));
    assert_eq!(header(b"Priority: Urgent\r\n"), Header::Priority(Priority::Urgent));
    assert_eq!(header(b"Priority: normal\r\n"), Header::Priority(Priority::Normal));
    assert_eq!(header(b"Priority: non-urgent\r\n"), Header::Priority(Priority::NonUrgent));
    assert_eq!(header(b"Priority: low\r\n"), Header::Priority(Priority::Extension(s("low"))));
    assert_eq!(
        header(b"Allow: INVITE, ACK, FOO\r\n"),
        Header::Allow(vec![Method::Invite, Method::Ack, Method::Extension(s("FOO"))])
    );
}

#[test]
fn retry_after_has_a_comment_and_parameters() {
    assert_eq!(
        header(b"Retry-After: 18000;duration=3600;x=y\r\n"),
        Header::RetryAfter(RetryAfter {
            duration: 18000,
            comment: None,
            params: vec![
                RetryParam::AvailabilityDuration(3600),
                RetryParam::Extension(param("x", Some("y"))),
            ],
        })
    );
    assert_eq!(
        header(b"Retry-After: 120 (I'm in a meeting)\r\n"),
        Header::RetryAfter(RetryAfter {
            duration: 120,
            comment: Some(s(" (I'm in a meeting)")),
            params: vec![],
        })
    );
}

#[test]
fn info_and_warning_headers() {
    assert_eq!(
        header(b"Alert-Info: <http://www.example.com/sounds/moo.wav>;x=1\r\n"),
        Header::AlertInfo(vec![AlertInfo {
            uri: s("http://www.example.com/sounds/moo.wav"),
            params: vec![param("x", Some("1"))],
        }])
    );
    assert_eq!(
        header(b"Error-Info: <sip:not-in-service@atlanta.example.com>\r\n"),
        Header::ErrorInfo(vec![ErrorInfo {
            uri: s("sip:not-in-service@atlanta.example.com"),
            params: vec![],
        }])
    );
    assert_eq!(
        header(b"Warning: 307 isi.edu \"Session parameter 'foo' not understood\", 301 [::1]:5060 \"x\", 399 1a \"y\"\r\n"),
        Header::Warning(vec![
            Warning {
                code: s("307"),
                agent: WarningAgent::HostPort(s("isi.edu"), None),
                text: s("\"Session parameter 'foo' not understood\""),
            },
            Warning {
                code: s("301"),
                agent: WarningAgent::HostPort(s("[::1]"), Some(5060)),
                text: s("\"x\""),
            },
            Warning { code: s("399"), agent: WarningAgent::Pseudonym(s("1a")), text: s("\"y\"") },
        ])
    );
}

#[test]
fn examples_with_whitespace_around_punctuation() {
    assert_eq!(
        header(b"Contact: \"Mr. Watson\" <sip:watson@worcester.bell-telephone.com>;q=0.7; expires=3600, \"Mr. Watson\" <mailto:watson@bell-telephone.com> ;q=0.1\r\n"),
        Header::Contact(ContactValue::Specific(vec![
            Contact {
                addr: s("sip:watson@worcester.bell-telephone.com"),
                name: Some(s("Mr. Watson")),
                params: vec![ContactParam::Q(s("0.7")), ContactParam::Expires(3600)],
            },
            Contact {
                addr: s("mailto:watson@bell-telephone.com"),
                name: Some(s("Mr. Watson")),
                params: vec![ContactParam::Q(s("0.1"))],
            },
        ]))
    );
    assert_eq!(
        header(b"From: \"A. G. Bell\" <sip:agb@bell-telephone.com> ;tag=a48s\r\n"),
        Header::From(From {
            addr: s("sip:agb@bell-telephone.com"),
            name: Some(s("A. G. Bell")),
            params: vec![FromParam::Tag(s("a48s"))],
        })
    );
    assert_eq!(
        header(b"Via: SIP / 2.0 / UDP first.example.com: 4000;ttl=16;maddr=224.2.0.1 ;branch=z9hG4bKa7c6a8dlze.1\r\n"),
        Header::Via(vec![Via {
            protocol: s("SIP / 2.0 / UDP"),
            sent_by: s("first.example.com: 4000"),
            params: vec![
                ViaParam::Ttl(16),
                ViaParam::MAddr(s("224.2.0.1")),
                ViaParam::Branch(s("z9hG4bKa7c6a8dlze.1")),
            ],
        }])
    );
    assert_eq!(
        header(b"Subject: I know you're there,\r\n  pick up the phone\r\n   and talk to me!\r\n"),
        Header::Subject(Some(s("I know you're there,\r\n  pick up the phone\r\n   and talk to me!")))
    );
    assert_eq!(
        header(b"To: sip:vivekg@chair-dnrc.example.com ;   tag    = 1918181833n\r\n"),
        Header::To(To {
            addr: s("sip:vivekg@chair-dnrc.example.com"),
            name: None,
            params: vec![ToParam::Tag(s("1918181833n"))],
        })
    );
    assert_eq!(
        header(b"Max-Forwards: 0068\r\n"),
        Header::MaxForwards(68)
    );
    assert_eq!(
        header(b"Authorization: Digest username=\"Alice\", realm=\"atlanta.com\",\r\n nonce=\"84a4cc6f3082121f32b42a2187831a9e\",\r\n response=\"7587245234b3434cc3412213e5f113a5\"\r\n"),
        Header::Authorization(Credentials::DigestResponse(vec![
            DigestResponseParam::Username(s("\"Alice\"")),
            DigestResponseParam::Realm(s("\"atlanta.com\"")),
            DigestResponseParam::Nonce(s("\"84a4cc6f3082121f32b42a2187831a9e\"")),
            DigestResponseParam::Response(s("7587245234b3434cc3412213e5f113a5")),
        ]))
    );
}
