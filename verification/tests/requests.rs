use xylosip::common::user_info;
use xylosip::error::Reject;
use xylosip::header::{Contact, ContactValue, From, Header, To, Via};
use xylosip::request::{InvalidInviteError, InvalidRequestError, Invite, Request, RequestLine};
use xylosip::rfc2806::telephone_subscriber;
use xylosip::sip::{Method, Version};

type Cut<'a> = Result<(&'a [u8], &'a [u8]), Reject>;

fn run<'a>(p: fn(&[u8], usize) -> Result<usize, Reject>, input: &'a [u8]) -> Cut<'a> {
    p(input, 0).map(|e| (&input[e..], &input[..e]))
}

fn ok<'a>(rest: &'a [u8], matched: &'a [u8]) -> Cut<'a> {
    Ok((rest, matched))
}

fn line() -> RequestLine {
    RequestLine {
        method: Method::Invite,
        uri: "sip:bob@biloxi.example.com".to_string(),
        version: Version::Two,
    }
}

fn mandatory() -> Vec<Header> {
    vec![
        Header::Via(vec![Via { protocol: "SIP/2.0/TCP".to_string(), sent_by: "h".to_string(), params: vec![] }]),
        Header::MaxForwards(70),
        Header::From(From { addr: "sip:a@b".to_string(), name: None, params: vec![] }),
        Header::To(To { addr: "sip:c@d".to_string(), name: None, params: vec![] }),
        Header::CallID("x".to_string()),
        Header::CSeq(1, Method::Invite),
    ]
}

fn without(k: usize) -> Vec<Header> {
    let mut h = mandatory();
    h.remove(k);
    h
}

#[test]
fn a_request_needs_its_mandatory_headers() {
    let r = Request::new(line(), mandatory(), Some(vec![1, 2])).unwrap();
    assert_eq!(r.request_line, line());
    assert_eq!(r.headers, mandatory());
    assert_eq!(r.body, Some(vec![1, 2]));
    assert_eq!(r.method(), &Method::Invite);
    assert_eq!(Request::new(line(), without(4), None), Err(InvalidRequestError::MissingCallIDHeader));
    assert_eq!(Request::new(line(), without(5), None), Err(InvalidRequestError::MissingCSeqHeader));
    assert_eq!(Request::new(line(), without(2), None), Err(InvalidRequestError::MissingFromHeader));
    assert_eq!(
        Request::new(line(), without(1), None),
        Err(InvalidRequestError::MissingMaxForwardsHeader)
    );
    assert_eq!(Request::new(line(), without(3), None), Err(InvalidRequestError::MissingToHeader));
    assert_eq!(Request::new(line(), without(0), None), Err(InvalidRequestError::MissingViaHeader));
    // the first that is missing is reported
    assert_eq!(Request::new(line(), vec![], None), Err(InvalidRequestError::MissingCallIDHeader));
}

#[test]
fn an_invite_needs_a_contact() {
    let r = Request::new(line(), mandatory(), None).unwrap();
    assert_eq!(Invite::from_request(r), Err(InvalidInviteError::MissingContactHeader));
    let mut headers = mandatory();
    headers.push(Header::Contact(ContactValue::Specific(vec![Contact {
        addr: "sip:a@b".to_string(),
        name: None,
        params: vec![],
    }])));
    let r = Request::new(line(), headers.clone(), None).unwrap();
    let i = Invite::from_request(r).unwrap();
    assert_eq!(i.method(), &Method::Invite);
    assert_eq!(i.headers, headers);
    assert_eq!(i.body, None);
}

#[test]
fn errors_in_words() {
    assert_eq!(InvalidRequestError::MissingCallIDHeader.message(), "mandatory header missing: Call-ID");
    assert_eq!(InvalidRequestError::MissingCSeqHeader.message(), "mandatory header missing: CSeq");
    assert_eq!(InvalidRequestError::MissingFromHeader.message(), "mandatory header missing: From");
    assert_eq!(
        InvalidRequestError::MissingMaxForwardsHeader.message(),
        "mandatory header missing: Max-Forwards"
    );
    assert_eq!(InvalidRequestError::MissingToHeader.message(), "mandatory header missing: To");
    assert_eq!(InvalidRequestError::MissingViaHeader.message(), "mandatory header missing: Via");
    assert_eq!(InvalidInviteError::MissingContactHeader.message(), "mandatory header missing: Contact");
}

#[test]
fn a_parsed_invite_passes_the_validations() {
    let m = b"INVITE sip:bob@biloxi.example.com SIP/2.0\r\nVia: SIP/2.0/TCP h\r\nMax-Forwards: 70\r\nFrom: <sip:a@b>\r\nTo: <sip:c@d>\r\nCall-ID: x\r\nCSeq: 1 INVITE\r\nContact: <sip:a@h>\r\n\r\n";
    let r = Request::parse(m).unwrap();
    let r = Request::new(r.request_line, r.headers, r.body).unwrap();
    assert!(Invite::from_request(r).is_ok());
}

#[test]
fn telephone_subscribers() {
    assert!(run(telephone_subscriber, b"+1-212-555-0101@x") == ok(b"@x", b"+1-212-555-0101"));
    assert!(
        run(telephone_subscriber, b"+358-555-1234567;isub=12;postd=pp22;phone-context=+358;tsp=a.example;x=y?z@")
            == ok(b"@", b"+358-555-1234567;isub=12;postd=pp22;phone-context=+358;tsp=a.example;x=y?z")
    );
    // a local number needs its context
    assert!(run(telephone_subscriber, b"7;phone-context=+358 x") == ok(b" x", b"7;phone-context=+358"));
    // a private prefix runs up to the next semicolon or blank
    assert!(
        run(telephone_subscriber, b"7;phone-context=example.com@x;y z")
            == ok(b" z", b"7;phone-context=example.com@x;y")
    );
    assert_eq!(run(telephone_subscriber, b"5551234@x").is_err(), true);
    assert_eq!(run(telephone_subscriber, b"+@x").is_err(), true);
    assert!(run(telephone_subscriber, b"+1;q=\"\\ab\"") == ok(b"", b"+1;q=\"\\ab\""));
}

#[test]
fn user_info_takes_a_name_or_a_number() {
    assert!(run(user_info, b"alice:secret@host") == ok(b"host", b"alice:secret@"));
    assert!(run(user_info, b"alice@host") == ok(b"host", b"alice@"));
    assert!(run(user_info, b"+1-212-555-0101@host") == ok(b"host", b"+1-212-555-0101@"));
    assert_eq!(run(user_info, b"host").is_err(), true);
    assert_eq!(run(user_info, b"@host").is_err(), true);
}
