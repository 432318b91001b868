use xylosip::error::{Error, ErrorKind, Reject};
use xylosip::header::{Header, Via, ViaParam};
use xylosip::message::{message, Message};
use xylosip::request::{request_line, Request};
use xylosip::response::{status_line, Response};
use xylosip::sip::{Method, Version};

const INVITE: &[u8] = b"INVITE sip:bob@biloxi.example.com SIP/2.0\r\n\
Via: SIP/2.0/TCP client.atlanta.example.com:5060;branch=z9hG4bK74b43\r\n\
Max-Forwards: 70\r\n\
Route: <sip:ss1.atlanta.example.com;lr>\r\n\
From: Alice <sip:alice@atlanta.example.com>;tag=9fxced76sl\r\n\
To: Bob <sip:bob@biloxi.example.com>\r\n\
Call-ID: 3848276298220188511@atlanta.example.com\r\n\
CSeq: 1 INVITE\r\n\
Contact: <sip:alice@client.atlanta.example.com;transport=tcp>\r\n\
Content-Type: application/sdp\r\n\
Content-Length: 151\r\n\
\r\n\
v=0\r\n\
o=alice 2890844526 2890844526 IN IP4 client.atlanta.example.com\r\n\
s=-\r\n\
c=IN IP4 192.0.2.101\r\n\
t=0 0\r\n\
m=audio 49172 RTP/AVP 0\r\n\
a=rtpmap:0 PCMU/8000\r\n";

const OK200: &[u8] = b"SIP/2.0 200 OK\r\n\
Via: SIP/2.0/TCP client.atlanta.example.com:5060;branch=z9hG4bK74b43;received=192.0.2.101\r\n\
From: Alice <sip:alice@atlanta.example.com>;tag=9fxced76sl\r\n\
To: Bob <sip:bob@biloxi.example.com>;tag=8321234356\r\n\
Call-ID: 3848276298220188511@atlanta.example.com\r\n\
CSeq: 1 INVITE\r\n\
Contact: <sip:bob@client.biloxi.example.com;transport=tcp>\r\n\
Content-Length: 0\r\n\
\r\n";

#[test]
fn message_parse_can_read_whole_message() {
    let bytes = INVITE;
    assert_eq!(Message::parse(bytes).is_err(), false);
}

#[test]
fn sip_message_can_read_a_whole_message() {
    let bytes = INVITE;
    assert_eq!(message(bytes, 0).is_err(), false);
}

#[test]
fn request_line_can_parse_full_request_line() {
    let rl = b"INVITE sip:bob@biloxi.example.com SIP/2.0\r\n";
    let parsed = request_line(rl, 0).unwrap().0;
    assert_eq!(parsed.method, Method::Invite);
    assert_eq!(parsed.uri, "sip:bob@biloxi.example.com");
    assert_eq!(parsed.version, Version::Two);
}

#[test]
fn request_parse_can_read_whole_message() {
    let bytes = INVITE;
    let req = Request::parse(bytes);
    assert_eq!(req.is_err(), false);
}

#[test]
fn response_parse_can_read_whole_message() {
    let bytes = OK200;
    assert_eq!(Response::parse(bytes).is_err(), false);
}

#[test]
fn a_full_invite_is_a_request() {
    match Message::parse(INVITE) {
        Ok(Message::Request(r)) => {
            assert_eq!(r.request_line.method, Method::Invite);
            assert_eq!(r.request_line.uri, "sip:bob@biloxi.example.com");
            assert_eq!(r.request_line.version, Version::Two);
            assert_eq!(r.method(), &Method::Invite);
            assert_eq!(r.headers.len(), 10);
            assert_eq!(
                r.headers[0],
                Header::Via(vec![Via {
                    protocol: "SIP/2.0/TCP".to_string(),
                    sent_by: "client.atlanta.example.com:5060".to_string(),
                    params: vec![ViaParam::Branch("z9hG4bK74b43".to_string())],
                }])
            );
            assert_eq!(r.headers[1], Header::MaxForwards(70));
            assert_eq!(r.headers[6], Header::CSeq(1, Method::Invite));
            assert_eq!(r.headers[9], Header::ContentLength(151));
            let body = r.body.unwrap();
            assert!(body.starts_with(b"v=0\r\n"));
            assert!(body.ends_with(b"a=rtpmap:0 PCMU/8000\r\n"));
            assert_eq!(body.len(), INVITE.len() - INVITE.windows(4).position(|w| w == b"\r\n\r\n").unwrap() - 4);
        }
        _ => panic!(),
    }
}

#[test]
fn headers_keep_their_order_and_are_not_merged() {
    let m = b"BYE sip:a@b SIP/2.0\r\nVia: SIP/2.0/UDP b\r\nX-A: 1\r\nVia: SIP/2.0/UDP a\r\nX-A: 2\r\n\r\n";
    let r = Request::parse(m).unwrap();
    assert_eq!(r.request_line.method, Method::Bye);
    assert_eq!(r.headers.len(), 4);
    assert_eq!(r.headers[1], Header::Extension("X-A".to_string(), "1".to_string()));
    assert_eq!(r.headers[3], Header::Extension("X-A".to_string(), "2".to_string()));
    match (&r.headers[0], &r.headers[2]) {
        (Header::Via(a), Header::Via(b)) => {
            assert_eq!(a[0].sent_by, "b");
            assert_eq!(b[0].sent_by, "a");
        }
        _ => panic!(),
    }
    assert_eq!(r.body, None);
}

#[test]
fn an_unknown_header_does_not_abort_a_message() {
    let m = b"OPTIONS sip:carol@chicago.example.com SIP/2.0\r\nX-Custom-Thing: anything\r\n\r\n";
    match Message::parse(m) {
        Ok(Message::Request(r)) => {
            assert_eq!(
                r.headers,
                vec![Header::Extension("X-Custom-Thing".to_string(), "anything".to_string())]
            );
        }
        _ => panic!(),
    }
}

#[test]
fn a_request_line_alone_is_a_request() {
    let r = Request::parse(b"INVITE sip:bob@biloxi.example.com SIP/2.0\r\n\r\n").unwrap();
    assert_eq!(r.headers.len(), 0);
    assert_eq!(r.body, None);
    // the empty line is mandatory
    assert_eq!(
        Request::parse(b"INVITE sip:bob@biloxi.example.com SIP/2.0\r\n"),
        Err(Error {
            kind: ErrorKind::UnknownError,
            at: 43,
            backtrace: vec![Reject { kind: ErrorKind::Syntax, at: 43, fatal: false }],
        })
    );
}

#[test]
fn the_body_is_taken_verbatim() {
    let r = Request::parse(b"MESSAGE sip:a@b SIP/2.0\r\nContent-Length: 2\r\n\r\n\x00\xffrest").unwrap();
    assert_eq!(r.body, Some(vec![0x00, 0xff, b'r', b'e', b's', b't']));
}

#[test]
fn a_response_is_kept_as_it_came() {
    match Message::parse(OK200) {
        Ok(Message::Response(r)) => assert_eq!(r.content, OK200.to_vec()),
        _ => panic!(),
    }
    assert_eq!(Response::parse(b"SIP/2.0 799 \r\n\r\nbody").unwrap().content, b"SIP/2.0 799 \r\n\r\nbody".to_vec());
    assert_eq!(Response::parse(b"SIP/2.0 20 OK\r\n\r\n").is_err(), true);
    assert_eq!(Response::parse(b"SIP/2.0 2000 OK\r\n\r\n").is_err(), true);
    assert_eq!(Response::parse(INVITE).is_err(), true);
}

#[test]
fn status_lines() {
    assert_eq!(status_line(b"SIP/2.0 180 Ringing\r\n", 0), Ok(21));
    assert_eq!(status_line(b"SIP/2.0 404 Not Found\r\nx", 0), Ok(23));
    assert_eq!(status_line(b"SIP/2.0 404\r\n", 0).is_err(), true);
    assert_eq!(status_line(b"HTTP/1.1 200 OK\r\n", 0).is_err(), true);
}

#[test]
fn an_overflowing_content_length_aborts_the_message() {
    let m = b"INVITE sip:bob@biloxi.example.com SIP/2.0\r\nContent-Length: 99999999999999999999\r\n\r\n";
    assert_eq!(
        Message::parse(m),
        Err(Error { kind: ErrorKind::InvalidIntegerError, at: 59, backtrace: vec![] })
    );
    assert_eq!(
        Request::parse(m),
        Err(Error { kind: ErrorKind::InvalidIntegerError, at: 59, backtrace: vec![] })
    );
}

#[test]
fn what_is_no_message_names_both_alternatives() {
    assert_eq!(
        Message::parse(b"hello"),
        Err(Error {
            kind: ErrorKind::Syntax,
            at: 0,
            backtrace: vec![Reject { kind: ErrorKind::Syntax, at: 5, fatal: false }],
        })
    );
    assert_eq!(Message::parse(b"").is_err(), true);
    assert_eq!(Error::new(ErrorKind::UnknownError).backtrace, vec![]);
}
