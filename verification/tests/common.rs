use xylosip::common::{
    absolute_uri, domain_label, generic_param, host, host_port, hostname, ipv4_address,
    ipv6_address, ipv6_reference, method, option_tag, port, qvalue, sip_uri, sip_version, sips_uri,
    top_label, transport, transport_sctp, transport_tcp, transport_tls, transport_udp, ttl,
    uri_parameters,
};
use xylosip::error::{ErrorKind, Reject};
use xylosip::header::{GenericParam, URIParam};
use xylosip::sip::{Method, Transport, User, Version};

type Cut<'a> = Result<(&'a [u8], &'a [u8]), Reject>;

fn run<'a>(p: fn(&[u8], usize) -> Result<usize, Reject>, input: &'a [u8]) -> Cut<'a> {
    p(input, 0).map(|e| (&input[e..], &input[..e]))
}

fn ok<'a>(rest: &'a [u8], matched: &'a [u8]) -> Cut<'a> {
    Ok((rest, matched))
}

fn val<'a, T>(
    p: fn(&[u8], usize) -> Result<(T, usize), Reject>,
    input: &'a [u8],
) -> Result<(&'a [u8], T), Reject> {
    p(input, 0).map(|(v, e)| (&input[e..], v))
}

#[test]
fn top_label_needs_to_start_with_alphabetic_char() {
    assert!(run(top_label, b"abc") == ok(b"", b"abc"));
    assert_eq!(run(top_label, b"-foo").is_err(), true);
    assert_eq!(run(top_label, b"$foo").is_err(), true);
}

#[test]
fn top_label_cant_end_in_hyphen() {
    assert_eq!(run(top_label, b"foo-").is_err(), true);
}

#[test]
fn top_labels_great_and_small() {
    assert!(run(top_label, b"a") == ok(b"", b"a"));
    assert!(run(top_label, b"aa") == ok(b"", b"aa"));
}

#[test]
fn domain_label_needs_to_start_alphanumeric_char() {
    assert!(run(domain_label, b"abc") == ok(b"", b"abc"));
    assert!(run(domain_label, b"123") == ok(b"", b"123"));
}

#[test]
fn domain_label_cannot_end_in_hyphen() {
    assert_eq!(run(domain_label, b"foo-").is_err(), true);
}

#[test]
fn domain_label_allows_hyphen() {
    assert!(run(domain_label, b"f-o") == ok(b"", b"f-o"));
}

#[test]
fn domain_label_length() {
    assert!(run(domain_label, b"a") == ok(b"", b"a"));
    assert!(run(domain_label, b"aa") == ok(b"", b"aa"));
}

#[test]
fn hostname_multiple_subdomains() {
    assert!(run(hostname, b"test.example.com") == ok(b"", b"test.example.com"));
    assert!(
        run(hostname, b"a.b.c.d.e.test.example.com") == ok(b"", b"a.b.c.d.e.test.example.com")
    );
}

#[test]
fn hostname_domain_only() {
    assert!(run(hostname, b"example.com") == ok(b"", b"example.com"));
    assert!(run(hostname, b"example.com.") == ok(b"", b"example.com."));
}

#[test]
fn hostname_top_only() {
    assert!(run(hostname, b"john") == ok(b"", b"john"));
    assert!(run(hostname, b"john.") == ok(b"", b"john."));
}

#[test]
fn ipv4_address_parses_addresses_of_all_sizes() {
    assert!(run(ipv4_address, b"1.1.1.1") == ok(b"", b"1.1.1.1"));
    assert!(run(ipv4_address, b"255.255.255.255") == ok(b"", b"255.255.255.255"));
    assert_eq!(run(ipv4_address, b"1111.1.1.1").is_err(), true);
    assert_eq!(run(ipv4_address, b"").is_err(), true);
}

#[test]
fn ipv4_address_doesnt_care_about_validity() {
    assert!(run(ipv4_address, b"999.999.999.999") == ok(b"", b"999.999.999.999"));
}

#[test]
fn port_needs_one_digit() {
    assert!(val(port, b"1") == Ok((b"", 1)));
    assert_eq!(val(port, b"").is_err(), true);
}

#[test]
fn port_only_handles_reasonable_values() {
    assert!(val(port, b"2147483647") == Ok((b"", 2_147_483_647)));
    assert!(val(port, b"2147483648").is_err());
}

#[test]
fn ipv6_address_wants_all_the_bits() {
    assert!(
        run(ipv6_address, b"fe80:ffff:ffff:ffff:ffff:ffff:ca63:47bf:d5e5:b04c")
            == ok(b"", b"fe80:ffff:ffff:ffff:ffff:ffff:ca63:47bf:d5e5:b04c")
    );
    assert!(run(ipv6_address, b"fe80") == ok(b"", b"fe80"));
}

#[test]
fn ipv6_address_accepts_real_addresses() {
    assert!(
        run(ipv6_address, b"fe80::ca63:47bf:d5e5:b04c") == ok(b"", b"fe80::ca63:47bf:d5e5:b04c")
    );
    assert!(run(ipv6_address, b"::1") == ok(b"", b"::1"));
    assert!(run(ipv6_address, b"2600::") == ok(b"", b"2600::"));
}

#[test]
fn ipv6_reference_needs_brackets() {
    assert!(
        run(ipv6_reference, b"[fe80::ca63:47bf:d5e5:b04c]")
            == ok(b"", b"[fe80::ca63:47bf:d5e5:b04c]")
    );
    assert!(run(ipv6_reference, b"[::1]") == ok(b"", b"[::1]"));
    assert!(run(ipv6_reference, b"[2600::]") == ok(b"", b"[2600::]"));
}

#[test]
fn host_handles_any_kind_of_name_or_address() {
    assert!(run(host, b"sip.test.example.com") == ok(b"", b"sip.test.example.com"));
    assert!(run(host, b"127.0.0.1") == ok(b"", b"127.0.0.1"));
    assert!(run(host, b"[::1]") == ok(b"", b"[::1]"));
}

fn host_and_port<'a>(input: &'a [u8]) -> Result<(&'a [u8], (&'a [u8], Option<i32>)), Reject> {
    host_port(input, 0).map(|((h, p), e)| (&input[e..], (&input[..h], p)))
}

#[test]
fn host_port_takes_a_host_and_an_optional_port() {
    assert!(host_and_port(b"[::1]") == Ok((b"", (b"[::1]", None))));
    assert!(host_and_port(b"[::1]:12345") == Ok((b"", (b"[::1]", Some(12345)))));
}

#[test]
fn uri_parameters_should_parse_no_params() {
    assert!(val(uri_parameters, b"") == Ok((b"", vec![])));
    assert!(val(uri_parameters, b"transport=udp") == Ok((b"transport=udp", vec![])));
}

#[test]
fn uri_parameters_should_parse_one_param() {
    let (_, params) = val(uri_parameters, b";transport=udp").unwrap();
    assert_eq!(params.len(), 1);
}

#[test]
fn uri_parameters_should_parse_leading_semi() {
    let (_, params) = val(uri_parameters, b";transport=udp").unwrap();
    assert_eq!(params.len(), 1);
}

#[test]
fn hostname_rejects_a_hyphen_at_the_edge_of_the_first_label() {
    assert_eq!(
        hostname(b"-foo", 0),
        Err(Reject { kind: ErrorKind::InvalidDomainPart, at: 0, fatal: false })
    );
    assert_eq!(
        hostname(b"foo-", 0),
        Err(Reject { kind: ErrorKind::InvalidDomainPart, at: 0, fatal: false })
    );
    assert_eq!(run(hostname, b"foo-.com").is_err(), true);
    // a later label with a hyphen at its edge ends the name before it
    assert!(run(hostname, b"a.-b") == ok(b"-b", b"a."));
}

#[test]
fn hostname_wants_a_letter_at_the_start_of_the_last_label() {
    assert_eq!(
        hostname(b"example.1.", 0),
        Err(Reject { kind: ErrorKind::InvalidHostname, at: 0, fatal: false })
    );
    assert_eq!(run(hostname, b"1").is_err(), true);
    assert!(run(hostname, b"1a.b2") == ok(b"", b"1a.b2"));
    assert!(run(hostname, b"a-b.c-d") == ok(b"", b"a-b.c-d"));
}

#[test]
fn ttl_is_at_most_255() {
    assert_eq!(ttl(b"255", 0), Ok((255, 3)));
    assert_eq!(ttl(b"0", 0), Ok((0, 1)));
    assert_eq!(
        ttl(b"256", 0),
        Err(Reject { kind: ErrorKind::InvalidTTLValue, at: 0, fatal: true })
    );
    assert_eq!(
        ttl(b"999", 0),
        Err(Reject { kind: ErrorKind::InvalidTTLValue, at: 0, fatal: true })
    );
    // only three digits are read
    assert_eq!(ttl(b"2550", 0), Ok((255, 3)));
    assert_eq!(ttl(b"x", 0).is_err(), true);
}

#[test]
fn integers_that_overflow_abort() {
    assert_eq!(
        port(b"99999999999999999999", 0),
        Err(Reject { kind: ErrorKind::InvalidIntegerError, at: 0, fatal: true })
    );
    assert_eq!(port(b"0002147483647x", 0), Ok((2147483647, 13)));
    assert_eq!(port(b"80", 0), Ok((80, 2)));
}

#[test]
fn uri_parameters_keep_their_kind_and_order() {
    let (rest, params) =
        val(uri_parameters, b";transport=TCP;user=phone;method=INVITE;ttl=15;maddr=10.0.0.1;lr;x=y;z>")
            .unwrap();
    assert_eq!(rest, b">");
    assert_eq!(
        params,
        vec![
            URIParam::Transport(Transport::TCP),
            URIParam::User(User::Phone),
            URIParam::Method(Method::Invite),
            URIParam::TTL(15),
            URIParam::MAddr("10.0.0.1".to_string()),
            URIParam::LR,
            URIParam::Other("x".to_string(), Some("y".to_string())),
            URIParam::Other("z".to_string(), None),
        ]
    );
}

#[test]
fn a_ttl_out_of_range_aborts_the_parameters() {
    assert_eq!(
        uri_parameters(b";lr;ttl=256", 0),
        Err(Reject { kind: ErrorKind::InvalidTTLValue, at: 8, fatal: true })
    );
}

#[test]
fn unknown_names_are_kept_verbatim() {
    assert_eq!(transport(b"udp", 0), Ok((Transport::UDP, 3)));
    assert_eq!(transport(b"TlS", 0), Ok((Transport::TLS, 3)));
    assert_eq!(transport(b"sctp", 0), Ok((Transport::SCTP, 4)));
    assert_eq!(transport(b"ws;", 0), Ok((Transport::Extension("ws".to_string()), 2)));
    assert_eq!(method(b"ACK ", 0), Ok((Method::Ack, 3)));
    assert_eq!(method(b"OPTIONS", 0), Ok((Method::Options, 7)));
    assert_eq!(method(b"BYE", 0), Ok((Method::Bye, 3)));
    assert_eq!(method(b"CANCEL", 0), Ok((Method::Cancel, 6)));
    assert_eq!(method(b"REGISTER", 0), Ok((Method::Register, 8)));
    assert_eq!(method(b"SUBSCRIBE ", 0), Ok((Method::Extension("SUBSCRIBE".to_string()), 9)));
    // method names are case-sensitive
    assert_eq!(method(b"invite", 0), Ok((Method::Extension("invite".to_string()), 6)));
}

#[test]
fn versions() {
    assert_eq!(sip_version(b"SIP/2.0", 0), Ok((Version::Two, 7)));
    assert_eq!(sip_version(b"sip/3.1 ", 0), Ok((Version::Other(3, 1), 7)));
    assert_eq!(sip_version(b"SIP/2", 0).is_err(), true);
}

#[test]
fn sip_uris() {
    assert!(run(sip_uri, b"sip:bob@biloxi.example.com ") == ok(b" ", b"sip:bob@biloxi.example.com"));
    assert!(
        run(sip_uri, b"SIP:alice:secret@[::1]:5060;transport=tcp?subject=x&priority=urgent>")
            == ok(b">", b"SIP:alice:secret@[::1]:5060;transport=tcp?subject=x&priority=urgent")
    );
    assert!(run(sips_uri, b"sips:example.com") == ok(b"", b"sips:example.com"));
    assert_eq!(run(sip_uri, b"sips:example.com").is_err(), true);
    assert_eq!(run(sip_uri, b"sip:").is_err(), true);
    assert_eq!(
        sip_uri(b"sip:example.com:99999999999", 0),
        Err(Reject { kind: ErrorKind::InvalidIntegerError, at: 16, fatal: true })
    );
}

#[test]
fn absolute_uris() {
    assert!(
        run(absolute_uri, b"http://www.example.com/a/b;c?q=1 ")
            == ok(b" ", b"http://www.example.com/a/b;c?q=1")
    );
    assert!(run(absolute_uri, b"mailto:bob@example.com>") == ok(b">", b"mailto:bob@example.com"));
    assert_eq!(run(absolute_uri, b"1http:x").is_err(), true);
    assert_eq!(run(absolute_uri, b"http").is_err(), true);
}

#[test]
fn generic_params_have_an_optional_value() {
    assert_eq!(
        generic_param(b"a=b;", 0),
        Ok((GenericParam { name: "a".to_string(), value: Some("b".to_string()) }, 3))
    );
    assert_eq!(
        generic_param(b"a = \"b c\"", 0),
        Ok((GenericParam { name: "a".to_string(), value: Some("\"b c\"".to_string()) }, 9))
    );
    assert_eq!(
        generic_param(b"a=[::1]", 0),
        Ok((GenericParam { name: "a".to_string(), value: Some("[::1]".to_string()) }, 7))
    );
    assert_eq!(generic_param(b"a;", 0), Ok((GenericParam { name: "a".to_string(), value: None }, 1)));
    assert_eq!(generic_param(b"=a", 0).is_err(), true);
}

#[test]
fn option_tags_follow_commas() {
    assert_eq!(
        option_tag(b", 100rel ,timer\r\n", 0),
        Ok((vec!["100rel".to_string(), "timer".to_string()], 15))
    );
    assert_eq!(option_tag(b"x", 0), Ok((vec![], 0)));
}

#[test]
fn qvalues_stay_between_zero_and_one() {
    assert!(run(qvalue, b"0") == ok(b"", b"0"));
    assert!(run(qvalue, b"0.") == ok(b"", b"0."));
    assert!(run(qvalue, b"0.125") == ok(b"", b"0.125"));
    assert!(run(qvalue, b"0.1234") == ok(b"4", b"0.123"));
    assert!(run(qvalue, b"1.000") == ok(b"", b"1.000"));
    assert!(run(qvalue, b"1.5") == ok(b"5", b"1."));
    assert!(run(qvalue, b"1.0001") == ok(b"1", b"1.000"));
    assert_eq!(run(qvalue, b"2").is_err(), true);
    assert_eq!(run(qvalue, b".5").is_err(), true);
}

#[test]
fn known_transports_one_by_one() {
    assert_eq!(transport_udp(b"UDP", 0), Ok((Transport::UDP, 3)));
    assert_eq!(transport_tcp(b"tcp", 0), Ok((Transport::TCP, 3)));
    assert_eq!(transport_sctp(b"Sctp", 0), Ok((Transport::SCTP, 4)));
    assert_eq!(transport_tls(b"tls", 0), Ok((Transport::TLS, 3)));
    assert_eq!(transport_udp(b"tcp", 0).is_err(), true);
}
