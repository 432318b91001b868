use xylosip::error::Reject;
use xylosip::parser::{
    escaped, from_hex, header_colon, hex_number, hexadecimal, linear_whitespace,
    lowercase_hexadecimal, mark, newline, reserved, unreserved, uppercase_hexadecimal, whitespace,
    HexConversionError,
};

type Cut<'a> = Result<(&'a [u8], &'a [u8]), Reject>;

fn run<'a>(p: fn(&[u8], usize) -> Result<usize, Reject>, input: &'a [u8]) -> Cut<'a> {
    p(input, 0).map(|e| (&input[e..], &input[..e]))
}

fn ok<'a>(rest: &'a [u8], matched: &'a [u8]) -> Cut<'a> {
    Ok((rest, matched))
}

fn chr<'a>(
    p: fn(&[u8], usize) -> Result<(u8, usize), Reject>,
    input: &'a [u8],
) -> Result<(&'a [u8], char), Reject> {
    p(input, 0).map(|(v, e)| (&input[e..], v as char))
}

fn num<'a>(
    p: fn(&[u8], usize) -> Result<(u8, usize), Reject>,
    input: &'a [u8],
) -> Result<(&'a [u8], u8), Reject> {
    p(input, 0).map(|(v, e)| (&input[e..], v))
}

#[test]
fn reserved_consumes_reserved_char() {
    assert!(chr(reserved, b";/?:@&=+$,") == Ok((b"/?:@&=+$,", ';')));
    assert!(chr(reserved, b"?;;;;;;foo") == Ok((b";;;;;;foo", '?')));
    assert_eq!(chr(reserved, b"xx@&=+$,").is_err(), true);
}

#[test]
fn mark_consumes_mark_chars() {
    assert!(chr(mark, b"-_.!~*'()") == Ok((b"_.!~*'()", '-')));
    assert!(chr(mark, b"______foo") == Ok((b"_____foo", '_')));
    assert_eq!(chr(mark, b"xx!-_.xx~*'()").is_err(), true);
}

#[test]
fn unreserved_consumes_unreserved_chars() {
    assert!(chr(unreserved, b"abc") == Ok((b"bc", 'a')));
    assert!(chr(unreserved, b"Zf") == Ok((b"f", 'Z')));
    assert_eq!(chr(unreserved, b"$f").is_err(), true);
}

#[test]
fn from_hex_parses_hex_digits() {
    assert_eq!(from_hex(b"0"), Ok(0));
    assert_eq!(from_hex(b"10"), Ok(16));
    assert_eq!(from_hex(b"fF"), Ok(255));
    assert_eq!(from_hex(b";").is_err(), true);
}

#[test]
fn hex_number_consumes_two_hex_digits() {
    assert!(num(hex_number, b"123") == Ok((b"3", 18)));
    assert!(num(hex_number, b"Ffz") == Ok((b"z", 255)));
    assert_eq!(num(hex_number, b"z123").is_err(), true);
}

#[test]
fn parser_escaped_consumes_an_escaped_number() {
    assert!(num(escaped, b"%fFx") == Ok((b"x", 255)));
    assert!(num(escaped, b"%00x") == Ok((b"x", 0)));
    assert_eq!(num(escaped, b"%0x").is_err(), true);
    assert_eq!(num(escaped, b"fFx").is_err(), true);
}

#[test]
fn whitespace_consumes_1_whitespaces() {
    assert!(chr(whitespace, b"  \t  foo") == Ok((b" \t  foo", ' ')));
    assert_eq!(chr(whitespace, b"foo").is_err(), true);
}

#[test]
fn parser_newline_consumes_a_single_newline() {
    assert!(run(newline, b"\r\na") == ok(b"a", b"\r\n"));
    assert!(run(newline, b"\r\n\r\n") == ok(b"\r\n", b"\r\n"));
}

#[test]
fn parser_linear_whitespace_requires_at_least_whitespace() {
    assert!(run(linear_whitespace, b"  f") == ok(b" f", b" "));
    assert_eq!(run(linear_whitespace, b"x").is_err(), true);
}

#[test]
fn parser_linear_whitespace_eats_preceding_crlf() {
    assert!(run(linear_whitespace, b"\r\n f") == ok(b"f", b"\r\n "));
}

#[test]
fn parser_linear_whitespace_eats_preceding_ws_and_crlf() {
    assert!(
        run(linear_whitespace, b"\t\t  \t \t \t\r\n\tf") == ok(b"f", b"\t\t  \t \t \t\r\n\t")
    );
}

#[test]
fn parser_header_colon_expects_a_colon() {
    assert!(run(header_colon, b":a") == ok(b"a", b":"));
}

#[test]
fn parser_header_colon_allows_preceding_ws() {
    assert!(run(header_colon, b"  \t\t  :a") == ok(b"a", b"  \t\t  :"));
}

#[test]
fn parser_header_colon_allows_ws_after() {
    assert!(run(header_colon, b": a") == ok(b"a", b": "));
    assert!(run(header_colon, b":\t\t \r\n a") == ok(b"a", b":\t\t \r\n "))
}

#[test]
fn from_hex_tells_why_bytes_are_no_number() {
    assert_eq!(from_hex(b""), Err(HexConversionError::ParseIntError));
    assert_eq!(from_hex(b"100"), Err(HexConversionError::ParseIntError));
    assert_eq!(from_hex(b"0ff"), Ok(255));
    assert_eq!(from_hex(b"+a"), Ok(10));
    assert_eq!(from_hex(b"-a"), Err(HexConversionError::ParseIntError));
    assert_eq!(from_hex(b"g"), Err(HexConversionError::ParseIntError));
    assert_eq!(from_hex(&[0xff]), Err(HexConversionError::Utf8Error));
}

#[test]
fn hexadecimal_digits_of_one_case() {
    assert!(chr(lowercase_hexadecimal, b"a") == Ok((b"", 'a')));
    assert_eq!(chr(lowercase_hexadecimal, b"A").is_err(), true);
    assert!(chr(uppercase_hexadecimal, b"A") == Ok((b"", 'A')));
    assert_eq!(chr(uppercase_hexadecimal, b"a").is_err(), true);
    assert!(chr(hexadecimal, b"9") == Ok((b"", '9')));
    assert_eq!(chr(hexadecimal, b"g").is_err(), true);
    assert_eq!(chr(hexadecimal, b"").is_err(), true);
}
