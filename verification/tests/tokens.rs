use xylosip::error::{ErrorKind, Reject};
use xylosip::tokens::{
    asterisk, comma, comment, comment_char, double_quote, equal, escaped, header_colon,
    left_angle_quote, linear_whitespace, newline, password, quoted_string, quoted_text_char,
    right_angle_quote, semicolon, token, user, utf8_ascii1, utf8_char1, utf8_nonascii_c0_df,
    utf8_nonascii_e0_ef, utf8_trim, word,
};

type Cut<'a> = Result<(&'a [u8], &'a [u8]), Reject>;

fn run<'a>(p: fn(&[u8], usize) -> Result<usize, Reject>, input: &'a [u8]) -> Cut<'a> {
    p(input, 0).map(|e| (&input[e..], &input[..e]))
}

fn ok<'a>(rest: &'a [u8], matched: &'a [u8]) -> Cut<'a> {
    Ok((rest, matched))
}

#[test]
fn tokens_escaped_consumes_an_escaped_number() {
    assert!(run(escaped, b"%fFx") == ok(b"x", b"%fF"));
    assert!(run(escaped, b"%00x") == ok(b"x", b"%00"));
    assert_eq!(run(escaped, b"%0x").is_err(), true);
    assert_eq!(run(escaped, b"fFx").is_err(), true);
}

#[test]
fn tokens_newline_consumes_a_single_newline() {
    assert!(run(newline, b"\r\na") == ok(b"a", b"\r\n"));
    assert!(run(newline, b"\r\n\r\n") == ok(b"\r\n", b"\r\n"));
}

#[test]
fn tokens_linear_whitespace_requires_at_least_whitespace() {
    assert!(run(linear_whitespace, b"  f") == ok(b"f", b"  "));
    assert_eq!(run(linear_whitespace, b"x").is_err(), true);
}

#[test]
fn tokens_linear_whitespace_eats_preceding_crlf() {
    assert!(run(linear_whitespace, b"\r\n f") == ok(b"f", b"\r\n "));
}

#[test]
fn tokens_linear_whitespace_eats_preceding_ws_and_crlf() {
    assert!(
        run(linear_whitespace, b"\t\t  \t \t \t\r\n\tf") == ok(b"f", b"\t\t  \t \t \t\r\n\t")
    );
}

#[test]
fn tokens_header_colon_expects_a_colon() {
    assert!(run(header_colon, b":a") == ok(b"a", b":"));
}

#[test]
fn tokens_header_colon_allows_preceding_ws() {
    assert!(run(header_colon, b"  \t\t  :a") == ok(b"a", b"  \t\t  :"));
}

#[test]
fn tokens_header_colon_allows_ws_after() {
    assert!(run(header_colon, b": a") == ok(b"a", b": "));
    assert!(run(header_colon, b":\t\t \r\n a") == ok(b"a", b":\t\t \r\n "))
}

#[test]
fn password_allows_empty() {
    assert!(run(password, b"") == ok(b"", b""));
    assert!(run(password, b"@") == ok(b"@", b""));
}

#[test]
fn password_allows_pw_chars() {
    assert!(
        run(
            password,
            b"&=+$,-_.!~*'()0123456789abcdefghijklmnopqrstuvwxyzABCDEFGHIJKLMNOPQRSTUVWXYZ"
        ) == ok(
            b"",
            b"&=+$,-_.!~*'()0123456789abcdefghijklmnopqrstuvwxyzABCDEFGHIJKLMNOPQRSTUVWXYZ"
        )
    );
}

#[test]
fn password_doesnt_match_special_chars() {
    assert!(run(password, b";@") == ok(b";@", b""));
}

#[test]
fn linear_whitespace_stops_before_a_line_end_without_continuation() {
    // blanks and a line end with no blank after it are no fold: only the
    // blanks before the line end are whitespace
    assert!(run(linear_whitespace, b" \r\nx") == ok(b"\r\nx", b" "));
    assert_eq!(run(linear_whitespace, b"\r\nx").is_err(), true);
}

#[test]
fn a_rejection_names_where_the_production_was_applied() {
    assert_eq!(
        escaped(b"ab%0x", 2),
        Err(Reject { kind: ErrorKind::Syntax, at: 3, fatal: false })
    );
    assert_eq!(token(b" a", 0), Err(Reject { kind: ErrorKind::Syntax, at: 0, fatal: false }));
}

#[test]
fn productions_start_at_the_given_offset() {
    assert_eq!(token(b"ab cd", 3), Ok(5));
    assert_eq!(newline(b"ab\r\n", 2), Ok(4));
    assert_eq!(token(b"ab", 2).is_err(), true);
}

#[test]
fn user_needs_one_character() {
    assert!(run(user, b"alice@x") == ok(b"@x", b"alice"));
    assert!(run(user, b"a%20b;c@x") == ok(b"@x", b"a%20b;c"));
    assert_eq!(run(user, b"@x").is_err(), true);
}

#[test]
fn word_may_be_empty() {
    assert!(run(word, b"") == ok(b"", b""));
    assert!(run(word, b"a<b>@c") == ok(b"@c", b"a<b>"));
}

#[test]
fn utf8_char1_wants_the_continuation_bytes_of_its_range() {
    assert!(run(utf8_char1, b"a") == ok(b"", b"a"));
    assert!(run(utf8_char1, &[0xc3, 0xa9, b'x']) == ok(b"x", &[0xc3, 0xa9]));
    assert!(run(utf8_char1, &[0xe2, 0x82, 0xac]) == ok(b"", &[0xe2, 0x82, 0xac]));
    assert!(run(utf8_char1, &[0xf0, 0x9f, 0x98, 0x80]) == ok(b"", &[0xf0, 0x9f, 0x98, 0x80]));
    assert!(
        run(utf8_char1, &[0xf8, 0x80, 0x80, 0x80, 0x80]) == ok(b"", &[0xf8, 0x80, 0x80, 0x80, 0x80])
    );
    assert!(
        run(utf8_char1, &[0xfc, 0x80, 0x80, 0x80, 0x80, 0x80])
            == ok(b"", &[0xfc, 0x80, 0x80, 0x80, 0x80, 0x80])
    );
    assert_eq!(run(utf8_char1, &[0xe2, 0x82]).is_err(), true);
    assert_eq!(run(utf8_char1, &[0xc3]).is_err(), true);
    assert_eq!(run(utf8_char1, &[0x80]).is_err(), true);
    assert_eq!(run(utf8_char1, b" ").is_err(), true);
}

#[test]
fn utf8_trim_leaves_trailing_whitespace() {
    assert!(run(utf8_trim, b"Acme  Corp  \r\n") == ok(b"  \r\n", b"Acme  Corp"));
    assert!(run(utf8_trim, b"a\r\n b\r\n") == ok(b"\r\n", b"a\r\n b"));
    assert_eq!(run(utf8_trim, b" a").is_err(), true);
}

#[test]
fn comments_nest() {
    assert!(run(comment, b"(a (b (c)) d)x") == ok(b"x", b"(a (b (c)) d)"));
    assert!(run(comment, b"()") == ok(b"", b"()"));
    assert!(run(comment, b"(a\\)b)") == ok(b"", b"(a\\)b)"));
    assert_eq!(run(comment, b"(a (b)").is_err(), true);
    assert_eq!(run(comment, b"a)").is_err(), true);
}

#[test]
fn quoted_string_covers_whitespace_and_quotes() {
    assert!(run(quoted_string, b"\"John Doe\" <") == ok(b" <", b"\"John Doe\""));
    assert!(run(quoted_string, b" \"a\\\"b\"x") == ok(b"x", b" \"a\\\"b\""));
    assert!(run(quoted_string, b"\"\"") == ok(b"", b"\"\""));
    assert_eq!(run(quoted_string, b"\"open").is_err(), true);
    assert_eq!(run(quoted_string, b"plain").is_err(), true);
}

#[test]
fn a_long_comment_is_read_without_nesting_calls() {
    let mut c = vec![b'('];
    c.extend(std::iter::repeat(b'a').take(200_000));
    c.push(b')');
    assert_eq!(comment(&c, 0), Ok(c.len()));
    let mut nested = vec![b'('; 500];
    nested.extend(std::iter::repeat(b')').take(500));
    assert_eq!(comment(&nested, 0), Ok(1000));
}

#[test]
fn punctuation_takes_whitespace_on_both_sides() {
    assert!(run(comma, b" , x") == ok(b"x", b" , "));
    assert!(run(comma, b"\r\n ,\r\n\tx") == ok(b"x", b"\r\n ,\r\n\t"));
    assert!(run(semicolon, b";x") == ok(b"x", b";"));
    assert!(run(equal, b" =x") == ok(b"x", b" ="));
    assert!(run(asterisk, b" * ") == ok(b"", b" * "));
    assert!(run(left_angle_quote, b" <sip") == ok(b"sip", b" <"));
    assert!(run(right_angle_quote, b"> ;") == ok(b";", b"> "));
    assert_eq!(run(comma, b" x").is_err(), true);
    assert!(run(double_quote, b"\"a") == ok(b"a", b"\""));
}

#[test]
fn single_characters() {
    assert!(run(utf8_ascii1, b"ab") == ok(b"b", b"a"));
    assert!(run(utf8_nonascii_c0_df, &[0xc3, 0xa9]) == ok(b"", &[0xc3, 0xa9]));
    assert_eq!(run(utf8_nonascii_c0_df, &[0xe2, 0x82, 0xac]).is_err(), true);
    assert!(run(utf8_nonascii_e0_ef, &[0xe2, 0x82, 0xac]) == ok(b"", &[0xe2, 0x82, 0xac]));
    assert!(run(comment_char, b"a(") == ok(b"(", b"a"));
    assert_eq!(run(comment_char, b"(").is_err(), true);
    assert!(run(quoted_text_char, b"(") == ok(b"", b"("));
    assert_eq!(run(quoted_text_char, b"\"").is_err(), true);
}
