use xylosip::class::{
    is_comment_char, is_header_char, is_hex_digit, is_lowercase_hexadecimal, is_param_char,
    is_quotable_character, is_quoted_text_char, is_reserved, is_scheme_char, is_separator,
    is_space, is_token, is_unreserved, is_uric, is_uric_no_slash, is_utf8_cont, is_utf8_nonascii,
    is_word, Class,
};

fn members(p: fn(u8) -> bool) -> Vec<u8> {
    (0..=255u8).filter(|b| p(*b)).collect()
}

fn sorted(bytes: &[u8]) -> Vec<u8> {
    let mut v = bytes.to_vec();
    v.sort();
    v.dedup();
    v
}

const ALNUM: &[u8] = b"0123456789abcdefghijklmnopqrstuvwxyzABCDEFGHIJKLMNOPQRSTUVWXYZ";

fn with_alnum(extra: &[u8]) -> Vec<u8> {
    let mut v = ALNUM.to_vec();
    v.extend_from_slice(extra);
    sorted(&v)
}

#[test]
fn is_hex_digit_identifies_hex_digits() {
    b"1234567890abcdefABCDEF".iter().for_each(|i| assert_eq!(is_hex_digit(*i), true));

    assert_eq!(is_hex_digit(b';'), false);
}

#[test]
fn classes_hold_exactly_their_bytes() {
    assert_eq!(members(is_hex_digit), sorted(b"0123456789abcdefABCDEF"));
    assert_eq!(members(is_lowercase_hexadecimal), sorted(b"0123456789abcdef"));
    assert_eq!(members(is_reserved), sorted(b";/?:@&=+$,"));
    assert_eq!(members(is_unreserved), with_alnum(b"-_.!~*'()"));
    assert_eq!(members(is_token), with_alnum(b"-.!%*_+`'~"));
    assert_eq!(members(is_word), with_alnum(b"-.!%*_+`'~()<>:\\\"/[]?{}"));
    assert_eq!(members(is_separator), sorted(b"()<>@,;:\\\"/[]?={} \t"));
    assert_eq!(members(is_param_char), with_alnum(b"-_.!~*'()[]/:&+$"));
    assert_eq!(members(is_header_char), with_alnum(b"-_.!~*'()[]/?:+$"));
    assert_eq!(members(is_uric), with_alnum(b"-_.!~*'();/?:@&=+$,"));
    assert_eq!(members(is_uric_no_slash), with_alnum(b"-_.!~*'();?:@&=+$,"));
    assert_eq!(members(is_scheme_char), with_alnum(b"+-."));
    assert_eq!(members(is_space), vec![b' ']);
}

#[test]
fn ranges_hold_exactly_their_bytes() {
    assert_eq!(members(is_utf8_cont), (0x80..=0xbfu8).collect::<Vec<u8>>());
    assert_eq!(members(is_utf8_nonascii), (0xc0..=0xfdu8).collect::<Vec<u8>>());
    assert_eq!(
        members(is_comment_char),
        (0x21..=0x7eu8).filter(|b| !b"()\\".contains(b)).collect::<Vec<u8>>()
    );
    assert_eq!(
        members(is_quoted_text_char),
        (0x21..=0x7eu8).filter(|b| !b"\"\\".contains(b)).collect::<Vec<u8>>()
    );
    assert_eq!(
        members(is_quotable_character),
        (0x00..=0x7fu8).filter(|b| *b != b'\n' && *b != b'\r').collect::<Vec<u8>>()
    );
}

#[test]
fn a_class_as_a_value_agrees_with_its_predicate() {
    for b in 0..=255u8 {
        assert_eq!(Class::Token.has(b), is_token(b));
        assert_eq!(Class::Word.has(b), is_word(b));
        assert_eq!(Class::Digit.has(b), b.is_ascii_digit());
        assert_eq!(Class::Alphabetic.has(b), b.is_ascii_alphabetic());
        assert_eq!(Class::Alphanumeric.has(b), b.is_ascii_alphanumeric());
        assert_eq!(Class::HexDigit.has(b), b.is_ascii_hexdigit());
        assert_eq!(Class::Blank.has(b), b == b' ' || b == b'\t');
        assert_eq!(Class::ZeroDigit.has(b), b == b'0');
    }
}
