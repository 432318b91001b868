//! Byte classes of the grammar: one total predicate per terminal class.

use vstd::prelude::*;

verus! {
pub const TAB: u8 = 0x09;
pub const ZERO: u8 = 0x30;
pub const ONE: u8 = 0x31;
pub const LF: u8 = 0x0a;
pub const CR: u8 = 0x0d;
pub const SPACE: u8 = 0x20;
pub const BANG: u8 = 0x21;
pub const DQUOTE: u8 = 0x22;
pub const HASH: u8 = 0x23;
pub const DOLLAR: u8 = 0x24;
pub const PERCENT: u8 = 0x25;
pub const AMP: u8 = 0x26;
pub const APOSTROPHE: u8 = 0x27;
pub const LPAREN: u8 = 0x28;
pub const RPAREN: u8 = 0x29;
pub const STAR: u8 = 0x2a;
pub const PLUS: u8 = 0x2b;
pub const COMMA: u8 = 0x2c;
pub const HYPHEN: u8 = 0x2d;
pub const DOT: u8 = 0x2e;
pub const SLASH: u8 = 0x2f;
pub const COLON: u8 = 0x3a;
pub const SEMICOLON: u8 = 0x3b;
pub const LESS: u8 = 0x3c;
pub const EQUALS: u8 = 0x3d;
pub const GREATER: u8 = 0x3e;
pub const QUESTION: u8 = 0x3f;
pub const AT_SIGN: u8 = 0x40;
pub const LBRACKET: u8 = 0x5b;
pub const BACKSLASH: u8 = 0x5c;
pub const RBRACKET: u8 = 0x5d;
pub const CARET: u8 = 0x5e;
pub const UNDERSCORE: u8 = 0x5f;
pub const BACKTICK: u8 = 0x60;
pub const LBRACE: u8 = 0x7b;
pub const PIPE: u8 = 0x7c;
pub const RBRACE: u8 = 0x7d;
pub const TILDE: u8 = 0x7e;

/// A hexadecimal digit of either case.
#[verifier::allow_in_spec]
pub fn is_hex_digit(i: u8) -> bool
    returns
        (0x30 <= i && i <= 0x39) || (0x41 <= i && i <= 0x46) || (0x61 <= i && i <= 0x66),
{
    (0x30 <= i && i <= 0x39) || (0x41 <= i && i <= 0x46) || (0x61 <= i && i <= 0x66)
}

/// The digit zero.
#[verifier::allow_in_spec]
pub fn is_zero_digit(i: u8) -> bool
    returns
        i == ZERO,
{
    i == ZERO
}

/// The space character alone.
#[verifier::allow_in_spec]
pub fn is_space(i: u8) -> bool
    returns
        i == SPACE,
{
    i == SPACE
}

/// A letter, a digit or a hyphen: what a hostname label is made of.
#[verifier::allow_in_spec]
pub fn is_alphanumeric_hyphen(i: u8) -> bool
    returns
        nom::character::is_alphanumeric(i) || i == HYPHEN,
{
    nom::character::is_alphanumeric(i) || i == HYPHEN
}

/// A reserved URI character.
#[verifier::allow_in_spec]
pub fn is_reserved(i: u8) -> bool
    returns
        i == SEMICOLON || i == SLASH || i == QUESTION || i == COLON || i == AT_SIGN || i == AMP || i == EQUALS || i == PLUS || i == DOLLAR || i == COMMA,
{
    i == SEMICOLON || i == SLASH || i == QUESTION || i == COLON || i == AT_SIGN || i == AMP || i == EQUALS || i == PLUS || i == DOLLAR || i == COMMA
}

/// A URI mark character.
#[verifier::allow_in_spec]
pub fn is_mark(i: u8) -> bool
    returns
        i == HYPHEN || i == UNDERSCORE || i == DOT || i == BANG || i == TILDE || i == STAR || i == APOSTROPHE || i == LPAREN || i == RPAREN,
{
    i == HYPHEN || i == UNDERSCORE || i == DOT || i == BANG || i == TILDE || i == STAR || i == APOSTROPHE || i == LPAREN || i == RPAREN
}

/// A digit or one of `a`-`f`.
#[verifier::allow_in_spec]
pub fn is_lowercase_hexadecimal(i: u8) -> bool
    returns
        (0x30 <= i && i <= 0x39) || (0x61 <= i && i <= 0x66),
{
    (0x30 <= i && i <= 0x39) || (0x61 <= i && i <= 0x66)
}

/// A digit or one of `A`-`F`.
#[verifier::allow_in_spec]
pub fn is_uppercase_hexadecimal(i: u8) -> bool
    returns
        (0x30 <= i && i <= 0x39) || (0x41 <= i && i <= 0x46),
{
    (0x30 <= i && i <= 0x39) || (0x41 <= i && i <= 0x46)
}

/// An unreserved URI character: a mark, a letter or a digit.
#[verifier::allow_in_spec]
pub fn is_unreserved(i: u8) -> bool
    returns
        is_mark(i) || nom::character::is_alphanumeric(i),
{
    is_mark(i) || nom::character::is_alphanumeric(i)
}

/// A token character.
#[verifier::allow_in_spec]
pub fn is_token(i: u8) -> bool
    returns
        nom::character::is_alphanumeric(i) || i == HYPHEN || i == DOT || i == BANG || i == PERCENT || i == STAR || i == UNDERSCORE || i == PLUS || i == BACKTICK || i == APOSTROPHE || i == TILDE,
{
    nom::character::is_alphanumeric(i) || i == HYPHEN || i == DOT || i == BANG || i == PERCENT || i == STAR || i == UNDERSCORE || i == PLUS || i == BACKTICK || i == APOSTROPHE || i == TILDE
}

/// A word character.
#[verifier::allow_in_spec]
pub fn is_word(i: u8) -> bool
    returns
        nom::character::is_alphanumeric(i) || i == HYPHEN || i == DOT || i == BANG || i == PERCENT || i == STAR || i == UNDERSCORE || i == PLUS || i == BACKTICK || i == APOSTROPHE || i == TILDE || i == LPAREN || i == RPAREN || i == LESS || i == GREATER || i == COLON || i == BACKSLASH || i == DQUOTE || i == SLASH || i == LBRACKET || i == RBRACKET || i == QUESTION || i == LBRACE || i == RBRACE,
{
    nom::character::is_alphanumeric(i) || i == HYPHEN || i == DOT || i == BANG || i == PERCENT || i == STAR || i == UNDERSCORE || i == PLUS || i == BACKTICK || i == APOSTROPHE || i == TILDE || i == LPAREN || i == RPAREN || i == LESS || i == GREATER || i == COLON || i == BACKSLASH || i == DQUOTE || i == SLASH || i == LBRACKET || i == RBRACKET || i == QUESTION || i == LBRACE || i == RBRACE
}

/// A separator character.
#[verifier::allow_in_spec]
pub fn is_separator(i: u8) -> bool
    returns
        i == LPAREN || i == RPAREN || i == LESS || i == GREATER || i == AT_SIGN || i == COMMA || i == SEMICOLON || i == COLON || i == BACKSLASH || i == DQUOTE || i == SLASH || i == LBRACKET || i == RBRACKET || i == QUESTION || i == EQUALS || i == LBRACE || i == RBRACE || i == SPACE || i == TAB,
{
    i == LPAREN || i == RPAREN || i == LESS || i == GREATER || i == AT_SIGN || i == COMMA || i == SEMICOLON || i == COLON || i == BACKSLASH || i == DQUOTE || i == SLASH || i == LBRACKET || i == RBRACKET || i == QUESTION || i == EQUALS || i == LBRACE || i == RBRACE || i == SPACE || i == TAB
}

/// A UTF-8 continuation byte.
#[verifier::allow_in_spec]
pub fn is_utf8_cont(i: u8) -> bool
    returns
        0x80 <= i && i <= 0xbf,
{
    0x80 <= i && i <= 0xbf
}

/// The lead byte of a two-byte sequence.
#[verifier::allow_in_spec]
pub fn is_utf8_nonascii_c0_df(i: u8) -> bool
    returns
        0xc0 <= i && i <= 0xdf,
{
    0xc0 <= i && i <= 0xdf
}

/// The lead byte of a three-byte sequence.
#[verifier::allow_in_spec]
pub fn is_utf8_nonascii_e0_ef(i: u8) -> bool
    returns
        0xe0 <= i && i <= 0xef,
{
    0xe0 <= i && i <= 0xef
}

/// The lead byte of a four-byte sequence.
#[verifier::allow_in_spec]
pub fn is_utf8_nonascii_f0_f7(i: u8) -> bool
    returns
        0xf0 <= i && i <= 0xf7,
{
    0xf0 <= i && i <= 0xf7
}

/// The lead byte of a five-byte sequence.
#[verifier::allow_in_spec]
pub fn is_utf8_nonascii_f8_fb(i: u8) -> bool
    returns
        0xf8 <= i && i <= 0xfb,
{
    0xf8 <= i && i <= 0xfb
}

/// The lead byte of a six-byte sequence.
#[verifier::allow_in_spec]
pub fn is_utf8_nonascii_fc_fd(i: u8) -> bool
    returns
        i == 0xfc || i == 0xfd,
{
    i == 0xfc || i == 0xfd
}

/// A printable ASCII byte.
#[verifier::allow_in_spec]
pub fn is_utf8_ascii(i: u8) -> bool
    returns
        0x21 <= i && i <= 0x7e,
{
    0x21 <= i && i <= 0x7e
}

/// The lead byte of any multi-byte sequence.
#[verifier::allow_in_spec]
pub fn is_utf8_nonascii(i: u8) -> bool
    returns
        is_utf8_nonascii_c0_df(i) || is_utf8_nonascii_e0_ef(i) || is_utf8_nonascii_f0_f7(i)
            || is_utf8_nonascii_f8_fb(i) || is_utf8_nonascii_fc_fd(i),
{
    is_utf8_nonascii_c0_df(i) || is_utf8_nonascii_e0_ef(i) || is_utf8_nonascii_f0_f7(i)
            || is_utf8_nonascii_f8_fb(i) || is_utf8_nonascii_fc_fd(i)
}

/// A byte that may stand unescaped in a comment.
#[verifier::allow_in_spec]
pub fn is_comment_char(i: u8) -> bool
    returns
        (0x21 <= i && i <= 0x27) || (0x2a <= i && i <= 0x5b) || (0x5d <= i && i <= 0x7e),
{
    (0x21 <= i && i <= 0x27) || (0x2a <= i && i <= 0x5b) || (0x5d <= i && i <= 0x7e)
}

/// A byte that may follow a backslash in a quoted pair.
#[verifier::allow_in_spec]
pub fn is_quotable_character(i: u8) -> bool
    returns
        i <= 0x09 || i == 0x0b || i == 0x0c || (0x0e <= i && i <= 0x7f),
{
    i <= 0x09 || i == 0x0b || i == 0x0c || (0x0e <= i && i <= 0x7f)
}

/// A byte that may stand unescaped in a quoted string.
#[verifier::allow_in_spec]
pub fn is_quoted_text_char(i: u8) -> bool
    returns
        i == 0x21 || (0x23 <= i && i <= 0x5b) || (0x5d <= i && i <= 0x7e),
{
    i == 0x21 || (0x23 <= i && i <= 0x5b) || (0x5d <= i && i <= 0x7e)
}

/// A password character besides the unreserved ones.
#[verifier::allow_in_spec]
pub fn is_password_extra(i: u8) -> bool
    returns
        i == AMP || i == EQUALS || i == PLUS || i == DOLLAR || i == COMMA,
{
    i == AMP || i == EQUALS || i == PLUS || i == DOLLAR || i == COMMA
}

/// A user character besides the unreserved ones.
#[verifier::allow_in_spec]
pub fn is_user_extra(i: u8) -> bool
    returns
        i == AMP || i == EQUALS || i == PLUS || i == DOLLAR || i == COMMA || i == SEMICOLON || i == QUESTION || i == SLASH,
{
    i == AMP || i == EQUALS || i == PLUS || i == DOLLAR || i == COMMA || i == SEMICOLON || i == QUESTION || i == SLASH
}

/// A URI parameter character.
#[verifier::allow_in_spec]
pub fn is_param_char(i: u8) -> bool
    returns
        is_unreserved(i) || i == LBRACKET || i == RBRACKET || i == SLASH || i == COLON || i == AMP || i == PLUS || i == DOLLAR,
{
    is_unreserved(i) || i == LBRACKET || i == RBRACKET || i == SLASH || i == COLON || i == AMP || i == PLUS || i == DOLLAR
}

/// A URI header character.
#[verifier::allow_in_spec]
pub fn is_header_char(i: u8) -> bool
    returns
        is_unreserved(i) || i == LBRACKET || i == RBRACKET || i == SLASH || i == QUESTION || i == COLON || i == PLUS || i == DOLLAR,
{
    is_unreserved(i) || i == LBRACKET || i == RBRACKET || i == SLASH || i == QUESTION || i == COLON || i == PLUS || i == DOLLAR
}

/// Any URI character.
#[verifier::allow_in_spec]
pub fn is_uric(i: u8) -> bool
    returns
        is_reserved(i) || is_unreserved(i),
{
    is_reserved(i) || is_unreserved(i)
}

/// Any URI character but the slash.
#[verifier::allow_in_spec]
pub fn is_uric_no_slash(i: u8) -> bool
    returns
        i != SLASH && is_uric(i),
{
    i != SLASH && is_uric(i)
}

/// A registry-name character.
#[verifier::allow_in_spec]
pub fn is_reg_name(i: u8) -> bool
    returns
        is_unreserved(i) || i == DOLLAR || i == COMMA || i == SEMICOLON || i == COLON || i == AT_SIGN || i == AMP || i == EQUALS || i == PLUS,
{
    is_unreserved(i) || i == DOLLAR || i == COMMA || i == SEMICOLON || i == COLON || i == AT_SIGN || i == AMP || i == EQUALS || i == PLUS
}

/// A path character.
#[verifier::allow_in_spec]
pub fn is_pchar(i: u8) -> bool
    returns
        is_unreserved(i) || i == COLON || i == AT_SIGN || i == AMP || i == EQUALS || i == PLUS || i == DOLLAR || i == COMMA,
{
    is_unreserved(i) || i == COLON || i == AT_SIGN || i == AMP || i == EQUALS || i == PLUS || i == DOLLAR || i == COMMA
}

/// A URI scheme character.
#[verifier::allow_in_spec]
pub fn is_scheme_char(i: u8) -> bool
    returns
        nom::character::is_alphanumeric(i) || i == PLUS || i == HYPHEN || i == DOT,
{
    nom::character::is_alphanumeric(i) || i == PLUS || i == HYPHEN || i == DOT
}

/// A byte of a status line's reason phrase.
#[verifier::allow_in_spec]
pub fn is_reason_phrase(i: u8) -> bool
    returns
        is_reserved(i) || is_unreserved(i) || is_utf8_nonascii(i) || is_utf8_cont(i)
            || nom::character::is_space(i),
{
    is_reserved(i) || is_unreserved(i) || is_utf8_nonascii(i) || is_utf8_cont(i)
            || nom::character::is_space(i)
}

/// A visual separator of a telephone number.
#[verifier::allow_in_spec]
pub fn is_visual_separator(i: u8) -> bool
    returns
        i == HYPHEN || i == DOT || i == LPAREN || i == RPAREN,
{
    i == HYPHEN || i == DOT || i == LPAREN || i == RPAREN
}

/// A digit or a visual separator.
#[verifier::allow_in_spec]
pub fn is_phone_digit(i: u8) -> bool
    returns
        nom::character::is_digit(i) || is_visual_separator(i),
{
    nom::character::is_digit(i) || is_visual_separator(i)
}

/// A DTMF digit.
#[verifier::allow_in_spec]
pub fn is_dtmf_digit(i: u8) -> bool
    returns
        i == STAR || i == HASH || (0x41 <= i && i <= 0x44),
{
    i == STAR || i == HASH || (0x41 <= i && i <= 0x44)
}

/// A pause character, `p` or `w`.
#[verifier::allow_in_spec]
pub fn is_pause_character(i: u8) -> bool
    returns
        i == 0x70 || i == 0x77,
{
    i == 0x70 || i == 0x77
}

/// A phone digit, a DTMF digit or a pause character.
#[verifier::allow_in_spec]
pub fn is_dial_char(i: u8) -> bool
    returns
        is_phone_digit(i) || is_dtmf_digit(i) || is_pause_character(i),
{
    is_phone_digit(i) || is_dtmf_digit(i) || is_pause_character(i)
}

/// A token character of a telephone extension parameter.
#[verifier::allow_in_spec]
pub fn is_future_extension_token(i: u8) -> bool
    returns
        nom::character::is_alphanumeric(i) || i == BANG || i == HASH || i == DOLLAR || i == PERCENT || i == AMP || i == APOSTROPHE || i == STAR || i == PLUS || i == HYPHEN || i == DOT || i == CARET || i == UNDERSCORE || i == BACKTICK || i == PIPE || i == TILDE,
{
    nom::character::is_alphanumeric(i) || i == BANG || i == HASH || i == DOLLAR || i == PERCENT || i == AMP || i == APOSTROPHE || i == STAR || i == PLUS || i == HYPHEN || i == DOT || i == CARET || i == UNDERSCORE || i == BACKTICK || i == PIPE || i == TILDE
}

/// A byte that may follow a backslash in a telephone quoted string.
#[verifier::allow_in_spec]
pub fn is_rfc2806_quoted_string_char(i: u8) -> bool
    returns
        0x01 <= i && i <= 0x7f,
{
    0x01 <= i && i <= 0x7f
}

/// A byte that may stand after an escape in a telephone quoted string.
#[verifier::allow_in_spec]
pub fn is_rfc2806_quoted_string_extra_char(i: u8) -> bool
    returns
        i == 0x20 || i == 0x21 || i >= 0x80 || (0x23 <= i && i <= 0x7e),
{
    i == 0x20 || i == 0x21 || i >= 0x80 || (0x23 <= i && i <= 0x7e)
}

/// The first byte of a private prefix.
#[verifier::allow_in_spec]
pub fn is_private_prefix_first_char(i: u8) -> bool
    returns
        i == 0x21 || i == 0x22 || i == 0x2c || i == 0x2f || i == 0x3a || (0x24 <= i && i <= 0x27)
            || (0x3c <= i && i <= 0x40) || (0x45 <= i && i <= 0x4f) || (0x51 <= i && i <= 0x56)
            || (0x58 <= i && i <= 0x60) || (0x65 <= i && i <= 0x6f) || (0x71 <= i && i <= 0x76)
            || (0x78 <= i && i <= 0x7e),
{
    i == 0x21 || i == 0x22 || i == 0x2c || i == 0x2f || i == 0x3a || (0x24 <= i && i <= 0x27)
            || (0x3c <= i && i <= 0x40) || (0x45 <= i && i <= 0x4f) || (0x51 <= i && i <= 0x56)
            || (0x58 <= i && i <= 0x60) || (0x65 <= i && i <= 0x6f) || (0x71 <= i && i <= 0x76)
            || (0x78 <= i && i <= 0x7e)
}

/// A later byte of a private prefix.
#[verifier::allow_in_spec]
pub fn is_private_prefix_other_chars(i: u8) -> bool
    returns
        (0x21 <= i && i <= 0x3a) || (0x3c <= i && i <= 0x7e),
{
    (0x21 <= i && i <= 0x3a) || (0x3c <= i && i <= 0x7e)
}

/// A byte class, as a value: what the scanning primitives are told to look for.
#[derive(Clone, Copy, Debug, PartialEq, Eq)]
pub enum Class {
    Alphabetic,
    Digit,
    Alphanumeric,
    HexDigit,
    Blank,
    ZeroDigit,
    Space,
    AlphanumericHyphen,
    Reserved,
    Mark,
    LowercaseHexadecimal,
    UppercaseHexadecimal,
    Unreserved,
    Token,
    Word,
    Separator,
    Utf8Cont,
    Utf8NonasciiC0Df,
    Utf8NonasciiE0Ef,
    Utf8NonasciiF0F7,
    Utf8NonasciiF8Fb,
    Utf8NonasciiFcFd,
    Utf8Ascii,
    Utf8Nonascii,
    CommentChar,
    QuotableCharacter,
    QuotedTextChar,
    PasswordExtra,
    UserExtra,
    ParamChar,
    HeaderChar,
    Uric,
    UricNoSlash,
    RegName,
    Pchar,
    SchemeChar,
    ReasonPhrase,
    VisualSeparator,
    PhoneDigit,
    DtmfDigit,
    PauseCharacter,
    DialChar,
    FutureExtensionToken,
    Rfc2806QuotedStringChar,
    Rfc2806QuotedStringExtraChar,
    PrivatePrefixFirstChar,
    PrivatePrefixOtherChars,
}

impl Class {
    /// Whether the byte `b` belongs to the class.
    #[verifier::allow_in_spec]
    pub fn has(self, b: u8) -> bool
        returns
            match self {
                Class::Alphabetic => nom::character::is_alphabetic(b),
                Class::Digit => nom::character::is_digit(b),
                Class::Alphanumeric => nom::character::is_alphanumeric(b),
                Class::HexDigit => is_hex_digit(b),
                Class::Blank => nom::character::is_space(b),
                Class::ZeroDigit => is_zero_digit(b),
                Class::Space => is_space(b),
                Class::AlphanumericHyphen => is_alphanumeric_hyphen(b),
                Class::Reserved => is_reserved(b),
                Class::Mark => is_mark(b),
                Class::LowercaseHexadecimal => is_lowercase_hexadecimal(b),
                Class::UppercaseHexadecimal => is_uppercase_hexadecimal(b),
                Class::Unreserved => is_unreserved(b),
                Class::Token => is_token(b),
                Class::Word => is_word(b),
                Class::Separator => is_separator(b),
                Class::Utf8Cont => is_utf8_cont(b),
                Class::Utf8NonasciiC0Df => is_utf8_nonascii_c0_df(b),
                Class::Utf8NonasciiE0Ef => is_utf8_nonascii_e0_ef(b),
                Class::Utf8NonasciiF0F7 => is_utf8_nonascii_f0_f7(b),
                Class::Utf8NonasciiF8Fb => is_utf8_nonascii_f8_fb(b),
                Class::Utf8NonasciiFcFd => is_utf8_nonascii_fc_fd(b),
                Class::Utf8Ascii => is_utf8_ascii(b),
                Class::Utf8Nonascii => is_utf8_nonascii(b),
                Class::CommentChar => is_comment_char(b),
                Class::QuotableCharacter => is_quotable_character(b),
                Class::QuotedTextChar => is_quoted_text_char(b),
                Class::PasswordExtra => is_password_extra(b),
                Class::UserExtra => is_user_extra(b),
                Class::ParamChar => is_param_char(b),
                Class::HeaderChar => is_header_char(b),
                Class::Uric => is_uric(b),
                Class::UricNoSlash => is_uric_no_slash(b),
                Class::RegName => is_reg_name(b),
                Class::Pchar => is_pchar(b),
                Class::SchemeChar => is_scheme_char(b),
                Class::ReasonPhrase => is_reason_phrase(b),
                Class::VisualSeparator => is_visual_separator(b),
                Class::PhoneDigit => is_phone_digit(b),
                Class::DtmfDigit => is_dtmf_digit(b),
                Class::PauseCharacter => is_pause_character(b),
                Class::DialChar => is_dial_char(b),
                Class::FutureExtensionToken => is_future_extension_token(b),
                Class::Rfc2806QuotedStringChar => is_rfc2806_quoted_string_char(b),
                Class::Rfc2806QuotedStringExtraChar => is_rfc2806_quoted_string_extra_char(b),
                Class::PrivatePrefixFirstChar => is_private_prefix_first_char(b),
                Class::PrivatePrefixOtherChars => is_private_prefix_other_chars(b),
            },
    {
        match self {
            Class::Alphabetic => nom::character::is_alphabetic(b),
            Class::Digit => nom::character::is_digit(b),
            Class::Alphanumeric => nom::character::is_alphanumeric(b),
            Class::HexDigit => is_hex_digit(b),
            Class::Blank => nom::character::is_space(b),
            Class::ZeroDigit => is_zero_digit(b),
            Class::Space => is_space(b),
            Class::AlphanumericHyphen => is_alphanumeric_hyphen(b),
            Class::Reserved => is_reserved(b),
            Class::Mark => is_mark(b),
            Class::LowercaseHexadecimal => is_lowercase_hexadecimal(b),
            Class::UppercaseHexadecimal => is_uppercase_hexadecimal(b),
            Class::Unreserved => is_unreserved(b),
            Class::Token => is_token(b),
            Class::Word => is_word(b),
            Class::Separator => is_separator(b),
            Class::Utf8Cont => is_utf8_cont(b),
            Class::Utf8NonasciiC0Df => is_utf8_nonascii_c0_df(b),
            Class::Utf8NonasciiE0Ef => is_utf8_nonascii_e0_ef(b),
            Class::Utf8NonasciiF0F7 => is_utf8_nonascii_f0_f7(b),
            Class::Utf8NonasciiF8Fb => is_utf8_nonascii_f8_fb(b),
            Class::Utf8NonasciiFcFd => is_utf8_nonascii_fc_fd(b),
            Class::Utf8Ascii => is_utf8_ascii(b),
            Class::Utf8Nonascii => is_utf8_nonascii(b),
            Class::CommentChar => is_comment_char(b),
            Class::QuotableCharacter => is_quotable_character(b),
            Class::QuotedTextChar => is_quoted_text_char(b),
            Class::PasswordExtra => is_password_extra(b),
            Class::UserExtra => is_user_extra(b),
            Class::ParamChar => is_param_char(b),
            Class::HeaderChar => is_header_char(b),
            Class::Uric => is_uric(b),
            Class::UricNoSlash => is_uric_no_slash(b),
            Class::RegName => is_reg_name(b),
            Class::Pchar => is_pchar(b),
            Class::SchemeChar => is_scheme_char(b),
            Class::ReasonPhrase => is_reason_phrase(b),
            Class::VisualSeparator => is_visual_separator(b),
            Class::PhoneDigit => is_phone_digit(b),
            Class::DtmfDigit => is_dtmf_digit(b),
            Class::PauseCharacter => is_pause_character(b),
            Class::DialChar => is_dial_char(b),
            Class::FutureExtensionToken => is_future_extension_token(b),
            Class::Rfc2806QuotedStringChar => is_rfc2806_quoted_string_char(b),
            Class::Rfc2806QuotedStringExtraChar => is_rfc2806_quoted_string_extra_char(b),
            Class::PrivatePrefixFirstChar => is_private_prefix_first_char(b),
            Class::PrivatePrefixOtherChars => is_private_prefix_other_chars(b),
        }
    }
}

} // verus!
