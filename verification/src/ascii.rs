//! What this library takes for granted of the byte predicates of `nom`.

use vstd::prelude::*;

verus! {

/// `nom::character::is_alphabetic`: the byte is an ASCII letter, `A`-`Z` or `a`-`z`.
#[verifier::allow_in_spec]
pub assume_specification[ nom::character::is_alphabetic ](chr: u8) -> bool
    returns
        (0x41 <= chr && chr <= 0x5a) || (0x61 <= chr && chr <= 0x7a),
;

/// `nom::character::is_digit`: the byte is an ASCII digit, `0`-`9`.
#[verifier::allow_in_spec]
pub assume_specification[ nom::character::is_digit ](chr: u8) -> bool
    returns
        0x30 <= chr && chr <= 0x39,
;

/// `nom::character::is_alphanumeric`: the byte is an ASCII letter or digit.
#[verifier::allow_in_spec]
pub assume_specification[ nom::character::is_alphanumeric ](chr: u8) -> bool
    returns
        (0x41 <= chr && chr <= 0x5a) || (0x61 <= chr && chr <= 0x7a) || (0x30 <= chr && chr
            <= 0x39),
;

/// `nom::character::is_space`: the byte is a space or a horizontal tab.
#[verifier::allow_in_spec]
pub assume_specification[ nom::character::is_space ](chr: u8) -> bool
    returns
        chr == 0x20 || chr == 0x09,
;

} // verus!
