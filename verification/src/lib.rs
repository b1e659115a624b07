//! Compute the CRC-32 (ISO-HDLC) checksum of a byte range of a file.
//!
//! The core is pure logic over byte sequences: parsing the numeric
//! arguments, validating a requested `(offset, length)` range against a
//! total size, resolving the zero-length-means-to-end-of-file sentinel,
//! extracting the range, and checksumming it. File access and command-line
//! handling live outside the library and hand it plain values.

pub mod checksum;
pub mod range;
pub mod service;

use vstd::prelude::*;
use vstd::string::StringSliceAdditionalSpecFns;

verus! {

/// A request for the checksum of a byte range of a file.
///
/// `length == 0` is a sentinel meaning "read from `offset` to end of file",
/// not "read zero bytes".
#[derive(Debug)]
pub struct Config {
    pub filename: String,
    pub offset: u64,
    pub length: u64,
}

/// Why a numeric argument failed to parse.
#[derive(Debug, Clone, Copy, PartialEq, Eq)]
pub enum ParseError {
    /// No digits were supplied (after the `0x` prefix, if any).
    Empty,
    /// A character that is not a digit of the selected base was met before
    /// the value overflowed.
    InvalidDigit,
    /// The digits met so far already name a value above `u64::MAX`.
    PosOverflow,
}

/// ASCII `'0'`.
pub const ZERO: u8 = 48;

/// ASCII `'9'`.
pub const NINE: u8 = 57;

/// ASCII `'a'`.
pub const LOWER_A: u8 = 97;

/// ASCII `'z'`.
pub const LOWER_Z: u8 = 122;

/// ASCII `'A'`.
pub const UPPER_A: u8 = 65;

/// ASCII `'Z'`.
pub const UPPER_Z: u8 = 90;

/// ASCII `'x'`.
pub const LOWER_X: u8 = 120;

/// ASCII `'+'`.
pub const PLUS: u8 = 43;

/// The value of byte `b` read as a digit, following `char::to_digit`:
/// `'0'..='9'` then `'a'..='z'` or `'A'..='Z'`; 36 (no base accepts it)
/// otherwise.
pub open spec fn digit_value(b: u8) -> int {
    if ZERO <= b <= NINE {
        b - ZERO
    } else if LOWER_A <= b <= LOWER_Z {
        b - LOWER_A + 10
    } else if UPPER_A <= b <= UPPER_Z {
        b - UPPER_A + 10
    } else {
        36
    }
}

/// Whether byte `b` is a digit of base `radix`.
pub open spec fn is_digit(b: u8, radix: int) -> bool {
    digit_value(b) < radix
}

/// Read `digits` left to right in base `radix`, starting from the value
/// `acc`, reporting the first failure: a non-digit byte is an invalid digit,
/// and a value that no longer fits in 64 bits is an overflow.
pub open spec fn parse_digits(digits: Seq<u8>, radix: int, acc: int) -> Result<u64, ParseError>
    decreases digits.len(),
{
    if digits.len() == 0 {
        Ok(acc as u64)
    } else if !is_digit(digits[0], radix) {
        Err(ParseError::InvalidDigit)
    } else if acc * radix + digit_value(digits[0]) > u64::MAX {
        Err(ParseError::PosOverflow)
    } else {
        parse_digits(digits.skip(1), radix, acc * radix + digit_value(digits[0]))
    }
}

/// Parse `body` in base `radix` as `u64::from_str_radix` does: an empty body
/// is rejected as empty, one optional leading `+` is accepted, and a lone
/// `+` is an invalid digit.
pub open spec fn spec_parse_radix(body: Seq<u8>, radix: int) -> Result<u64, ParseError> {
    if body.len() == 0 {
        Err(ParseError::Empty)
    } else if body[0] == PLUS && body.len() == 1 {
        Err(ParseError::InvalidDigit)
    } else if body[0] == PLUS {
        parse_digits(body.skip(1), radix, 0)
    } else {
        parse_digits(body, radix, 0)
    }
}

/// What `parse` returns on a string with the given byte encoding: a `0x`
/// prefix selects base 16 for the rest, anything else is read in base 10.
pub open spec fn spec_parse(bytes: Seq<u8>) -> Result<u64, ParseError> {
    if bytes.len() >= 2 && bytes[0] == ZERO && bytes[1] == LOWER_X {
        spec_parse_radix(bytes.skip(2), 16)
    } else {
        spec_parse_radix(bytes, 10)
    }
}

/// The value of byte `b` read as a digit; 36 when no base accepts it.
fn digit_of(b: u8) -> (d: u8)
    ensures
        d as int == digit_value(b),
{
    if ZERO <= b && b <= NINE {
        b - ZERO
    } else if LOWER_A <= b && b <= LOWER_Z {
        b - LOWER_A + 10
    } else if UPPER_A <= b && b <= UPPER_Z {
        b - UPPER_A + 10
    } else {
        36
    }
}

/// Parse a `u64` from its decimal or `0x`-prefixed hexadecimal notation,
/// byte for byte as `u64::from_str_radix` would read the part after the
/// prefix.
pub fn parse(s: &str) -> (r: Result<u64, ParseError>)
    ensures
        r == spec_parse(s.spec_bytes()),
{
    let bytes: &[u8] = s.as_bytes();
    let len: usize = bytes.len();
    let mut i: usize = 0;
    let mut radix: u64 = 10;
    if len >= 2 && bytes[0] == ZERO && bytes[1] == LOWER_X {
        i = 2;
        radix = 16;
    }
    proof {
        assert(bytes@.skip(0) =~= bytes@);
        assert(spec_parse(bytes@) == spec_parse_radix(bytes@.skip(i as int), radix as int));
    }
    if i == len {
        return Err(ParseError::Empty);
    }
    if bytes[i] == PLUS {
        if i + 1 == len {
            return Err(ParseError::InvalidDigit);
        }
        proof {
            assert(bytes@.skip(i as int).skip(1) =~= bytes@.skip(i as int + 1));
        }
        i = i + 1;
    }
    let mut acc: u64 = 0;
    let mut j: usize = i;
    while j < len
        invariant
            j <= len,
            len == bytes@.len(),
            bytes@ == s.spec_bytes(),
            radix == 10 || radix == 16,
            spec_parse(s.spec_bytes()) == parse_digits(bytes@.skip(j as int), radix as int, acc as int),
        decreases len - j,
    {
        let b = bytes[j];
        let d = digit_of(b);
        if d as u64 >= radix {
            return Err(ParseError::InvalidDigit);
        }
        let next = match acc.checked_mul(radix) {
            Some(t) => t.checked_add(d as u64),
            None => None,
        };
        match next {
            None => {
                return Err(ParseError::PosOverflow);
            },
            Some(v) => {
                proof {
                    assert(bytes@.skip(j as int).skip(1) =~= bytes@.skip(j as int + 1));
                }
                acc = v;
                j = j + 1;
            },
        }
    }
    proof {
        assert(bytes@.skip(len as int) =~= Seq::<u8>::empty());
    }
    Ok(acc)
}

} // verus!
