//! Hexadecimal text to bytes.
//!
//! White space anywhere in the text is skipped. What is left is read two
//! characters at a time, each pair one byte. A pair may also be a plus sign
//! and one digit.

use vstd::prelude::*;
use vstd::string::StringExecFns;
use crate::text::{chars_of, digit_value, is_whitespace, spec_digit_value, spec_is_whitespace};

verus! {

/// Why a text is not a run of hexadecimal bytes.
#[derive(Debug, Clone, Copy, PartialEq, Eq, Structural)]
pub enum HexError {
    /// Without its white space, the text takes an odd number of bytes.
    OddLength,
    /// A pair of characters does not denote a byte.
    InvalidDigit,
}

/// The text that a fault of a hexadecimal text is reported with.
pub open spec fn spec_hex_error_text(error: HexError) -> Seq<char> {
    match error {
        HexError::OddLength => "Invalid hex string length"@,
        HexError::InvalidDigit => "invalid digit found in string"@,
    }
}

/// The text that a fault of a hexadecimal text is reported with.
pub fn hex_error_text(error: HexError) -> (text: String)
    ensures
        text@ == spec_hex_error_text(error),
{
    match error {
        HexError::OddLength => String::from_str("Invalid hex string length"),
        HexError::InvalidDigit => String::from_str("invalid digit found in string"),
    }
}

/// `s` without its white space.
pub open spec fn spec_strip_whitespace(s: Seq<char>) -> Seq<char>
    decreases s.len(),
{
    if s.len() == 0 {
        Seq::empty()
    } else if spec_is_whitespace(s.last()) {
        spec_strip_whitespace(s.drop_last())
    } else {
        spec_strip_whitespace(s.drop_last()).push(s.last())
    }
}

/// How many bytes `c` takes in UTF-8.
pub open spec fn spec_utf8_len(c: char) -> nat {
    let code = c as u32;
    if code < 0x80 {
        1
    } else if code < 0x800 {
        2
    } else if code < 0x10000 {
        3
    } else {
        4
    }
}

/// How many bytes `s` takes in UTF-8.
pub open spec fn spec_byte_len(s: Seq<char>) -> nat
    decreases s.len(),
{
    if s.len() == 0 {
        0
    } else {
        spec_byte_len(s.drop_last()) + spec_utf8_len(s.last())
    }
}

/// The byte that the pair `a`, `b` denotes: two hexadecimal digits, or a
/// plus sign and one.
pub open spec fn spec_pair_value(a: char, b: char) -> Option<u8> {
    if a == '+' {
        spec_digit_value(b, 16)
    } else {
        match (spec_digit_value(a, 16), spec_digit_value(b, 16)) {
            (Some(high), Some(low)) => Some((high * 16 + low) as u8),
            _ => None,
        }
    }
}

/// `done` put before what `rest` holds, if it holds bytes.
pub open spec fn spec_prepend(done: Seq<u8>, rest: Result<Seq<u8>, HexError>) -> Result<
    Seq<u8>,
    HexError,
> {
    match rest {
        Ok(bytes) => Ok(done + bytes),
        Err(error) => Err(error),
    }
}

/// The bytes that the pairs of `s` denote, or the error of the first pair
/// that denotes none. A character left over at the end is an error too.
pub open spec fn spec_decode_pairs(s: Seq<char>) -> Result<Seq<u8>, HexError>
    decreases s.len(),
{
    if s.len() == 0 {
        Ok(Seq::empty())
    } else if s.len() == 1 {
        Err(HexError::InvalidDigit)
    } else {
        match spec_pair_value(s[0], s[1]) {
            Some(byte) => spec_prepend(seq![byte], spec_decode_pairs(s.skip(2))),
            None => Err(HexError::InvalidDigit),
        }
    }
}

/// The bytes that `text` denotes in hexadecimal, or why it denotes none.
pub open spec fn spec_decode_hex(text: Seq<char>) -> Result<Seq<u8>, HexError> {
    let clean = spec_strip_whitespace(text);
    if spec_byte_len(clean) % 2 != 0 {
        Err(HexError::OddLength)
    } else {
        spec_decode_pairs(clean)
    }
}

/// Whether `result` holds what `expected` says.
pub open spec fn spec_same(result: Result<Vec<u8>, HexError>, expected: Result<Seq<u8>, HexError>)
    -> bool {
    match result {
        Ok(bytes) => expected == Ok::<Seq<u8>, HexError>(bytes@),
        Err(error) => expected == Err::<Seq<u8>, HexError>(error),
    }
}

/// Decodes hexadecimal text into bytes.
pub fn decode_hex(hex: &str) -> (bytes: Result<Vec<u8>, HexError>)
    ensures
        spec_same(bytes, spec_decode_hex(hex@)),
{
    let chars = chars_of(hex);
    let mut clean: Vec<char> = Vec::new();
    let mut odd: bool = false;
    let mut i: usize = 0;
    while i < chars.len()
        invariant
            0 <= i <= chars@.len(),
            clean@ == spec_strip_whitespace(chars@.take(i as int)),
            odd == (spec_byte_len(clean@) % 2 == 1),
        decreases chars@.len() - i,
    {
        let c = chars[i];
        assert(chars@.take(i + 1).drop_last() =~= chars@.take(i as int));
        if !is_whitespace(c) {
            let ghost before = clean@;
            clean.push(c);
            assert(clean@.drop_last() =~= before);
            let code: u32 = c as u32;
            if code < 0x80 || (0x800 <= code && code < 0x10000) {
                odd = !odd;
            }
        }
        i += 1;
    }
    assert(chars@.take(chars@.len() as int) =~= chars@);
    assert(clean@ == spec_strip_whitespace(hex@));
    if odd {
        return Err(HexError::OddLength);
    }
    let mut out: Vec<u8> = Vec::new();
    let mut at: usize = 0;
    assert(clean@.skip(0) =~= clean@);
    while at < clean.len()
        invariant
            0 <= at <= clean@.len(),
            clean@ == spec_strip_whitespace(hex@),
            spec_byte_len(clean@) % 2 == 0,
            spec_decode_pairs(clean@) == spec_prepend(out@, spec_decode_pairs(clean@.skip(at as int))),
        decreases clean@.len() - at,
    {
        let ghost rest = clean@.skip(at as int);
        if clean.len() - at == 1 {
            return Err(HexError::InvalidDigit);
        }
        let a = clean[at];
        let b = clean[at + 1];
        assert(rest[0] == a && rest[1] == b);
        let low = digit_value(b, 16);
        let byte: Option<u8> = if a == '+' {
            low
        } else {
            match (digit_value(a, 16), low) {
                (Some(high), Some(low)) => Some(high * 16 + low),
                _ => None,
            }
        };
        match byte {
            Some(byte) => {
                let ghost done = out@;
                out.push(byte);
                assert(rest.skip(2) =~= clean@.skip(at + 2));
                assert(out@ =~= done + seq![byte]);
                assert(spec_prepend(done, spec_prepend(seq![byte], spec_decode_pairs(rest.skip(2))))
                    == spec_prepend(out@, spec_decode_pairs(rest.skip(2)))) by {
                    match spec_decode_pairs(rest.skip(2)) {
                        Ok(tail) => {
                            assert(done + (seq![byte] + tail) =~= (done + seq![byte]) + tail);
                        },
                        Err(_) => {},
                    }
                }
            },
            None => {
                return Err(HexError::InvalidDigit);
            },
        }
        at += 2;
    }
    assert(out@ + Seq::<u8>::empty() =~= out@);
    Ok(out)
}

} // verus!
