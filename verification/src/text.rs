//! Text helpers shared by the error types and the transports: decimal
//! rendering of numbers and the characters of a string.

use vstd::prelude::*;
use vstd::string::{StrSliceExecFns, StringExecFns};

verus! {

/// The character for the digit `d`.
pub open spec fn spec_digit_char(d: nat) -> char
    recommends
        d < 10,
{
    if d == 0 {
        '0'
    } else if d == 1 {
        '1'
    } else if d == 2 {
        '2'
    } else if d == 3 {
        '3'
    } else if d == 4 {
        '4'
    } else if d == 5 {
        '5'
    } else if d == 6 {
        '6'
    } else if d == 7 {
        '7'
    } else if d == 8 {
        '8'
    } else {
        '9'
    }
}

/// The decimal digits of `n`, most significant first, without leading
/// zeros.
pub open spec fn spec_decimal(n: nat) -> Seq<char>
    decreases n,
{
    if n < 10 {
        seq![spec_digit_char(n)]
    } else {
        spec_decimal(n / 10).push(spec_digit_char(n % 10))
    }
}

/// The one-character text for the digit `d`.
fn digit_str(d: u8) -> (text: &'static str)
    requires
        d < 10,
    ensures
        text@ == seq![spec_digit_char(d as nat)],
{
    proof {
        reveal_strlit("0");
        reveal_strlit("1");
        reveal_strlit("2");
        reveal_strlit("3");
        reveal_strlit("4");
        reveal_strlit("5");
        reveal_strlit("6");
        reveal_strlit("7");
        reveal_strlit("8");
        reveal_strlit("9");
    }
    let text = if d == 0 {
        "0"
    } else if d == 1 {
        "1"
    } else if d == 2 {
        "2"
    } else if d == 3 {
        "3"
    } else if d == 4 {
        "4"
    } else if d == 5 {
        "5"
    } else if d == 6 {
        "6"
    } else if d == 7 {
        "7"
    } else if d == 8 {
        "8"
    } else {
        "9"
    };
    assert(text@ =~= seq![spec_digit_char(d as nat)]);
    text
}

/// Renders `n` in decimal.
pub fn decimal(n: u64) -> (text: String)
    ensures
        text@ == spec_decimal(n as nat),
    decreases n,
{
    if n < 10 {
        String::from_str(digit_str(n as u8))
    } else {
        let head = decimal(n / 10);
        let text = head.concat(digit_str((n % 10) as u8));
        assert(text@ =~= spec_decimal(n as nat));
        text
    }
}

/// The characters of `text`, one by one.
pub fn chars_of(text: &str) -> (chars: Vec<char>)
    ensures
        chars@ == text@,
{
    let count = text.unicode_len();
    let mut chars: Vec<char> = Vec::new();
    let mut i: usize = 0;
    while i < count
        invariant
            count == text@.len(),
            0 <= i <= count,
            chars@ == text@.subrange(0, i as int),
        decreases count - i,
    {
        chars.push(text.get_char(i));
        assert(chars@ =~= text@.subrange(0, i + 1));
        i += 1;
    }
    assert(chars@ =~= text@);
    chars
}

/// `String::push` appends one character.
pub assume_specification[ String::push ](text: &mut String, ch: char)
    ensures
        final(text)@ == old(text)@.push(ch),
;

/// The text made of `chars`.
pub fn text_of(chars: &[char]) -> (text: String)
    ensures
        text@ == chars@,
{
    let mut text = String::new();
    let mut i: usize = 0;
    while i < chars.len()
        invariant
            0 <= i <= chars@.len(),
            text@ == chars@.subrange(0, i as int),
        decreases chars@.len() - i,
    {
        text.push(chars[i]);
        assert(text@ =~= chars@.subrange(0, i + 1));
        i += 1;
    }
    assert(text@ =~= chars@);
    text
}

/// Whether `c` is white space in the sense of Unicode's `White_Space`
/// property.
pub open spec fn spec_is_whitespace(c: char) -> bool {
    let code = c as u32;
    ||| 0x09 <= code <= 0x0D
    ||| code == 0x20
    ||| code == 0x85
    ||| code == 0xA0
    ||| code == 0x1680
    ||| 0x2000 <= code <= 0x200A
    ||| code == 0x2028
    ||| code == 0x2029
    ||| code == 0x202F
    ||| code == 0x205F
    ||| code == 0x3000
}

/// Whether `c` is white space, as `char::is_whitespace` has it.
pub fn is_whitespace(c: char) -> (white: bool)
    ensures
        white == spec_is_whitespace(c),
{
    let code: u32 = c as u32;
    (0x09 <= code && code <= 0x0D) || code == 0x20 || code == 0x85 || code == 0xA0 || code
        == 0x1680 || (0x2000 <= code && code <= 0x200A) || code == 0x2028 || code == 0x2029
        || code == 0x202F || code == 0x205F || code == 0x3000
}

/// The value of `c` as a digit in base `radix`, if it is one. Letters count
/// from ten, in either case.
pub open spec fn spec_digit_value(c: char, radix: u32) -> Option<u8> {
    let code = c as u32;
    let value = if 0x30 <= code <= 0x39 {
        code - 0x30
    } else if 0x41 <= code <= 0x5A {
        code - 0x41 + 10
    } else if 0x61 <= code <= 0x7A {
        code - 0x61 + 10
    } else {
        36
    };
    if value < radix {
        Some(value as u8)
    } else {
        None
    }
}

/// The value of `c` as a digit in base `radix`, if it is one.
pub fn digit_value(c: char, radix: u32) -> (value: Option<u8>)
    requires
        2 <= radix <= 36,
    ensures
        value == spec_digit_value(c, radix),
{
    let code: u32 = c as u32;
    let value: u32 = if 0x30 <= code && code <= 0x39 {
        code - 0x30
    } else if 0x41 <= code && code <= 0x5A {
        code - 0x41 + 10
    } else if 0x61 <= code && code <= 0x7A {
        code - 0x61 + 10
    } else {
        36
    };
    if value < radix {
        Some(value as u8)
    } else {
        None
    }
}

} // verus!
