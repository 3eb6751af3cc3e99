//! Scanning of character sequences: prefixes, leading separators, splitting
//! at a separator, and decimal numbers. These say in one place what the
//! transports mean when they take a topic name or a key expression apart.

use vstd::prelude::*;
use crate::text::{digit_value, spec_digit_value};

verus! {

/// `s` without `prefix` at its start, or `s` itself if it does not begin
/// with `prefix`.
pub open spec fn spec_strip_prefix(s: Seq<char>, prefix: Seq<char>) -> Seq<char> {
    if prefix.is_prefix_of(s) {
        s.skip(prefix.len() as int)
    } else {
        s
    }
}

/// `s` without the run of `c` at its start.
pub open spec fn spec_trim_start(s: Seq<char>, c: char) -> Seq<char>
    decreases s.len(),
{
    if s.len() > 0 && s[0] == c {
        spec_trim_start(s.skip(1), c)
    } else {
        s
    }
}

/// Index of the first `sep` in `s`, or the length of `s` if there is none.
pub open spec fn spec_find(s: Seq<char>, sep: char) -> int
    decreases s.len(),
{
    if s.len() == 0 || s[0] == sep {
        0
    } else {
        1 + spec_find(s.skip(1), sep)
    }
}

/// The pieces of `s` between occurrences of `sep`. There is always at least
/// one piece; pieces may be empty.
pub open spec fn spec_split(s: Seq<char>, sep: char) -> Seq<Seq<char>>
    decreases s.len(),
{
    let at = spec_find(s, sep);
    if at < 0 || at >= s.len() {
        seq![s]
    } else {
        seq![s.take(at)] + spec_split(s.skip(at + 1), sep)
    }
}

/// The number that the decimal digits in `digits` stand for.
pub open spec fn spec_digits_value(digits: Seq<char>) -> nat
    decreases digits.len(),
{
    if digits.len() == 0 {
        0
    } else {
        spec_digits_value(digits.drop_last()) * 10 + match spec_digit_value(digits.last(), 10) {
            Some(d) => d as nat,
            None => 0,
        }
    }
}

/// Whether every character of `digits` is a decimal digit.
pub open spec fn spec_all_digits(digits: Seq<char>) -> bool {
    forall|i: int| 0 <= i < digits.len() ==> (#[trigger] spec_digit_value(digits[i], 10)).is_some()
}

/// The part of `s` that holds the digits: `s` without a leading plus sign,
/// unless the sign is all there is.
pub open spec fn spec_unsigned_digits(s: Seq<char>) -> Seq<char> {
    if s.len() > 1 && s[0] == '+' {
        s.skip(1)
    } else {
        s
    }
}

/// The number below 256 that `s` denotes in decimal: an optional plus sign,
/// then one digit or more. Anything else denotes nothing.
pub open spec fn spec_parse_u8(s: Seq<char>) -> Option<u8> {
    let digits = spec_unsigned_digits(s);
    if digits.len() > 0 && spec_all_digits(digits) && spec_digits_value(digits) <= 255 {
        Some(spec_digits_value(digits) as u8)
    } else {
        None
    }
}

/// The value of a digit string does not shrink as digits are added.
pub proof fn lemma_digits_value_grows(digits: Seq<char>, k: int)
    requires
        0 <= k <= digits.len(),
    ensures
        spec_digits_value(digits.take(k)) <= spec_digits_value(digits),
    decreases digits.len() - k,
{
    if k == digits.len() {
        assert(digits.take(k) =~= digits);
    } else {
        lemma_digits_value_grows(digits, k + 1);
        assert(digits.take(k + 1).drop_last() =~= digits.take(k));
    }
}

/// Where the first separator is, given that none comes before `k`.
pub proof fn lemma_find(s: Seq<char>, sep: char, k: int)
    requires
        0 <= k <= s.len(),
        forall|i: int| 0 <= i < k ==> s[i] != sep,
        k < s.len() ==> s[k] == sep,
    ensures
        spec_find(s, sep) == k,
    decreases k,
{
    if k > 0 {
        lemma_find(s.skip(1), sep, k - 1);
    }
}

/// Whether `chars` begins with `prefix`.
pub fn starts_with(chars: &[char], prefix: &[char]) -> (begins: bool)
    ensures
        begins == prefix@.is_prefix_of(chars@),
{
    if prefix.len() > chars.len() {
        return false;
    }
    let mut i: usize = 0;
    while i < prefix.len()
        invariant
            prefix@.len() <= chars@.len(),
            0 <= i <= prefix@.len(),
            forall|k: int| 0 <= k < i ==> prefix@[k] == chars@[k],
        decreases prefix@.len() - i,
    {
        if prefix[i] != chars[i] {
            assert(chars@.subrange(0, prefix@.len() as int)[i as int] != prefix@[i as int]);
            return false;
        }
        i += 1;
    }
    assert(prefix@ =~= chars@.subrange(0, prefix@.len() as int));
    true
}

/// How many characters of `chars` the prefix takes up: its length if `chars`
/// begins with it, none otherwise.
pub fn strip_prefix(chars: &[char], prefix: &[char]) -> (rest: usize)
    ensures
        rest <= chars@.len(),
        chars@.skip(rest as int) == spec_strip_prefix(chars@, prefix@),
{
    if starts_with(chars, prefix) {
        prefix.len()
    } else {
        assert(chars@.skip(0) =~= chars@);
        0
    }
}

/// Where `chars` goes on after the run of `c` that begins at `from`.
pub fn trim_start(chars: &[char], from: usize, c: char) -> (rest: usize)
    requires
        from <= chars@.len(),
    ensures
        from <= rest <= chars@.len(),
        chars@.skip(rest as int) == spec_trim_start(chars@.skip(from as int), c),
{
    let mut rest: usize = from;
    while rest < chars.len() && chars[rest] == c
        invariant
            from <= rest <= chars@.len(),
            spec_trim_start(chars@.skip(rest as int), c) == spec_trim_start(
                chars@.skip(from as int),
                c,
            ),
        decreases chars@.len() - rest,
    {
        assert(chars@.skip(rest as int).skip(1) =~= chars@.skip(rest + 1));
        rest += 1;
    }
    rest
}

/// The pieces that `ranges` cut out of `chars`.
pub open spec fn pieces(chars: Seq<char>, ranges: Seq<(usize, usize)>) -> Seq<Seq<char>> {
    Seq::new(ranges.len(), |i: int| chars.subrange(ranges[i].0 as int, ranges[i].1 as int))
}

/// Splits `chars`, from `from` on, at each `sep`. Each piece is given by
/// where it begins and where it ends.
pub fn split(chars: &[char], from: usize, sep: char) -> (ranges: Vec<(usize, usize)>)
    requires
        from <= chars@.len(),
    ensures
        ranges@.len() >= 1,
        forall|i: int|
            0 <= i < ranges@.len() ==> from <= (#[trigger] ranges@[i]).0 <= ranges@[i].1
                <= chars@.len(),
        pieces(chars@, ranges@) == spec_split(chars@.skip(from as int), sep),
{
    let mut ranges: Vec<(usize, usize)> = Vec::new();
    let mut start: usize = from;
    let mut i: usize = from;
    let ghost whole = chars@.skip(from as int);
    while i < chars.len()
        invariant
            from <= start <= i <= chars@.len(),
            whole == chars@.skip(from as int),
            forall|k: int| start <= k < i ==> chars@[k] != sep,
            forall|k: int|
                0 <= k < ranges@.len() ==> from <= (#[trigger] ranges@[k]).0 <= ranges@[k].1
                    <= chars@.len(),
            pieces(chars@, ranges@) + spec_split(chars@.skip(start as int), sep) == spec_split(
                whole,
                sep,
            ),
        decreases chars@.len() - i,
    {
        if chars[i] == sep {
            proof {
                let tail = chars@.skip(start as int);
                lemma_find(tail, sep, i - start);
                assert(tail.take(i - start) =~= chars@.subrange(start as int, i as int));
                assert(tail.skip(i - start + 1) =~= chars@.skip(i + 1));
                assert(pieces(chars@, ranges@.push((start, i))) =~= pieces(chars@, ranges@)
                    + seq![chars@.subrange(start as int, i as int)]);
                assert(pieces(chars@, ranges@) + (seq![chars@.subrange(start as int, i as int)]
                    + spec_split(chars@.skip(i + 1), sep)) =~= (pieces(chars@, ranges@)
                    + seq![chars@.subrange(start as int, i as int)]) + spec_split(
                    chars@.skip(i + 1),
                    sep,
                ));
            }
            ranges.push((start, i));
            start = i + 1;
        }
        i += 1;
    }
    proof {
        let tail = chars@.skip(start as int);
        lemma_find(tail, sep, tail.len() as int);
        assert(tail =~= chars@.subrange(start as int, chars@.len() as int));
        assert(pieces(chars@, ranges@.push((start, i))) =~= pieces(chars@, ranges@) + seq![tail]);
    }
    ranges.push((start, i));
    ranges
}

/// Reads the decimal number below 256 that `chars` holds between `from` and
/// `to`, if that is what it holds.
pub fn parse_u8(chars: &[char], from: usize, to: usize) -> (number: Option<u8>)
    requires
        from <= to <= chars@.len(),
    ensures
        number == spec_parse_u8(chars@.subrange(from as int, to as int)),
{
    let ghost s = chars@.subrange(from as int, to as int);
    let first: usize = if to - from > 1 && chars[from] == '+' {
        from + 1
    } else {
        from
    };
    let ghost digits = spec_unsigned_digits(s);
    assert(digits =~= chars@.subrange(first as int, to as int));
    if first == to {
        return None;
    }
    let mut value: u16 = 0;
    let mut i: usize = first;
    while i < to
        invariant
            first <= i <= to <= chars@.len(),
            digits == chars@.subrange(first as int, to as int),
            digits == spec_unsigned_digits(s),
            s == chars@.subrange(from as int, to as int),
            value <= 255,
            value == spec_digits_value(digits.take(i - first)),
            spec_all_digits(digits.take(i - first)),
        decreases to - i,
    {
        let ghost upto = digits.take(i - first + 1);
        assert(upto.drop_last() =~= digits.take(i - first));
        assert(upto.last() == chars@[i as int]);
        match digit_value(chars[i], 10) {
            Some(d) => {
                value = value * 10 + d as u16;
                assert(spec_all_digits(upto)) by {
                    assert forall|k: int| 0 <= k < upto.len() implies (#[trigger] spec_digit_value(
                        upto[k],
                        10,
                    )).is_some() by {
                        if k < upto.len() - 1 {
                            assert(upto[k] == digits.take(i - first)[k]);
                        }
                    }
                }
                assert(value == spec_digits_value(upto));
                if value > 255 {
                    proof {
                        lemma_digits_value_grows(digits, i - first + 1);
                    }
                    assert(spec_parse_u8(s).is_none());
                    return None;
                }
            },
            None => {
                assert(digits[i - first] == chars@[i as int]);
                assert(!spec_all_digits(digits));
                return None;
            },
        }
        i += 1;
    }
    assert(digits.take(to - first) =~= digits);
    Some(value as u8)
}

} // verus!
