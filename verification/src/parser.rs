//! Decisions taken around a call of the decoder: whether the input may be
//! handed over, which of the decoded blocks become records, how far the
//! parse got, and which part of the decoder's JSON holds the items.

use vstd::prelude::*;
use vstd::string::StringExecFns;
use crate::error::AsterixError;
use crate::scan::{spec_find, lemma_find, starts_with};
use crate::text::{chars_of, decimal, is_whitespace, spec_decimal, spec_is_whitespace, text_of};

verus! {

/// Most bytes handed to the decoder in one call.
pub const MAX_ASTERIX_MESSAGE_SIZE: usize = 65536;

/// Most blocks asked of the decoder in one call.
pub const MAX_BLOCKS_PER_CALL: usize = 10000;

/// Largest number that the decoder takes as an offset or a count.
pub const MAX_BRIDGE_NUMBER: u64 = 0xFFFF_FFFF;

/// Why a parse request is refused.
#[derive(Debug, Clone, Copy, PartialEq, Eq, Structural)]
pub enum RequestFault {
    /// There is no input.
    EmptyInput,
    /// The input is longer than `MAX_ASTERIX_MESSAGE_SIZE`.
    InputTooLarge,
    /// The offset is more than the decoder can take.
    OffsetTooLarge,
    /// The offset lies at or behind the end of the input.
    OffsetBeyondData,
    /// The block count is more than the decoder can take.
    CountTooLarge,
    /// The block count is more than `MAX_BLOCKS_PER_CALL`.
    TooManyBlocks,
}

/// The fault of an input of `len` bytes, if it has one.
pub open spec fn spec_input_fault(len: usize) -> Option<RequestFault> {
    if len == 0 {
        Some(RequestFault::EmptyInput)
    } else if len > MAX_ASTERIX_MESSAGE_SIZE {
        Some(RequestFault::InputTooLarge)
    } else {
        None
    }
}

/// The first fault of a request to parse `blocks_count` blocks from `offset`
/// on in an input of `len` bytes, if it has one.
pub open spec fn spec_window_fault(len: usize, offset: usize, blocks_count: usize) -> Option<
    RequestFault,
> {
    if spec_input_fault(len).is_some() {
        spec_input_fault(len)
    } else if offset > MAX_BRIDGE_NUMBER {
        Some(RequestFault::OffsetTooLarge)
    } else if offset >= len {
        Some(RequestFault::OffsetBeyondData)
    } else if blocks_count > MAX_BRIDGE_NUMBER {
        Some(RequestFault::CountTooLarge)
    } else if blocks_count > MAX_BLOCKS_PER_CALL {
        Some(RequestFault::TooManyBlocks)
    } else {
        None
    }
}

/// The text that a fault is reported with.
pub open spec fn spec_fault_text(fault: RequestFault, len: usize, offset: usize, blocks_count: usize)
    -> Seq<char> {
    match fault {
        RequestFault::EmptyInput => "Empty input data"@,
        RequestFault::InputTooLarge => "Input data too large: "@ + spec_decimal(len as nat)
            + " bytes (maximum 65536 bytes)"@,
        RequestFault::OffsetTooLarge => "Offset "@ + spec_decimal(offset as nat)
            + " exceeds FFI maximum (u32::MAX = 4294967295)"@,
        RequestFault::OffsetBeyondData => "Offset "@ + spec_decimal(offset as nat)
            + " exceeds data length "@ + spec_decimal(len as nat),
        RequestFault::CountTooLarge => "blocks_count "@ + spec_decimal(blocks_count as nat)
            + " exceeds FFI maximum (u32::MAX = 4294967295)"@,
        RequestFault::TooManyBlocks => "blocks_count "@ + spec_decimal(blocks_count as nat)
            + " exceeds maximum (10000)"@,
    }
}

/// Whether `error` is how `fault` is reported: a fault of the offset is a
/// parse error at that offset, any other fault is invalid data.
pub open spec fn spec_reports(
    error: AsterixError,
    fault: RequestFault,
    len: usize,
    offset: usize,
    blocks_count: usize,
) -> bool {
    match error {
        AsterixError::ParseError { offset: at, message } => {
            &&& fault == RequestFault::OffsetTooLarge || fault == RequestFault::OffsetBeyondData
            &&& at == offset
            &&& message@ == spec_fault_text(fault, len, offset, blocks_count)
        },
        AsterixError::InvalidData(message) => {
            &&& fault != RequestFault::OffsetTooLarge
            &&& fault != RequestFault::OffsetBeyondData
            &&& message@ == spec_fault_text(fault, len, offset, blocks_count)
        },
        _ => false,
    }
}

/// Builds the error that `fault` is reported with.
fn report(fault: RequestFault, len: usize, offset: usize, blocks_count: usize) -> (error:
    AsterixError)
    ensures
        spec_reports(error, fault, len, offset, blocks_count),
{
    match fault {
        RequestFault::EmptyInput => AsterixError::InvalidData(String::from_str("Empty input data")),
        RequestFault::InputTooLarge => AsterixError::InvalidData(
            String::from_str("Input data too large: ").concat(decimal(len as u64).as_str()).concat(
                " bytes (maximum 65536 bytes)",
            ),
        ),
        RequestFault::OffsetTooLarge => AsterixError::ParseError {
            offset,
            message: String::from_str("Offset ").concat(decimal(offset as u64).as_str()).concat(
                " exceeds FFI maximum (u32::MAX = 4294967295)",
            ),
        },
        RequestFault::OffsetBeyondData => AsterixError::ParseError {
            offset,
            message: String::from_str("Offset ").concat(decimal(offset as u64).as_str()).concat(
                " exceeds data length ",
            ).concat(decimal(len as u64).as_str()),
        },
        RequestFault::CountTooLarge => AsterixError::InvalidData(
            String::from_str("blocks_count ").concat(decimal(blocks_count as u64).as_str()).concat(
                " exceeds FFI maximum (u32::MAX = 4294967295)",
            ),
        ),
        RequestFault::TooManyBlocks => AsterixError::InvalidData(
            String::from_str("blocks_count ").concat(decimal(blocks_count as u64).as_str()).concat(
                " exceeds maximum (10000)",
            ),
        ),
    }
}

/// Checks an input of `len` bytes before it is parsed as a whole: it must
/// not be empty and not be longer than `MAX_ASTERIX_MESSAGE_SIZE`.
pub fn check_input(len: usize) -> (checked: Result<(), AsterixError>)
    ensures
        match checked {
            Ok(_) => spec_input_fault(len).is_none(),
            Err(error) => spec_input_fault(len) matches Some(fault) && spec_reports(
                error,
                fault,
                len,
                0,
                0,
            ),
        },
{
    if len == 0 {
        Err(report(RequestFault::EmptyInput, len, 0, 0))
    } else if len > MAX_ASTERIX_MESSAGE_SIZE {
        Err(report(RequestFault::InputTooLarge, len, 0, 0))
    } else {
        Ok(())
    }
}

/// Checks a request to parse `blocks_count` blocks from `offset` on in an
/// input of `len` bytes. The first fault found is reported.
pub fn check_window(len: usize, offset: usize, blocks_count: usize) -> (checked: Result<
    (),
    AsterixError,
>)
    ensures
        match checked {
            Ok(_) => spec_window_fault(len, offset, blocks_count).is_none(),
            Err(error) => spec_window_fault(len, offset, blocks_count) matches Some(fault)
                && spec_reports(error, fault, len, offset, blocks_count),
        },
{
    let fault = if len == 0 {
        RequestFault::EmptyInput
    } else if len > MAX_ASTERIX_MESSAGE_SIZE {
        RequestFault::InputTooLarge
    } else if offset as u64 > MAX_BRIDGE_NUMBER {
        RequestFault::OffsetTooLarge
    } else if offset >= len {
        RequestFault::OffsetBeyondData
    } else if blocks_count as u64 > MAX_BRIDGE_NUMBER {
        RequestFault::CountTooLarge
    } else if blocks_count > MAX_BLOCKS_PER_CALL {
        RequestFault::TooManyBlocks
    } else {
        return Ok(());
    };
    Err(report(fault, len, offset, blocks_count))
}

/// What a missing answer of the decoder means: a null reference.
pub fn null_answer(whole_input: bool) -> (error: AsterixError)
    ensures
        error matches AsterixError::NullPointer(text) && text@ == if whole_input {
            "C++ parser returned null (check if ASTERIX is initialized)"@
        } else {
            "C++ parser returned null"@
        },
{
    if whole_input {
        AsterixError::NullPointer(
            String::from_str("C++ parser returned null (check if ASTERIX is initialized)"),
        )
    } else {
        AsterixError::NullPointer(String::from_str("C++ parser returned null"))
    }
}

/// Whether a block of `category` passes the filter.
pub open spec fn spec_passes(category: Option<u8>, filter_category: Option<u8>) -> bool {
    match category {
        Some(found) => match filter_category {
            Some(wanted) => found == wanted,
            None => true,
        },
        None => false,
    }
}

/// The indices, from `from` on, of the blocks that become records, `taken`
/// records having been made already. A block that is missing or fails the
/// filter is passed over; the limit is looked at after each record, so that
/// one record is made even under a limit of 0.
pub open spec fn spec_select(
    categories: Seq<Option<u8>>,
    filter_category: Option<u8>,
    max_records: Option<usize>,
    from: int,
    taken: int,
) -> Seq<int>
    decreases categories.len() - from,
{
    if from < 0 || from >= categories.len() {
        Seq::empty()
    } else if !spec_passes(categories[from], filter_category) {
        spec_select(categories, filter_category, max_records, from + 1, taken)
    } else if max_records matches Some(limit) && taken + 1 >= limit {
        seq![from]
    } else {
        seq![from] + spec_select(categories, filter_category, max_records, from + 1, taken + 1)
    }
}

/// Picks the blocks that become records: those that are there and pass the
/// category filter, in order, until the limit is reached. `categories`
/// holds the category of each block, or nothing for a block that is missing.
pub fn select_blocks(
    categories: &[Option<u8>],
    filter_category: Option<u8>,
    max_records: Option<usize>,
) -> (picked: Vec<usize>)
    ensures
        picked@.map_values(|i: usize| i as int) == spec_select(
            categories@,
            filter_category,
            max_records,
            0,
            0,
        ),
{
    let mut picked: Vec<usize> = Vec::new();
    let mut i: usize = 0;
    let ghost whole = spec_select(categories@, filter_category, max_records, 0, 0);
    while i < categories.len()
        invariant
            0 <= i <= categories@.len(),
            picked@.len() <= i,
            whole == spec_select(categories@, filter_category, max_records, 0, 0),
            whole == picked@.map_values(|i: usize| i as int) + spec_select(
                categories@,
                filter_category,
                max_records,
                i as int,
                picked@.len() as int,
            ),
        decreases categories@.len() - i,
    {
        let passes = match categories[i] {
            Some(found) => match filter_category {
                Some(wanted) => found == wanted,
                None => true,
            },
            None => false,
        };
        if passes {
            let ghost before = picked@.map_values(|i: usize| i as int);
            let ghost taken = picked@.len() as int;
            picked.push(i);
            assert(picked@.map_values(|i: usize| i as int) =~= before + seq![i as int]);
            let stop = match max_records {
                Some(limit) => picked.len() >= limit,
                None => false,
            };
            if stop {
                return picked;
            }
            assert(before + (seq![i as int] + spec_select(
                categories@,
                filter_category,
                max_records,
                i + 1,
                taken + 1,
            )) =~= (before + seq![i as int]) + spec_select(
                categories@,
                filter_category,
                max_records,
                i + 1,
                taken + 1,
            ));
        }
        i += 1;
    }
    assert(picked@.map_values(|i: usize| i as int) + Seq::<int>::empty()
        =~= picked@.map_values(|i: usize| i as int));
    picked
}

/// The sum of the block lengths.
pub open spec fn spec_total(lengths: Seq<u32>) -> nat
    decreases lengths.len(),
{
    if lengths.len() == 0 {
        0
    } else {
        spec_total(lengths.drop_last()) + lengths.last() as nat
    }
}

/// How far a parse got: the offset it began at plus the lengths of the
/// records made.
pub open spec fn spec_bytes_consumed(offset: usize, lengths: Seq<u32>) -> nat {
    offset as nat + spec_total(lengths)
}

/// An estimate of the blocks left behind `bytes_consumed`, at 32 bytes a
/// block.
pub open spec fn spec_remaining_blocks(len: usize, bytes_consumed: nat) -> nat {
    if bytes_consumed >= len {
        0
    } else {
        ((len - bytes_consumed) / 32) as nat
    }
}

/// The sum of the first lengths is no more than the sum of all.
pub proof fn lemma_total_grows(lengths: Seq<u32>, k: int)
    requires
        0 <= k <= lengths.len(),
    ensures
        spec_total(lengths.take(k)) <= spec_total(lengths),
    decreases lengths.len() - k,
{
    if k == lengths.len() {
        assert(lengths.take(k) =~= lengths);
    } else {
        lemma_total_grows(lengths, k + 1);
        assert(lengths.take(k + 1).drop_last() =~= lengths.take(k));
    }
}

/// Says how far a parse got that began at `offset` in an input of `len`
/// bytes and made records of the given lengths: the bytes consumed, and an
/// estimate of the blocks that are left.
pub fn window_summary(len: usize, offset: usize, lengths: &[u32]) -> (summary: (usize, usize))
    requires
        spec_bytes_consumed(offset, lengths@) <= usize::MAX,
    ensures
        summary.0 == spec_bytes_consumed(offset, lengths@),
        summary.1 == spec_remaining_blocks(len, spec_bytes_consumed(offset, lengths@)),
{
    let mut bytes_consumed: usize = offset;
    let mut i: usize = 0;
    while i < lengths.len()
        invariant
            0 <= i <= lengths@.len(),
            bytes_consumed == offset + spec_total(lengths@.take(i as int)),
            offset + spec_total(lengths@) <= usize::MAX,
        decreases lengths@.len() - i,
    {
        proof {
            lemma_total_grows(lengths@, i + 1);
            assert(lengths@.take(i + 1).drop_last() =~= lengths@.take(i as int));
        }
        bytes_consumed = bytes_consumed + lengths[i] as usize;
        i += 1;
    }
    assert(lengths@.take(lengths@.len() as int) =~= lengths@);
    let remaining_blocks: usize = if bytes_consumed >= len {
        0
    } else {
        (len - bytes_consumed) / 32
    };
    (bytes_consumed, remaining_blocks)
}

/// `s` without the white space at its start.
pub open spec fn spec_trim_front(s: Seq<char>) -> Seq<char>
    decreases s.len(),
{
    if s.len() > 0 && spec_is_whitespace(s[0]) {
        spec_trim_front(s.skip(1))
    } else {
        s
    }
}

/// `s` without the white space at its end.
pub open spec fn spec_trim_back(s: Seq<char>) -> Seq<char>
    decreases s.len(),
{
    if s.len() > 0 && spec_is_whitespace(s.last()) {
        spec_trim_back(s.drop_last())
    } else {
        s
    }
}

/// `s` without the white space at either end.
pub open spec fn spec_trim(s: Seq<char>) -> Seq<char> {
    spec_trim_back(spec_trim_front(s))
}

/// The first line of `s`: what stands before the first line feed, without
/// the carriage return that may end it. A text without line feed is its own
/// first line.
pub open spec fn spec_first_line(s: Seq<char>) -> Seq<char> {
    let at = spec_find(s, '\n');
    if at < 0 || at >= s.len() {
        s
    } else if at > 0 && s[at - 1] == '\r' {
        s.take(at - 1)
    } else {
        s.take(at)
    }
}

/// How often `c` occurs in `s`.
pub open spec fn spec_count(s: Seq<char>, c: char) -> nat
    decreases s.len(),
{
    if s.len() == 0 {
        0
    } else {
        spec_count(s.drop_last(), c) + if s.last() == c {
            1nat
        } else {
            0nat
        }
    }
}

/// What the decoder's JSON for one block holds, as far as can be told
/// before it is parsed.
#[derive(Debug, Clone, PartialEq, Eq)]
pub enum JsonExcerpt {
    /// Nothing was decoded: the text is empty, `{}` or `[]`.
    Nothing,
    /// The object to parse: the first line of the text.
    Object(String),
    /// The first line has not as many closing braces as opening ones.
    Unbalanced { open: usize, close: usize },
}

/// Whether `excerpt` is what `json` holds.
pub open spec fn spec_excerpt(json: Seq<char>, excerpt: JsonExcerpt) -> bool {
    let trimmed = spec_trim(json);
    let line = spec_first_line(trimmed);
    match excerpt {
        JsonExcerpt::Nothing => trimmed.len() == 0 || trimmed == seq!['{', '}'] || trimmed == seq![
            '[',
            ']',
        ],
        JsonExcerpt::Object(text) => {
            &&& trimmed.len() > 0
            &&& trimmed != seq!['{', '}']
            &&& trimmed != seq!['[', ']']
            &&& spec_count(line, '{') == spec_count(line, '}')
            &&& text@ == line
        },
        JsonExcerpt::Unbalanced { open, close } => {
            &&& trimmed.len() > 0
            &&& trimmed != seq!['{', '}']
            &&& trimmed != seq!['[', ']']
            &&& open == spec_count(line, '{')
            &&& close == spec_count(line, '}')
            &&& open != close
        },
    }
}

/// Cuts the object to parse out of the decoder's JSON for one block: the
/// first line of the text without the white space around it. A line whose
/// braces do not balance is not handed on.
pub fn json_excerpt(json: &str) -> (excerpt: JsonExcerpt)
    ensures
        spec_excerpt(json@, excerpt),
{
    let chars = chars_of(json);
    let mut start: usize = 0;
    assert(chars@.skip(0) =~= chars@);
    while start < chars.len() && is_whitespace(chars[start])
        invariant
            0 <= start <= chars@.len(),
            spec_trim_front(chars@.skip(start as int)) == spec_trim_front(chars@),
        decreases chars@.len() - start,
    {
        assert(chars@.skip(start as int).skip(1) =~= chars@.skip(start + 1));
        start += 1;
    }
    let ghost front = chars@.skip(start as int);
    assert(front == spec_trim_front(chars@));
    let mut end: usize = chars.len();
    assert(chars@.subrange(start as int, end as int) =~= front);
    while end > start && is_whitespace(chars[end - 1])
        invariant
            start <= end <= chars@.len(),
            spec_trim_back(chars@.subrange(start as int, end as int)) == spec_trim_back(front),
        decreases end - start,
    {
        assert(chars@.subrange(start as int, end as int).drop_last() =~= chars@.subrange(
            start as int,
            end - 1,
        ));
        end -= 1;
    }
    let ghost trimmed = chars@.subrange(start as int, end as int);
    assert(trimmed == spec_trim(json@));
    if end == start {
        return JsonExcerpt::Nothing;
    }
    if end - start == 2 {
        let a = chars[start];
        let b = chars[start + 1];
        assert(trimmed[0] == a && trimmed[1] == b);
        if (a == '{' && b == '}') || (a == '[' && b == ']') {
            assert(trimmed =~= seq![a, b]);
            return JsonExcerpt::Nothing;
        }
    }
    let mut at: usize = start;
    while at < end && chars[at] != '\n'
        invariant
            start <= at <= end <= chars@.len(),
            trimmed == chars@.subrange(start as int, end as int),
            forall|k: int| 0 <= k < at - start ==> trimmed[k] != '\n',
        decreases end - at,
    {
        at += 1;
    }
    proof {
        lemma_find(trimmed, '\n', at - start);
    }
    let stop: usize = if at < end && at > start && chars[at - 1] == '\r' {
        at - 1
    } else {
        at
    };
    let ghost line = chars@.subrange(start as int, stop as int);
    assert(line =~= spec_first_line(trimmed)) by {
        assert(trimmed.take(at - start) =~= chars@.subrange(start as int, at as int));
        if at > start {
            assert(trimmed.take(at - start - 1) =~= chars@.subrange(start as int, at - 1));
            assert(trimmed[at - start - 1] == chars@[at - 1]);
        }
    }
    let mut open: usize = 0;
    let mut close: usize = 0;
    let mut i: usize = start;
    while i < stop
        invariant
            start <= i <= stop <= chars@.len(),
            open == spec_count(chars@.subrange(start as int, i as int), '{'),
            close == spec_count(chars@.subrange(start as int, i as int), '}'),
            open <= i - start,
            close <= i - start,
        decreases stop - i,
    {
        assert(chars@.subrange(start as int, i + 1).drop_last() =~= chars@.subrange(
            start as int,
            i as int,
        ));
        if chars[i] == '{' {
            open += 1;
        } else if chars[i] == '}' {
            close += 1;
        }
        i += 1;
    }
    if open != close {
        return JsonExcerpt::Unbalanced { open, close };
    }
    let text = text_of(vstd::slice::slice_subrange(chars.as_slice(), start, stop));
    JsonExcerpt::Object(text)
}

/// The text that a line with unbalanced braces is refused with.
pub open spec fn spec_unbalanced_text(open: usize, close: usize) -> Seq<char> {
    "Malformed JSON from C++: unbalanced braces ("@ + spec_decimal(open as nat) + " open, "@
        + spec_decimal(close as nat) + " close)"@
}

/// The error for a line of JSON with `open` opening and `close` closing
/// braces.
pub fn unbalanced_error(open: usize, close: usize) -> (error: AsterixError)
    ensures
        error matches AsterixError::InvalidData(text) && text@ == spec_unbalanced_text(open, close),
{
    AsterixError::InvalidData(
        String::from_str("Malformed JSON from C++: unbalanced braces (").concat(
            decimal(open as u64).as_str(),
        ).concat(" open, ").concat(decimal(close as u64).as_str()).concat(" close)"),
    )
}

/// Whether `key` names a property of the block rather than an item of it.
pub open spec fn spec_is_metadata_key(key: Seq<char>) -> bool {
    ||| key == "id"@
    ||| key == "cat"@
    ||| key == "category"@
    ||| key == "length"@
    ||| key == "timestamp"@
    ||| key == "crc"@
    ||| key == "hexdata"@
}

/// Whether `a` and `b` hold the same characters.
fn same_text(a: &[char], b: &str) -> (same: bool)
    ensures
        same == (a@ == b@),
{
    let other = chars_of(b);
    let same = a.len() == other.len() && starts_with(a, other.as_slice());
    assert(same <==> a@ == b@) by {
        if same {
            assert(a@ =~= b@);
        }
    }
    same
}

/// Whether `key` names a property of the block rather than an item of it.
/// Such keys are passed over when the items are gathered.
pub fn is_metadata_key(key: &str) -> (metadata: bool)
    ensures
        metadata == spec_is_metadata_key(key@),
{
    let chars = chars_of(key);
    let k = chars.as_slice();
    same_text(k, "id") || same_text(k, "cat") || same_text(k, "category") || same_text(k, "length")
        || same_text(k, "timestamp") || same_text(k, "crc") || same_text(k, "hexdata")
}

/// Whether the value under `key` holds the items of a category: the key
/// begins with `CAT` and the value is an object.
pub fn holds_category_items(key: &str, is_object: bool) -> (holds: bool)
    ensures
        holds == (is_object && seq!['C', 'A', 'T'].is_prefix_of(key@)),
{
    let chars = chars_of(key);
    let tag: [char; 3] = ['C', 'A', 'T'];
    assert(tag@ =~= seq!['C', 'A', 'T']);
    is_object && starts_with(chars.as_slice(), tag.as_slice())
}

} // verus!
