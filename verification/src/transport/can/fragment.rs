//! Fragmenter: cuts a message into frame payloads of the form
//! `[header][chunk]`.
//!
//! Chunks are taken left to right, each `max_chunk` bytes long but for the
//! last, which holds what is left. Fragment `i` carries index `i mod 128`, and
//! only the fragment that reaches the end of the message carries the
//! last-fragment flag. An empty message gives no fragment at all.

use vstd::prelude::*;
use vstd::arithmetic::div_mod::*;
use vstd::slice::slice_subrange;
use super::header::{build_fragment_header, spec_header};

verus! {

/// Number of fragments a message of `len` bytes is cut into.
pub open spec fn spec_fragment_count(len: int, max_chunk: int) -> int
    recommends
        len >= 0,
        max_chunk > 0,
{
    (len + max_chunk - 1) / max_chunk
}

/// Offset of the first byte after chunk `i`.
pub open spec fn spec_chunk_end(len: int, max_chunk: int, i: int) -> int {
    if (i + 1) * max_chunk <= len {
        (i + 1) * max_chunk
    } else {
        len
    }
}

/// The bytes of `data` that fragment `i` carries behind its header.
pub open spec fn spec_chunk(data: Seq<u8>, max_chunk: int, i: int) -> Seq<u8>
    recommends
        max_chunk > 0,
        0 <= i < spec_fragment_count(data.len() as int, max_chunk),
{
    data.subrange(i * max_chunk, spec_chunk_end(data.len() as int, max_chunk, i))
}

/// The header byte of fragment `i` out of `count`.
pub open spec fn spec_fragment_header(count: int, i: int) -> u8 {
    spec_header((i % 256) as u8, i == count - 1) as u8
}

/// Fragment `i` of `data`: its header byte, then its chunk.
pub open spec fn spec_fragment(data: Seq<u8>, max_chunk: int, i: int) -> Seq<u8> {
    seq![spec_fragment_header(spec_fragment_count(data.len() as int, max_chunk), i)]
        + spec_chunk(data, max_chunk, i)
}

/// All fragments of `data`, in ascending order.
pub open spec fn spec_fragments(data: Seq<u8>, max_chunk: int) -> Seq<Seq<u8>> {
    Seq::new(
        spec_fragment_count(data.len() as int, max_chunk) as nat,
        |i: int| spec_fragment(data, max_chunk, i),
    )
}

/// The frame payloads held in `frames`, each as a byte sequence.
pub open spec fn frames_view(frames: Vec<Vec<u8>>) -> Seq<Seq<u8>> {
    Seq::new(frames@.len(), |i: int| frames@[i]@)
}

/// Where the chunks lie: how many there are, and that each is non-empty,
/// at most `max_chunk` long and inside the message.
pub proof fn lemma_chunk_bounds(len: int, max_chunk: int, i: int)
    requires
        len >= 0,
        max_chunk > 0,
        0 <= i < spec_fragment_count(len, max_chunk),
    ensures
        0 <= i * max_chunk < spec_chunk_end(len, max_chunk, i) <= len,
        spec_chunk_end(len, max_chunk, i) - i * max_chunk <= max_chunk,
        i < spec_fragment_count(len, max_chunk) - 1 ==> spec_chunk_end(len, max_chunk, i) == (i
            + 1) * max_chunk < len,
        i == spec_fragment_count(len, max_chunk) - 1 ==> spec_chunk_end(len, max_chunk, i) == len,
{
    let count = spec_fragment_count(len, max_chunk);
    lemma_fragment_count(len, max_chunk);
    assert(i * max_chunk <= (count - 1) * max_chunk) by (nonlinear_arith)
        requires
            i <= count - 1,
            max_chunk > 0,
    ;
    assert((i + 1) * max_chunk == i * max_chunk + max_chunk) by (nonlinear_arith);
    assert(0 <= i * max_chunk) by (nonlinear_arith)
        requires
            0 <= i,
            max_chunk > 0,
    ;
    if i < count - 1 {
        assert((i + 1) * max_chunk <= (count - 1) * max_chunk) by (nonlinear_arith)
            requires
                i + 1 <= count - 1,
                max_chunk > 0,
        ;
    } else {
        assert((i + 1) * max_chunk == count * max_chunk);
    }
}

/// The fragment count is the least number of chunks that cover the message.
pub proof fn lemma_fragment_count(len: int, max_chunk: int)
    requires
        len >= 0,
        max_chunk > 0,
    ensures
        spec_fragment_count(len, max_chunk) >= 0,
        (spec_fragment_count(len, max_chunk) - 1) * max_chunk < len || len == 0,
        len <= spec_fragment_count(len, max_chunk) * max_chunk,
        len == 0 <==> spec_fragment_count(len, max_chunk) == 0,
{
    let n = len + max_chunk - 1;
    let count = n / max_chunk;
    lemma_fundamental_div_mod(n, max_chunk);
    lemma_mod_bound(n, max_chunk);
    assert(max_chunk * count == count * max_chunk) by (nonlinear_arith);
    assert((count - 1) * max_chunk == count * max_chunk - max_chunk) by (nonlinear_arith);
    if len == 0 {
        lemma_basic_div(n, max_chunk);
    }
    if count <= 0 && len > 0 {
        assert(count * max_chunk <= 0) by (nonlinear_arith)
            requires
                count <= 0,
                max_chunk > 0,
        ;
    }
    if count < 0 {
        assert(count * max_chunk <= -max_chunk) by (nonlinear_arith)
            requires
                count <= -1,
                max_chunk > 0,
        ;
    }
}

/// Cuts `data` into frame payloads of at most `payload_size` message bytes
/// each, every one led by its fragment header.
///
/// The category takes no part in the cut; it travels in the bus identifier.
pub fn fragment_data(_category: u8, data: &[u8], payload_size: usize) -> (fragments: Vec<Vec<u8>>)
    requires
        payload_size > 0,
    ensures
        frames_view(fragments) == spec_fragments(data@, payload_size as int),
{
    let mut fragments: Vec<Vec<u8>> = Vec::new();
    let total_size: usize = data.len();
    let mut offset: usize = 0;
    let mut fragment_index: u8 = 0;
    let ghost count = spec_fragment_count(total_size as int, payload_size as int);
    proof {
        lemma_fragment_count(total_size as int, payload_size as int);
    }

    while offset < total_size
        invariant
            payload_size > 0,
            total_size == data@.len(),
            count == spec_fragment_count(total_size as int, payload_size as int),
            0 <= fragments@.len() <= count,
            offset as int == if fragments@.len() == count {
                total_size as int
            } else {
                fragments@.len() * payload_size
            },
            fragment_index as int == fragments@.len() % 256,
            forall|k: int|
                0 <= k < fragments@.len() ==> #[trigger] fragments@[k]@ == spec_fragment(
                    data@,
                    payload_size as int,
                    k,
                ),
        decreases total_size - offset,
    {
        let ghost i = fragments@.len() as int;
        proof {
            lemma_fragment_count(total_size as int, payload_size as int);
            lemma_chunk_bounds(total_size as int, payload_size as int, i);
        }
        let remaining: usize = total_size - offset;
        let chunk_size: usize = if remaining < payload_size {
            remaining
        } else {
            payload_size
        };
        let is_last: bool = offset + chunk_size >= total_size;
        assert(offset + chunk_size == spec_chunk_end(total_size as int, payload_size as int, i)) by {
            assert((i + 1) * payload_size == i * payload_size + payload_size) by (nonlinear_arith);
        }
        assert(is_last <==> i == count - 1);

        let mut fragment: Vec<u8> = Vec::new();
        fragment.push(build_fragment_header(fragment_index, is_last));
        fragment.extend_from_slice(slice_subrange(data, offset, offset + chunk_size));
        assert(fragment@ =~= spec_fragment(data@, payload_size as int, i));

        fragments.push(fragment);
        offset += chunk_size;
        fragment_index = fragment_index.wrapping_add(1);
        proof {
            if i + 1 < count {
                lemma_chunk_bounds(total_size as int, payload_size as int, i + 1);
            }
        }
    }
    proof {
        if fragments@.len() < count {
            lemma_chunk_bounds(total_size as int, payload_size as int, fragments@.len() as int);
        }
        assert(frames_view(fragments) =~= spec_fragments(data@, payload_size as int));
    }
    fragments
}

} // verus!
