//! What the fragmenter and the reassembler guarantee together.
//!
//! A message that fits in 128 fragments comes out of a fresh reassembly
//! state exactly as it went into the fragmenter, whatever the order in which
//! its earlier fragments arrive, and nothing comes out while one of them is
//! missing.

use vstd::prelude::*;
use super::fragment::{
    lemma_chunk_bounds, lemma_fragment_count, spec_chunk, spec_chunk_end, spec_fragment,
    spec_fragment_count, spec_fragments,
};
use super::header::{spec_header_index, spec_header_is_last, FRAGMENT_INDEX_COUNT};
use super::bus::{lemma_bus_data_exact, lemma_fd_padding, spec_bus_data, spec_frame_capacity};
use super::config::{spec_profile_payload, CanFrameType};
use super::ident::{lemma_can_id_roundtrip, spec_category_key, spec_id_category, MAX_STANDARD_ID};
use super::publisher::{lemma_frame_bounds, spec_message_frames};
use super::reassembly::{spec_accept, spec_accept_result, spec_complete, spec_concat, spec_expired};
use super::subscriber::{
    spec_admits, spec_chunks_of, spec_process_pending, spec_process_result, spec_reaches,
    spec_retain, Pending,
};

verus! {

/// The chunks held after the payloads in `payloads` have been taken in, one
/// after the other, starting from `chunks`.
pub open spec fn spec_feed(chunks: Map<u8, Seq<u8>>, payloads: Seq<Seq<u8>>) -> Map<u8, Seq<u8>>
    decreases payloads.len(),
{
    if payloads.len() == 0 {
        chunks
    } else {
        spec_accept(spec_feed(chunks, payloads.drop_last()), payloads.last())
    }
}

/// What a fresh state hands out on payload number `k` of `payloads`, the
/// ones before it having been taken in.
pub open spec fn spec_feed_result(payloads: Seq<Seq<u8>>, k: int) -> Option<Seq<u8>> {
    spec_accept_result(spec_feed(Map::empty(), payloads.take(k)), payloads[k])
}

/// The fragments picked by `order`, in that order.
pub open spec fn spec_select(fragments: Seq<Seq<u8>>, order: Seq<int>) -> Seq<Seq<u8>> {
    Seq::new(order.len(), |k: int| fragments[order[k]])
}

/// Whether `data` can be cut into at least one and at most 128 fragments of
/// `max_chunk` bytes, so that no two fragments share an index.
pub open spec fn spec_fits(data: Seq<u8>, max_chunk: int) -> bool {
    &&& max_chunk > 0
    &&& 0 < data.len() <= FRAGMENT_INDEX_COUNT * max_chunk
}

/// An empty message is cut into no fragment at all: nothing is sent for it.
pub proof fn lemma_empty_message(max_chunk: int)
    requires
        max_chunk > 0,
    ensures
        spec_fragments(Seq::<u8>::empty(), max_chunk) == Seq::<Seq<u8>>::empty(),
{
    lemma_fragment_count(0, max_chunk);
    assert(spec_fragments(Seq::<u8>::empty(), max_chunk) =~= Seq::<Seq<u8>>::empty());
}

/// A fragment that is delivered twice leaves the state as one delivery
/// does.
pub proof fn lemma_redelivery(chunks: Map<u8, Seq<u8>>, payload: Seq<u8>)
    ensures
        spec_accept(spec_accept(chunks, payload), payload) == spec_accept(chunks, payload),
        spec_accept_result(spec_accept(chunks, payload), payload) == spec_accept_result(
            chunks,
            payload,
        ),
{
    assert(spec_accept(spec_accept(chunks, payload), payload) =~= spec_accept(chunks, payload));
}

/// A message that fits has between 1 and 128 fragments.
pub proof fn lemma_fits_count(data: Seq<u8>, max_chunk: int)
    requires
        spec_fits(data, max_chunk),
    ensures
        1 <= spec_fragment_count(data.len() as int, max_chunk) <= 128,
        spec_fragments(data, max_chunk).len() == spec_fragment_count(data.len() as int, max_chunk),
{
    let len = data.len() as int;
    let count = spec_fragment_count(len, max_chunk);
    lemma_fragment_count(len, max_chunk);
    if count > 128 {
        assert((count - 1) * max_chunk >= 128 * max_chunk) by (nonlinear_arith)
            requires
                count - 1 >= 128,
                max_chunk > 0,
        ;
    }
}

/// Fragment `i` of a message that fits carries index `i`, is flagged last
/// exactly if it is the final one, and holds chunk `i` behind its header.
pub proof fn lemma_fragment_shape(data: Seq<u8>, max_chunk: int, i: int)
    requires
        spec_fits(data, max_chunk),
        0 <= i < spec_fragment_count(data.len() as int, max_chunk),
    ensures
        spec_fragments(data, max_chunk)[i] == spec_fragment(data, max_chunk, i),
        spec_fragment(data, max_chunk, i).len() >= 2,
        spec_header_index(spec_fragment(data, max_chunk, i)[0]) == i,
        spec_header_is_last(spec_fragment(data, max_chunk, i)[0]) <==> i == spec_fragment_count(
            data.len() as int,
            max_chunk,
        ) - 1,
        spec_fragment(data, max_chunk, i).subrange(
            1,
            spec_fragment(data, max_chunk, i).len() as int,
        ) == spec_chunk(data, max_chunk, i),
{
    lemma_fits_count(data, max_chunk);
    lemma_chunk_bounds(data.len() as int, max_chunk, i);
    let f = spec_fragment(data, max_chunk, i);
    assert(f.subrange(1, f.len() as int) =~= spec_chunk(data, max_chunk, i));
}

/// The chunks for indices `0..k`, taken from a state that holds the right
/// chunk at each of them, are the first bytes of the message.
proof fn lemma_concat_prefix(chunks: Map<u8, Seq<u8>>, data: Seq<u8>, max_chunk: int, k: int)
    requires
        spec_fits(data, max_chunk),
        0 <= k <= spec_fragment_count(data.len() as int, max_chunk),
        forall|i: u8|
            #![trigger chunks.contains_key(i)]
            (i as int) < k ==> chunks.contains_key(i) && chunks[i] == spec_chunk(
                data,
                max_chunk,
                i as int,
            ),
    ensures
        spec_concat(chunks, k) == data.subrange(
            0,
            if k == 0 {
                0
            } else {
                spec_chunk_end(data.len() as int, max_chunk, k - 1)
            },
        ),
    decreases k,
{
    lemma_fits_count(data, max_chunk);
    if k == 0 {
        assert(spec_concat(chunks, 0) =~= data.subrange(0, 0));
    } else {
        lemma_concat_prefix(chunks, data, max_chunk, k - 1);
        lemma_chunk_bounds(data.len() as int, max_chunk, k - 1);
        if k - 1 > 0 {
            lemma_chunk_bounds(data.len() as int, max_chunk, k - 2);
        }
        let key = (k - 1) as u8;
        assert(chunks.contains_key(key));
        assert(spec_concat(chunks, k) =~= data.subrange(
            0,
            spec_chunk_end(data.len() as int, max_chunk, k - 1),
        ));
    }
}

/// After fragments of one message have been taken in by a fresh state, in
/// any order and any number of times, the state holds exactly the indices
/// that came, each with its own chunk.
proof fn lemma_feed_holds(data: Seq<u8>, max_chunk: int, order: Seq<int>)
    requires
        spec_fits(data, max_chunk),
        forall|k: int|
            0 <= k < order.len() ==> 0 <= #[trigger] order[k] < spec_fragment_count(
                data.len() as int,
                max_chunk,
            ),
    ensures
        forall|key: u8| #[trigger]
            spec_feed(
                Map::empty(),
                spec_select(spec_fragments(data, max_chunk), order),
            ).contains_key(key) <==> order.contains(key as int),
        forall|key: u8| #[trigger]
            spec_feed(
                Map::empty(),
                spec_select(spec_fragments(data, max_chunk), order),
            ).contains_key(key) ==> spec_feed(
                Map::empty(),
                spec_select(spec_fragments(data, max_chunk), order),
            )[key] == spec_chunk(data, max_chunk, key as int),
    decreases order.len(),
{
    let fragments = spec_fragments(data, max_chunk);
    let picked = spec_select(fragments, order);
    lemma_fits_count(data, max_chunk);
    if order.len() == 0 {
        assert forall|key: u8| !order.contains(key as int) by {}
    } else {
        let shorter = order.drop_last();
        let last = order.last();
        assert(picked.drop_last() =~= spec_select(fragments, shorter));
        assert(picked.last() == fragments[last]);
        lemma_feed_holds(data, max_chunk, shorter);
        lemma_fragment_shape(data, max_chunk, last);
        let before = spec_feed(Map::empty(), spec_select(fragments, shorter));
        let after = spec_feed(Map::empty(), picked);
        assert(after == before.insert(last as u8, spec_chunk(data, max_chunk, last)));
        assert forall|key: u8| #[trigger] after.contains_key(key) <==> order.contains(key as int) by {
            if order.contains(key as int) {
                let k = choose|k: int| 0 <= k < order.len() && order[k] == key as int;
                if k < order.len() - 1 {
                    assert(shorter[k] == key as int);
                    assert(shorter.contains(key as int));
                }
            }
            if after.contains_key(key) {
                if key as int == last {
                    assert(order[order.len() - 1] == key as int);
                } else {
                    assert(shorter.contains(key as int));
                    let k = choose|k: int| 0 <= k < shorter.len() && shorter[k] == key as int;
                    assert(order[k] == key as int);
                }
            }
        }
    }
}

/// Fragments may arrive in any order: once each fragment before the last has
/// been taken in at least once by a fresh state, none of them having handed
/// anything out, the last fragment hands out the message as it was.
pub proof fn lemma_out_of_order_delivery(data: Seq<u8>, max_chunk: int, order: Seq<int>)
    requires
        spec_fits(data, max_chunk),
        forall|k: int|
            0 <= k < order.len() ==> 0 <= #[trigger] order[k] < spec_fragment_count(
                data.len() as int,
                max_chunk,
            ) - 1,
        forall|i: int|
            0 <= i < spec_fragment_count(data.len() as int, max_chunk) - 1 ==> order.contains(i),
    ensures
        forall|k: int|
            0 <= k < order.len() ==> (#[trigger] spec_feed_result(
                spec_select(spec_fragments(data, max_chunk), order),
                k,
            )).is_none(),
        spec_accept_result(
            spec_feed(Map::empty(), spec_select(spec_fragments(data, max_chunk), order)),
            spec_fragments(data, max_chunk).last(),
        ) == Some(data),
{
    let fragments = spec_fragments(data, max_chunk);
    let picked = spec_select(fragments, order);
    let count = spec_fragment_count(data.len() as int, max_chunk);
    lemma_fits_count(data, max_chunk);
    assert forall|k: int| 0 <= k < order.len() implies (#[trigger] spec_feed_result(
        picked,
        k,
    )).is_none() by {
        lemma_fragment_shape(data, max_chunk, order[k]);
    }
    lemma_feed_holds(data, max_chunk, order);
    lemma_fragment_shape(data, max_chunk, count - 1);
    let before = spec_feed(Map::empty(), picked);
    let last_index = (count - 1) as u8;
    let after = spec_accept(before, fragments.last());
    assert(after == before.insert(last_index, spec_chunk(data, max_chunk, count - 1)));
    assert forall|i: u8| (i as int) < count implies #[trigger] after.contains_key(i) && after[i]
        == spec_chunk(data, max_chunk, i as int) by {
        if (i as int) < count - 1 {
            assert(order.contains(i as int));
            assert(before.contains_key(i));
            assert(before[i] == spec_chunk(data, max_chunk, i as int));
            assert(i != last_index);
            assert(after[i] == before[i]);
        } else {
            assert(i == last_index);
            assert(after[i] == spec_chunk(data, max_chunk, count - 1));
        }
    }
    assert(spec_complete(after, last_index));
    lemma_concat_prefix(after, data, max_chunk, count);
    lemma_chunk_bounds(data.len() as int, max_chunk, count - 1);
    assert(data.subrange(0, data.len() as int) =~= data);
}

/// Fragmenting a message and taking its fragments in, in order, gives the
/// message back on the last fragment and nothing before it.
pub proof fn lemma_round_trip(data: Seq<u8>, max_chunk: int)
    requires
        spec_fits(data, max_chunk),
    ensures
        forall|k: int|
            0 <= k < spec_fragments(data, max_chunk).len() - 1 ==> (#[trigger] spec_feed_result(
                spec_fragments(data, max_chunk),
                k,
            )).is_none(),
        spec_feed_result(
            spec_fragments(data, max_chunk),
            spec_fragments(data, max_chunk).len() - 1,
        ) == Some(data),
{
    let fragments = spec_fragments(data, max_chunk);
    let count = spec_fragment_count(data.len() as int, max_chunk);
    lemma_fits_count(data, max_chunk);
    let order = Seq::new((count - 1) as nat, |k: int| k);
    assert forall|i: int| 0 <= i < count - 1 implies order.contains(i) by {
        assert(order[i] == i);
    }
    lemma_out_of_order_delivery(data, max_chunk, order);
    let picked = spec_select(fragments, order);
    assert(picked =~= fragments.take(count - 1));
    assert forall|k: int| 0 <= k < count - 1 implies (#[trigger] spec_feed_result(
        fragments,
        k,
    )).is_none() by {
        assert(picked.take(k) =~= fragments.take(k));
        assert(spec_feed_result(picked, k).is_none());
    }
}

/// While one fragment before the last is withheld, nothing is handed out:
/// not by the other fragments, in whatever order and however often they
/// come, and not by the last fragment either.
pub proof fn lemma_missing_fragment(data: Seq<u8>, max_chunk: int, order: Seq<int>, missing: int)
    requires
        spec_fits(data, max_chunk),
        0 <= missing < spec_fragment_count(data.len() as int, max_chunk) - 1,
        forall|k: int|
            0 <= k < order.len() ==> 0 <= #[trigger] order[k] < spec_fragment_count(
                data.len() as int,
                max_chunk,
            ) && order[k] != missing,
    ensures
        forall|k: int|
            0 <= k < order.len() ==> (#[trigger] spec_feed_result(
                spec_select(spec_fragments(data, max_chunk), order),
                k,
            )).is_none(),
{
    let fragments = spec_fragments(data, max_chunk);
    let picked = spec_select(fragments, order);
    let count = spec_fragment_count(data.len() as int, max_chunk);
    lemma_fits_count(data, max_chunk);
    assert forall|k: int| 0 <= k < order.len() implies (#[trigger] spec_feed_result(
        picked,
        k,
    )).is_none() by {
        lemma_fragment_shape(data, max_chunk, order[k]);
        if order[k] == count - 1 {
            let upto = order.take(k + 1);
            assert(picked.take(k + 1) =~= spec_select(fragments, upto));
            assert(picked.take(k + 1).drop_last() =~= picked.take(k));
            assert(picked.take(k + 1).last() == picked[k]);
            lemma_feed_holds(data, max_chunk, upto);
            let after = spec_feed(Map::empty(), picked.take(k + 1));
            assert(after == spec_accept(spec_feed(Map::empty(), picked.take(k)), picked[k]));
            let gap = missing as u8;
            if after.contains_key(gap) {
                assert(upto.contains(missing));
                let at = choose|at: int| 0 <= at < upto.len() && upto[at] == missing;
                assert(order[at] == missing);
            }
            assert(!spec_complete(after, (count - 1) as u8));
        }
    }
}

/// A frame whose category is not on a non-empty allow-list reaches neither
/// the reassembler nor the caller: nothing is handed out and no state
/// changes.
pub proof fn lemma_category_filtering(
    pending: Pending,
    subscribed: Seq<u8>,
    can_id: u32,
    payload: Seq<u8>,
    now: u128,
)
    requires
        subscribed.len() > 0,
        !subscribed.contains(spec_id_category(can_id) as u8),
    ensures
        spec_process_result(pending, subscribed, can_id, payload).is_none(),
        spec_process_pending(pending, subscribed, can_id, payload, now) == pending,
{
}

/// An incomplete message that has been idle for longer than the timeout is
/// gone after the next clean-up, and the next frame of its category starts
/// from nothing: what it hands out and what is held afterwards are those of
/// a fresh state. A last fragment with an index above 0 therefore completes
/// nothing.
pub proof fn lemma_timeout_eviction(
    pending: Pending,
    subscribed: Seq<u8>,
    timeout: u128,
    now: u128,
    can_id: u32,
    payload: Seq<u8>,
    later: u128,
)
    requires
        pending.contains_key(spec_id_category(can_id) as u8),
        spec_expired(pending[spec_id_category(can_id) as u8].1, timeout, now),
        spec_reaches(subscribed, can_id, payload),
    ensures
        !spec_retain(pending, timeout, now).contains_key(spec_id_category(can_id) as u8),
        spec_process_result(spec_retain(pending, timeout, now), subscribed, can_id, payload)
            == spec_accept_result(Map::empty(), payload),
        spec_accept_result(Map::empty(), payload).is_none() ==> spec_process_pending(
            spec_retain(pending, timeout, now),
            subscribed,
            can_id,
            payload,
            later,
        )[spec_id_category(can_id) as u8] == (spec_accept(Map::empty(), payload), later),
        spec_header_is_last(payload[0]) && spec_header_index(payload[0]) > 0
            ==> spec_accept_result(Map::empty(), payload).is_none(),
{
    if spec_header_is_last(payload[0]) && spec_header_index(payload[0]) > 0 {
        let index = spec_header_index(payload[0]) as u8;
        let held = spec_accept(Map::empty(), payload);
        assert(!held.contains_key(0u8));
        assert(!spec_complete(held, index));
    }
}

/// How many bytes of a message one frame of the given profile carries.
pub open spec fn spec_profile_chunk(frame_type: CanFrameType) -> int {
    spec_profile_payload(frame_type) as int
}

/// The incomplete messages of a subscriber after it has processed `frames`
/// one after the other, frame `k` at time `times(k)`.
pub open spec fn spec_deliver(
    pending: Pending,
    subscribed: Seq<u8>,
    frames: Seq<(u32, Seq<u8>)>,
    times: spec_fn(int) -> u128,
) -> Pending
    decreases frames.len(),
{
    if frames.len() == 0 {
        pending
    } else {
        spec_process_pending(
            spec_deliver(pending, subscribed, frames.drop_last(), times),
            subscribed,
            frames.last().0,
            frames.last().1,
            times(frames.len() - 1),
        )
    }
}

/// What a subscriber hands out on frame `k` of `frames`, the ones before it
/// having been processed.
pub open spec fn spec_deliver_result(
    pending: Pending,
    subscribed: Seq<u8>,
    frames: Seq<(u32, Seq<u8>)>,
    times: spec_fn(int) -> u128,
    k: int,
) -> Option<Seq<u8>> {
    spec_process_result(
        spec_deliver(pending, subscribed, frames.take(k), times),
        subscribed,
        frames[k].0,
        frames[k].1,
    )
}

/// Every frame of a message can be put on a bus of the profile that the
/// message was cut for: its identifier fits in 11 bits and its payload in
/// one frame, eight bytes under the classic profile and 64 under FD.
pub proof fn lemma_frames_sendable(
    frame_type: CanFrameType,
    category: u8,
    data: Seq<u8>,
    i: int,
)
    requires
        0 <= i < spec_message_frames(category, data, spec_profile_chunk(frame_type)).len(),
    ensures
        spec_message_frames(category, data, spec_profile_chunk(frame_type))[i].0
            <= MAX_STANDARD_ID,
        spec_message_frames(category, data, spec_profile_chunk(frame_type))[i].1.len()
            <= spec_frame_capacity(frame_type),
{
    lemma_frame_bounds(category, data, spec_profile_chunk(frame_type), i);
}

/// On an FD bus every fragment but the last crosses as it is: it fills its
/// frame. A classic bus changes no fragment at all.
pub proof fn lemma_full_fragments_cross_exactly(
    frame_type: CanFrameType,
    category: u8,
    data: Seq<u8>,
    i: int,
)
    requires
        0 <= i < spec_message_frames(category, data, spec_profile_chunk(frame_type)).len(),
        frame_type == CanFrameType::Classic || i < spec_message_frames(
            category,
            data,
            spec_profile_chunk(frame_type),
        ).len() - 1,
    ensures
        spec_bus_data(
            spec_message_frames(category, data, spec_profile_chunk(frame_type))[i].1,
            frame_type,
        ) == spec_message_frames(category, data, spec_profile_chunk(frame_type))[i].1,
{
    let max_chunk = spec_profile_chunk(frame_type);
    lemma_fragment_count(data.len() as int, max_chunk);
    lemma_chunk_bounds(data.len() as int, max_chunk, i);
    let payload = spec_message_frames(category, data, max_chunk)[i].1;
    if frame_type == CanFrameType::Fd {
        assert(payload.len() == 64);
    }
    lemma_bus_data_exact(payload, frame_type);
}

/// The fragments of a message as they come off a bus of the given profile.
pub open spec fn spec_crossed(fragments: Seq<Seq<u8>>, frame_type: CanFrameType) -> Seq<Seq<u8>> {
    Seq::new(fragments.len(), |i: int| spec_bus_data(fragments[i], frame_type))
}

/// What a bus of the given profile puts behind a payload: nothing on a
/// classic bus, the zero bytes of FD padding on an FD bus.
pub open spec fn spec_padding(payload: Seq<u8>, frame_type: CanFrameType) -> Seq<u8> {
    spec_bus_data(payload, frame_type).skip(payload.len() as int)
}

/// What comes out of a fresh reassembly state when the fragments of a
/// message have crossed a bus and are taken in, in order: nothing until the
/// last fragment, then the message with what the bus put behind its last
/// fragment. On a classic bus that is the message as it was. On an FD bus it
/// is the message, and zero bytes behind it where the last fragment has a
/// length that an FD frame cannot have.
pub proof fn lemma_round_trip_over_bus(frame_type: CanFrameType, data: Seq<u8>)
    requires
        spec_fits(data, spec_profile_chunk(frame_type)),
    ensures
        forall|k: int|
            0 <= k < spec_fragments(data, spec_profile_chunk(frame_type)).len() - 1
                ==> (#[trigger] spec_feed_result(
                spec_crossed(spec_fragments(data, spec_profile_chunk(frame_type)), frame_type),
                k,
            )).is_none(),
        spec_feed_result(
            spec_crossed(spec_fragments(data, spec_profile_chunk(frame_type)), frame_type),
            spec_fragments(data, spec_profile_chunk(frame_type)).len() - 1,
        ) == Some(
            data + spec_padding(
                spec_fragments(data, spec_profile_chunk(frame_type)).last(),
                frame_type,
            ),
        ),
{
    let max_chunk = spec_profile_chunk(frame_type);
    let fragments = spec_fragments(data, max_chunk);
    let crossed = spec_crossed(fragments, frame_type);
    let count = spec_fragment_count(data.len() as int, max_chunk);
    lemma_fits_count(data, max_chunk);
    lemma_round_trip(data, max_chunk);
    assert forall|i: int| 0 <= i < count - 1 implies crossed[i] == fragments[i] by {
        lemma_full_fragments_cross_exactly(frame_type, 0u8, data, i);
        assert(spec_message_frames(0u8, data, max_chunk)[i].1 == fragments[i]);
    }
    assert forall|k: int| 0 <= k < count - 1 implies (#[trigger] spec_feed_result(
        crossed,
        k,
    )).is_none() by {
        assert(crossed.take(k) =~= fragments.take(k));
        assert(spec_feed_result(fragments, k).is_none());
    }
    let order = Seq::new((count - 1) as nat, |k: int| k);
    assert(spec_select(fragments, order) =~= fragments.take(count - 1));
    assert(crossed.take(count - 1) =~= fragments.take(count - 1));
    lemma_feed_holds(data, max_chunk, order);
    lemma_fragment_shape(data, max_chunk, count - 1);
    lemma_chunk_bounds(data.len() as int, max_chunk, count - 1);
    let before = spec_feed(Map::empty(), spec_select(fragments, order));
    let last = fragments[count - 1];
    let arrived = crossed[count - 1];
    let padding = spec_padding(last, frame_type);
    assert(arrived =~= last + padding) by {
        if frame_type == CanFrameType::Fd {
            lemma_fd_padding(last);
        }
    }
    assert(arrived[0] == last[0]);
    let last_index = (count - 1) as u8;
    let chunk = arrived.subrange(1, arrived.len() as int);
    assert(chunk =~= spec_chunk(data, max_chunk, count - 1) + padding);
    let after = spec_accept(before, arrived);
    assert(after == before.insert(last_index, chunk));
    assert forall|i: u8| (i as int) < count - 1 implies #[trigger] after.contains_key(i)
        && after[i] == spec_chunk(data, max_chunk, i as int) by {
        assert(order[i as int] == i as int);
        assert(order.contains(i as int));
        assert(before.contains_key(i));
        assert(before[i] == spec_chunk(data, max_chunk, i as int));
        assert(i != last_index);
        assert(after[i] == before[i]);
    }
    assert(spec_complete(after, last_index)) by {
        assert forall|i: u8| i <= last_index implies #[trigger] after.contains_key(i) by {
            if (i as int) < count - 1 {
                assert(after.contains_key(i));
            }
        }
    }
    lemma_concat_prefix(after, data, max_chunk, count - 1);
    if count - 1 > 0 {
        lemma_chunk_bounds(data.len() as int, max_chunk, count - 2);
    }
    assert(spec_concat(after, count as int) == spec_concat(after, count - 1) + after[last_index]);
    assert(spec_concat(after, count as int) =~= data + padding);
}

/// What a subscriber holds for the category of a message while the frames
/// of the message come in, in order: the chunks of a fresh reassembly state
/// that has taken in the same fragments. Other categories stay as they were.
proof fn lemma_deliver_holds(
    pending: Pending,
    subscribed: Seq<u8>,
    category: u8,
    data: Seq<u8>,
    max_chunk: int,
    times: spec_fn(int) -> u128,
    k: int,
)
    requires
        spec_fits(data, max_chunk),
        spec_admits(subscribed, spec_category_key(category) as u8),
        !pending.contains_key(spec_category_key(category) as u8),
        0 <= k < spec_fragments(data, max_chunk).len(),
    ensures
        spec_chunks_of(
            spec_deliver(
                pending,
                subscribed,
                spec_message_frames(category, data, max_chunk).take(k),
                times,
            ),
            spec_category_key(category) as u8,
        ) == spec_feed(Map::empty(), spec_fragments(data, max_chunk).take(k)),
        spec_deliver(
            pending,
            subscribed,
            spec_message_frames(category, data, max_chunk).take(k),
            times,
        ).remove(spec_category_key(category) as u8) == pending,
        spec_deliver_result(
            pending,
            subscribed,
            spec_message_frames(category, data, max_chunk),
            times,
            k,
        ) == spec_feed_result(spec_fragments(data, max_chunk), k),
    decreases k,
{
    let key = spec_category_key(category) as u8;
    let frames = spec_message_frames(category, data, max_chunk);
    let fragments = spec_fragments(data, max_chunk);
    lemma_fits_count(data, max_chunk);
    lemma_round_trip(data, max_chunk);
    lemma_fragment_shape(data, max_chunk, k);
    lemma_can_id_roundtrip(category, (k % 256) as u8);
    assert(spec_reaches(subscribed, frames[k].0, frames[k].1));
    if k == 0 {
        assert(pending.remove(key) =~= pending);
    } else {
        let j = k - 1;
        lemma_deliver_holds(pending, subscribed, category, data, max_chunk, times, j);
        lemma_fragment_shape(data, max_chunk, j);
        lemma_can_id_roundtrip(category, (j % 256) as u8);
        let before = spec_deliver(pending, subscribed, frames.take(j), times);
        let after = spec_deliver(pending, subscribed, frames.take(k), times);
        assert(frames.take(k).drop_last() =~= frames.take(j));
        assert(frames.take(k).last() == frames[j]);
        assert(fragments.take(k).drop_last() =~= fragments.take(j));
        assert(fragments.take(k).last() == fragments[j]);
        assert(spec_reaches(subscribed, frames[j].0, frames[j].1));
        assert(spec_feed_result(fragments, j).is_none());
        let held = spec_accept(spec_chunks_of(before, key), fragments[j]);
        assert(after == before.insert(key, (held, times(j))));
        assert(after.remove(key) =~= before.remove(key));
    }
}

/// A message that the publisher has cut into frames comes out of the
/// subscriber as it went in: if the category passes the allow-list and no
/// message of that category is pending, the frames, processed in order,
/// hand out nothing until the last one, which hands out the message, and
/// the subscriber then holds what it held before.
pub proof fn lemma_publish_receive(
    pending: Pending,
    subscribed: Seq<u8>,
    category: u8,
    data: Seq<u8>,
    max_chunk: int,
    times: spec_fn(int) -> u128,
)
    requires
        spec_fits(data, max_chunk),
        spec_admits(subscribed, spec_category_key(category) as u8),
        !pending.contains_key(spec_category_key(category) as u8),
    ensures
        forall|k: int|
            0 <= k < spec_message_frames(category, data, max_chunk).len() - 1
                ==> (#[trigger] spec_deliver_result(
                pending,
                subscribed,
                spec_message_frames(category, data, max_chunk),
                times,
                k,
            )).is_none(),
        spec_deliver_result(
            pending,
            subscribed,
            spec_message_frames(category, data, max_chunk),
            times,
            spec_message_frames(category, data, max_chunk).len() - 1,
        ) == Some(data),
        spec_deliver(
            pending,
            subscribed,
            spec_message_frames(category, data, max_chunk),
            times,
        ) == pending,
{
    let key = spec_category_key(category) as u8;
    let frames = spec_message_frames(category, data, max_chunk);
    let n = frames.len() as int;
    lemma_fits_count(data, max_chunk);
    lemma_round_trip(data, max_chunk);
    assert forall|k: int| 0 <= k < n - 1 implies (#[trigger] spec_deliver_result(
        pending,
        subscribed,
        frames,
        times,
        k,
    )).is_none() by {
        lemma_deliver_holds(pending, subscribed, category, data, max_chunk, times, k);
    }
    lemma_deliver_holds(pending, subscribed, category, data, max_chunk, times, n - 1);
    lemma_fragment_shape(data, max_chunk, n - 1);
    lemma_can_id_roundtrip(category, ((n - 1) % 256) as u8);
    let before = spec_deliver(pending, subscribed, frames.take(n - 1), times);
    assert(frames.drop_last() =~= frames.take(n - 1));
    assert(spec_reaches(subscribed, frames[n - 1].0, frames[n - 1].1));
    assert(spec_deliver(pending, subscribed, frames, times) == before.remove(key));
}

} // verus!
