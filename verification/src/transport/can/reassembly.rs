//! Reassembler: gathers the chunks of one message by fragment index and puts
//! them together once the last fragment is in.
//!
//! A message is never handed out in part: completion is tried only when a
//! fragment carrying the last-fragment flag arrives, and succeeds only if
//! every index from 0 up to that fragment's index holds a chunk.
//!
//! Time is a count of nanoseconds on a monotonic clock, read by the caller.

use vstd::prelude::*;
use std::collections::HashMap;
use super::header::{spec_header_index, spec_header_is_last};

verus! {

/// The chunks for indices `0..n`, in order, as one byte sequence.
pub open spec fn spec_concat(chunks: Map<u8, Seq<u8>>, n: int) -> Seq<u8>
    decreases n,
{
    if n <= 0 {
        Seq::empty()
    } else {
        spec_concat(chunks, n - 1) + chunks[(n - 1) as u8]
    }
}

/// Whether every index up to and including `last_index` holds a chunk.
pub open spec fn spec_complete(chunks: Map<u8, Seq<u8>>, last_index: u8) -> bool {
    forall|i: u8| i <= last_index ==> #[trigger] chunks.contains_key(i)
}

/// The message made of the chunks `0..=last_index`, if none is missing.
pub open spec fn spec_reassemble(chunks: Map<u8, Seq<u8>>, last_index: u8) -> Option<Seq<u8>> {
    if spec_complete(chunks, last_index) {
        Some(spec_concat(chunks, last_index as int + 1))
    } else {
        None
    }
}

/// The chunks held after a frame payload, header byte first, has been taken
/// in.
pub open spec fn spec_accept(chunks: Map<u8, Seq<u8>>, payload: Seq<u8>) -> Map<u8, Seq<u8>>
    recommends
        payload.len() > 0,
{
    chunks.insert(spec_header_index(payload[0]) as u8, payload.subrange(1, payload.len() as int))
}

/// What taking in a frame payload hands out: the whole message if the payload
/// is flagged last and no chunk up to its index is missing, nothing otherwise.
pub open spec fn spec_accept_result(chunks: Map<u8, Seq<u8>>, payload: Seq<u8>) -> Option<Seq<u8>>
    recommends
        payload.len() > 0,
{
    if spec_header_is_last(payload[0]) {
        spec_reassemble(spec_accept(chunks, payload), spec_header_index(payload[0]) as u8)
    } else {
        None
    }
}

/// Whether a state last touched at `last_update` has been idle for longer
/// than `timeout` at time `now`.
pub open spec fn spec_expired(last_update: u128, timeout: u128, now: u128) -> bool {
    now as int - last_update as int > timeout as int
}

/// The chunks received so far for one message, and when the last one came.
pub struct ReassemblyState {
    pub category: u8,
    pub fragments: HashMap<u8, Vec<u8>>,
    pub last_update: u128,
}

impl ReassemblyState {
    /// The chunks held, by fragment index.
    pub open spec fn chunks(&self) -> Map<u8, Seq<u8>> {
        Map::new(|k: u8| self.fragments@.contains_key(k), |k: u8| self.fragments@[k]@)
    }

    /// An empty state for `category`, created at time `now`.
    pub fn new(category: u8, now: u128) -> (state: Self)
        ensures
            state.category == category,
            state.chunks() == Map::<u8, Seq<u8>>::empty(),
            state.last_update == now,
    {
        let state = ReassemblyState { category, fragments: HashMap::new(), last_update: now };
        assert(state.chunks() =~= Map::<u8, Seq<u8>>::empty());
        state
    }

    /// Stores `data` at `index`, replacing what was there, and notes the
    /// time. If `is_last` is set, tries to complete the message up to
    /// `index`; otherwise there is no result yet.
    pub fn add_fragment(&mut self, index: u8, data: Vec<u8>, is_last: bool, now: u128) -> (message:
        Option<Vec<u8>>)
        ensures
            final(self).category == old(self).category,
            final(self).last_update == now,
            final(self).chunks() == old(self).chunks().insert(index, data@),
            match message {
                Some(bytes) => is_last && spec_reassemble(final(self).chunks(), index) == Some(
                    bytes@,
                ),
                None => !is_last || spec_reassemble(final(self).chunks(), index).is_none(),
            },
    {
        self.last_update = now;
        let ghost before = self.chunks();
        self.fragments.insert(index, data);
        assert(self.chunks() =~= before.insert(index, data@));

        if is_last {
            self.reassemble(index)
        } else {
            None
        }
    }

    /// Concatenates the chunks for `0..=last_index`, or gives `None` if one
    /// of them is missing.
    pub fn reassemble(&self, last_index: u8) -> (message: Option<Vec<u8>>)
        ensures
            match message {
                Some(bytes) => spec_reassemble(self.chunks(), last_index) == Some(bytes@),
                None => spec_reassemble(self.chunks(), last_index).is_none(),
            },
    {
        let mut result: Vec<u8> = Vec::new();
        let mut i: u16 = 0;
        while i <= last_index as u16
            invariant
                0 <= i <= last_index as int + 1,
                result@ == spec_concat(self.chunks(), i as int),
                forall|k: u8| (k as int) < i ==> #[trigger] self.chunks().contains_key(k),
            decreases last_index as int + 1 - i,
        {
            let key: u8 = i as u8;
            match self.fragments.get(&key) {
                Some(fragment_data) => {
                    result.extend_from_slice(fragment_data.as_slice());
                    assert(result@ =~= spec_concat(self.chunks(), i as int) + self.chunks()[key]);
                },
                None => {
                    assert(!self.chunks().contains_key(key));
                    return None;
                },
            }
            i += 1;
        }
        Some(result)
    }

    /// Whether the state has been idle for longer than `timeout` at `now`.
    pub fn is_expired(&self, timeout: u128, now: u128) -> (expired: bool)
        ensures
            expired == spec_expired(self.last_update, timeout, now),
    {
        now > self.last_update && now - self.last_update > timeout
    }
}

} // verus!
