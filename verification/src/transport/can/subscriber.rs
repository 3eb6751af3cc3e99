//! Subscriber: sorts received frames by category, drives one reassembly
//! state per category and hands out each message once it is complete.
//!
//! The subscriber does no input or output itself. Its caller reads the bus
//! and the clocks and reports what it saw; the subscriber answers with what
//! to do next.

use vstd::prelude::*;
use vstd::slice::{slice_subrange, slice_to_vec};
use std::collections::HashMap;
use super::bus::{decode_frame, BusFrame};
use super::config::{CanConfig, CanError, CanSample};
use super::header::parse_fragment_header;
use super::ident::{parse_can_id, spec_id_category};
use super::reassembly::{spec_accept, spec_accept_result, spec_expired, ReassemblyState};

verus! {

/// How long one read of the bus may block, in milliseconds.
pub const READ_TIMEOUT_MS: u64 = 100;

/// How long to pause after a read that found nothing, in milliseconds.
pub const RETRY_PAUSE_MS: u64 = 10;

/// Nanoseconds in a millisecond.
pub const NANOS_PER_MILLI: u128 = 1_000_000;

/// The incomplete messages of a subscriber: by category key, the chunks held
/// and the time of the last one.
pub type Pending = Map<u8, (Map<u8, Seq<u8>>, u128)>;

/// Whether frames of `category` pass the allow-list: an empty list lets
/// everything through.
pub open spec fn spec_admits(subscribed: Seq<u8>, category: u8) -> bool {
    subscribed.len() == 0 || subscribed.contains(category)
}

/// Whether a frame gets as far as the reassembler: it has a header byte and
/// its category passes the allow-list.
pub open spec fn spec_reaches(subscribed: Seq<u8>, can_id: u32, payload: Seq<u8>) -> bool {
    payload.len() > 0 && spec_admits(subscribed, spec_id_category(can_id) as u8)
}

/// The chunks held for `category`, none if no message is pending for it.
pub open spec fn spec_chunks_of(pending: Pending, category: u8) -> Map<u8, Seq<u8>> {
    if pending.contains_key(category) {
        pending[category].0
    } else {
        Map::empty()
    }
}

/// The message that a frame completes, if it completes one.
pub open spec fn spec_process_result(
    pending: Pending,
    subscribed: Seq<u8>,
    can_id: u32,
    payload: Seq<u8>,
) -> Option<Seq<u8>> {
    if spec_reaches(subscribed, can_id, payload) {
        spec_accept_result(spec_chunks_of(pending, spec_id_category(can_id) as u8), payload)
    } else {
        None
    }
}

/// The incomplete messages after a frame has been processed at time `now`.
pub open spec fn spec_process_pending(
    pending: Pending,
    subscribed: Seq<u8>,
    can_id: u32,
    payload: Seq<u8>,
    now: u128,
) -> Pending {
    let category = spec_id_category(can_id) as u8;
    if !spec_reaches(subscribed, can_id, payload) {
        pending
    } else if spec_process_result(pending, subscribed, can_id, payload).is_some() {
        pending.remove(category)
    } else {
        pending.insert(category, (spec_accept(spec_chunks_of(pending, category), payload), now))
    }
}

/// The incomplete messages that are left after those idle for longer than
/// `timeout` at time `now` have been dropped.
pub open spec fn spec_retain(pending: Pending, timeout: u128, now: u128) -> Pending {
    Map::new(
        |k: u8| pending.contains_key(k) && !spec_expired(pending[k].1, timeout, now),
        |k: u8| pending[k],
    )
}

/// Whether a receive call that began at `start` may still go on at `now`.
pub open spec fn spec_within_deadline(start: u128, now: u128, timeout: u128) -> bool {
    now - start < timeout
}

/// What the caller saw when it polled the bus.
#[derive(Debug)]
pub enum PollEvent {
    /// A frame came in.
    Frame(BusFrame),
    /// Nothing came within the read timeout.
    WouldBlock,
    /// The read failed; the text says how.
    Failed(String),
}

/// What the caller is to do after a poll.
#[derive(Debug)]
pub enum ReceiveStep {
    /// A message is complete: return it.
    Deliver(CanSample),
    /// Poll again at once.
    PollAgain,
    /// Pause for `RETRY_PAUSE_MS`, then poll again.
    Pause,
    /// Give up with this error.
    Fail(CanError),
}

/// Receives messages from one bus interface.
pub struct CanSubscriber {
    pub config: CanConfig,
    pub reassembly_states: HashMap<u8, ReassemblyState>,
    pub subscribed_categories: Vec<u8>,
}

/// Whether `list` holds `value`.
fn list_contains(list: &Vec<u8>, value: u8) -> (found: bool)
    ensures
        found == list@.contains(value),
{
    let mut i: usize = 0;
    while i < list.len()
        invariant
            0 <= i <= list@.len(),
            forall|k: int| 0 <= k < i ==> list@[k] != value,
        decreases list@.len() - i,
    {
        if list[i] == value {
            return true;
        }
        i += 1;
    }
    false
}

impl CanSubscriber {
    /// The incomplete messages, by category key.
    pub open spec fn pending(&self) -> Pending {
        Map::new(
            |k: u8| self.reassembly_states@.contains_key(k),
            |k: u8| (self.reassembly_states@[k].chunks(), self.reassembly_states@[k].last_update),
        )
    }

    /// The reassembly timeout of the configuration, in nanoseconds.
    pub open spec fn spec_timeout(&self) -> u128 {
        (self.config.reassembly_timeout_ms as u128 * NANOS_PER_MILLI) as u128
    }

    /// Whether `after` and `sample` are what processing a frame with
    /// identifier `can_id` and payload `payload` makes of `self`.
    pub open spec fn processed(
        &self,
        after: &Self,
        can_id: u32,
        payload: Seq<u8>,
        now: u128,
        timestamp: u64,
        sample: Result<Option<CanSample>, CanError>,
    ) -> bool {
        &&& after.config == self.config
        &&& after.subscribed_categories == self.subscribed_categories
        &&& after.pending() == spec_process_pending(
            self.pending(),
            self.subscribed_categories@,
            can_id,
            payload,
            now,
        )
        &&& match sample {
            Ok(Some(made)) => {
                &&& spec_process_result(
                    self.pending(),
                    self.subscribed_categories@,
                    can_id,
                    payload,
                ) == Some(made.data@)
                &&& made.category == spec_id_category(can_id)
                &&& made.timestamp == timestamp
                &&& made.interface@ == self.config.interface@
            },
            Ok(None) => spec_process_result(
                self.pending(),
                self.subscribed_categories@,
                can_id,
                payload,
            ).is_none(),
            Err(_) => false,
        }
    }

    /// A subscriber with no subscription and no message pending.
    pub fn new(config: CanConfig) -> (subscriber: Self)
        ensures
            subscriber.config == config,
            subscriber.subscribed_categories@ == Seq::<u8>::empty(),
            subscriber.pending() == Pending::empty(),
    {
        let subscriber = CanSubscriber {
            config,
            reassembly_states: HashMap::new(),
            subscribed_categories: Vec::new(),
        };
        assert(subscriber.pending() =~= Pending::empty());
        subscriber
    }

    /// Adds `category` to the allow-list, unless it is there already.
    pub fn subscribe(&mut self, category: u8) -> (done: Result<(), CanError>)
        ensures
            done.is_ok(),
            final(self).config == old(self).config,
            final(self).reassembly_states == old(self).reassembly_states,
            final(self).subscribed_categories@ == if old(self).subscribed_categories@.contains(
                category,
            ) {
                old(self).subscribed_categories@
            } else {
                old(self).subscribed_categories@.push(category)
            },
            spec_admits(final(self).subscribed_categories@, category),
    {
        if !list_contains(&self.subscribed_categories, category) {
            self.subscribed_categories.push(category);
            assert(self.subscribed_categories@[self.subscribed_categories@.len() - 1] == category);
        }
        Ok(())
    }

    /// Whether frames of `category` pass the allow-list.
    pub fn admits(&self, category: u8) -> (admitted: bool)
        ensures
            admitted == spec_admits(self.subscribed_categories@, category),
    {
        self.subscribed_categories.len() == 0 || list_contains(&self.subscribed_categories, category)
    }

    /// The timeout of a receive call that is given none: the reassembly
    /// timeout, in nanoseconds.
    pub fn default_timeout(&self) -> (timeout: u128)
        ensures
            timeout == self.spec_timeout(),
    {
        self.config.reassembly_timeout_ms as u128 * NANOS_PER_MILLI
    }

    /// Whether a receive call that began at `start` and may take `timeout`
    /// is to poll once more at `now`.
    pub fn within_deadline(start: u128, now: u128, timeout: u128) -> (go_on: bool)
        ensures
            go_on == spec_within_deadline(start, now, timeout),
    {
        now < start || now - start < timeout
    }

    /// Processes one frame, given as identifier and payload.
    ///
    /// A frame without a header byte, or of a category that the allow-list
    /// does not let through, changes nothing. Any other frame is taken in by
    /// the reassembly state of its category, which is created if there is
    /// none. If the frame completes a message, the message is handed out and
    /// the state dropped.
    pub fn process_payload(&mut self, can_id: u32, data: &[u8], now: u128, timestamp: u64) -> (sample:
        Result<Option<CanSample>, CanError>)
        ensures
            old(self).processed(final(self), can_id, data@, now, timestamp, sample),
    {
        if data.len() == 0 {
            return Ok(None);
        }
        let (cat_high, _frag_seq) = parse_can_id(can_id);
        let (fragment_index, is_last) = parse_fragment_header(data[0]);
        let payload = slice_subrange(data, 1, data.len());
        let category = cat_high;

        if !self.admits(category) {
            return Ok(None);
        }
        let ghost before = self.pending();
        let mut state = match self.reassembly_states.remove(&category) {
            Some(state) => state,
            None => ReassemblyState::new(category, now),
        };
        assert(state.chunks() == spec_chunks_of(before, category));
        assert(self.pending() =~= before.remove(category));

        match state.add_fragment(fragment_index, slice_to_vec(payload), is_last, now) {
            Some(complete_data) => {
                let sample = CanSample {
                    category,
                    data: complete_data,
                    timestamp,
                    interface: self.config.interface.clone(),
                };
                Ok(Some(sample))
            },
            None => {
                let ghost chunks = state.chunks();
                self.reassembly_states.insert(category, state);
                assert(self.pending() =~= before.insert(category, (chunks, now)));
                Ok(None)
            },
        }
    }

    /// Processes one received frame: reads its identifier and payload, then
    /// goes on as `process_payload` does.
    pub fn process_frame(&mut self, frame: &BusFrame, now: u128, timestamp: u64) -> (sample: Result<
        Option<CanSample>,
        CanError,
    >)
        ensures
            old(self).processed(
                final(self),
                frame.spec_id(),
                frame.spec_data(),
                now,
                timestamp,
                sample,
            ),
    {
        let decoded = decode_frame(frame);
        self.process_payload(decoded.identifier, decoded.payload.as_slice(), now, timestamp)
    }

    /// Drops every incomplete message that has been idle for longer than the
    /// reassembly timeout at `now`.
    pub fn cleanup_expired_states(&mut self, now: u128)
        ensures
            final(self).config == old(self).config,
            final(self).subscribed_categories == old(self).subscribed_categories,
            final(self).pending() == spec_retain(old(self).pending(), old(self).spec_timeout(), now),
    {
        let timeout = self.default_timeout();
        let ghost before = self.pending();
        let mut next: u16 = 0;
        while next < 256
            invariant
                0 <= next <= 256,
                self.config == old(self).config,
                self.subscribed_categories == old(self).subscribed_categories,
                timeout == old(self).spec_timeout(),
                before == old(self).pending(),
                forall|k: u8|
                    (k as int) < next ==> (#[trigger] self.pending().contains_key(k)
                        <==> before.contains_key(k) && !spec_expired(before[k].1, timeout, now)),
                forall|k: u8|
                    (k as int) >= next ==> (#[trigger] self.pending().contains_key(k)
                        <==> before.contains_key(k)),
                forall|k: u8| #[trigger]
                    self.pending().contains_key(k) ==> self.pending()[k] == before[k],
            decreases 256 - next,
        {
            let key: u8 = next as u8;
            let expired = match self.reassembly_states.get(&key) {
                Some(state) => state.is_expired(timeout, now),
                None => false,
            };
            let ghost held = self.pending();
            assert(held.contains_key(key) <==> before.contains_key(key));
            assert(expired <==> held.contains_key(key) && spec_expired(
                before[key].1,
                timeout,
                now,
            )) by {
                if held.contains_key(key) {
                    assert(held[key] == before[key]);
                }
            }
            if expired {
                self.reassembly_states.remove(&key);
                assert(self.pending() =~= held.remove(key));
            }
            next += 1;
        }
        assert(self.pending() =~= spec_retain(before, timeout, now));
    }

    /// Opens one cycle of a receive call that began at `start` and may take
    /// `timeout`: says whether the bus is to be polled once more at `now`,
    /// and if so drops the incomplete messages that have been idle for too
    /// long. When the time is up nothing changes, and the call ends with no
    /// sample.
    pub fn begin_cycle(&mut self, start: u128, now: u128, timeout: u128) -> (go_on: bool)
        ensures
            go_on == spec_within_deadline(start, now, timeout),
            final(self).config == old(self).config,
            final(self).subscribed_categories == old(self).subscribed_categories,
            final(self).pending() == if go_on {
                spec_retain(old(self).pending(), old(self).spec_timeout(), now)
            } else {
                old(self).pending()
            },
    {
        if Self::within_deadline(start, now, timeout) {
            self.cleanup_expired_states(now);
            true
        } else {
            false
        }
    }

    /// Decides what follows a poll of the bus.
    ///
    /// A frame is processed, and the message handed out if the frame
    /// completes one. A read that found nothing calls for a pause. A failed
    /// read ends the call with a receive error that carries its text.
    pub fn on_poll(&mut self, event: PollEvent, now: u128, timestamp: u64) -> (step: ReceiveStep)
        ensures
            final(self).config == old(self).config,
            final(self).subscribed_categories == old(self).subscribed_categories,
            match event {
                PollEvent::Frame(frame) => old(self).processed(
                    final(self),
                    frame.spec_id(),
                    frame.spec_data(),
                    now,
                    timestamp,
                    spec_step_sample(step),
                ) && !(step is Pause) && !(step is Fail),
                PollEvent::WouldBlock => step is Pause && *final(self) == *old(self),
                PollEvent::Failed(text) => *final(self) == *old(self) && step
                    == ReceiveStep::Fail(CanError::ReceiveError(text)),
            },
    {
        match event {
            PollEvent::Frame(frame) => {
                match self.process_frame(&frame, now, timestamp) {
                    Ok(Some(sample)) => ReceiveStep::Deliver(sample),
                    Ok(None) => ReceiveStep::PollAgain,
                    Err(error) => ReceiveStep::Fail(error),
                }
            },
            PollEvent::WouldBlock => ReceiveStep::Pause,
            PollEvent::Failed(text) => ReceiveStep::Fail(CanError::ReceiveError(text)),
        }
    }
}

/// The outcome of processing a frame that a step stands for.
pub open spec fn spec_step_sample(step: ReceiveStep) -> Result<Option<CanSample>, CanError> {
    match step {
        ReceiveStep::Deliver(sample) => Ok(Some(sample)),
        ReceiveStep::Fail(error) => Err(error),
        _ => Ok(None),
    }
}

} // verus!
