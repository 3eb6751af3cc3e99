//! Publisher: turns one message into the frames to put on the bus, in the
//! order in which they are to be sent.

use vstd::prelude::*;
use super::bus::{spec_sendable, Frame};
use super::config::{CanConfig, CanError};
use super::fragment::{
    fragment_data, frames_view, lemma_chunk_bounds, lemma_fragment_count, spec_fragments,
};
use super::ident::{build_can_id, lemma_can_id_roundtrip, spec_can_id, MAX_STANDARD_ID};

verus! {

/// The frames of a message, as plain values.
pub open spec fn frames_of(frames: Vec<Frame>) -> Seq<(u32, Seq<u8>)> {
    Seq::new(frames@.len(), |i: int| (frames@[i].identifier, frames@[i].payload@))
}

/// The frames that carry `data` under `category` with chunks of `max_chunk`
/// bytes: fragment `i` of the message under the identifier for `category`
/// and sequence number `i mod 256`.
pub open spec fn spec_message_frames(category: u8, data: Seq<u8>, max_chunk: int) -> Seq<
    (u32, Seq<u8>),
> {
    Seq::new(
        spec_fragments(data, max_chunk).len(),
        |i: int| (spec_can_id(category, (i % 256) as u8) as u32, spec_fragments(data, max_chunk)[i]),
    )
}

/// Sends messages over one bus interface.
#[derive(Debug, Clone)]
pub struct CanPublisher {
    pub config: CanConfig,
}

impl CanPublisher {
    /// A publisher with the given configuration.
    pub fn new(config: CanConfig) -> (publisher: Self)
        ensures
            publisher.config == config,
    {
        CanPublisher { config }
    }

    /// The frames that carry `data` under `category`, in sending order. The
    /// frame profile of the configuration decides the chunk size, and each
    /// frame fits a bus frame of that profile.
    pub fn frames(&self, category: u8, data: &[u8]) -> (frames: Vec<Frame>)
        ensures
            frames_of(frames) == spec_message_frames(
                category,
                data@,
                self.config.spec_payload_size() as int,
            ),
            forall|i: int|
                0 <= i < frames@.len() ==> spec_sendable(#[trigger] frames@[i], self.config.frame_type),
    {
        let payload_size = self.config.payload_size();
        let frames = message_frames(category, data, payload_size);
        assert forall|i: int| 0 <= i < frames@.len() implies spec_sendable(
            #[trigger] frames@[i],
            self.config.frame_type,
        ) by {
            lemma_frame_bounds(category, data@, payload_size as int, i);
            assert(frames_of(frames)[i] == (frames@[i].identifier, frames@[i].payload@));
        }
        frames
    }

    /// Decides what follows the sending of frame number `sent` out of
    /// `count`, the frames before it having been sent: a send that the bus
    /// refused ends the call with a send error that carries the bus's text,
    /// and nothing is sent again or taken back; after the last frame the
    /// call is done; else the next frame is sent.
    pub fn on_sent(sent: usize, count: usize, failure: Option<String>) -> (step: SendStep)
        requires
            sent < count,
        ensures
            match failure {
                Some(text) => step == SendStep::Fail(CanError::SendError(text)),
                None => if sent + 1 < count {
                    step is SendNext
                } else {
                    step is Done
                },
            },
    {
        match failure {
            Some(text) => SendStep::Fail(CanError::SendError(text)),
            None => if sent + 1 < count {
                SendStep::SendNext
            } else {
                SendStep::Done
            },
        }
    }
}

/// What the caller is to do after it has handed a frame to the bus.
#[derive(Debug)]
pub enum SendStep {
    /// Send the next frame.
    SendNext,
    /// Every frame has been sent: return.
    Done,
    /// Give up with this error.
    Fail(CanError),
}

/// How large the frames of a message are: each identifier fits in 11 bits,
/// and each payload holds its header byte and at most `max_chunk` bytes of
/// the message.
pub proof fn lemma_frame_bounds(category: u8, data: Seq<u8>, max_chunk: int, i: int)
    requires
        0 < max_chunk,
        0 <= i < spec_message_frames(category, data, max_chunk).len(),
    ensures
        spec_message_frames(category, data, max_chunk)[i].0 <= MAX_STANDARD_ID,
        2 <= spec_message_frames(category, data, max_chunk)[i].1.len() <= max_chunk + 1,
{
    lemma_fragment_count(data.len() as int, max_chunk);
    lemma_chunk_bounds(data.len() as int, max_chunk, i);
    lemma_can_id_roundtrip(category, (i % 256) as u8);
}

/// The frames that carry `data` under `category` with chunks of at most
/// `payload_size` bytes, in sending order.
pub fn message_frames(category: u8, data: &[u8], payload_size: usize) -> (frames: Vec<Frame>)
    requires
        payload_size > 0,
    ensures
        frames_of(frames) == spec_message_frames(category, data@, payload_size as int),
{
    let mut fragments = fragment_data(category, data, payload_size);
    let ghost cut = frames_view(fragments);
    let count: usize = fragments.len();
    let mut frames: Vec<Frame> = Vec::new();
    let mut idx: usize = 0;
    while idx < count
        invariant
            count == fragments@.len(),
            cut.len() == count,
            cut == spec_fragments(data@, payload_size as int),
            0 <= idx <= count,
            frames@.len() == idx,
            forall|k: int| idx <= k < count ==> #[trigger] fragments@[k]@ == cut[k],
            forall|k: int|
                0 <= k < idx ==> (#[trigger] frames@[k]).identifier == spec_can_id(
                    category,
                    (k % 256) as u8,
                ) as u32 && frames@[k].payload@ == cut[k],
        decreases count - idx,
    {
        let can_id = build_can_id(category, (idx % 256) as u8);
        let mut payload: Vec<u8> = Vec::new();
        let ghost rest = fragments@;
        std::mem::swap(&mut payload, &mut fragments[idx]);
        assert(forall|k: int| idx < k < count ==> fragments@[k] == rest[k]);
        frames.push(Frame { identifier: can_id, payload });
        idx += 1;
    }
    assert(frames_of(frames) =~= spec_message_frames(category, data@, payload_size as int));
    frames
}

} // verus!
