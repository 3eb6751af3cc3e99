//! Frames as the bus library holds them.
//!
//! The transport computes on [`Frame`], a plain pair of identifier and
//! payload. Turning one into a frame of `socketcan` and reading one back is
//! left to `socketcan`: a `CanFrame` under the classic profile, a
//! `CanFdFrame` under the FD profile. What such a frame holds is named by
//! [`spec_frame_id`] and [`spec_frame_data`], and by [`spec_fd_frame_id`]
//! and [`spec_fd_frame_data`]; the functions marked `external_body` below
//! say what is taken on trust of `socketcan` about them.
//!
//! An FD frame cannot have every length. A payload of more than eight bytes
//! whose length is not one of 12, 16, 20, 24, 32, 48 and 64 goes out with
//! zero bytes behind it, up to the next of these lengths, and comes in that
//! way. A fragment that fills its frame is not touched by this; the last
//! fragment of a message may be.

use vstd::prelude::*;
use vstd::string::StringExecFns;
use socketcan::{CanFdFrame, CanFrame, EmbeddedFrame, Id, StandardId};
use super::config::{CanError, CanFrameType};
use super::ident::MAX_STANDARD_ID;

verus! {

/// Most bytes a classic frame can carry, header byte included.
pub const CLASSIC_FRAME_CAPACITY: usize = 8;

/// Most bytes an FD frame can carry, header byte included.
pub const FD_FRAME_CAPACITY: usize = 64;

#[verifier::external_type_specification]
#[verifier::external_body]
pub struct ExCanFrame(CanFrame);

#[verifier::external_type_specification]
#[verifier::external_body]
pub struct ExCanFdFrame(CanFdFrame);

/// The data bytes that a classic bus frame holds.
pub uninterp spec fn spec_frame_data(frame: CanFrame) -> Seq<u8>;

/// The identifier of a classic bus frame as a raw number, standard or
/// extended.
pub uninterp spec fn spec_frame_id(frame: CanFrame) -> u32;

/// The data bytes that an FD bus frame holds.
pub uninterp spec fn spec_fd_frame_data(frame: CanFdFrame) -> Seq<u8>;

/// The identifier of an FD bus frame as a raw number, standard or extended.
pub uninterp spec fn spec_fd_frame_id(frame: CanFdFrame) -> u32;

/// One bus frame: its identifier and its payload, the fragment header first.
#[derive(Debug, Clone)]
pub struct Frame {
    pub identifier: u32,
    pub payload: Vec<u8>,
}

/// A frame of the bus library, of either kind.
#[derive(Debug, Clone, Copy)]
pub enum BusFrame {
    /// A classic frame.
    Classic(CanFrame),
    /// An FD frame.
    Fd(CanFdFrame),
}

impl BusFrame {
    /// The identifier of the frame as a raw number.
    pub open spec fn spec_id(&self) -> u32 {
        match self {
            BusFrame::Classic(frame) => spec_frame_id(*frame),
            BusFrame::Fd(frame) => spec_fd_frame_id(*frame),
        }
    }

    /// The data bytes that the frame holds.
    pub open spec fn spec_data(&self) -> Seq<u8> {
        match self {
            BusFrame::Classic(frame) => spec_frame_data(*frame),
            BusFrame::Fd(frame) => spec_fd_frame_data(*frame),
        }
    }
}

/// Most bytes that a frame of the given profile can carry.
pub open spec fn spec_frame_capacity(frame_type: CanFrameType) -> usize {
    match frame_type {
        CanFrameType::Classic => CLASSIC_FRAME_CAPACITY,
        CanFrameType::Fd => FD_FRAME_CAPACITY,
    }
}

/// The length that an FD frame has for `len` data bytes: `len` itself up to
/// eight, else the next of 12, 16, 20, 24, 32, 48 and 64.
pub open spec fn spec_fd_length(len: int) -> int {
    if len <= 8 {
        len
    } else if len <= 12 {
        12
    } else if len <= 16 {
        16
    } else if len <= 20 {
        20
    } else if len <= 24 {
        24
    } else if len <= 32 {
        32
    } else if len <= 48 {
        48
    } else {
        64
    }
}

/// `data` as an FD frame holds it: with zero bytes behind it up to the
/// length that the frame has.
pub open spec fn spec_fd_padded(data: Seq<u8>) -> Seq<u8> {
    data + Seq::new((spec_fd_length(data.len() as int) - data.len()) as nat, |i: int| 0u8)
}

/// The bytes that a bus frame of the given profile holds for `payload`.
pub open spec fn spec_bus_data(payload: Seq<u8>, frame_type: CanFrameType) -> Seq<u8> {
    match frame_type {
        CanFrameType::Classic => payload,
        CanFrameType::Fd => spec_fd_padded(payload),
    }
}

/// `StandardId::new`, then `CanFrame::new`: nothing if `raw` does not fit in
/// the 11 bits of a standard identifier; else the classic data frame with
/// that identifier and those data bytes, or nothing if `data` is longer than
/// the eight bytes that such a frame holds.
#[verifier::external_body]
fn classic_frame(raw: u16, data: &[u8]) -> (frame: Option<Option<CanFrame>>)
    ensures
        frame.is_some() <==> raw <= MAX_STANDARD_ID,
        frame.is_some() ==> (frame.unwrap().is_some() <==> data@.len() <= CLASSIC_FRAME_CAPACITY),
        frame.is_some() && frame.unwrap().is_some() ==> spec_frame_id(frame.unwrap().unwrap())
            == raw && spec_frame_data(frame.unwrap().unwrap()) == data@,
{
    match StandardId::new(raw) {
        Some(id) => Some(CanFrame::new(id, data)),
        None => None,
    }
}

/// `StandardId::new`, then `CanFdFrame::new`: nothing if `raw` does not fit
/// in the 11 bits of a standard identifier; else the FD frame with that
/// identifier, or nothing if `data` is longer than the 64 bytes that such a
/// frame holds. The frame holds the data bytes, and zero bytes behind them
/// up to the next length that an FD frame can have.
#[verifier::external_body]
fn fd_frame(raw: u16, data: &[u8]) -> (frame: Option<Option<CanFdFrame>>)
    ensures
        frame.is_some() <==> raw <= MAX_STANDARD_ID,
        frame.is_some() ==> (frame.unwrap().is_some() <==> data@.len() <= FD_FRAME_CAPACITY),
        frame.is_some() && frame.unwrap().is_some() ==> spec_fd_frame_id(frame.unwrap().unwrap())
            == raw && spec_fd_frame_data(frame.unwrap().unwrap()) == spec_fd_padded(data@),
{
    match StandardId::new(raw) {
        Some(id) => Some(CanFdFrame::new(id, data)),
        None => None,
    }
}

/// `CanFrame::id`, as a raw number whether the identifier is standard or
/// extended.
#[verifier::external_body]
fn raw_identifier(frame: &CanFrame) -> (raw: u32)
    ensures
        raw == spec_frame_id(*frame),
{
    match frame.id() {
        Id::Standard(id) => id.as_raw() as u32,
        Id::Extended(id) => id.as_raw(),
    }
}

/// `CanFrame::data`, copied out: at most eight bytes, whatever kind of frame
/// it is.
#[verifier::external_body]
fn frame_data(frame: &CanFrame) -> (data: Vec<u8>)
    ensures
        data@ == spec_frame_data(*frame),
        data@.len() <= CLASSIC_FRAME_CAPACITY,
{
    frame.data().to_vec()
}

/// `CanFdFrame::id`, as a raw number whether the identifier is standard or
/// extended.
#[verifier::external_body]
fn fd_raw_identifier(frame: &CanFdFrame) -> (raw: u32)
    ensures
        raw == spec_fd_frame_id(*frame),
{
    match frame.id() {
        Id::Standard(id) => id.as_raw() as u32,
        Id::Extended(id) => id.as_raw(),
    }
}

/// `CanFdFrame::data`, copied out: at most 64 bytes.
#[verifier::external_body]
fn fd_frame_data(frame: &CanFdFrame) -> (data: Vec<u8>)
    ensures
        data@ == spec_fd_frame_data(*frame),
        data@.len() <= FD_FRAME_CAPACITY,
{
    frame.data().to_vec()
}

/// Whether `frame` can be put on a bus of the given profile: its identifier
/// fits in 11 bits and its payload in one frame.
pub open spec fn spec_sendable(frame: Frame, frame_type: CanFrameType) -> bool {
    &&& frame.identifier <= MAX_STANDARD_ID
    &&& frame.payload@.len() <= spec_frame_capacity(frame_type)
}

/// The error that `encode_frame` gives for a frame that cannot be sent.
pub open spec fn spec_encode_error(frame: Frame) -> Seq<char> {
    if frame.identifier > MAX_STANDARD_ID {
        "Invalid CAN ID"@
    } else {
        "Failed to create CAN frame"@
    }
}

/// Builds the bus frame for `frame` under the given profile: a classic data
/// frame with the same identifier and the same bytes, or an FD frame with
/// the same identifier and the bytes as an FD frame holds them.
///
/// Fails with a send error if the identifier does not fit in 11 bits or the
/// payload is longer than a frame of the profile, and on no other frame.
pub fn encode_frame(frame: &Frame, frame_type: CanFrameType) -> (encoded: Result<BusFrame, CanError>)
    ensures
        match encoded {
            Ok(made) => {
                &&& spec_sendable(*frame, frame_type)
                &&& made is Fd <==> frame_type == CanFrameType::Fd
                &&& made.spec_id() == frame.identifier
                &&& made.spec_data() == spec_bus_data(frame.payload@, frame_type)
            },
            Err(CanError::SendError(msg)) => !spec_sendable(*frame, frame_type) && msg@
                == spec_encode_error(*frame),
            Err(_) => false,
        },
{
    if frame.identifier > 0xFFFF {
        return Err(CanError::SendError(String::from_str("Invalid CAN ID")));
    }
    let raw = frame.identifier as u16;
    let made = match frame_type {
        CanFrameType::Classic => match classic_frame(raw, frame.payload.as_slice()) {
            Some(Some(made)) => Some(Some(BusFrame::Classic(made))),
            Some(None) => Some(None),
            None => None,
        },
        CanFrameType::Fd => match fd_frame(raw, frame.payload.as_slice()) {
            Some(Some(made)) => Some(Some(BusFrame::Fd(made))),
            Some(None) => Some(None),
            None => None,
        },
    };
    match made {
        Some(Some(made)) => Ok(made),
        Some(None) => Err(CanError::SendError(String::from_str("Failed to create CAN frame"))),
        None => Err(CanError::SendError(String::from_str("Invalid CAN ID"))),
    }
}

/// Reads the identifier and the payload out of a received frame.
pub fn decode_frame(frame: &BusFrame) -> (decoded: Frame)
    ensures
        decoded.identifier == frame.spec_id(),
        decoded.payload@ == frame.spec_data(),
        decoded.payload@.len() <= FD_FRAME_CAPACITY,
        frame is Classic ==> decoded.payload@.len() <= CLASSIC_FRAME_CAPACITY,
{
    match frame {
        BusFrame::Classic(frame) => Frame {
            identifier: raw_identifier(frame),
            payload: frame_data(frame),
        },
        BusFrame::Fd(frame) => Frame {
            identifier: fd_raw_identifier(frame),
            payload: fd_frame_data(frame),
        },
    }
}

/// Where an FD frame adds nothing: behind a payload of at most eight bytes,
/// and behind one of a length that an FD frame can have, such as the 64
/// bytes of a fragment that fills its frame. A classic frame never adds
/// anything.
pub proof fn lemma_bus_data_exact(payload: Seq<u8>, frame_type: CanFrameType)
    requires
        frame_type == CanFrameType::Classic || spec_fd_length(payload.len() as int)
            == payload.len(),
    ensures
        spec_bus_data(payload, frame_type) == payload,
{
    assert(spec_fd_length(payload.len() as int) == payload.len() ==> spec_fd_padded(payload)
        =~= payload);
}

/// What an FD frame holds for a payload that fits: the payload, then zero
/// bytes, fewer than sixteen, up to a length that an FD frame can have.
pub proof fn lemma_fd_padding(payload: Seq<u8>)
    requires
        payload.len() <= FD_FRAME_CAPACITY,
    ensures
        spec_fd_padded(payload).len() == spec_fd_length(payload.len() as int),
        payload.len() <= spec_fd_padded(payload).len() <= FD_FRAME_CAPACITY,
        spec_fd_padded(payload).len() - payload.len() < 16,
        spec_fd_padded(payload).subrange(0, payload.len() as int) == payload,
        forall|i: int|
            payload.len() <= i < spec_fd_padded(payload).len() ==> spec_fd_padded(payload)[i] == 0,
{
    assert(spec_fd_padded(payload).subrange(0, payload.len() as int) =~= payload);
}

} // verus!
