//! CAN bus transport: messages of arbitrary length are cut into frame
//! payloads, each led by a one-byte fragment header, and put together again
//! on the receiving side.
//!
//! ```text
//! bus identifier (11 bits):  [10:8] category, high three bits   [7:0] fragment sequence
//! frame payload:             [0] header = (is_last << 7) | index   [1..] chunk
//! ```

pub mod bus;
pub mod config;
pub mod ident;
pub mod header;
pub mod fragment;
pub mod publisher;
pub mod reassembly;
pub mod subscriber;
pub mod delivery;

pub use bus::{decode_frame, encode_frame, BusFrame, Frame};
pub use config::{CanConfig, CanError, CanFrameType, CanSample};
pub use ident::{build_can_id, parse_can_id};
pub use header::{build_fragment_header, parse_fragment_header};
pub use fragment::fragment_data;
pub use publisher::{message_frames, CanPublisher, SendStep};
pub use reassembly::ReassemblyState;
pub use subscriber::{CanSubscriber, PollEvent, ReceiveStep};
