//! Transport framing for ASTERIX surveillance data.
//!
//! The heart of the crate is the CAN fragmentation layer in
//! [`transport::can`]: identifier and header codecs, the fragmenter, the
//! per-category reassembler and the publisher / subscriber state machines
//! built on them. Around it stand the configurations, errors and name
//! codecs of the other transports, and the checks made around the decoder.
//!
//! Every function carries a contract that Verus proves. The few functions
//! marked `external_body` are the exception: they call `socketcan`,
//! `spacepackets` or the standard library, and their contracts say what is
//! taken on trust of those.

use vstd::prelude::*;

pub mod bridge;
pub mod error;
pub mod hex;
pub mod log_level;
pub mod parser;
pub mod scan;
pub mod text;
pub mod transport;
pub mod types;

pub use error::{AsterixError, Result};
pub use log_level::LogLevel;
pub use types::ParseOptions;

verus! {

/// Version of this crate.
pub const VERSION: &'static str = "0.1.0";

/// Name of this crate.
pub const CRATE_NAME: &'static str = "asterix";

} // verus!
