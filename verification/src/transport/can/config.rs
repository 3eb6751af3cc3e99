//! Configuration, errors and samples of the CAN transport.

use vstd::prelude::*;
use vstd::string::StringExecFns;
use vstd::std_specs::convert::FromSpecImpl;
use crate::error::{io_error_text, AsterixError};

verus! {

/// Message bytes per classic frame: eight bytes less the header byte.
pub const CAN_PAYLOAD_SIZE: usize = 7;

/// Message bytes per FD frame: sixty-four bytes less the header byte.
pub const CANFD_PAYLOAD_SIZE: usize = 63;

/// Reassembly timeout of a new configuration, in milliseconds.
pub const DEFAULT_REASSEMBLY_TIMEOUT_MS: u64 = 1000;

/// What can go wrong in the CAN transport.
#[derive(Debug)]
pub enum CanError {
    /// The bus interface could not be opened.
    InterfaceError(String),
    /// The bus refused a frame.
    SendError(String),
    /// Reading from the bus failed for a reason other than a timeout.
    ReceiveError(String),
    /// Fragmentation or reassembly failed.
    FragmentError(String),
    /// No data came in time.
    Timeout,
    /// The configuration is not usable.
    ConfigError(String),
}

impl CanError {
    /// The text of the error: what kind it is, then its message.
    pub open spec fn spec_text(&self) -> Seq<char> {
        match self {
            CanError::InterfaceError(msg) => "CAN interface error: "@ + msg@,
            CanError::SendError(msg) => "CAN send error: "@ + msg@,
            CanError::ReceiveError(msg) => "CAN receive error: "@ + msg@,
            CanError::FragmentError(msg) => "Fragment error: "@ + msg@,
            CanError::Timeout => "Timeout waiting for CAN data"@,
            CanError::ConfigError(msg) => "Configuration error: "@ + msg@,
        }
    }

    /// Renders the error as text.
    pub fn to_string(&self) -> (text: String)
        ensures
            text@ == self.spec_text(),
    {
        match self {
            CanError::InterfaceError(msg) => String::from_str("CAN interface error: ").concat(
                msg.as_str(),
            ),
            CanError::SendError(msg) => String::from_str("CAN send error: ").concat(msg.as_str()),
            CanError::ReceiveError(msg) => String::from_str("CAN receive error: ").concat(
                msg.as_str(),
            ),
            CanError::FragmentError(msg) => String::from_str("Fragment error: ").concat(
                msg.as_str(),
            ),
            CanError::Timeout => String::from_str("Timeout waiting for CAN data"),
            CanError::ConfigError(msg) => String::from_str("Configuration error: ").concat(
                msg.as_str(),
            ),
        }
    }
}

impl From<CanError> for AsterixError {
    /// A transport error becomes an I/O error that carries its text.
    fn from(err: CanError) -> (error: AsterixError)
        ensures
            error matches AsterixError::IOError(text) && text@ == err.spec_text(),
    {
        AsterixError::IOError(err.to_string())
    }
}

/// What `from` gives is stated on `from` itself: a spec function cannot make
/// the text that the result carries.
impl FromSpecImpl<CanError> for AsterixError {
    open spec fn obeys_from_spec() -> bool {
        false
    }

    open spec fn from_spec(err: CanError) -> AsterixError {
        arbitrary()
    }
}

impl From<std::io::Error> for CanError {
    /// An I/O error of the system becomes an interface error that carries
    /// its text.
    fn from(err: std::io::Error) -> (error: CanError)
        ensures
            error is InterfaceError,
    {
        CanError::InterfaceError(io_error_text(&err))
    }
}

/// What `from` gives is stated on `from` itself: a spec function cannot make
/// the text that the result carries.
impl FromSpecImpl<std::io::Error> for CanError {
    open spec fn obeys_from_spec() -> bool {
        false
    }

    open spec fn from_spec(err: std::io::Error) -> CanError {
        arbitrary()
    }
}

/// Frame profile: how many bytes one frame carries.
#[derive(Debug, Clone, Copy, PartialEq, Eq, Structural)]
pub enum CanFrameType {
    /// Classic frames of up to 8 bytes.
    Classic,
    /// FD frames of up to 64 bytes.
    Fd,
}

impl Default for CanFrameType {
    fn default() -> (frame_type: Self)
        ensures
            frame_type == CanFrameType::Classic,
    {
        CanFrameType::Classic
    }
}

/// Message bytes per frame under the given profile: the bytes of the frame
/// less the header byte.
pub open spec fn spec_profile_payload(frame_type: CanFrameType) -> usize {
    match frame_type {
        CanFrameType::Classic => CAN_PAYLOAD_SIZE,
        CanFrameType::Fd => CANFD_PAYLOAD_SIZE,
    }
}

/// Configuration of a publisher or subscriber.
#[derive(Debug, Clone)]
pub struct CanConfig {
    /// Name of the bus interface, such as `can0` or `vcan0`.
    pub interface: String,
    /// Frame profile.
    pub frame_type: CanFrameType,
    /// How long an incomplete message may sit idle, in milliseconds.
    pub reassembly_timeout_ms: u64,
    /// Whether error frames are to be received.
    pub enable_error_frames: bool,
}

impl CanConfig {
    /// Whether this is the configuration a constructor makes for `interface`
    /// and `frame_type`.
    pub open spec fn is_fresh(&self, interface: Seq<char>, frame_type: CanFrameType) -> bool {
        &&& self.interface@ == interface
        &&& self.frame_type == frame_type
        &&& self.reassembly_timeout_ms == DEFAULT_REASSEMBLY_TIMEOUT_MS
        &&& self.enable_error_frames
    }

    /// Message bytes per frame under this configuration's profile.
    pub open spec fn spec_payload_size(&self) -> usize {
        spec_profile_payload(self.frame_type)
    }

    /// A classic-frame configuration for `interface`. An empty name is
    /// rejected.
    pub fn new(interface: &str) -> (config: Result<Self, CanError>)
        ensures
            match config {
                Ok(made) => interface@.len() > 0 && made.is_fresh(interface@, CanFrameType::Classic),
                Err(CanError::ConfigError(msg)) => interface@.len() == 0 && msg@
                    == "Interface name cannot be empty"@,
                Err(_) => false,
            },
    {
        if interface.is_empty() {
            return Err(CanError::ConfigError(String::from_str("Interface name cannot be empty")));
        }
        Ok(
            CanConfig {
                interface: interface.to_owned(),
                frame_type: CanFrameType::Classic,
                reassembly_timeout_ms: DEFAULT_REASSEMBLY_TIMEOUT_MS,
                enable_error_frames: true,
            },
        )
    }

    /// An FD-frame configuration for `interface`. An empty name is rejected.
    pub fn with_fd(interface: &str) -> (config: Result<Self, CanError>)
        ensures
            match config {
                Ok(made) => interface@.len() > 0 && made.is_fresh(interface@, CanFrameType::Fd),
                Err(CanError::ConfigError(msg)) => interface@.len() == 0 && msg@
                    == "Interface name cannot be empty"@,
                Err(_) => false,
            },
    {
        if interface.is_empty() {
            return Err(CanError::ConfigError(String::from_str("Interface name cannot be empty")));
        }
        Ok(
            CanConfig {
                interface: interface.to_owned(),
                frame_type: CanFrameType::Fd,
                reassembly_timeout_ms: DEFAULT_REASSEMBLY_TIMEOUT_MS,
                enable_error_frames: true,
            },
        )
    }

    /// The same configuration with another reassembly timeout.
    pub fn with_timeout(self, timeout_ms: u64) -> (config: Self)
        ensures
            config.interface == self.interface,
            config.frame_type == self.frame_type,
            config.reassembly_timeout_ms == timeout_ms,
            config.enable_error_frames == self.enable_error_frames,
    {
        let mut config = self;
        config.reassembly_timeout_ms = timeout_ms;
        config
    }

    /// Message bytes per frame under this configuration's profile.
    pub fn payload_size(&self) -> (size: usize)
        ensures
            size == self.spec_payload_size(),
            size == 7 || size == 63,
    {
        match self.frame_type {
            CanFrameType::Classic => CAN_PAYLOAD_SIZE,
            CanFrameType::Fd => CANFD_PAYLOAD_SIZE,
        }
    }
}

impl Default for CanConfig {
    fn default() -> (config: Self)
        ensures
            config.is_fresh("vcan0"@, CanFrameType::Classic),
    {
        CanConfig {
            interface: String::from_str("vcan0"),
            frame_type: CanFrameType::Classic,
            reassembly_timeout_ms: DEFAULT_REASSEMBLY_TIMEOUT_MS,
            enable_error_frames: true,
        }
    }
}

/// A message put together again from its fragments.
#[derive(Debug, Clone)]
pub struct CanSample {
    /// Category key of the message: the category with its low five bits
    /// cleared, as the bus identifier carries it.
    pub category: u8,
    /// The bytes of the message.
    pub data: Vec<u8>,
    /// When the message was complete, in microseconds since the Unix epoch.
    pub timestamp: u64,
    /// Name of the interface the message came from.
    pub interface: String,
}

} // verus!
