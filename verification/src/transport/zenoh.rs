//! Zenoh transport: configuration, samples and the naming of keys.
//!
//! A block is published under `{prefix}/{category}`, or under
//! `{prefix}/{category}/{sac}/{sic}` where its source is known.

use vstd::prelude::*;
use vstd::string::StringExecFns;
use vstd::std_specs::convert::FromSpecImpl;
use crate::error::AsterixError;
use crate::hex::{decode_hex, hex_error_text, spec_decode_hex, spec_hex_error_text, HexError};
use crate::scan::{
    parse_u8, pieces, spec_parse_u8, spec_split, spec_strip_prefix, spec_trim_start, split,
    strip_prefix, trim_start,
};
use crate::text::{chars_of, decimal, spec_decimal};

verus! {

/// What can go wrong in the Zenoh transport.
#[derive(Debug)]
pub enum ZenohError {
    /// The session could not be opened or closed.
    SessionError(String),
    /// The publisher could not be made.
    PublisherError(String),
    /// The subscriber could not be made.
    SubscriberError(String),
    /// Publishing failed.
    PublishError(String),
    /// Receiving failed.
    ReceiveError(String),
    /// A record could not be turned into bytes.
    SerializationError(String),
    /// The channel to the receiver is closed.
    ChannelClosed,
}

impl ZenohError {
    /// The text of the error: what kind it is, then its message.
    pub open spec fn spec_text(&self) -> Seq<char> {
        match self {
            ZenohError::SessionError(msg) => "Zenoh session error: "@ + msg@,
            ZenohError::PublisherError(msg) => "Zenoh publisher error: "@ + msg@,
            ZenohError::SubscriberError(msg) => "Zenoh subscriber error: "@ + msg@,
            ZenohError::PublishError(msg) => "Zenoh publish error: "@ + msg@,
            ZenohError::ReceiveError(msg) => "Zenoh receive error: "@ + msg@,
            ZenohError::SerializationError(msg) => "Serialization error: "@ + msg@,
            ZenohError::ChannelClosed => "Channel closed"@,
        }
    }

    /// Renders the error as text.
    pub fn to_string(&self) -> (text: String)
        ensures
            text@ == self.spec_text(),
    {
        match self {
            ZenohError::SessionError(msg) => String::from_str("Zenoh session error: ").concat(
                msg.as_str(),
            ),
            ZenohError::PublisherError(msg) => String::from_str("Zenoh publisher error: ").concat(
                msg.as_str(),
            ),
            ZenohError::SubscriberError(msg) => String::from_str(
                "Zenoh subscriber error: ",
            ).concat(msg.as_str()),
            ZenohError::PublishError(msg) => String::from_str("Zenoh publish error: ").concat(
                msg.as_str(),
            ),
            ZenohError::ReceiveError(msg) => String::from_str("Zenoh receive error: ").concat(
                msg.as_str(),
            ),
            ZenohError::SerializationError(msg) => String::from_str(
                "Serialization error: ",
            ).concat(msg.as_str()),
            ZenohError::ChannelClosed => String::from_str("Channel closed"),
        }
    }
}

impl From<ZenohError> for AsterixError {
    /// A transport error becomes an I/O error that carries its text.
    fn from(err: ZenohError) -> (error: AsterixError)
        ensures
            error matches AsterixError::IOError(text) && text@ == err.spec_text(),
    {
        AsterixError::IOError(err.to_string())
    }
}

/// What `from` gives is stated on `from` itself: a spec function cannot make
/// the text that the result carries.
impl FromSpecImpl<ZenohError> for AsterixError {
    open spec fn obeys_from_spec() -> bool {
        false
    }

    open spec fn from_spec(err: ZenohError) -> AsterixError {
        arbitrary()
    }
}

/// What to do when the network is congested.
#[derive(Debug, Clone, Copy)]
pub enum CongestionControl {
    /// Wait until the sample can be sent.
    Block,
    /// Drop the sample.
    Drop,
}

impl Default for CongestionControl {
    fn default() -> (control: Self)
        ensures
            control is Block,
    {
        CongestionControl::Block
    }
}

/// How urgent the samples are.
#[derive(Debug, Clone, Copy)]
pub enum Priority {
    /// Most urgent.
    RealTime,
    /// For data that a user waits for.
    Interactive,
    /// Ordinary data.
    Data,
    /// Least urgent.
    Background,
}

impl Default for Priority {
    fn default() -> (priority: Self)
        ensures
            priority is Data,
    {
        Priority::Data
    }
}

/// Configuration of the Zenoh transport.
#[derive(Debug, Clone)]
pub struct ZenohConfig {
    /// Routers to connect to; none for peer-to-peer discovery.
    pub endpoints: Vec<String>,
    /// What keys begin with.
    pub key_prefix: String,
    /// Whether samples carry the raw bytes of the block.
    pub include_raw_bytes: bool,
    /// Whether samples carry the parsed record.
    pub include_parsed: bool,
    /// What to do when the network is congested.
    pub congestion_control: CongestionControl,
    /// How urgent the samples are.
    pub priority: Priority,
}

impl ZenohConfig {
    /// Whether all fields but the endpoints have their default values.
    pub open spec fn has_default_rest(&self) -> bool {
        &&& self.key_prefix@ == "asterix"@
        &&& self.include_raw_bytes
        &&& self.include_parsed
        &&& self.congestion_control is Block
        &&& self.priority is Data
    }

    /// The default configuration, but connecting to `endpoints`.
    pub fn with_endpoints(endpoints: Vec<String>) -> (config: Self)
        ensures
            config.endpoints == endpoints,
            config.has_default_rest(),
    {
        ZenohConfig { endpoints, ..ZenohConfig::default() }
    }

    /// The default configuration: peers find each other by discovery.
    pub fn peer_to_peer() -> (config: Self)
        ensures
            config.endpoints@.len() == 0,
            config.has_default_rest(),
    {
        ZenohConfig::default()
    }

    /// The default configuration, but connecting to one router.
    pub fn with_router(router_endpoint: &str) -> (config: Self)
        ensures
            config.endpoints@.len() == 1,
            config.endpoints@[0]@ == router_endpoint@,
            config.has_default_rest(),
    {
        let mut endpoints: Vec<String> = Vec::new();
        endpoints.push(router_endpoint.to_owned());
        ZenohConfig { endpoints, ..ZenohConfig::default() }
    }
}

impl Default for ZenohConfig {
    fn default() -> (config: Self)
        ensures
            config.endpoints@.len() == 0,
            config.has_default_rest(),
    {
        ZenohConfig {
            endpoints: Vec::new(),
            key_prefix: String::from_str("asterix"),
            include_raw_bytes: true,
            include_parsed: true,
            congestion_control: CongestionControl::Block,
            priority: Priority::Data,
        }
    }
}

/// An ASTERIX block received over Zenoh.
#[derive(Debug, Clone)]
pub struct AsterixSample {
    /// Category of the block.
    pub category: u8,
    /// System area code of the source, where known.
    pub sac: Option<u8>,
    /// System identification code of the source, where known.
    pub sic: Option<u8>,
    /// The bytes of the block.
    pub data: Vec<u8>,
    /// When the block came, in microseconds since the Unix epoch.
    pub timestamp: u64,
    /// Key that the block came under.
    pub key_expr: String,
}

/// The key for `category`, and for the source `sac`, `sic` if both are
/// given.
pub open spec fn spec_key_expr(prefix: Seq<char>, category: u8, sac: Option<u8>, sic: Option<u8>)
    -> Seq<char> {
    match (sac, sic) {
        (Some(s), Some(c)) => prefix + "/"@ + spec_decimal(category as nat) + "/"@ + spec_decimal(
            s as nat,
        ) + "/"@ + spec_decimal(c as nat),
        _ => prefix + "/"@ + spec_decimal(category as nat),
    }
}

/// The number in piece `i` of `parts`, if there is such a piece and it holds
/// a number below 256.
pub open spec fn spec_part_number(parts: Seq<Seq<char>>, i: int) -> Option<u8> {
    if 0 <= i < parts.len() {
        spec_parse_u8(parts[i])
    } else {
        None
    }
}

/// Category, SAC and SIC that a key gives: the key without `prefix` and
/// leading slashes, cut at each slash; the first three pieces are the
/// fields. A category that is no number below 256 counts as 0.
pub open spec fn spec_parse_key_expr(key: Seq<char>, prefix: Seq<char>) -> (
    u8,
    Option<u8>,
    Option<u8>,
) {
    let parts = spec_split(spec_trim_start(spec_strip_prefix(key, prefix), '/'), '/');
    (
        match spec_part_number(parts, 0) {
            Some(category) => category,
            None => 0,
        },
        spec_part_number(parts, 1),
        spec_part_number(parts, 2),
    )
}

/// The number in piece `i` of the pieces that `ranges` cut out of `chars`.
fn part_number(chars: &[char], ranges: &Vec<(usize, usize)>, i: usize) -> (number: Option<u8>)
    requires
        forall|k: int|
            0 <= k < ranges@.len() ==> (#[trigger] ranges@[k]).0 <= ranges@[k].1 <= chars@.len(),
    ensures
        number == spec_part_number(pieces(chars@, ranges@), i as int),
{
    if i < ranges.len() {
        let (from, to) = ranges[i];
        parse_u8(chars, from, to)
    } else {
        None
    }
}

/// Reads category, SAC and SIC out of a key such as `asterix/48` or
/// `asterix/48/1/2`.
pub fn parse_key_expr(key: &str, prefix: &str) -> (fields: (u8, Option<u8>, Option<u8>))
    ensures
        fields == spec_parse_key_expr(key@, prefix@),
{
    let chars = chars_of(key);
    let lead = chars_of(prefix);
    let stripped = strip_prefix(chars.as_slice(), lead.as_slice());
    let start = trim_start(chars.as_slice(), stripped, '/');
    let ranges = split(chars.as_slice(), start, '/');
    let category = match part_number(chars.as_slice(), &ranges, 0) {
        Some(found) => found,
        None => 0,
    };
    let sac = part_number(chars.as_slice(), &ranges, 1);
    let sic = part_number(chars.as_slice(), &ranges, 2);
    (category, sac, sic)
}

/// Publishes ASTERIX blocks over Zenoh, each under the key of its category
/// and source.
#[derive(Debug, Clone)]
pub struct ZenohPublisher {
    pub config: ZenohConfig,
}

impl ZenohPublisher {
    /// A publisher with the given configuration.
    pub fn new(config: ZenohConfig) -> (publisher: Self)
        ensures
            publisher.config == config,
    {
        ZenohPublisher { config }
    }

    /// The key for `category`, and for the source `sac`, `sic` if both are
    /// given.
    pub fn build_key_expr(&self, category: u8, sac: Option<u8>, sic: Option<u8>) -> (key: String)
        ensures
            key@ == spec_key_expr(self.config.key_prefix@, category, sac, sic),
    {
        let base = self.config.key_prefix.clone().concat("/").concat(
            decimal(category as u64).as_str(),
        );
        match (sac, sic) {
            (Some(s), Some(c)) => base.concat("/").concat(decimal(s as u64).as_str()).concat(
                "/",
            ).concat(decimal(c as u64).as_str()),
            _ => base,
        }
    }

    /// Decodes hexadecimal text into bytes; white space is skipped.
    pub fn hex_to_bytes(&self, hex: &str) -> (bytes: Result<Vec<u8>, ZenohError>)
        ensures
            match bytes {
                Ok(found) => spec_decode_hex(hex@) == Ok::<Seq<u8>, HexError>(found@),
                Err(ZenohError::SerializationError(text)) => spec_decode_hex(hex@) matches Err(error)
                    && text@ == spec_hex_error_text(error),
                Err(_) => false,
            },
    {
        match decode_hex(hex) {
            Ok(found) => Ok(found),
            Err(error) => Err(ZenohError::SerializationError(hex_error_text(error))),
        }
    }
}

} // verus!
