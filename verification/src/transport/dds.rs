//! DDS transport: configuration, the messages on the wire and the naming of
//! topics.
//!
//! A topic is named `{prefix}_cat{category}`, with `_sac{sac}_sic{sic}`
//! behind it where the source of the data is known.

use vstd::prelude::*;
use vstd::slice::slice_subrange;
use vstd::string::StringExecFns;
use vstd::std_specs::convert::FromSpecImpl;
use crate::error::AsterixError;
use crate::hex::{decode_hex, hex_error_text, spec_decode_hex, spec_hex_error_text, HexError};
use crate::scan::{
    parse_u8, pieces, spec_parse_u8, spec_split, spec_strip_prefix, spec_trim_start, split,
    starts_with, strip_prefix, trim_start,
};
use crate::text::{chars_of, decimal, spec_decimal};

verus! {

/// What can go wrong in the DDS transport.
#[derive(Debug)]
pub enum DdsError {
    /// The domain participant could not be made.
    ParticipantError(String),
    /// The publisher could not be made.
    PublisherError(String),
    /// The subscriber could not be made.
    SubscriberError(String),
    /// The topic could not be made.
    TopicError(String),
    /// Writing a sample failed.
    WriteError(String),
    /// Reading a sample failed.
    ReadError(String),
    /// A record could not be turned into bytes.
    SerializationError(String),
}

impl DdsError {
    /// The text of the error: what kind it is, then its message.
    pub open spec fn spec_text(&self) -> Seq<char> {
        match self {
            DdsError::ParticipantError(msg) => "DDS participant error: "@ + msg@,
            DdsError::PublisherError(msg) => "DDS publisher error: "@ + msg@,
            DdsError::SubscriberError(msg) => "DDS subscriber error: "@ + msg@,
            DdsError::TopicError(msg) => "DDS topic error: "@ + msg@,
            DdsError::WriteError(msg) => "DDS write error: "@ + msg@,
            DdsError::ReadError(msg) => "DDS read error: "@ + msg@,
            DdsError::SerializationError(msg) => "Serialization error: "@ + msg@,
        }
    }

    /// Renders the error as text.
    pub fn to_string(&self) -> (text: String)
        ensures
            text@ == self.spec_text(),
    {
        match self {
            DdsError::ParticipantError(msg) => String::from_str("DDS participant error: ").concat(
                msg.as_str(),
            ),
            DdsError::PublisherError(msg) => String::from_str("DDS publisher error: ").concat(
                msg.as_str(),
            ),
            DdsError::SubscriberError(msg) => String::from_str("DDS subscriber error: ").concat(
                msg.as_str(),
            ),
            DdsError::TopicError(msg) => String::from_str("DDS topic error: ").concat(msg.as_str()),
            DdsError::WriteError(msg) => String::from_str("DDS write error: ").concat(msg.as_str()),
            DdsError::ReadError(msg) => String::from_str("DDS read error: ").concat(msg.as_str()),
            DdsError::SerializationError(msg) => String::from_str("Serialization error: ").concat(
                msg.as_str(),
            ),
        }
    }
}

impl From<DdsError> for AsterixError {
    /// A transport error becomes an I/O error that carries its text.
    fn from(err: DdsError) -> (error: AsterixError)
        ensures
            error matches AsterixError::IOError(text) && text@ == err.spec_text(),
    {
        AsterixError::IOError(err.to_string())
    }
}

/// What `from` gives is stated on `from` itself: a spec function cannot make
/// the text that the result carries.
impl FromSpecImpl<DdsError> for AsterixError {
    open spec fn obeys_from_spec() -> bool {
        false
    }

    open spec fn from_spec(err: DdsError) -> AsterixError {
        arbitrary()
    }
}

/// Whether delivery is retried.
#[derive(Debug, Clone, Copy, PartialEq, Eq, Structural)]
pub enum Reliability {
    /// Samples may be lost.
    BestEffort,
    /// Samples are sent again until they arrive.
    Reliable,
}

impl Default for Reliability {
    fn default() -> (reliability: Self)
        ensures
            reliability == Reliability::Reliable,
    {
        Reliability::Reliable
    }
}

/// Whether late joiners get earlier samples.
#[derive(Debug, Clone, Copy, PartialEq, Eq, Structural)]
pub enum Durability {
    /// Nothing is kept for late joiners.
    Volatile,
    /// The writer keeps samples for late joiners.
    TransientLocal,
}

impl Default for Durability {
    fn default() -> (durability: Self)
        ensures
            durability == Durability::Volatile,
    {
        Durability::Volatile
    }
}

/// How many samples are kept.
#[derive(Debug, Clone, Copy, PartialEq, Eq, Structural)]
pub enum History {
    /// The last so many samples.
    KeepLast(i32),
    /// All samples.
    KeepAll,
}

impl Default for History {
    fn default() -> (history: Self)
        ensures
            history == History::KeepLast(10),
    {
        History::KeepLast(10)
    }
}

/// Configuration of the DDS transport.
#[derive(Debug, Clone)]
pub struct DdsConfig {
    /// Domain to join.
    pub domain_id: u16,
    /// What topic names begin with.
    pub topic_prefix: String,
    /// Whether delivery is retried.
    pub reliability: Reliability,
    /// Whether late joiners get earlier samples.
    pub durability: Durability,
    /// How many samples are kept.
    pub history: History,
    /// Deadline in milliseconds; 0 for none.
    pub deadline_ms: u64,
}

impl DdsConfig {
    /// Whether the fields that no constructor sets have their default
    /// values.
    pub open spec fn has_default_rest(&self) -> bool {
        &&& self.topic_prefix@ == "asterix"@
        &&& self.history == History::KeepLast(10)
        &&& self.deadline_ms == 0
    }

    /// A configuration for speed: samples may be lost.
    pub fn best_effort() -> (config: Self)
        ensures
            config.domain_id == 0,
            config.reliability == Reliability::BestEffort,
            config.durability == Durability::Volatile,
            config.has_default_rest(),
    {
        DdsConfig { reliability: Reliability::BestEffort, ..DdsConfig::default() }
    }

    /// A configuration for safety: samples are retried and kept for late
    /// joiners.
    pub fn reliable() -> (config: Self)
        ensures
            config.domain_id == 0,
            config.reliability == Reliability::Reliable,
            config.durability == Durability::TransientLocal,
            config.has_default_rest(),
    {
        DdsConfig {
            reliability: Reliability::Reliable,
            durability: Durability::TransientLocal,
            ..DdsConfig::default()
        }
    }

    /// The default configuration, but in another domain.
    pub fn with_domain(domain_id: u16) -> (config: Self)
        ensures
            config.domain_id == domain_id,
            config.reliability == Reliability::Reliable,
            config.durability == Durability::Volatile,
            config.has_default_rest(),
    {
        DdsConfig { domain_id, ..DdsConfig::default() }
    }
}

impl Default for DdsConfig {
    fn default() -> (config: Self)
        ensures
            config.domain_id == 0,
            config.reliability == Reliability::Reliable,
            config.durability == Durability::Volatile,
            config.has_default_rest(),
    {
        DdsConfig {
            domain_id: 0,
            topic_prefix: String::from_str("asterix"),
            reliability: Reliability::Reliable,
            durability: Durability::Volatile,
            history: History::KeepLast(10),
            deadline_ms: 0,
        }
    }
}

/// An ASTERIX block as it travels over DDS.
#[derive(Debug, Clone)]
pub struct AsterixMessage {
    /// Key of the instance: the topic name.
    pub key: String,
    /// Category of the block.
    pub category: u8,
    /// System area code of the source, where known.
    pub sac: Option<u8>,
    /// System identification code of the source, where known.
    pub sic: Option<u8>,
    /// The bytes of the block.
    pub data: Vec<u8>,
    /// When the block was sent, in microseconds since the Unix epoch.
    pub timestamp: u64,
}

impl AsterixMessage {
    /// The key of the instance that the message belongs to.
    pub fn key(&self) -> (key: String)
        ensures
            key@ == self.key@,
    {
        self.key.clone()
    }
}

/// An ASTERIX block received over DDS.
#[derive(Debug, Clone)]
pub struct AsterixSample {
    /// Category of the block.
    pub category: u8,
    /// System area code of the source, where known.
    pub sac: Option<u8>,
    /// System identification code of the source, where known.
    pub sic: Option<u8>,
    /// The bytes of the block.
    pub data: Vec<u8>,
    /// When the block was sent, in microseconds since the Unix epoch.
    pub timestamp: u64,
    /// Topic that the block came on.
    pub topic_name: String,
}

/// The name of the topic for `category`, and for the source `sac`, `sic` if
/// both are given.
pub open spec fn spec_topic_name(prefix: Seq<char>, category: u8, sac: Option<u8>, sic: Option<u8>)
    -> Seq<char> {
    match (sac, sic) {
        (Some(s), Some(c)) => prefix + "_cat"@ + spec_decimal(category as nat) + "_sac"@
            + spec_decimal(s as nat) + "_sic"@ + spec_decimal(c as nat),
        _ => prefix + "_cat"@ + spec_decimal(category as nat),
    }
}

/// What one piece of a topic name adds to the fields found so far: `cat`,
/// `sac` or `sic` and a number set the field of that name. A `cat` without a
/// number below 256 sets the category to 0; a `sac` or `sic` without one
/// clears its field.
pub open spec fn spec_topic_part(fields: (u8, Option<u8>, Option<u8>), part: Seq<char>) -> (
    u8,
    Option<u8>,
    Option<u8>,
) {
    if seq!['c', 'a', 't'].is_prefix_of(part) {
        (
            match spec_parse_u8(part.skip(3)) {
                Some(category) => category,
                None => 0,
            },
            fields.1,
            fields.2,
        )
    } else if seq!['s', 'a', 'c'].is_prefix_of(part) {
        (fields.0, spec_parse_u8(part.skip(3)), fields.2)
    } else if seq!['s', 'i', 'c'].is_prefix_of(part) {
        (fields.0, fields.1, spec_parse_u8(part.skip(3)))
    } else {
        fields
    }
}

/// The fields that the pieces of a topic name give, later pieces overriding
/// earlier ones.
pub open spec fn spec_topic_fields(parts: Seq<Seq<char>>) -> (u8, Option<u8>, Option<u8>)
    decreases parts.len(),
{
    if parts.len() == 0 {
        (0, None, None)
    } else {
        spec_topic_part(spec_topic_fields(parts.drop_last()), parts.last())
    }
}

/// Category, SAC and SIC that a topic name gives: the name without `prefix`
/// and leading underscores, cut at each underscore.
pub open spec fn spec_parse_topic_name(topic: Seq<char>, prefix: Seq<char>) -> (
    u8,
    Option<u8>,
    Option<u8>,
) {
    spec_topic_fields(spec_split(spec_trim_start(spec_strip_prefix(topic, prefix), '_'), '_'))
}

/// Reads category, SAC and SIC out of a topic name such as `asterix_cat48`
/// or `asterix_cat48_sac1_sic2`.
pub fn parse_topic_name(topic: &str, prefix: &str) -> (fields: (u8, Option<u8>, Option<u8>))
    ensures
        fields == spec_parse_topic_name(topic@, prefix@),
{
    let chars = chars_of(topic);
    let lead = chars_of(prefix);
    let stripped = strip_prefix(chars.as_slice(), lead.as_slice());
    let start = trim_start(chars.as_slice(), stripped, '_');
    let ranges = split(chars.as_slice(), start, '_');
    let ghost parts = pieces(chars@, ranges@);

    let cat: [char; 3] = ['c', 'a', 't'];
    let sac_tag: [char; 3] = ['s', 'a', 'c'];
    let sic_tag: [char; 3] = ['s', 'i', 'c'];
    assert(cat@ =~= seq!['c', 'a', 't']);
    assert(sac_tag@ =~= seq!['s', 'a', 'c']);
    assert(sic_tag@ =~= seq!['s', 'i', 'c']);

    let mut category: u8 = 0;
    let mut sac: Option<u8> = None;
    let mut sic: Option<u8> = None;
    let mut i: usize = 0;
    while i < ranges.len()
        invariant
            0 <= i <= ranges@.len(),
            parts == pieces(chars@, ranges@),
            cat@ == seq!['c', 'a', 't'],
            sac_tag@ == seq!['s', 'a', 'c'],
            sic_tag@ == seq!['s', 'i', 'c'],
            forall|k: int|
                0 <= k < ranges@.len() ==> (#[trigger] ranges@[k]).0 <= ranges@[k].1
                    <= chars@.len(),
            (category, sac, sic) == spec_topic_fields(parts.take(i as int)),
        decreases ranges@.len() - i,
    {
        let (from, to) = ranges[i];
        let part = slice_subrange(chars.as_slice(), from, to);
        assert(parts.take(i + 1).drop_last() =~= parts.take(i as int));
        assert(parts.take(i + 1).last() == part@);
        if starts_with(part, cat.as_slice()) {
            assert(part@.skip(3) =~= part@.subrange(3, part@.len() as int));
            category = match parse_u8(part, 3, part.len()) {
                Some(found) => found,
                None => 0,
            };
        } else if starts_with(part, sac_tag.as_slice()) {
            assert(part@.skip(3) =~= part@.subrange(3, part@.len() as int));
            sac = parse_u8(part, 3, part.len());
        } else if starts_with(part, sic_tag.as_slice()) {
            assert(part@.skip(3) =~= part@.subrange(3, part@.len() as int));
            sic = parse_u8(part, 3, part.len());
        }
        i += 1;
    }
    assert(parts.take(ranges@.len() as int) =~= parts);
    (category, sac, sic)
}

/// Sends ASTERIX blocks over DDS, each on the topic of its category and
/// source.
#[derive(Debug, Clone)]
pub struct DdsPublisher {
    pub config: DdsConfig,
}

impl DdsPublisher {
    /// A publisher with the given configuration.
    pub fn new(config: DdsConfig) -> (publisher: Self)
        ensures
            publisher.config == config,
    {
        DdsPublisher { config }
    }

    /// The name of the topic for `category`, and for the source `sac`, `sic`
    /// if both are given.
    pub fn build_topic_name(&self, category: u8, sac: Option<u8>, sic: Option<u8>) -> (name: String)
        ensures
            name@ == spec_topic_name(self.config.topic_prefix@, category, sac, sic),
    {
        let base = self.config.topic_prefix.clone().concat("_cat").concat(
            decimal(category as u64).as_str(),
        );
        match (sac, sic) {
            (Some(s), Some(c)) => base.concat("_sac").concat(decimal(s as u64).as_str()).concat(
                "_sic",
            ).concat(decimal(c as u64).as_str()),
            _ => base,
        }
    }

    /// The message that carries `data` of `category` without a source, sent
    /// at `timestamp`.
    pub fn raw_message(&self, category: u8, data: &[u8], timestamp: u64) -> (message: AsterixMessage)
        ensures
            message.key@ == spec_topic_name(self.config.topic_prefix@, category, None, None),
            message.category == category,
            message.sac.is_none(),
            message.sic.is_none(),
            message.data@ == data@,
            message.timestamp == timestamp,
    {
        AsterixMessage {
            key: self.build_topic_name(category, None, None),
            category,
            sac: None,
            sic: None,
            data: vstd::slice::slice_to_vec(data),
            timestamp,
        }
    }

    /// The message that carries `data` of `category` from the source `sac`,
    /// `sic`, sent at `timestamp`.
    pub fn routed_message(&self, category: u8, sac: u8, sic: u8, data: &[u8], timestamp: u64) -> (message:
        AsterixMessage)
        ensures
            message.key@ == spec_topic_name(
                self.config.topic_prefix@,
                category,
                Some(sac),
                Some(sic),
            ),
            message.category == category,
            message.sac == Some(sac),
            message.sic == Some(sic),
            message.data@ == data@,
            message.timestamp == timestamp,
    {
        AsterixMessage {
            key: self.build_topic_name(category, Some(sac), Some(sic)),
            category,
            sac: Some(sac),
            sic: Some(sic),
            data: vstd::slice::slice_to_vec(data),
            timestamp,
        }
    }

    /// Decodes hexadecimal text into bytes; white space is skipped.
    pub fn hex_to_bytes(&self, hex: &str) -> (bytes: Result<Vec<u8>, DdsError>)
        ensures
            match bytes {
                Ok(found) => spec_decode_hex(hex@) == Ok::<Seq<u8>, HexError>(found@),
                Err(DdsError::SerializationError(text)) => spec_decode_hex(hex@) matches Err(error)
                    && text@ == spec_hex_error_text(error),
                Err(_) => false,
            },
    {
        match decode_hex(hex) {
            Ok(found) => Ok(found),
            Err(error) => Err(DdsError::SerializationError(hex_error_text(error))),
        }
    }
}

} // verus!
