//! CCSDS Space Packet transport: ASTERIX blocks carried in space packets.
//!
//! ```text
//! primary header (6 bytes): version (3 bits) | type (1) | secondary header (1) | APID (11)
//!                           sequence flags (2) | sequence count (14)
//!                           data length - 1 (16)
//! ```
//!
//! The APID of a packet is the base APID plus the category. Encoding and
//! decoding of the primary header is left to `spacepackets`.

use vstd::prelude::*;
use vstd::slice::{slice_subrange, slice_to_vec};
use vstd::string::StringExecFns;
use vstd::std_specs::convert::FromSpecImpl;
use std::collections::HashMap;
use arbitrary_int::{u11, u14};
use spacepackets::{CcsdsPacket, SpHeader};
use crate::error::AsterixError;
use crate::hex::{decode_hex, hex_error_text, spec_decode_hex, spec_hex_error_text, HexError};
use crate::text::{decimal, spec_decimal};

verus! {

/// Length of the primary header.
pub const CCSDS_HEADER_LEN: usize = 6;

/// Largest APID: the field has 11 bits.
pub const MAX_APID: u16 = 0x7FF;

/// Largest sequence count: the field has 14 bits.
pub const MAX_SEQUENCE_COUNT: u16 = 0x3FFF;

/// What can go wrong in the CCSDS transport.
#[derive(Debug)]
pub enum CcsdsError {
    /// A packet could not be made.
    PacketError(String),
    /// Encoding failed.
    EncodeError(String),
    /// Decoding failed.
    DecodeError(String),
    /// The APID is not valid.
    InvalidApid(String),
    /// A record could not be turned into bytes.
    SerializationError(String),
    /// The channel to the receiver is closed.
    ChannelClosed,
}

impl CcsdsError {
    /// The text of the error: what kind it is, then its message.
    pub open spec fn spec_text(&self) -> Seq<char> {
        match self {
            CcsdsError::PacketError(msg) => "CCSDS packet error: "@ + msg@,
            CcsdsError::EncodeError(msg) => "CCSDS encode error: "@ + msg@,
            CcsdsError::DecodeError(msg) => "CCSDS decode error: "@ + msg@,
            CcsdsError::InvalidApid(msg) => "Invalid APID: "@ + msg@,
            CcsdsError::SerializationError(msg) => "Serialization error: "@ + msg@,
            CcsdsError::ChannelClosed => "Channel closed"@,
        }
    }

    /// Renders the error as text.
    pub fn to_string(&self) -> (text: String)
        ensures
            text@ == self.spec_text(),
    {
        match self {
            CcsdsError::PacketError(msg) => String::from_str("CCSDS packet error: ").concat(
                msg.as_str(),
            ),
            CcsdsError::EncodeError(msg) => String::from_str("CCSDS encode error: ").concat(
                msg.as_str(),
            ),
            CcsdsError::DecodeError(msg) => String::from_str("CCSDS decode error: ").concat(
                msg.as_str(),
            ),
            CcsdsError::InvalidApid(msg) => String::from_str("Invalid APID: ").concat(msg.as_str()),
            CcsdsError::SerializationError(msg) => String::from_str(
                "Serialization error: ",
            ).concat(msg.as_str()),
            CcsdsError::ChannelClosed => String::from_str("Channel closed"),
        }
    }
}

impl From<CcsdsError> for AsterixError {
    /// A transport error becomes an I/O error that carries its text.
    fn from(err: CcsdsError) -> (error: AsterixError)
        ensures
            error matches AsterixError::IOError(text) && text@ == err.spec_text(),
    {
        AsterixError::IOError(err.to_string())
    }
}

/// What `from` gives is stated on `from` itself: a spec function cannot make
/// the text that the result carries.
impl FromSpecImpl<CcsdsError> for AsterixError {
    open spec fn obeys_from_spec() -> bool {
        false
    }

    open spec fn from_spec(err: CcsdsError) -> AsterixError {
        arbitrary()
    }
}

/// Direction of the packets.
#[derive(Debug, Clone, Copy, PartialEq, Eq, Structural)]
pub enum CcsdsMode {
    /// Telemetry: down from the spacecraft.
    Telemetry,
    /// Telecommand: up to the spacecraft.
    Telecommand,
}

impl Default for CcsdsMode {
    fn default() -> (mode: Self)
        ensures
            mode == CcsdsMode::Telemetry,
    {
        CcsdsMode::Telemetry
    }
}

/// Configuration of the CCSDS transport.
#[derive(Debug, Clone)]
pub struct CcsdsConfig {
    /// Direction of the packets.
    pub mode: CcsdsMode,
    /// APID of category 0; the APID of a packet is this plus its category.
    pub base_apid: u16,
    /// Whether packets carry a secondary header.
    pub use_secondary_header: bool,
    /// Most bytes in a packet's data field.
    pub max_packet_length: usize,
    /// Whether a CRC is checked.
    pub enable_crc: bool,
    /// UDP port, where UDP carries the packets.
    pub udp_port: Option<u16>,
    /// Multicast address, where multicast carries the packets.
    pub multicast_addr: Option<String>,
}

impl CcsdsConfig {
    /// Whether the configuration has the values that `default` gives to all
    /// fields but the mode, the base APID, the port and the address.
    pub open spec fn has_default_rest(&self) -> bool {
        &&& !self.use_secondary_header
        &&& self.max_packet_length == 65536
        &&& !self.enable_crc
    }

    /// Whether this is the default configuration.
    pub open spec fn is_default(&self) -> bool {
        &&& self.mode == CcsdsMode::Telemetry
        &&& self.base_apid == 0x300
        &&& self.has_default_rest()
        &&& self.udp_port == Some(7447u16)
        &&& self.multicast_addr.is_none()
    }

    /// The default configuration, for telemetry.
    pub fn telemetry() -> (config: Self)
        ensures
            config.is_default(),
    {
        CcsdsConfig { mode: CcsdsMode::Telemetry, ..CcsdsConfig::default() }
    }

    /// The default configuration, but for telecommand.
    pub fn telecommand() -> (config: Self)
        ensures
            config.mode == CcsdsMode::Telecommand,
            config.base_apid == 0x300,
            config.has_default_rest(),
            config.udp_port == Some(7447u16),
            config.multicast_addr.is_none(),
    {
        CcsdsConfig { mode: CcsdsMode::Telecommand, ..CcsdsConfig::default() }
    }

    /// The default configuration, but with another base APID.
    pub fn with_base_apid(base_apid: u16) -> (config: Self)
        ensures
            config.mode == CcsdsMode::Telemetry,
            config.base_apid == base_apid,
            config.has_default_rest(),
            config.udp_port == Some(7447u16),
            config.multicast_addr.is_none(),
    {
        CcsdsConfig { base_apid, ..CcsdsConfig::default() }
    }

    /// The default configuration, but sending to a multicast address.
    pub fn with_multicast(addr: &str, port: u16) -> (config: Self)
        ensures
            config.mode == CcsdsMode::Telemetry,
            config.base_apid == 0x300,
            config.has_default_rest(),
            config.udp_port == Some(port),
            config.multicast_addr matches Some(text) && text@ == addr@,
    {
        CcsdsConfig {
            multicast_addr: Some(addr.to_owned()),
            udp_port: Some(port),
            ..CcsdsConfig::default()
        }
    }
}

impl Default for CcsdsConfig {
    fn default() -> (config: Self)
        ensures
            config.is_default(),
    {
        CcsdsConfig {
            mode: CcsdsMode::Telemetry,
            base_apid: 0x300,
            use_secondary_header: false,
            max_packet_length: 65536,
            enable_crc: false,
            udp_port: Some(7447),
            multicast_addr: None,
        }
    }
}

/// An ASTERIX block received in a space packet.
#[derive(Debug, Clone)]
pub struct CcsdsSample {
    /// Category of the block.
    pub category: u8,
    /// APID of the packet.
    pub apid: u16,
    /// Sequence count of the packet.
    pub sequence_count: u16,
    /// The bytes of the block.
    pub data: Vec<u8>,
    /// When the packet came, in microseconds since the Unix epoch.
    pub timestamp: u64,
    /// Direction of the packet.
    pub packet_type: CcsdsMode,
}

/// The category that `apid` stands for under `base_apid`.
pub open spec fn spec_category_from_apid(apid: u16, base_apid: u16) -> u8 {
    if base_apid <= apid < base_apid + 256 {
        (apid - base_apid) as u8
    } else {
        0
    }
}

/// The category that `apid` stands for: how far it lies above `base_apid`,
/// or 0 if it lies below it or 256 or more above it.
pub fn category_from_apid(apid: u16, base_apid: u16) -> (category: u8)
    ensures
        category == spec_category_from_apid(apid, base_apid),
{
    if apid >= base_apid && apid - base_apid < 256 {
        (apid - base_apid) as u8
    } else {
        0
    }
}

/// The APID field of a primary header.
pub open spec fn spec_header_apid(header: Seq<u8>) -> u16 {
    ((header[0] as int % 8) * 256 + header[1] as int) as u16
}

/// The sequence count field of a primary header.
pub open spec fn spec_header_sequence_count(header: Seq<u8>) -> u16 {
    ((header[2] as int % 64) * 256 + header[3] as int) as u16
}

/// The data length field of a primary header: one less than the number of
/// data bytes.
pub open spec fn spec_header_data_len(header: Seq<u8>) -> u16 {
    (header[4] as int * 256 + header[5] as int) as u16
}

/// The primary header of an unsegmented packet without secondary header.
pub open spec fn spec_primary_header(
    telecommand: bool,
    apid: u16,
    sequence_count: u16,
    data_len: u16,
) -> Seq<u8> {
    seq![
        ((if telecommand { 16int } else { 0int }) + apid as int / 256) as u8,
        (apid as int % 256) as u8,
        (192 + sequence_count as int / 256) as u8,
        (sequence_count as int % 256) as u8,
        (data_len as int / 256) as u8,
        (data_len as int % 256) as u8,
    ]
}

/// `SpHeader::from_be_bytes`, then the header's `apid`, `seq_count` and
/// `data_len`: the three fields as the first six bytes of `packet` hold them,
/// big end first. A packet of fewer than six bytes is refused.
#[verifier::external_body]
fn read_primary_header(packet: &[u8]) -> (fields: Result<(u16, u16, u16), String>)
    ensures
        fields.is_ok() <==> packet@.len() >= CCSDS_HEADER_LEN,
        fields matches Ok(found) ==> found.0 == spec_header_apid(packet@) && found.1
            == spec_header_sequence_count(packet@) && found.2 == spec_header_data_len(packet@),
{
    match SpHeader::from_be_bytes(packet) {
        Ok((header, _rest)) => Ok(
            (header.apid().value(), header.seq_count().value(), header.data_len()),
        ),
        Err(e) => Err(format!("{e:?}")),
    }
}

/// `SpHeader::new_for_unseg_tm`, written out with `write_to_be_bytes`: the
/// six bytes of a telemetry header with the given fields.
#[verifier::external_body]
fn telemetry_header(apid: u16, count: u16, data_len: u16) -> (header: Result<Vec<u8>, String>)
    requires
        apid <= MAX_APID,
        count <= MAX_SEQUENCE_COUNT,
    ensures
        header.is_ok(),
        header.unwrap()@ == spec_primary_header(false, apid, count, data_len),
{
    let header = SpHeader::new_for_unseg_tm(u11::new(apid), u14::new(count), data_len);
    let mut bytes = vec![0u8; 6];
    match header.write_to_be_bytes(&mut bytes[..]) {
        Ok(_) => Ok(bytes),
        Err(e) => Err(format!("{e:?}")),
    }
}

/// `SpHeader::new_for_unseg_tc`, written out with `write_to_be_bytes`: the
/// six bytes of a telecommand header with the given fields.
#[verifier::external_body]
fn telecommand_header(apid: u16, count: u16, data_len: u16) -> (header: Result<Vec<u8>, String>)
    requires
        apid <= MAX_APID,
        count <= MAX_SEQUENCE_COUNT,
    ensures
        header.is_ok(),
        header.unwrap()@ == spec_primary_header(true, apid, count, data_len),
{
    let header = SpHeader::new_for_unseg_tc(u11::new(apid), u14::new(count), data_len);
    let mut bytes = vec![0u8; 6];
    match header.write_to_be_bytes(&mut bytes[..]) {
        Ok(_) => Ok(bytes),
        Err(e) => Err(format!("{e:?}")),
    }
}

/// How many data bytes the header of `packet` announces.
pub open spec fn spec_announced_len(packet: Seq<u8>) -> int {
    spec_header_data_len(packet) as int + 1
}

/// The text of the error for a packet that is shorter than its header says.
pub open spec fn spec_truncated_text(packet: Seq<u8>) -> Seq<char> {
    "Packet data truncated: expected "@ + spec_decimal(
        (CCSDS_HEADER_LEN + spec_announced_len(packet)) as nat,
    ) + " bytes, got "@ + spec_decimal(packet.len())
}

/// Takes a space packet apart: its APID, its sequence count and its data.
///
/// A packet of fewer than six bytes, or with fewer data bytes than its
/// header announces, is a decode error. Bytes beyond the announced data are
/// ignored.
pub fn parse_ccsds_header(packet: &[u8]) -> (parts: Result<(u16, u16, Vec<u8>), CcsdsError>)
    ensures
        match parts {
            Ok((apid, sequence_count, data)) => {
                &&& packet@.len() >= CCSDS_HEADER_LEN + spec_announced_len(packet@)
                &&& apid == spec_header_apid(packet@)
                &&& sequence_count == spec_header_sequence_count(packet@)
                &&& data@ == packet@.subrange(
                    CCSDS_HEADER_LEN as int,
                    CCSDS_HEADER_LEN + spec_announced_len(packet@),
                )
            },
            Err(CcsdsError::DecodeError(text)) => if packet@.len() < CCSDS_HEADER_LEN {
                text@ == "Packet too short for CCSDS header"@
            } else {
                &&& packet@.len() < CCSDS_HEADER_LEN + spec_announced_len(packet@)
                &&& text@ == spec_truncated_text(packet@)
            },
            Err(_) => false,
        },
{
    if packet.len() < CCSDS_HEADER_LEN {
        return Err(CcsdsError::DecodeError(String::from_str("Packet too short for CCSDS header")));
    }
    let (apid, sequence_count, data_len) = match read_primary_header(packet) {
        Ok(fields) => fields,
        Err(text) => {
            return Err(CcsdsError::DecodeError(text));
        },
    };
    let data_length: usize = data_len as usize + 1;
    if packet.len() < CCSDS_HEADER_LEN + data_length {
        let text = String::from_str("Packet data truncated: expected ").concat(
            decimal((CCSDS_HEADER_LEN + data_length) as u64).as_str(),
        ).concat(" bytes, got ").concat(decimal(packet.len() as u64).as_str());
        return Err(CcsdsError::DecodeError(text));
    }
    let data = slice_to_vec(slice_subrange(packet, CCSDS_HEADER_LEN, CCSDS_HEADER_LEN + data_length));
    Ok((apid, sequence_count, data))
}

/// Makes space packets out of ASTERIX blocks, numbering them per APID.
pub struct CcsdsPublisher {
    pub config: CcsdsConfig,
    pub sequence_counters: HashMap<u16, u16>,
}

impl CcsdsPublisher {
    /// Whether every sequence counter fits in 14 bits.
    pub open spec fn wf(&self) -> bool {
        forall|apid: u16| #[trigger]
            self.sequence_counters@.contains_key(apid) ==> self.sequence_counters@[apid]
                <= MAX_SEQUENCE_COUNT
    }

    /// The sequence count that the next packet for `apid` gets.
    pub open spec fn spec_next_count(&self, apid: u16) -> u16 {
        if self.sequence_counters@.contains_key(apid) {
            self.sequence_counters@[apid]
        } else {
            0
        }
    }

    /// A publisher that has sent nothing yet.
    pub fn new(config: CcsdsConfig) -> (publisher: Self)
        ensures
            publisher.config == config,
            publisher.sequence_counters@ == Map::<u16, u16>::empty(),
            publisher.wf(),
    {
        CcsdsPublisher { config, sequence_counters: HashMap::new() }
    }

    /// The APID for `category`: the base APID plus the category.
    pub fn calculate_apid(&self, category: u8) -> (apid: u16)
        requires
            self.config.base_apid + category <= u16::MAX,
        ensures
            apid == self.config.base_apid + category,
    {
        self.config.base_apid + (category as u16)
    }

    /// Hands out the sequence count for the next packet of `apid` and moves
    /// the counter on. Counts start at 0 and wrap after 16383.
    pub fn next_sequence_count(&mut self, apid: u16) -> (count: u16)
        requires
            old(self).wf(),
        ensures
            final(self).wf(),
            final(self).config == old(self).config,
            count == old(self).spec_next_count(apid),
            final(self).sequence_counters@ == old(self).sequence_counters@.insert(
                apid,
                spec_count_after(count),
            ),
    {
        let current: u16 = match self.sequence_counters.get(&apid) {
            Some(count) => *count,
            None => 0,
        };
        let next: u16 = if current == MAX_SEQUENCE_COUNT {
            0
        } else {
            current + 1
        };
        self.sequence_counters.insert(apid, next);
        current
    }

    /// Wraps `data` in the next space packet for `category`: the primary
    /// header for the configured mode, then the data.
    ///
    /// The length field holds one less than the number of data bytes, cut to
    /// 16 bits, and 0 for no data.
    pub fn publish_raw(&mut self, category: u8, data: &[u8]) -> (packet: Result<Vec<u8>, CcsdsError>)
        requires
            old(self).wf(),
            old(self).config.base_apid + category <= MAX_APID,
        ensures
            final(self).wf(),
            final(self).config == old(self).config,
            final(self).sequence_counters@ == old(self).sequence_counters@.insert(
                (old(self).config.base_apid + category) as u16,
                spec_count_after(
                    old(self).spec_next_count((old(self).config.base_apid + category) as u16),
                ),
            ),
            packet matches Ok(bytes) && bytes@ == spec_primary_header(
                old(self).config.mode == CcsdsMode::Telecommand,
                (old(self).config.base_apid + category) as u16,
                old(self).spec_next_count((old(self).config.base_apid + category) as u16),
                spec_data_len_field(data@.len()),
            ) + data@,
    {
        let apid = self.calculate_apid(category);
        let sequence_count = self.next_sequence_count(apid);
        let data_len: u16 = if data.len() == 0 {
            0
        } else {
            ((data.len() - 1) % 65536) as u16
        };
        let header = match self.config.mode {
            CcsdsMode::Telemetry => telemetry_header(apid, sequence_count, data_len),
            CcsdsMode::Telecommand => telecommand_header(apid, sequence_count, data_len),
        };
        match header {
            Ok(bytes) => {
                let mut packet = bytes;
                packet.extend_from_slice(data);
                assert(packet@ =~= bytes@ + data@);
                Ok(packet)
            },
            Err(text) => Err(CcsdsError::EncodeError(text)),
        }
    }

    /// Decodes hexadecimal text into bytes; white space is skipped.
    pub fn hex_to_bytes(&self, hex: &str) -> (bytes: Result<Vec<u8>, CcsdsError>)
        ensures
            match bytes {
                Ok(found) => spec_decode_hex(hex@) == Ok::<Seq<u8>, HexError>(found@),
                Err(CcsdsError::SerializationError(text)) => spec_decode_hex(hex@) matches Err(
                    error,
                ) && text@ == spec_hex_error_text(error),
                Err(_) => false,
            },
    {
        match decode_hex(hex) {
            Ok(found) => Ok(found),
            Err(error) => Err(CcsdsError::SerializationError(hex_error_text(error))),
        }
    }
}

/// The sequence count that follows `count`: one more, and 0 after the
/// largest.
pub open spec fn spec_count_after(count: u16) -> u16 {
    if count == MAX_SEQUENCE_COUNT {
        0
    } else {
        (count + 1) as u16
    }
}

/// The length field for `len` data bytes: `len - 1` cut to 16 bits, and 0 for
/// no data.
pub open spec fn spec_data_len_field(len: nat) -> u16 {
    if len == 0 {
        0
    } else {
        ((len - 1) % 65536) as u16
    }
}

} // verus!
