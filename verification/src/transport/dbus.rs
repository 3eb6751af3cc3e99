//! D-Bus service: what the parser service is called, where it lives, and
//! the parts of its interface that need no bus.

use vstd::prelude::*;
use vstd::string::StringExecFns;
use vstd::std_specs::convert::FromSpecImpl;
use crate::error::AsterixError;
use crate::hex::{decode_hex, hex_error_text, spec_decode_hex, spec_hex_error_text, HexError};
use crate::text::{chars_of, text_of};
use crate::VERSION;

verus! {

/// What can go wrong on D-Bus.
#[derive(Debug)]
pub enum DbusError {
    /// The bus could not be reached.
    ConnectionError(String),
    /// The service could not be registered.
    ServiceError(String),
    /// A method call failed.
    MethodError(String),
    /// The data could not be parsed.
    ParseError(String),
}

impl DbusError {
    /// The text of the error: what kind it is, then its message.
    pub open spec fn spec_text(&self) -> Seq<char> {
        match self {
            DbusError::ConnectionError(msg) => "D-Bus connection error: "@ + msg@,
            DbusError::ServiceError(msg) => "D-Bus service error: "@ + msg@,
            DbusError::MethodError(msg) => "D-Bus method error: "@ + msg@,
            DbusError::ParseError(msg) => "Parse error: "@ + msg@,
        }
    }

    /// Renders the error as text.
    pub fn to_string(&self) -> (text: String)
        ensures
            text@ == self.spec_text(),
    {
        match self {
            DbusError::ConnectionError(msg) => String::from_str("D-Bus connection error: ").concat(
                msg.as_str(),
            ),
            DbusError::ServiceError(msg) => String::from_str("D-Bus service error: ").concat(
                msg.as_str(),
            ),
            DbusError::MethodError(msg) => String::from_str("D-Bus method error: ").concat(
                msg.as_str(),
            ),
            DbusError::ParseError(msg) => String::from_str("Parse error: ").concat(msg.as_str()),
        }
    }
}

impl From<DbusError> for AsterixError {
    /// A transport error becomes an I/O error that carries its text.
    fn from(err: DbusError) -> (error: AsterixError)
        ensures
            error matches AsterixError::IOError(text) && text@ == err.spec_text(),
    {
        AsterixError::IOError(err.to_string())
    }
}

/// What `from` gives is stated on `from` itself: a spec function cannot make
/// the text that the result carries.
impl FromSpecImpl<DbusError> for AsterixError {
    open spec fn obeys_from_spec() -> bool {
        false
    }

    open spec fn from_spec(err: DbusError) -> AsterixError {
        arbitrary()
    }
}

/// Which bus to connect to.
#[derive(Debug, Clone, Copy, PartialEq, Eq, Structural)]
pub enum BusType {
    /// The bus of the user's session.
    Session,
    /// The bus of the whole system.
    System,
}

impl Default for BusType {
    fn default() -> (bus: Self)
        ensures
            bus == BusType::Session,
    {
        BusType::Session
    }
}

/// Configuration of the service and its clients.
#[derive(Debug, Clone)]
pub struct DbusConfig {
    /// Well-known name of the service.
    pub service_name: String,
    /// Object path of the parser.
    pub object_path: String,
    /// Which bus to connect to.
    pub bus_type: BusType,
    /// Whether a signal is sent for each parsed block.
    pub emit_signals: bool,
}

/// The object path for a service name: a slash, then the name with each dot
/// turned into a slash.
pub open spec fn spec_object_path(service_name: Seq<char>) -> Seq<char> {
    seq!['/'] + service_name.map_values(
        |c: char|
            if c == '.' {
                '/'
            } else {
                c
            },
    )
}

impl DbusConfig {
    /// Whether the configuration names the default service on `bus_type`.
    pub open spec fn is_default_on(&self, bus_type: BusType) -> bool {
        &&& self.service_name@ == "com.asterix.Parser"@
        &&& self.object_path@ == "/com/asterix/Parser"@
        &&& self.bus_type == bus_type
        &&& self.emit_signals
    }

    /// The default configuration, on the session bus.
    pub fn session() -> (config: Self)
        ensures
            config.is_default_on(BusType::Session),
    {
        DbusConfig::default()
    }

    /// The default configuration, but on the system bus.
    pub fn system() -> (config: Self)
        ensures
            config.is_default_on(BusType::System),
    {
        DbusConfig { bus_type: BusType::System, ..DbusConfig::default() }
    }

    /// A configuration for the service `service_name` on the session bus,
    /// with the object path that goes with the name.
    pub fn with_name(service_name: &str) -> (config: Self)
        ensures
            config.service_name@ == service_name@,
            config.object_path@ == spec_object_path(service_name@),
            config.bus_type == BusType::Session,
            config.emit_signals,
    {
        let name = chars_of(service_name);
        let mut path: Vec<char> = Vec::new();
        path.push('/');
        let mut i: usize = 0;
        while i < name.len()
            invariant
                0 <= i <= name@.len(),
                path@ == spec_object_path(name@.take(i as int)),
            decreases name@.len() - i,
        {
            let c = name[i];
            let ghost before = path@;
            path.push(if c == '.' {
                '/'
            } else {
                c
            });
            assert(path@ =~= spec_object_path(name@.take(i + 1)));
            i += 1;
        }
        assert(name@.take(name@.len() as int) =~= name@);
        DbusConfig {
            service_name: service_name.to_owned(),
            object_path: text_of(path.as_slice()),
            bus_type: BusType::Session,
            emit_signals: true,
        }
    }
}

impl Default for DbusConfig {
    fn default() -> (config: Self)
        ensures
            config.is_default_on(BusType::Session),
    {
        DbusConfig {
            service_name: String::from_str("com.asterix.Parser"),
            object_path: String::from_str("/com/asterix/Parser"),
            bus_type: BusType::Session,
            emit_signals: true,
        }
    }
}

/// The categories that the service lists.
pub open spec fn spec_categories() -> Seq<u8> {
    seq![1u8, 2, 4, 8, 10, 19, 20, 21, 23, 25, 31, 32, 34, 48, 62, 63, 65, 240, 247, 252]
}

/// The parser as the bus sees it.
#[derive(Debug, Clone, Copy)]
pub struct AsterixParserInterface {
    pub emit_signals: bool,
}

impl AsterixParserInterface {
    /// The version of the library.
    pub fn get_version(&self) -> (version: String)
        ensures
            version@ == VERSION@,
    {
        String::from_str(VERSION)
    }

    /// The categories in common use, in ascending order.
    pub fn get_categories(&self) -> (categories: Vec<u8>)
        ensures
            categories@ == spec_categories(),
    {
        let categories: Vec<u8> = vec![
            1,
            2,
            4,
            8,
            10,
            19,
            20,
            21,
            23,
            25,
            31,
            32,
            34,
            48,
            62,
            63,
            65,
            240,
            247,
            252,
        ];
        assert(categories@ =~= spec_categories());
        categories
    }

    /// Whether the service is up: it always is when it answers.
    pub fn health_check(&self) -> (healthy: bool)
        ensures
            healthy,
    {
        true
    }
}

/// Decodes hexadecimal text into bytes; white space is skipped. A text that
/// denotes no bytes is answered with the reason.
pub fn hex_to_bytes(hex: &str) -> (bytes: Result<Vec<u8>, String>)
    ensures
        match bytes {
            Ok(found) => spec_decode_hex(hex@) == Ok::<Seq<u8>, HexError>(found@),
            Err(text) => spec_decode_hex(hex@) matches Err(error) && text@ == spec_hex_error_text(
                error,
            ),
        },
{
    match decode_hex(hex) {
        Ok(found) => Ok(found),
        Err(error) => Err(hex_error_text(error)),
    }
}

} // verus!
