//! The error type shared by the whole crate.

use vstd::prelude::*;
use vstd::string::StringExecFns;
use vstd::std_specs::convert::FromSpecImpl;
use crate::text::{decimal, spec_decimal};

verus! {

/// Result of an operation that may fail with an [`AsterixError`].
pub type Result<T> = std::result::Result<T, AsterixError>;

/// What can go wrong when ASTERIX data is parsed, configured or carried.
#[derive(Debug, Clone)]
pub enum AsterixError {
    /// Parsing failed at a byte offset.
    ParseError {
        /// Byte offset where parsing failed.
        offset: usize,
        /// What was wrong there.
        message: String,
    },
    /// The category is not defined or not supported.
    InvalidCategory {
        /// The category that was asked for.
        category: u8,
        /// Why it is not valid.
        reason: String,
    },
    /// A configuration file was not found or could not be read.
    ConfigNotFound(String),
    /// The parser could not be initialised.
    InitializationError(String),
    /// Reading or writing data failed.
    IOError(String),
    /// The input ended before the data did.
    UnexpectedEOF {
        /// Byte offset where the input ended.
        offset: usize,
        /// How many more bytes were expected.
        expected: usize,
    },
    /// The underlying parser failed in an unexpected way.
    InternalError(String),
    /// The data does not follow the ASTERIX format.
    InvalidData(String),
    /// The underlying parser handed back a null reference.
    NullPointer(String),
    /// Talking to the underlying parser failed.
    FFIError(String),
    /// A category definition file is malformed.
    XMLParseError {
        /// Path of the file.
        file: String,
        /// Line of the error, where known.
        line: Option<usize>,
        /// What the XML parser said.
        message: String,
    },
}

#[verifier::external_type_specification]
#[verifier::external_body]
pub struct ExIoError(std::io::Error);

/// `std::io::Error`'s `to_string`: the text that the error displays. Nothing
/// is claimed of the text.
#[verifier::external_body]
pub(crate) fn io_error_text(err: &std::io::Error) -> (text: String) {
    err.to_string()
}

impl From<std::io::Error> for AsterixError {
    /// An I/O error of the system becomes an I/O error that carries its
    /// text.
    fn from(err: std::io::Error) -> (error: AsterixError)
        ensures
            error is IOError,
    {
        AsterixError::IOError(io_error_text(&err))
    }
}

/// What `from` gives is stated on `from` itself: a spec function cannot make
/// the text that the result carries.
impl FromSpecImpl<std::io::Error> for AsterixError {
    open spec fn obeys_from_spec() -> bool {
        false
    }

    open spec fn from_spec(err: std::io::Error) -> AsterixError {
        arbitrary()
    }
}

impl AsterixError {
    /// The text of the error.
    pub open spec fn spec_text(&self) -> Seq<char> {
        match self {
            AsterixError::ParseError { offset, message } => "Parse error at byte offset "@
                + spec_decimal(*offset as nat) + ": "@ + message@,
            AsterixError::InvalidCategory { category, reason } => "Invalid ASTERIX category "@
                + spec_decimal(*category as nat) + ": "@ + reason@,
            AsterixError::ConfigNotFound(path) => "Configuration file not found: "@ + path@,
            AsterixError::InitializationError(msg) => "Initialization error: "@ + msg@,
            AsterixError::IOError(msg) => "I/O error: "@ + msg@,
            AsterixError::UnexpectedEOF { offset, expected } => "Unexpected end of input at byte "@
                + spec_decimal(*offset as nat) + ": expected "@ + spec_decimal(*expected as nat)
                + " more bytes"@,
            AsterixError::InternalError(msg) => "Internal error: "@ + msg@,
            AsterixError::InvalidData(msg) => "Invalid data: "@ + msg@,
            AsterixError::NullPointer(msg) => "Null pointer: "@ + msg@,
            AsterixError::FFIError(msg) => "FFI error: "@ + msg@,
            AsterixError::XMLParseError { file, line, message } => match line {
                Some(line_num) => "XML parse error in "@ + file@ + " at line "@ + spec_decimal(
                    *line_num as nat,
                ) + ": "@ + message@,
                None => "XML parse error in "@ + file@ + ": "@ + message@,
            },
        }
    }

    /// Renders the error as text.
    pub fn to_string(&self) -> (text: String)
        ensures
            text@ == self.spec_text(),
    {
        match self {
            AsterixError::ParseError { offset, message } => {
                String::from_str("Parse error at byte offset ").concat(
                    decimal(*offset as u64).as_str(),
                ).concat(": ").concat(message.as_str())
            },
            AsterixError::InvalidCategory { category, reason } => {
                String::from_str("Invalid ASTERIX category ").concat(
                    decimal(*category as u64).as_str(),
                ).concat(": ").concat(reason.as_str())
            },
            AsterixError::ConfigNotFound(path) => String::from_str(
                "Configuration file not found: ",
            ).concat(path.as_str()),
            AsterixError::InitializationError(msg) => String::from_str(
                "Initialization error: ",
            ).concat(msg.as_str()),
            AsterixError::IOError(msg) => String::from_str("I/O error: ").concat(msg.as_str()),
            AsterixError::UnexpectedEOF { offset, expected } => {
                String::from_str("Unexpected end of input at byte ").concat(
                    decimal(*offset as u64).as_str(),
                ).concat(": expected ").concat(decimal(*expected as u64).as_str()).concat(
                    " more bytes",
                )
            },
            AsterixError::InternalError(msg) => String::from_str("Internal error: ").concat(
                msg.as_str(),
            ),
            AsterixError::InvalidData(msg) => String::from_str("Invalid data: ").concat(
                msg.as_str(),
            ),
            AsterixError::NullPointer(msg) => String::from_str("Null pointer: ").concat(
                msg.as_str(),
            ),
            AsterixError::FFIError(msg) => String::from_str("FFI error: ").concat(msg.as_str()),
            AsterixError::XMLParseError { file, line, message } => match line {
                Some(line_num) => {
                    String::from_str("XML parse error in ").concat(file.as_str()).concat(
                        " at line ",
                    ).concat(decimal(*line_num as u64).as_str()).concat(": ").concat(
                        message.as_str(),
                    )
                },
                None => String::from_str("XML parse error in ").concat(file.as_str()).concat(
                    ": ",
                ).concat(message.as_str()),
            },
        }
    }

    /// A parse error at `offset`.
    pub fn parse_error(offset: usize, message: &str) -> (error: Self)
        ensures
            error matches AsterixError::ParseError { offset: at, message: text } && at == offset
                && text@ == message@,
    {
        AsterixError::ParseError { offset, message: message.to_owned() }
    }

    /// An invalid-category error for `category`.
    pub fn invalid_category(category: u8, reason: &str) -> (error: Self)
        ensures
            error matches AsterixError::InvalidCategory { category: which, reason: text } && which
                == category && text@ == reason@,
    {
        AsterixError::InvalidCategory { category, reason: reason.to_owned() }
    }

    /// An initialisation error.
    pub fn initialization_error(message: &str) -> (error: Self)
        ensures
            error matches AsterixError::InitializationError(text) && text@ == message@,
    {
        AsterixError::InitializationError(message.to_owned())
    }

    /// An internal error.
    pub fn internal_error(message: &str) -> (error: Self)
        ensures
            error matches AsterixError::InternalError(text) && text@ == message@,
    {
        AsterixError::InternalError(message.to_owned())
    }

    /// An error in talking to the underlying parser.
    pub fn ffi_error(message: &str) -> (error: Self)
        ensures
            error matches AsterixError::FFIError(text) && text@ == message@,
    {
        AsterixError::FFIError(message.to_owned())
    }

    /// An XML parse error in `file`, at `line` if it is known.
    pub fn xml_parse_error(file: &str, line: Option<usize>, message: &str) -> (error: Self)
        ensures
            error matches AsterixError::XMLParseError { file: path, line: at, message: text }
                && path@ == file@ && at == line && text@ == message@,
    {
        AsterixError::XMLParseError { file: file.to_owned(), line, message: message.to_owned() }
    }
}

} // verus!
