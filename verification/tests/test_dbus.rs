//! D-Bus service: configuration, errors and hexadecimal input.

use asterix::transport::dbus::{
    hex_to_bytes, AsterixParserInterface, BusType, DbusConfig, DbusError,
};
use asterix::AsterixError;

#[test]
fn test_dbus_error_display_variants() {
    let errors = vec![
        (DbusError::ConnectionError("test".to_string()), "connection"),
        (DbusError::ServiceError("test".to_string()), "service"),
        (DbusError::MethodError("test".to_string()), "method"),
        (DbusError::ParseError("test".to_string()), "parse"),
    ];

    for (err, expected_substring) in errors {
        let display = err.to_string().to_lowercase();
        assert!(
            display.contains(expected_substring),
            "Expected '{}' in '{}'",
            expected_substring,
            display
        );
    }
}

#[test]
fn dbus_test_dbus_error_debug() {
    let err = DbusError::ConnectionError("test error".to_string());
    let debug = format!("{:?}", err);
    assert!(debug.contains("ConnectionError"));
    assert!(debug.contains("test error"));
}

#[test]
fn test_dbus_error_to_asterix_error() {
    let err = DbusError::MethodError("call failed".to_string());
    let asterix_err: AsterixError = err.into();
    let msg = asterix_err.to_string();
    assert!(msg.contains("method"));
}

#[test]
fn dbus_test_dbus_config_default() {
    let config = DbusConfig::default();
    assert_eq!(config.service_name, "com.asterix.Parser");
    assert_eq!(config.object_path, "/com/asterix/Parser");
    assert_eq!(config.bus_type, BusType::Session);
    assert!(config.emit_signals);
}

#[test]
fn dbus_test_dbus_config_session() {
    let config = DbusConfig::session();
    assert_eq!(config.bus_type, BusType::Session);
}

#[test]
fn dbus_test_dbus_config_system() {
    let config = DbusConfig::system();
    assert_eq!(config.bus_type, BusType::System);
}

#[test]
fn test_dbus_config_with_name() {
    let config = DbusConfig::with_name("org.example.Radar");
    assert_eq!(config.service_name, "org.example.Radar");
    assert_eq!(config.object_path, "/org/example/Radar");
}

#[test]
fn dbus_test_dbus_config_clone() {
    let config = DbusConfig {
        service_name: "custom.Service".to_string(),
        object_path: "/custom/Service".to_string(),
        bus_type: BusType::System,
        emit_signals: false,
    };
    let cloned = config.clone();
    assert_eq!(cloned.service_name, "custom.Service");
    assert_eq!(cloned.bus_type, BusType::System);
    assert!(!cloned.emit_signals);
}

#[test]
fn test_bus_type_default() {
    assert_eq!(BusType::default(), BusType::Session);
}

#[test]
fn dbus_test_hex_to_bytes_valid() {
    let result = hex_to_bytes("30001E");
    assert!(result.is_ok());
    let bytes = result.unwrap();
    assert_eq!(bytes, vec![0x30, 0x00, 0x1E]);
}

#[test]
fn dbus_test_hex_to_bytes_with_whitespace() {
    let result = hex_to_bytes("30 00 1E 48");
    assert!(result.is_ok());
    let bytes = result.unwrap();
    assert_eq!(bytes, vec![0x30, 0x00, 0x1E, 0x48]);
}

#[test]
fn test_hex_to_bytes_lowercase() {
    let result = hex_to_bytes("abcdef");
    assert!(result.is_ok());
    let bytes = result.unwrap();
    assert_eq!(bytes, vec![0xAB, 0xCD, 0xEF]);
}

#[test]
fn test_hex_to_bytes_mixed_case() {
    let result = hex_to_bytes("AbCdEf");
    assert!(result.is_ok());
}

#[test]
fn dbus_test_hex_to_bytes_invalid_length() {
    let result = hex_to_bytes("123");
    assert!(result.is_err());
    assert!(result.unwrap_err().contains("length"));
}

#[test]
fn dbus_test_hex_to_bytes_invalid_chars() {
    let result = hex_to_bytes("GHIJ");
    assert!(result.is_err());
}

#[test]
fn test_hex_to_bytes_empty() {
    let result = hex_to_bytes("");
    assert!(result.is_ok());
    assert!(result.unwrap().is_empty());
}

#[test]
fn test_dbus_test_dbus_config_default() {
    let config = DbusConfig::default();
    assert_eq!(config.service_name, "com.asterix.Parser");
    assert_eq!(config.object_path, "/com/asterix/Parser");
    assert_eq!(config.bus_type, BusType::Session);
    assert!(config.emit_signals);
}

#[test]
fn test_dbus_test_dbus_config_session() {
    let config = DbusConfig::session();
    assert_eq!(config.bus_type, BusType::Session);
}

#[test]
fn test_dbus_test_dbus_config_system() {
    let config = DbusConfig::system();
    assert_eq!(config.bus_type, BusType::System);
}

#[test]
fn test_dbus_config_with_custom_name() {
    let config = DbusConfig::with_name("org.example.Radar");
    assert_eq!(config.service_name, "org.example.Radar");
    assert_eq!(config.object_path, "/org/example/Radar");
}

#[test]
fn test_dbus_test_dbus_config_clone() {
    let config = DbusConfig {
        service_name: "test.Service".to_string(),
        object_path: "/test/Service".to_string(),
        bus_type: BusType::Session,
        emit_signals: false,
    };
    let cloned = config.clone();
    assert_eq!(cloned.service_name, "test.Service");
    assert!(!cloned.emit_signals);
}

#[test]
fn test_dbus_error_display() {
    let errors = vec![
        DbusError::ConnectionError("conn fail".to_string()),
        DbusError::ServiceError("svc fail".to_string()),
        DbusError::MethodError("method fail".to_string()),
        DbusError::ParseError("parse fail".to_string()),
    ];

    for err in errors {
        let display = err.to_string();
        assert!(!display.is_empty());
        println!("Error: {display}");
    }
}

#[test]
fn test_dbus_test_dbus_error_debug() {
    let err = DbusError::ConnectionError("debug test".to_string());
    let debug = format!("{err:?}");
    assert!(debug.contains("ConnectionError"));
}

#[test]
fn dbus_error_texts() {
    assert_eq!(DbusError::ConnectionError("x".into()).to_string(), "D-Bus connection error: x");
    assert_eq!(DbusError::ServiceError("x".into()).to_string(), "D-Bus service error: x");
    assert_eq!(DbusError::MethodError("x".into()).to_string(), "D-Bus method error: x");
    assert_eq!(DbusError::ParseError("x".into()).to_string(), "Parse error: x");
    match AsterixError::from(DbusError::ParseError("x".into())) {
        AsterixError::IOError(text) => assert_eq!(text, "Parse error: x"),
        other => panic!("wrong variant: {other:?}"),
    }
}

#[test]
fn object_path_follows_service_name() {
    assert_eq!(DbusConfig::with_name("").object_path, "/");
    assert_eq!(DbusConfig::with_name("a").object_path, "/a");
    assert_eq!(DbusConfig::with_name("a..b.").object_path, "/a//b/");
    assert_eq!(DbusConfig::with_name("ü.x/y").object_path, "/ü/x/y");
    let config = DbusConfig::with_name("org.example.Radar");
    assert_eq!(config.bus_type, BusType::Session);
    assert!(config.emit_signals);
}

#[test]
fn interface_answers_without_a_bus() {
    let interface = AsterixParserInterface { emit_signals: true };
    assert!(interface.health_check());
    assert_eq!(
        interface.get_categories(),
        vec![1, 2, 4, 8, 10, 19, 20, 21, 23, 25, 31, 32, 34, 48, 62, 63, 65, 240, 247, 252]
    );
    assert_eq!(interface.get_version(), asterix::VERSION);
}

#[test]
fn hex_pairs_and_signs() {
    assert_eq!(hex_to_bytes("00ff7F80").unwrap(), vec![0x00, 0xFF, 0x7F, 0x80]);
    // a plus sign and one digit is a byte too
    assert_eq!(hex_to_bytes("+F+0").unwrap(), vec![0x0F, 0x00]);
    assert_eq!(hex_to_bytes("++").unwrap_err(), "invalid digit found in string");
    assert_eq!(hex_to_bytes("-1").unwrap_err(), "invalid digit found in string");
    assert_eq!(hex_to_bytes("F+").unwrap_err(), "invalid digit found in string");
    assert_eq!(hex_to_bytes("0g").unwrap_err(), "invalid digit found in string");
    assert_eq!(hex_to_bytes("0x").unwrap_err(), "invalid digit found in string");
    // the first pair that fails decides
    assert_eq!(hex_to_bytes("zz1").unwrap_err(), "Invalid hex string length");
}

#[test]
fn hex_skips_any_white_space() {
    assert_eq!(hex_to_bytes(" 3\t0\n0\r0 ").unwrap(), vec![0x30, 0x00]);
    assert_eq!(hex_to_bytes("30\u{00A0}00\u{2003}1E\u{3000}").unwrap(), vec![0x30, 0x00, 0x1E]);
    assert_eq!(hex_to_bytes("\u{0085}\u{1680}\u{2028}\u{2029}\u{202F}\u{205F}").unwrap(), Vec::<u8>::new());
    assert_eq!(hex_to_bytes("   ").unwrap(), Vec::<u8>::new());
    // a zero-width space is no white space
    assert!(hex_to_bytes("30\u{200B}00").is_err());
}

#[test]
fn hex_with_other_characters_fails() {
    // two bytes in UTF-8: the length is even, the digit is not one
    assert_eq!(hex_to_bytes("é").unwrap_err(), "invalid digit found in string");
    // three bytes in UTF-8
    assert_eq!(hex_to_bytes("€").unwrap_err(), "Invalid hex string length");
    assert_eq!(hex_to_bytes("€0").unwrap_err(), "invalid digit found in string");
    assert_eq!(hex_to_bytes("30é").unwrap_err(), "invalid digit found in string");
}

#[test]
fn test_asterix_parser_interface_get_version() {
    let interface = AsterixParserInterface { emit_signals: true };
    let version = interface.get_version();
    assert!(!version.is_empty());
}

#[test]
fn test_asterix_parser_interface_get_categories() {
    let interface = AsterixParserInterface { emit_signals: true };
    let categories = interface.get_categories();
    assert!(categories.contains(&48));
    assert!(categories.contains(&62));
}

#[test]
fn test_asterix_parser_interface_health_check() {
    let interface = AsterixParserInterface { emit_signals: false };
    assert!(interface.health_check());
}
