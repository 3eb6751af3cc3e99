//! CCSDS transport: configuration, errors, APIDs and space packets.

use asterix::transport::ccsds::{
    category_from_apid, parse_ccsds_header, CcsdsConfig, CcsdsError, CcsdsMode, CcsdsPublisher,
    CcsdsSample,
};
use asterix::AsterixError;

#[test]
fn test_ccsds_error_display_variants() {
    let errors = vec![
        (CcsdsError::PacketError("test".to_string()), "packet"),
        (CcsdsError::EncodeError("test".to_string()), "encode"),
        (CcsdsError::DecodeError("test".to_string()), "decode"),
        (CcsdsError::InvalidApid("test".to_string()), "apid"),
        (
            CcsdsError::SerializationError("test".to_string()),
            "serialization",
        ),
        (CcsdsError::ChannelClosed, "closed"),
    ];

    for (err, expected_substring) in errors {
        let display = err.to_string();
        assert!(
            display.to_lowercase().contains(expected_substring),
            "Expected '{expected_substring}' in '{display}'"
        );
    }
}

#[test]
fn ccsds_test_ccsds_error_debug() {
    let err = CcsdsError::PacketError("test error".to_string());
    let debug = format!("{err:?}");
    assert!(debug.contains("PacketError"));
    assert!(debug.contains("test error"));
}

#[test]
fn test_ccsds_error_to_asterix_error() {
    let err = CcsdsError::EncodeError("encode failed".to_string());
    let asterix_err: AsterixError = err.into();
    let msg = asterix_err.to_string();
    assert!(msg.contains("encode"));
}

#[test]
fn ccsds_test_ccsds_config_default() {
    let config = CcsdsConfig::default();
    assert_eq!(config.mode, CcsdsMode::Telemetry);
    assert_eq!(config.base_apid, 0x300);
    assert!(!config.use_secondary_header);
    assert_eq!(config.max_packet_length, 65536);
    assert!(!config.enable_crc);
    assert_eq!(config.udp_port, Some(7447));
    assert_eq!(config.multicast_addr, None);
}

#[test]
fn ccsds_test_ccsds_config_telemetry() {
    let config = CcsdsConfig::telemetry();
    assert_eq!(config.mode, CcsdsMode::Telemetry);
}

#[test]
fn ccsds_test_ccsds_config_telecommand() {
    let config = CcsdsConfig::telecommand();
    assert_eq!(config.mode, CcsdsMode::Telecommand);
}

#[test]
fn ccsds_test_ccsds_config_with_base_apid() {
    let config = CcsdsConfig::with_base_apid(0x400);
    assert_eq!(config.base_apid, 0x400);
}

#[test]
fn ccsds_test_ccsds_config_with_multicast() {
    let config = CcsdsConfig::with_multicast("239.1.2.3", 8000);
    assert_eq!(config.multicast_addr, Some("239.1.2.3".to_string()));
    assert_eq!(config.udp_port, Some(8000));
}

#[test]
fn test_ccsds_config_clone() {
    let config = CcsdsConfig {
        mode: CcsdsMode::Telecommand,
        base_apid: 0x500,
        use_secondary_header: true,
        max_packet_length: 32768,
        enable_crc: true,
        udp_port: Some(9000),
        multicast_addr: Some("239.0.0.1".to_string()),
    };
    let cloned = config.clone();
    assert_eq!(cloned.mode, CcsdsMode::Telecommand);
    assert_eq!(cloned.base_apid, 0x500);
    assert!(cloned.use_secondary_header);
}

#[test]
fn test_ccsds_mode_default() {
    assert_eq!(CcsdsMode::default(), CcsdsMode::Telemetry);
}

#[test]
fn test_ccsds_mode_equality() {
    assert_eq!(CcsdsMode::Telemetry, CcsdsMode::Telemetry);
    assert_eq!(CcsdsMode::Telecommand, CcsdsMode::Telecommand);
    assert_ne!(CcsdsMode::Telemetry, CcsdsMode::Telecommand);
}

#[test]
fn test_category_from_apid() {
    assert_eq!(category_from_apid(0x300, 0x300), 0);
    assert_eq!(category_from_apid(0x330, 0x300), 48); // CAT 048
    assert_eq!(category_from_apid(0x33E, 0x300), 62); // CAT 062
    assert_eq!(category_from_apid(0x341, 0x300), 65); // CAT 065
    assert_eq!(category_from_apid(0x3FF, 0x300), 255);
}

#[test]
fn test_category_from_apid_invalid() {
    assert_eq!(category_from_apid(0x200, 0x300), 0); // Below base
    assert_eq!(category_from_apid(0x400, 0x300), 0); // Above range
}

#[test]
fn ccsds_test_ccsds_sample_debug() {
    let sample = CcsdsSample {
        category: 48,
        apid: 0x330,
        sequence_count: 42,
        data: vec![0x30, 0x00, 0x10],
        timestamp: 123456,
        packet_type: CcsdsMode::Telemetry,
    };

    let debug = format!("{sample:?}");
    assert!(debug.contains("48"));
    assert!(debug.contains("816")); // 0x330 in decimal
    assert!(debug.contains("42"));
}

#[test]
fn ccsds_test_ccsds_sample_clone() {
    let sample = CcsdsSample {
        category: 62,
        apid: 0x33E,
        sequence_count: 100,
        data: vec![0x3E],
        timestamp: 0,
        packet_type: CcsdsMode::Telecommand,
    };

    let cloned = sample.clone();
    assert_eq!(cloned.category, 62);
    assert_eq!(cloned.apid, 0x33E);
    assert_eq!(cloned.sequence_count, 100);
    assert_eq!(cloned.packet_type, CcsdsMode::Telecommand);
}

#[test]
fn test_ccsds_test_ccsds_config_telemetry() {
    let config = CcsdsConfig::telemetry();

    assert!(matches!(config.mode, CcsdsMode::Telemetry));
    assert_eq!(config.base_apid, 0x300);
}

#[test]
fn test_ccsds_test_ccsds_config_telecommand() {
    let config = CcsdsConfig::telecommand();

    assert!(matches!(config.mode, CcsdsMode::Telecommand));
    assert_eq!(config.base_apid, 0x300);
}

#[test]
fn test_ccsds_mode_telemetry() {
    let mode = CcsdsMode::Telemetry;
    assert!(matches!(mode, CcsdsMode::Telemetry));
}

#[test]
fn test_ccsds_mode_telecommand() {
    let mode = CcsdsMode::Telecommand;
    assert!(matches!(mode, CcsdsMode::Telecommand));
}

#[test]
fn test_ccsds_mode_clone() {
    let mode = CcsdsMode::Telemetry;
    let cloned = mode.clone();
    assert!(matches!(cloned, CcsdsMode::Telemetry));
}

#[test]
fn test_ccsds_mode_debug() {
    let mode = CcsdsMode::Telemetry;
    let debug_str = format!("{:?}", mode);
    assert!(debug_str.contains("Telemetry"));
}

#[test]
fn test_category_from_apid_cat048() {
    // APID 0x330 with base 0x300 should give category 48
    let category = category_from_apid(0x330, 0x300);
    assert_eq!(category, 48);
}

#[test]
fn test_category_from_apid_cat062() {
    // APID 0x33E with base 0x300 should give category 62
    let category = category_from_apid(0x33E, 0x300);
    assert_eq!(category, 62);
}

#[test]
fn test_category_from_apid_cat001() {
    // APID 0x301 with base 0x300 should give category 1
    let category = category_from_apid(0x301, 0x300);
    assert_eq!(category, 1);
}

#[test]
fn test_category_from_apid_base_apid() {
    // APID equals base_apid should give category 0 (mixed categories)
    let category = category_from_apid(0x300, 0x300);
    assert_eq!(category, 0);
}

#[test]
fn test_category_from_apid_different_base() {
    // APID 0x448 with base 0x400 should give category 72
    let category = category_from_apid(0x448, 0x400);
    assert_eq!(category, 72);
}

#[test]
fn test_category_from_apid_max_category() {
    // APID 0x3FF with base 0x300 should give category 255
    let category = category_from_apid(0x3FF, 0x300);
    assert_eq!(category, 255);
}

#[test]
fn test_category_from_apid_overflow_wraps() {
    // Large APID difference wraps in u8
    let category = category_from_apid(0x500, 0x300);
    // 0x500 - 0x300 = 0x200 = 512, which wraps to 0 in u8
    assert_eq!(category, 0);
}

#[test]
fn ccsds_error_texts() {
    assert_eq!(CcsdsError::PacketError("x".into()).to_string(), "CCSDS packet error: x");
    assert_eq!(CcsdsError::EncodeError("x".into()).to_string(), "CCSDS encode error: x");
    assert_eq!(CcsdsError::DecodeError("x".into()).to_string(), "CCSDS decode error: x");
    assert_eq!(CcsdsError::InvalidApid("x".into()).to_string(), "Invalid APID: x");
    assert_eq!(CcsdsError::SerializationError("x".into()).to_string(), "Serialization error: x");
    assert_eq!(CcsdsError::ChannelClosed.to_string(), "Channel closed");
    match AsterixError::from(CcsdsError::ChannelClosed) {
        AsterixError::IOError(text) => assert_eq!(text, "Channel closed"),
        other => panic!("wrong variant: {other:?}"),
    }
}

#[test]
fn category_from_apid_is_total() {
    assert_eq!(category_from_apid(0xFFFF, 0xFFFF), 0);
    assert_eq!(category_from_apid(0xFFFF, 0xFF00), 255);
    assert_eq!(category_from_apid(0xFFFF, 0xFEFF), 0);
    assert_eq!(category_from_apid(0x2FF, 0x300), 0);
    assert_eq!(category_from_apid(0x400, 0x300), 0);
    assert_eq!(category_from_apid(255, 0), 255);
    assert_eq!(category_from_apid(256, 0), 0);
}

#[test]
fn parse_header_reads_the_three_fields() {
    let packet = [0x1F, 0xFF, 0xFF, 0xFE, 0x00, 0x01, 0xAA, 0xBB, 0xCC];
    let (apid, count, data) = parse_ccsds_header(&packet).unwrap();
    assert_eq!(apid, 0x7FF);
    assert_eq!(count, 0x3FFE);
    // bytes beyond the announced length are left out
    assert_eq!(data, vec![0xAA, 0xBB]);
}

#[test]
fn parse_header_error_texts() {
    match parse_ccsds_header(&[0, 1, 2, 3, 4]) {
        Err(CcsdsError::DecodeError(text)) => assert_eq!(text, "Packet too short for CCSDS header"),
        other => panic!("expected a decode error, got {other:?}"),
    }
    match parse_ccsds_header(&[0x03, 0x30, 0xC0, 0x00, 0x00, 0x09, 0x30, 0x00]) {
        Err(CcsdsError::DecodeError(text)) => {
            assert_eq!(text, "Packet data truncated: expected 16 bytes, got 8")
        }
        other => panic!("expected a decode error, got {other:?}"),
    }
    match parse_ccsds_header(&[0x03, 0x30, 0xC0, 0x01, 0xFF, 0xFF]) {
        Err(CcsdsError::DecodeError(text)) => {
            assert_eq!(text, "Packet data truncated: expected 65542 bytes, got 6")
        }
        other => panic!("expected a decode error, got {other:?}"),
    }
}

#[test]
fn publish_raw_builds_a_telemetry_packet() {
    let mut publisher = CcsdsPublisher::new(CcsdsConfig::default());
    assert_eq!(publisher.calculate_apid(48), 0x330);
    let packet = publisher.publish_raw(48, &[0x30, 0x00, 0x10]).unwrap();
    assert_eq!(packet, vec![0x03, 0x30, 0xC0, 0x00, 0x00, 0x02, 0x30, 0x00, 0x10]);
    let next = publisher.publish_raw(48, &[0x30]).unwrap();
    assert_eq!(next, vec![0x03, 0x30, 0xC0, 0x01, 0x00, 0x00, 0x30]);
    let other = publisher.publish_raw(62, &[]).unwrap();
    assert_eq!(other, vec![0x03, 0x3E, 0xC0, 0x00, 0x00, 0x00]);
}

#[test]
fn publish_raw_builds_a_telecommand_packet() {
    let mut publisher = CcsdsPublisher::new(CcsdsConfig::telecommand());
    publisher.sequence_counters.insert(0x3FF, 0x3FFF);
    let packet = publisher.publish_raw(255, &[1, 2]).unwrap();
    assert_eq!(packet, vec![0x13, 0xFF, 0xFF, 0xFF, 0x00, 0x01, 1, 2]);
    let (apid, count, data) = parse_ccsds_header(&packet).unwrap();
    assert_eq!((apid, count, data), (0x3FF, 0x3FFF, vec![1, 2]));
    // the counter wrapped
    let packet = publisher.publish_raw(255, &[9]).unwrap();
    assert_eq!(&packet[2..4], &[0xC0, 0x00]);
}

#[test]
fn sequence_counts_start_at_zero_and_wrap() {
    let mut publisher = CcsdsPublisher::new(CcsdsConfig::default());
    assert_eq!(publisher.next_sequence_count(0x330), 0);
    assert_eq!(publisher.next_sequence_count(0x330), 1);
    assert_eq!(publisher.next_sequence_count(0x331), 0);
    assert_eq!(publisher.next_sequence_count(0x330), 2);
    publisher.sequence_counters.insert(0x330, 0x3FFF);
    assert_eq!(publisher.next_sequence_count(0x330), 0x3FFF);
    assert_eq!(publisher.next_sequence_count(0x330), 0);
}

#[test]
fn ccsds_hex_to_bytes() {
    let publisher = CcsdsPublisher::new(CcsdsConfig::default());
    assert_eq!(publisher.hex_to_bytes("30 00 1E").unwrap(), vec![0x30, 0x00, 0x1E]);
    match publisher.hex_to_bytes("123") {
        Err(CcsdsError::SerializationError(text)) => assert_eq!(text, "Invalid hex string length"),
        other => panic!("expected a serialization error, got {other:?}"),
    }
    match publisher.hex_to_bytes("GHIJ") {
        Err(CcsdsError::SerializationError(text)) => {
            assert_eq!(text, "invalid digit found in string")
        }
        other => panic!("expected a serialization error, got {other:?}"),
    }
}

#[test]
fn ccsds_sample_holds_its_fields() {
    let sample = CcsdsSample {
        category: 48,
        apid: 0x330,
        sequence_count: 42,
        data: vec![0x30],
        timestamp: 7,
        packet_type: CcsdsMode::Telecommand,
    };
    assert_eq!(sample.clone().data, vec![0x30]);
    assert_eq!(sample.packet_type, CcsdsMode::Telecommand);
}

#[test]
fn test_parse_ccsds_header_valid() {
    // Create a minimal CCSDS packet
    // Version=0, Type=TM, SecHdr=0, APID=0x330 (CAT 048)
    let packet = vec![
        0x03, 0x30, // Packet ID (version=0, type=0, sec=0, apid=0x330)
        0xC0, 0x00, // Sequence flags=11 (unsegmented), count=0
        0x00, 0x03, // Data length = 3 (4 bytes of data)
        0x30, 0x00, 0x10, 0xAA, // 4 bytes of ASTERIX data
    ];

    let result = parse_ccsds_header(&packet);
    assert!(result.is_ok());

    let (apid, seq_count, data) = result.unwrap();
    assert_eq!(apid, 0x330);
    assert_eq!(seq_count, 0);
    assert_eq!(data.len(), 4);
    assert_eq!(data, vec![0x30, 0x00, 0x10, 0xAA]);
}

#[test]
fn ccsds_test_parse_ccsds_header_too_short() {
    let packet = vec![0x00, 0x01, 0x02]; // Only 3 bytes
    let result = parse_ccsds_header(&packet);
    assert!(result.is_err());
    assert!(result.unwrap_err().to_string().contains("too short"));
}

#[test]
fn test_parse_ccsds_header_truncated_data() {
    // Header says data length is 10, but only 2 bytes provided
    let packet = vec![
        0x03, 0x30, // Packet ID
        0xC0, 0x00, // Sequence
        0x00, 0x09, // Data length = 9 (10 bytes expected)
        0x30, 0x00, // Only 2 bytes of data
    ];

    let result = parse_ccsds_header(&packet);
    assert!(result.is_err());
    assert!(result.unwrap_err().to_string().contains("truncated"));
}

#[test]
fn test_parse_ccsds_header_valid_telemetry() {
    // Create a valid CCSDS telemetry packet
    // Packet Version: 0, Type: 0 (TM), Sec Hdr: 0, APID: 0x330 (CAT 048)
    // Seq Flags: 3 (unsegmented), Seq Count: 0x0001
    // Data Length: 0x0003 (4 bytes of data)
    let packet: [u8; 10] = [
        0x03, 0x30, // Version=0, Type=0, SecHdr=0, APID=0x330
        0xC0, 0x01, // SeqFlags=3, SeqCount=1
        0x00, 0x03, // Data Length = 3 (means 4 bytes)
        0x30, 0x00, 0x04, 0x01, // ASTERIX data (CAT 048, len 4)
    ];

    let result = parse_ccsds_header(&packet);
    assert!(result.is_ok());

    let (apid, seq_count, data) = result.unwrap();
    assert_eq!(apid, 0x330);
    assert_eq!(seq_count, 1);
    assert_eq!(data.len(), 4);
}

#[test]
fn test_parse_ccsds_header_exactly_header_size() {
    // Just the header, no data
    let packet: [u8; 6] = [
        0x03, 0x30, // APID 0x330
        0xC0, 0x01, // SeqCount 1
        0xFF, 0xFF, // Data length = 65535 (but no actual data)
    ];

    let result = parse_ccsds_header(&packet);
    // Should fail because data length indicates more data than present
    assert!(result.is_err());
}

#[test]
fn test_parse_ccsds_header_telecommand_packet() {
    // Packet Type = 1 (Telecommand)
    let packet: [u8; 10] = [
        0x13, 0x30, // Version=0, Type=1 (TC), SecHdr=0, APID=0x330
        0xC0, 0x02, // SeqFlags=3, SeqCount=2
        0x00, 0x03, // Data Length = 3
        0x30, 0x00, 0x04, 0x01,
    ];

    let result = parse_ccsds_header(&packet);
    assert!(result.is_ok());

    let (apid, seq_count, _data) = result.unwrap();
    assert_eq!(apid, 0x330);
    assert_eq!(seq_count, 2);
}

#[test]
fn test_parse_ccsds_header_with_secondary_header_flag() {
    // Secondary Header Flag = 1
    let packet: [u8; 10] = [
        0x0B, 0x30, // Version=0, Type=0, SecHdr=1, APID=0x330
        0xC0, 0x03, // SeqFlags=3, SeqCount=3
        0x00, 0x03, // Data Length = 3
        0x30, 0x00, 0x04, 0x01,
    ];

    let result = parse_ccsds_header(&packet);
    // Parser should still work even with secondary header flag
    assert!(result.is_ok());
}

#[test]
fn test_parse_ccsds_header_max_apid() {
    // Maximum APID (0x7FF = 2047)
    let packet: [u8; 10] = [
        0x07, 0xFF, // APID = 0x7FF
        0xC0, 0x00, // SeqFlags=3, SeqCount=0
        0x00, 0x03, // Data Length = 3
        0x30, 0x00, 0x04, 0x01,
    ];

    let result = parse_ccsds_header(&packet);
    assert!(result.is_ok());

    let (apid, _, _) = result.unwrap();
    assert_eq!(apid, 0x7FF);
}

#[test]
fn test_parse_ccsds_header_zero_length_data() {
    // Data Length = 0 means 1 byte of data
    let packet: [u8; 7] = [
        0x03, 0x30, // APID 0x330
        0xC0, 0x00, // SeqCount 0
        0x00, 0x00, // Data Length = 0 (means 1 byte)
        0x30,       // 1 byte of data
    ];

    let result = parse_ccsds_header(&packet);
    assert!(result.is_ok());

    let (_, _, data) = result.unwrap();
    assert_eq!(data.len(), 1);
}
