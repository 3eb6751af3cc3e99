//! Zenoh transport: configuration, errors, samples and key expressions.

use asterix::transport::zenoh::{
    parse_key_expr, AsterixSample, CongestionControl, Priority, ZenohConfig, ZenohError,
    ZenohPublisher,
};
use asterix::AsterixError;

#[test]
fn test_parse_key_expr_category_only() {
    assert_eq!(parse_key_expr("asterix/48", "asterix"), (48, None, None));
    assert_eq!(parse_key_expr("asterix/62", "asterix"), (62, None, None));
    assert_eq!(parse_key_expr("asterix/255", "asterix"), (255, None, None));
}

#[test]
fn test_parse_key_expr_with_sac_sic() {
    assert_eq!(
        parse_key_expr("asterix/62/1/2", "asterix"),
        (62, Some(1), Some(2))
    );
    assert_eq!(
        parse_key_expr("asterix/65/10/20", "asterix"),
        (65, Some(10), Some(20))
    );
    assert_eq!(
        parse_key_expr("asterix/48/255/255", "asterix"),
        (48, Some(255), Some(255))
    );
}

#[test]
fn test_parse_key_expr_partial_routing() {
    // Only SAC, no SIC
    assert_eq!(
        parse_key_expr("asterix/48/1", "asterix"),
        (48, Some(1), None)
    );
}

#[test]
fn test_parse_key_expr_invalid_category() {
    // Invalid category returns 0
    assert_eq!(
        parse_key_expr("asterix/invalid", "asterix"),
        (0, None, None)
    );
    assert_eq!(parse_key_expr("asterix/", "asterix"), (0, None, None));
}

#[test]
fn test_parse_key_expr_different_prefix() {
    // Using different prefix
    assert_eq!(
        parse_key_expr("custom/48/1/2", "custom"),
        (48, Some(1), Some(2))
    );
    assert_eq!(
        parse_key_expr("atm/surveillance/62", "atm/surveillance"),
        (62, None, None)
    );
}

#[test]
fn test_parse_key_expr_no_prefix() {
    // If key doesn't start with prefix, parse from beginning
    assert_eq!(parse_key_expr("48/1/2", "asterix"), (48, Some(1), Some(2)));
}

#[test]
fn zenoh_test_zenoh_config_default() {
    let config = ZenohConfig::default();
    assert!(config.endpoints.is_empty());
    assert_eq!(config.key_prefix, "asterix");
    assert!(config.include_raw_bytes);
    assert!(matches!(
        config.congestion_control,
        CongestionControl::Block
    ));
    assert!(matches!(config.priority, Priority::Data));
}

#[test]
fn zenoh_test_zenoh_config_with_router() {
    let config = ZenohConfig::with_router("tcp/192.168.1.1:7447");
    assert_eq!(config.endpoints.len(), 1);
    assert_eq!(config.endpoints[0], "tcp/192.168.1.1:7447");
    assert_eq!(config.key_prefix, "asterix"); // Should preserve defaults
}

#[test]
fn test_zenoh_config_with_multiple_endpoints() {
    let endpoints = vec![
        "tcp/10.0.0.1:7447".to_string(),
        "tcp/10.0.0.2:7447".to_string(),
        "udp/10.0.0.3:7448".to_string(),
    ];
    let config = ZenohConfig::with_endpoints(endpoints.clone());
    assert_eq!(config.endpoints, endpoints);
}

#[test]
fn zenoh_test_zenoh_config_peer_to_peer() {
    let config = ZenohConfig::peer_to_peer();
    assert!(config.endpoints.is_empty());
}

#[test]
fn test_zenoh_config_clone() {
    let config = ZenohConfig::with_router("tcp/10.0.0.1:7447");
    let cloned = config.clone();
    assert_eq!(config.endpoints, cloned.endpoints);
    assert_eq!(config.key_prefix, cloned.key_prefix);
}

#[test]
fn test_zenoh_error_display_variants() {
    let errors = vec![
        (ZenohError::SessionError("test".to_string()), "session"),
        (ZenohError::PublisherError("test".to_string()), "publisher"),
        (
            ZenohError::SubscriberError("test".to_string()),
            "subscriber",
        ),
        (ZenohError::PublishError("test".to_string()), "publish"),
        (ZenohError::ReceiveError("test".to_string()), "receive"),
        (
            ZenohError::SerializationError("test".to_string()),
            "Serialization",
        ),
        (ZenohError::ChannelClosed, "closed"),
    ];

    for (err, expected_substr) in errors {
        let display = err.to_string();
        assert!(
            display
                .to_lowercase()
                .contains(&expected_substr.to_lowercase()),
            "Expected '{}' to contain '{}': got '{}'",
            "err",
            expected_substr,
            display
        );
    }
}

#[test]
fn test_zenoh_error_debug() {
    let err = ZenohError::SessionError("debug test".to_string());
    let debug_str = format!("{err:?}");
    assert!(debug_str.contains("SessionError"));
    assert!(debug_str.contains("debug test"));
}

#[test]
fn zenoh_test_zenoh_error_to_asterix_error() {
    let zenoh_err = ZenohError::PublishError("publish failed".to_string());
    let asterix_err: AsterixError = zenoh_err.into();

    match asterix_err {
        AsterixError::IOError(msg) => {
            assert!(msg.contains("publish"));
        }
        _ => panic!("Expected IOError variant"),
    }
}

#[test]
fn test_congestion_control_default() {
    let cc: CongestionControl = Default::default();
    assert!(matches!(cc, CongestionControl::Block));
}

#[test]
fn test_priority_default() {
    let p: Priority = Default::default();
    assert!(matches!(p, Priority::Data));
}

#[test]
fn test_priority_variants_exist() {
    // Ensure all variants can be constructed
    let _ = Priority::RealTime;
    let _ = Priority::Interactive;
    let _ = Priority::Data;
    let _ = Priority::Background;
}

#[test]
fn test_congestion_control_copy() {
    let cc = CongestionControl::Drop;
    let cc_copy = cc; // Copy
    assert!(matches!(cc_copy, CongestionControl::Drop));
}

#[test]
fn test_asterix_sample_clone() {
    let sample = AsterixSample {
        category: 48,
        sac: Some(1),
        sic: Some(2),
        data: vec![0x30, 0x00, 0x10],
        timestamp: 123456,
        key_expr: "asterix/48/1/2".to_string(),
    };

    let cloned = sample.clone();
    assert_eq!(sample.category, cloned.category);
    assert_eq!(sample.sac, cloned.sac);
    assert_eq!(sample.sic, cloned.sic);
    assert_eq!(sample.data, cloned.data);
    assert_eq!(sample.timestamp, cloned.timestamp);
    assert_eq!(sample.key_expr, cloned.key_expr);
}

#[test]
fn zenoh_test_asterix_sample_debug() {
    let sample = AsterixSample {
        category: 62,
        sac: None,
        sic: None,
        data: vec![0x3E],
        timestamp: 0,
        key_expr: "asterix/62".to_string(),
    };

    let debug_str = format!("{sample:?}");
    assert!(debug_str.contains("62"));
    assert!(debug_str.contains("AsterixSample"));
}

#[test]
fn test_zenoh_error_variants_complete() {
    // Test all ZenohError variants have proper Display implementations
    let errors = vec![
        ZenohError::SessionError("session error".to_string()),
        ZenohError::PublisherError("publisher error".to_string()),
        ZenohError::SubscriberError("subscriber error".to_string()),
        ZenohError::PublishError("publish error".to_string()),
        ZenohError::ReceiveError("receive error".to_string()),
        ZenohError::SerializationError("serialization error".to_string()),
        ZenohError::ChannelClosed,
    ];

    for err in errors {
        let display = err.to_string();
        let debug = format!("{err:?}");
        assert!(!display.is_empty(), "Display should not be empty");
        assert!(!debug.is_empty(), "Debug should not be empty");
    }
}

#[test]
fn test_publisher_error_display() {
    let err = ZenohError::PublisherError("test publisher error".to_string());
    let display = err.to_string();
    assert!(
        display.contains("publisher"),
        "Display should contain 'publisher'"
    );
    assert!(
        display.contains("test publisher error"),
        "Display should contain message"
    );
}

#[test]
fn test_receive_error_display() {
    let err = ZenohError::ReceiveError("channel disconnected".to_string());
    let display = err.to_string();
    assert!(
        display.contains("receive"),
        "Display should contain 'receive'"
    );
    assert!(display.contains("channel disconnected"));
}

#[test]
fn test_zenoh_config_debug_and_clone() {
    let config = ZenohConfig {
        congestion_control: CongestionControl::Drop,
        priority: Priority::RealTime,
        ..Default::default()
    };

    let debug_str = format!("{config:?}");
    assert!(debug_str.contains("ZenohConfig"));
    assert!(debug_str.contains("asterix"));

    let cloned = config.clone();
    assert!(matches!(cloned.congestion_control, CongestionControl::Drop));
    assert!(matches!(cloned.priority, Priority::RealTime));
}

#[test]
fn test_priority_clone_copy() {
    let p1 = Priority::Interactive;
    let p2 = p1; // Copy
    let p3 = p1; // Clone
    assert!(matches!(p2, Priority::Interactive));
    assert!(matches!(p3, Priority::Interactive));
}

#[test]
fn test_congestion_control_debug() {
    let cc = CongestionControl::Block;
    let debug_str = format!("{cc:?}");
    assert!(debug_str.contains("Block"));

    let cc2 = CongestionControl::Drop;
    let debug_str2 = format!("{cc2:?}");
    assert!(debug_str2.contains("Drop"));
}

#[test]
fn test_asterix_sample_empty_data() {
    let sample = AsterixSample {
        category: 0,
        sac: None,
        sic: None,
        data: Vec::new(),
        timestamp: 0,
        key_expr: String::new(),
    };

    assert!(sample.data.is_empty());
    assert_eq!(sample.category, 0);
}

#[test]
fn test_parse_key_expr_edge_cases() {
    // Empty string
    assert_eq!(parse_key_expr("", "asterix"), (0, None, None));

    // Just prefix
    assert_eq!(parse_key_expr("asterix", "asterix"), (0, None, None));

    // Prefix with trailing slash
    assert_eq!(parse_key_expr("asterix/", "asterix"), (0, None, None));

    // Very large category number (overflows u8)
    assert_eq!(parse_key_expr("asterix/999", "asterix"), (0, None, None));

    // Negative numbers - category fails to parse but SAC/SIC still parsed
    assert_eq!(
        parse_key_expr("asterix/-1/1/2", "asterix"),
        (0, Some(1), Some(2))
    );

    // With extra path segments
    assert_eq!(
        parse_key_expr("asterix/48/1/2/extra", "asterix"),
        (48, Some(1), Some(2))
    );
}

#[test]
fn test_zenoh_test_zenoh_config_default() {
    let config = ZenohConfig::default();

    assert!(config.endpoints.is_empty());
    assert_eq!(config.key_prefix, "asterix");
    assert!(config.include_raw_bytes);
    assert!(matches!(
        config.congestion_control,
        CongestionControl::Block
    ));
    assert!(matches!(config.priority, Priority::Data));
}

#[test]
fn test_zenoh_test_zenoh_config_with_router() {
    let config = ZenohConfig::with_router("tcp/192.168.1.1:7447");

    assert_eq!(config.endpoints.len(), 1);
    assert_eq!(config.endpoints[0], "tcp/192.168.1.1:7447");
    assert_eq!(config.key_prefix, "asterix");
}

#[test]
fn test_zenoh_config_with_endpoints() {
    let endpoints = vec![
        "tcp/10.0.0.1:7447".to_string(),
        "tcp/10.0.0.2:7447".to_string(),
    ];
    let config = ZenohConfig::with_endpoints(endpoints.clone());

    assert_eq!(config.endpoints.len(), 2);
    assert_eq!(config.endpoints, endpoints);
}

#[test]
fn test_zenoh_test_zenoh_config_peer_to_peer() {
    let config = ZenohConfig::peer_to_peer();

    // Peer-to-peer mode uses empty endpoints (multicast discovery)
    assert!(config.endpoints.is_empty());
}

#[test]
fn test_zenoh_error_display() {
    let session_err = ZenohError::SessionError("connection failed".to_string());
    assert!(session_err.to_string().contains("connection failed"));
    assert!(session_err.to_string().contains("session"));

    let publish_err = ZenohError::PublishError("timeout".to_string());
    assert!(publish_err.to_string().contains("timeout"));
    assert!(publish_err.to_string().contains("publish"));

    let subscriber_err = ZenohError::SubscriberError("invalid key".to_string());
    assert!(subscriber_err.to_string().contains("invalid key"));
    assert!(subscriber_err.to_string().contains("subscriber"));

    let receive_err = ZenohError::ReceiveError("channel closed".to_string());
    assert!(receive_err.to_string().contains("channel closed"));
    assert!(receive_err.to_string().contains("receive"));

    let serial_err = ZenohError::SerializationError("invalid format".to_string());
    assert!(serial_err.to_string().contains("invalid format"));
    assert!(serial_err.to_string().contains("Serialization"));

    let channel_err = ZenohError::ChannelClosed;
    assert!(channel_err.to_string().contains("closed"));
}

#[test]
fn test_zenoh_test_zenoh_error_to_asterix_error() {
    let zenoh_err = ZenohError::SessionError("test error".to_string());
    let asterix_err: AsterixError = zenoh_err.into();

    // Should convert to IOError variant
    match asterix_err {
        AsterixError::IOError(msg) => {
            assert!(msg.contains("test error"));
        }
        _ => panic!("Expected IOError variant"),
    }
}

#[test]
fn test_zenoh_test_asterix_sample_creation() {
    let sample = AsterixSample {
        category: 48,
        sac: Some(1),
        sic: Some(2),
        data: vec![0x30, 0x00, 0x10],
        timestamp: 1234567890,
        key_expr: "asterix/48/1/2".to_string(),
    };

    assert_eq!(sample.category, 48);
    assert_eq!(sample.sac, Some(1));
    assert_eq!(sample.sic, Some(2));
    assert_eq!(sample.data.len(), 3);
    assert_eq!(sample.timestamp, 1234567890);
    assert_eq!(sample.key_expr, "asterix/48/1/2");
}

#[test]
fn test_zenoh_test_asterix_sample_without_sac_sic() {
    let sample = AsterixSample {
        category: 62,
        sac: None,
        sic: None,
        data: vec![0x3E, 0x00, 0x20],
        timestamp: 0,
        key_expr: "asterix/62".to_string(),
    };

    assert_eq!(sample.category, 62);
    assert!(sample.sac.is_none());
    assert!(sample.sic.is_none());
}

#[test]
fn test_priority_variants() {
    let _realtime = Priority::RealTime;
    let _interactive = Priority::Interactive;
    let _data = Priority::Data;
    let _background = Priority::Background;

    // Test default
    let default: Priority = Default::default();
    assert!(matches!(default, Priority::Data));
}

#[test]
fn test_congestion_control_variants() {
    let _block = CongestionControl::Block;
    let _drop = CongestionControl::Drop;

    // Test default
    let default: CongestionControl = Default::default();
    assert!(matches!(default, CongestionControl::Block));
}

#[test]
fn zenoh_error_texts() {
    assert_eq!(ZenohError::SessionError("x".into()).to_string(), "Zenoh session error: x");
    assert_eq!(ZenohError::PublisherError("x".into()).to_string(), "Zenoh publisher error: x");
    assert_eq!(ZenohError::SubscriberError("x".into()).to_string(), "Zenoh subscriber error: x");
    assert_eq!(ZenohError::PublishError("x".into()).to_string(), "Zenoh publish error: x");
    assert_eq!(ZenohError::ReceiveError("x".into()).to_string(), "Zenoh receive error: x");
    assert_eq!(ZenohError::SerializationError("x".into()).to_string(), "Serialization error: x");
    assert_eq!(ZenohError::ChannelClosed.to_string(), "Channel closed");
}

#[test]
fn key_expressions_are_built_from_category_and_source() {
    let publisher = ZenohPublisher::new(ZenohConfig::default());
    assert_eq!(publisher.build_key_expr(48, None, None), "asterix/48");
    assert_eq!(publisher.build_key_expr(62, Some(1), Some(2)), "asterix/62/1/2");
    assert_eq!(publisher.build_key_expr(0, Some(255), Some(0)), "asterix/0/255/0");
    assert_eq!(publisher.build_key_expr(9, Some(1), None), "asterix/9");
    assert_eq!(publisher.build_key_expr(9, None, Some(1)), "asterix/9");
}

#[test]
fn key_expressions_round_trip() {
    let publisher = ZenohPublisher::new(ZenohConfig::default());
    for (category, sac, sic) in [(0u8, None, None), (48, Some(1), Some(2)), (255, Some(255), Some(0))] {
        let key = publisher.build_key_expr(category, sac, sic);
        assert_eq!(parse_key_expr(&key, "asterix"), (category, sac, sic));
    }
}

#[test]
fn key_expression_fields_go_by_position() {
    assert_eq!(parse_key_expr("asterix//1/2", "asterix"), (1, Some(2), None));
    assert_eq!(parse_key_expr("asterix/48//2", "asterix"), (48, None, Some(2)));
    assert_eq!(parse_key_expr("asterix/x/1/y", "asterix"), (0, Some(1), None));
    assert_eq!(parse_key_expr("asterix/+48/007/256", "asterix"), (48, Some(7), None));
    assert_eq!(parse_key_expr("asterix48/1", "asterix"), (48, Some(1), None));
    assert_eq!(parse_key_expr("other/48/1", "asterix"), (0, Some(48), Some(1)));
}

#[test]
fn zenoh_hex_to_bytes() {
    let publisher = ZenohPublisher::new(ZenohConfig::default());
    assert_eq!(publisher.hex_to_bytes("30 00\n1e").unwrap(), vec![0x30, 0x00, 0x1E]);
    match publisher.hex_to_bytes("abc") {
        Err(ZenohError::SerializationError(text)) => assert_eq!(text, "Invalid hex string length"),
        other => panic!("expected a serialization error, got {other:?}"),
    }
    match publisher.hex_to_bytes("zz") {
        Err(ZenohError::SerializationError(text)) => assert_eq!(text, "invalid digit found in string"),
        other => panic!("expected a serialization error, got {other:?}"),
    }
}

#[test]
fn zenoh_config_constructors_keep_defaults() {
    for config in [
        ZenohConfig::with_router("tcp/1.2.3.4:7447"),
        ZenohConfig::with_endpoints(vec!["a".to_string(), "b".to_string()]),
        ZenohConfig::peer_to_peer(),
    ] {
        assert_eq!(config.key_prefix, "asterix");
        assert!(config.include_raw_bytes);
        assert!(config.include_parsed);
        assert!(matches!(config.congestion_control, CongestionControl::Block));
        assert!(matches!(config.priority, Priority::Data));
    }
}

#[test]
fn test_key_expr_format() {
    // Validate expected key expression formats
    let formats = vec![
        ("asterix/48", "Category only"),
        ("asterix/48/1", "Category + SAC"),
        ("asterix/48/1/2", "Full: Category/SAC/SIC"),
        ("asterix/62/10/20", "Higher SAC/SIC values"),
        ("asterix/255/255/255", "Maximum values"),
    ];

    for (key_expr, description) in formats {
        // Parse manually to validate format
        let parts: Vec<&str> = key_expr
            .strip_prefix("asterix/")
            .unwrap_or(key_expr)
            .split('/')
            .collect();

        assert!(!parts.is_empty(), "Invalid format: {description}");

        // Category should be parseable as u8
        let category: Result<u8, _> = parts[0].parse();
        assert!(category.is_ok(), "Invalid category in: {description}");

        println!("{description}: {key_expr} parsed successfully");
    }
}
