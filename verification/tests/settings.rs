use desk_switch::config::{default_true, default_vd_height, default_vd_width, Config, ConfigError};
use desk_switch::identity::hostname_or_unknown;
use desk_switch::numparse::{decimal_string, parse_bool, parse_unsigned};

fn sample() -> Config {
    Config::with_identity("desk".to_string(), "k".to_string())
}

#[test]
fn fresh_configuration() {
    let c = sample();
    assert_eq!(c.hostname, "desk");
    assert_eq!(c.default_role, "idle");
    assert_eq!(c.auth_key, "k");
    assert_eq!(c.stream_port, 9876);
    assert_eq!(c.discovery_port, 9877);
    assert_eq!(c.capture_quality, 60);
    assert_eq!(c.capture_monitor, 0);
    assert_eq!(c.viewer_monitor, 0);
    assert_eq!(c.max_fps, 30);
    assert_eq!(c.virtual_display_width, 1920);
    assert_eq!(c.virtual_display_height, 1080);
    assert!(c.use_virtual_display);
    assert_eq!(default_vd_width(), 1920);
    assert_eq!(default_vd_height(), 1080);
    assert!(default_true());
}

#[test]
fn default_configuration_has_fresh_key() {
    let a = Config::default();
    let b = Config::default();
    assert_eq!(a.auth_key.len(), 64);
    assert!(a.auth_key.chars().all(|c| c.is_ascii_digit() || ('a'..='f').contains(&c)));
    assert_ne!(a.auth_key, b.auth_key);
    assert!(!a.hostname.is_empty());
    assert_eq!(a.default_role, "idle");
}

#[test]
fn auth_hash_is_sha256_of_key() {
    let c = Config::with_identity("h".to_string(), "abc".to_string());
    let expected: Vec<u8> = vec![
        0xba, 0x78, 0x16, 0xbf, 0x8f, 0x01, 0xcf, 0xea, 0x41, 0x41, 0x40, 0xde, 0x5d, 0xae, 0x22,
        0x23, 0xb0, 0x03, 0x61, 0xa3, 0x96, 0x17, 0x7a, 0x9c, 0xb4, 0x10, 0xff, 0x61, 0xf2, 0x00,
        0x15, 0xad,
    ];
    assert_eq!(c.auth_hash(), expected);
}

#[test]
fn set_each_field() {
    let mut c = sample();
    c.set_field("hostname", "other").unwrap();
    c.set_field("default_role", "primary").unwrap();
    c.set_field("auth_key", "abcdef").unwrap();
    c.set_field("stream_port", "1234").unwrap();
    c.set_field("discovery_port", "+65535").unwrap();
    c.set_field("capture_quality", "100").unwrap();
    c.set_field("capture_monitor", "2").unwrap();
    c.set_field("viewer_monitor", "3").unwrap();
    c.set_field("max_fps", "60").unwrap();
    c.set_field("virtual_display_width", "2560").unwrap();
    c.set_field("virtual_display_height", "1440").unwrap();
    c.set_field("use_virtual_display", "false").unwrap();
    assert_eq!(c.hostname, "other");
    assert_eq!(c.default_role, "primary");
    assert_eq!(c.auth_key, "abcdef");
    assert_eq!(c.stream_port, 1234);
    assert_eq!(c.discovery_port, 65535);
    assert_eq!(c.capture_quality, 100);
    assert_eq!(c.capture_monitor, 2);
    assert_eq!(c.viewer_monitor, 3);
    assert_eq!(c.max_fps, 60);
    assert_eq!(c.virtual_display_width, 2560);
    assert_eq!(c.virtual_display_height, 1440);
    assert!(!c.use_virtual_display);
}

fn assert_rejected(key: &str, value: &str, message: &str) {
    let mut c = sample();
    let err = c.set_field(key, value).unwrap_err();
    assert_eq!(err.message(), message);
    let fresh = sample();
    assert_eq!(c.hostname, fresh.hostname);
    assert_eq!(c.default_role, fresh.default_role);
    assert_eq!(c.stream_port, fresh.stream_port);
    assert_eq!(c.discovery_port, fresh.discovery_port);
    assert_eq!(c.capture_quality, fresh.capture_quality);
    assert_eq!(c.max_fps, fresh.max_fps);
    assert_eq!(c.virtual_display_width, fresh.virtual_display_width);
    assert_eq!(c.use_virtual_display, fresh.use_virtual_display);
}

#[test]
fn set_field_errors() {
    assert_rejected("default_role", "boss", "Invalid role: boss. Must be idle, primary, or display");
    assert_rejected("stream_port", "70000", "Invalid port number");
    assert_rejected("stream_port", "-1", "Invalid port number");
    assert_rejected("discovery_port", "", "Invalid port number");
    assert_rejected("discovery_port", " 80", "Invalid port number");
    assert_rejected("capture_quality", "256", "Invalid quality (1-100)");
    assert_rejected("capture_quality", "0", "Quality must be between 1 and 100");
    assert_rejected("capture_quality", "101", "Quality must be between 1 and 100");
    assert_rejected("capture_monitor", "x", "Invalid monitor index");
    assert_rejected("viewer_monitor", "+", "Invalid monitor index");
    assert_rejected("max_fps", "fast", "Invalid FPS value");
    assert_rejected("max_fps", "61", "FPS must be between 1 and 60");
    assert_rejected("max_fps", "0", "FPS must be between 1 and 60");
    assert_rejected("virtual_display_width", "1e3", "Invalid width");
    assert_rejected("virtual_display_height", "4294967296", "Invalid height");
    assert_rejected("use_virtual_display", "yes", "Must be true or false");
    assert_rejected("colour", "blue", "Unknown config key: colour");
}

#[test]
fn set_field_error_variants() {
    let mut c = sample();
    assert!(matches!(c.set_field("default_role", "x"), Err(ConfigError::InvalidRole { ref value }) if value == "x"));
    assert!(matches!(c.set_field("nope", "1"), Err(ConfigError::UnknownKey { ref key }) if key == "nope"));
    assert!(matches!(c.set_field("stream_port", "x"), Err(ConfigError::InvalidPort)));
    assert!(matches!(c.set_field("capture_quality", "x"), Err(ConfigError::InvalidQuality)));
    assert!(matches!(c.set_field("capture_quality", "0"), Err(ConfigError::QualityOutOfRange)));
    assert!(matches!(c.set_field("capture_monitor", "x"), Err(ConfigError::InvalidMonitorIndex)));
    assert!(matches!(c.set_field("max_fps", "x"), Err(ConfigError::InvalidFps)));
    assert!(matches!(c.set_field("max_fps", "99"), Err(ConfigError::FpsOutOfRange)));
    assert!(matches!(c.set_field("virtual_display_width", "x"), Err(ConfigError::InvalidWidth)));
    assert!(matches!(c.set_field("virtual_display_height", "x"), Err(ConfigError::InvalidHeight)));
    assert!(matches!(c.set_field("use_virtual_display", "1"), Err(ConfigError::InvalidBool)));
}

#[test]
fn set_field_twice_is_like_once() {
    let mut c = sample();
    c.set_field("max_fps", "15").unwrap();
    c.set_field("max_fps", "15").unwrap();
    assert_eq!(c.max_fps, 15);
    c.set_field("max_fps", "20").unwrap();
    assert_eq!(c.max_fps, 20);
}

#[test]
fn edits_keep_configuration_valid() {
    let mut c = sample();
    for (k, v) in [("capture_quality", "0"), ("max_fps", "100"), ("default_role", "boss"), ("capture_quality", "1")] {
        let _ = c.set_field(k, v);
        assert!((1..=100).contains(&c.capture_quality));
        assert!((1..=60).contains(&c.max_fps));
        assert!(["idle", "primary", "display"].contains(&c.default_role.as_str()));
    }
}

#[test]
fn unsigned_parsing() {
    assert_eq!(parse_unsigned("007", 255), Some(7));
    assert_eq!(parse_unsigned("+42", 255), Some(42));
    assert_eq!(parse_unsigned("255", 255), Some(255));
    assert_eq!(parse_unsigned("256", 255), None);
    assert_eq!(parse_unsigned("", 255), None);
    assert_eq!(parse_unsigned("+", 255), None);
    assert_eq!(parse_unsigned("-0", 255), None);
    assert_eq!(parse_unsigned("1_0", 255), None);
    assert_eq!(parse_unsigned("12 ", 255), None);
    assert_eq!(parse_unsigned("18446744073709551615", u64::MAX), Some(u64::MAX));
    assert_eq!(parse_unsigned("18446744073709551616", u64::MAX), None);
    assert_eq!(parse_unsigned("٣", 255), None);
}

#[test]
fn parsing_agrees_with_std() {
    for s in ["0", "00", "+7", "-7", "65535", "65536", "", "+", "a1", "1 ", "99999999999"] {
        assert_eq!(parse_unsigned(s, u16::MAX as u64).map(|v| v as u16), s.parse::<u16>().ok(), "{s}");
    }
    for s in ["true", "false", "True", " true", ""] {
        assert_eq!(parse_bool(s), s.parse::<bool>().ok());
    }
}

#[test]
fn decimal_spelling() {
    assert_eq!(decimal_string(0), "0");
    assert_eq!(decimal_string(9876), "9876");
    assert_eq!(decimal_string(u64::MAX), u64::MAX.to_string());
    for n in [0u64, 1, 9, 10, 99, 100, 65535, 1234567] {
        assert_eq!(parse_unsigned(&decimal_string(n), u64::MAX), Some(n));
    }
}

#[test]
fn hostname_falls_back_to_unknown() {
    assert_eq!(hostname_or_unknown(Some("studio-mac".to_string())), "studio-mac");
    assert_eq!(hostname_or_unknown(None), "unknown");
}
