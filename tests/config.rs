use rsonance::{parse_server_address, validate_buffer_size, AudioConfig, AudioFormat, ConfigError};

#[test]
fn test_audio_config_default() {
    let config = AudioConfig::default();
    assert_eq!(config.sample_rate, 44100);
    assert_eq!(config.channels, 2);
    assert!(matches!(config.format, AudioFormat::S16LE));
}

#[test]
fn test_parse_server_address_with_port() {
    let addr = parse_server_address(Some("192.168.1.100:9090".to_string()));
    assert_eq!(addr, "192.168.1.100:9090");
}

#[test]
fn test_parse_server_address_without_port() {
    let addr = parse_server_address(Some("192.168.1.100".to_string()));
    assert_eq!(addr, "192.168.1.100:8080");
}

#[test]
fn test_parse_server_address_empty() {
    let addr = parse_server_address(Some("".to_string()));
    assert_eq!(addr, "127.0.0.1:8080");
}

#[test]
fn test_parse_server_address_none() {
    let addr = parse_server_address(None);
    assert_eq!(addr, "127.0.0.1:8080");
}

#[test]
fn test_validate_buffer_size_valid() {
    assert_eq!(validate_buffer_size(4096).unwrap(), 4096);
    assert_eq!(validate_buffer_size(1024).unwrap(), 1024);
}

#[test]
fn test_validate_buffer_size_zero() {
    assert!(validate_buffer_size(0).is_err());
}

#[test]
fn test_validate_buffer_size_too_large() {
    assert!(validate_buffer_size(100000).is_err());
}

#[test]
fn test_parse_server_address_whitespace() {
    let addr = parse_server_address(Some("  ".to_string()));
    assert_eq!(addr, "127.0.0.1:8080");
}

#[test]
fn test_parse_server_address_with_protocol() {
    let addr = parse_server_address(Some("192.168.1.100:9090".to_string()));
    assert_eq!(addr, "192.168.1.100:9090");
}

#[test]
fn test_validate_buffer_size_edge_cases() {
    assert_eq!(validate_buffer_size(1).unwrap(), 1);
    assert_eq!(validate_buffer_size(65536).unwrap(), 65536);
    assert!(validate_buffer_size(65537).is_err());
}

#[test]
fn test_validate_buffer_size_typical_values() {
    assert_eq!(validate_buffer_size(1024).unwrap(), 1024);
    assert_eq!(validate_buffer_size(2048).unwrap(), 2048);
    assert_eq!(validate_buffer_size(4096).unwrap(), 4096);
    assert_eq!(validate_buffer_size(8192).unwrap(), 8192);
    assert_eq!(validate_buffer_size(16384).unwrap(), 16384);
}

#[test]
fn test_parse_server_address_edge_cases() {
    assert_eq!(parse_server_address(Some("[::1]:8080".to_string())), "[::1]:8080");
    assert_eq!(parse_server_address(Some("example.com:9090".to_string())), "example.com:9090");
    assert_eq!(parse_server_address(Some("example.com".to_string())), "example.com:8080");
}

#[test]
fn test_audio_format_debug() {
    let format = AudioFormat::S16LE;
    assert_eq!(format!("{format:?}"), "S16LE");

    let format = AudioFormat::F32LE;
    assert_eq!(format!("{format:?}"), "F32LE");
}

#[test]
fn test_audio_config_clone() {
    let config = AudioConfig::default();
    let cloned = config.clone();
    assert_eq!(config.sample_rate, cloned.sample_rate);
    assert_eq!(config.channels, cloned.channels);
}

#[test]
fn test_audio_config_custom() {
    let config = AudioConfig { sample_rate: 48000, channels: 1, format: AudioFormat::F32LE };
    assert_eq!(config.sample_rate, 48000);
    assert_eq!(config.channels, 1);
    assert!(matches!(config.format, AudioFormat::F32LE));
}

#[test]
fn buffer_size_errors_name_the_reason() {
    assert_eq!(validate_buffer_size(0), Err(ConfigError::ZeroBufferSize));
    assert_eq!(validate_buffer_size(65537), Err(ConfigError::BufferSizeTooLarge(65537)));
    assert_eq!(validate_buffer_size(usize::MAX), Err(ConfigError::BufferSizeTooLarge(usize::MAX)));
}

#[test]
fn server_address_blank_of_other_whitespace_uses_default() {
    assert_eq!(parse_server_address(Some("\t\n \u{3000}".to_string())), "127.0.0.1:8080");
}

#[test]
fn server_address_keeps_surrounding_text() {
    assert_eq!(parse_server_address(Some(" host ".to_string())), " host :8080");
    assert_eq!(parse_server_address(Some(":".to_string())), ":");
}

#[test]
fn audio_config_validity() {
    assert!(AudioConfig::default().is_valid());
    let mono_zero = AudioConfig { sample_rate: 0, channels: 1, format: AudioFormat::S16LE };
    assert!(!mono_zero.is_valid());
    let no_channels = AudioConfig { sample_rate: 8000, channels: 0, format: AudioFormat::S16LE };
    assert!(!no_channels.is_valid());
}
