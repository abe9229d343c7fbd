use agent::utils::{
    calculate_latency, compress_data, decode_base64, decompress_data, encode_base64,
    find_available_port, format_bitrate, format_bytes, format_duration, format_seconds,
    generate_session_id, generate_token, get_system_memory_info, get_timestamp,
    get_timestamp_seconds, hash_password, sanitize_filename, seconds_of, unix_seconds,
    validate_uuid, verify_password,
    ClockReading, PortSearch,
};
use agent::error::AgentError;
use std::time::Duration;

#[test]
fn test_timestamp_functions() {
    let timestamp = get_timestamp();
    assert!(timestamp > 0);

    let timestamp_seconds = get_timestamp_seconds();
    assert!(timestamp_seconds > 0);
}

#[test]
fn test_format_duration() {
    let duration = Duration::from_secs(3661); // 1h 1m 1s
    let formatted = format_duration(duration);
    assert_eq!(formatted, "1h 1m 1s");

    let duration = Duration::from_secs(61); // 1m 1s
    let formatted = format_duration(duration);
    assert_eq!(formatted, "1m 1s");

    let duration = Duration::from_secs(30); // 30s
    let formatted = format_duration(duration);
    assert_eq!(formatted, "30s");
}

#[test]
fn test_format_bytes() {
    assert_eq!(format_bytes(1024), "1.0 KB");
    assert_eq!(format_bytes(1048576), "1.0 MB");
    assert_eq!(format_bytes(1073741824), "1.0 GB");
}

#[test]
fn test_format_bitrate() {
    assert_eq!(format_bitrate(1000), "1.0 Kbps");
    assert_eq!(format_bitrate(1000000), "1.0 Mbps");
    assert_eq!(format_bitrate(1000000000), "1.0 Gbps");
}

#[test]
fn test_calculate_latency() {
    let latency = calculate_latency(1000, 1045);
    assert_eq!(latency, 45);
}

#[test]
fn test_uuid_validation() {
    let valid_uuid = "550e8400-e29b-41d4-a716-446655440000";
    assert!(validate_uuid(valid_uuid).is_ok());

    let invalid_uuid = "invalid-uuid";
    assert!(validate_uuid(invalid_uuid).is_err());
}

#[test]
fn test_session_id_generation() {
    let session_id = generate_session_id();
    assert!(!session_id.is_empty());
    assert!(validate_uuid(&session_id).is_ok());
}

#[test]
fn test_token_generation() {
    let token = generate_token();
    assert!(!token.is_empty());
    assert_ne!(token, generate_token()); // Should be unique
}

#[test]
fn test_password_hashing() {
    let password = "test_password";
    let hash = hash_password(password).unwrap();
    assert!(verify_password(password, &hash).unwrap());
    assert!(!verify_password("wrong_password", &hash).unwrap());
}

#[test]
fn test_compression() {
    let original_data = b"Hello, World! This is a test string for compression.";
    let compressed = compress_data(original_data).unwrap();
    let decompressed = decompress_data(&compressed).unwrap();
    assert_eq!(original_data, decompressed.as_slice());
}

#[test]
fn test_base64_encoding() {
    let data = b"Hello, World!";
    let encoded = encode_base64(data);
    let decoded = decode_base64(&encoded).unwrap();
    assert_eq!(data, decoded.as_slice());
}

#[test]
fn test_filename_sanitization() {
    let filename = "test file (1).txt";
    let sanitized = sanitize_filename(filename);
    assert_eq!(sanitized, "test_file__1_.txt");
}

#[test]
fn format_seconds_exact_values() {
    assert_eq!(format_seconds(0), "0s");
    assert_eq!(format_seconds(59), "59s");
    assert_eq!(format_seconds(60), "1m 0s");
    assert_eq!(format_seconds(3600), "1h 0m 0s");
    assert_eq!(format_seconds(86399), "23h 59m 59s");
}

#[test]
fn format_bytes_exact_values() {
    assert_eq!(format_bytes(0), "0 B");
    assert_eq!(format_bytes(1023), "1023 B");
    assert_eq!(format_bytes(1536), "1.5 KB");
    assert_eq!(format_bytes(1048575), "1024.0 KB");
    assert_eq!(format_bytes(5 * 1024 * 1024 * 1024), "5.0 GB");
    // 1088 / 1024 = 1.0625 rounds down, 1126 / 1024 = 1.0996 rounds up
    assert_eq!(format_bytes(1088), "1.1 KB");
    assert_eq!(format_bytes(1126), "1.1 KB");
    assert_eq!(format_bytes(1070), "1.0 KB");
    assert_eq!(format_bytes(u64::MAX), "17179869184.0 GB");
}

#[test]
fn format_bitrate_exact_values() {
    assert_eq!(format_bitrate(0), "0 bps");
    assert_eq!(format_bitrate(999), "999 bps");
    assert_eq!(format_bitrate(1500), "1.5 Kbps");
    assert_eq!(format_bitrate(1_500_000), "1.5 Mbps");
    assert_eq!(format_bitrate(6_000_000), "6.0 Mbps");
    assert_eq!(format_bitrate(2_340_000_000), "2.3 Gbps");
    // halfway cases go to the even tenth
    assert_eq!(format_bitrate(1050), "1.0 Kbps");
    assert_eq!(format_bitrate(1150), "1.2 Kbps");
}

#[test]
fn latency_edge_cases() {
    assert_eq!(calculate_latency(1045, 1000), 0);
    assert_eq!(calculate_latency(5, 5), 0);
    assert_eq!(calculate_latency(0, 0x1_0000_0005), 5);
}

#[test]
fn clock_reading_millis() {
    assert_eq!(ClockReading { secs: 2, nanos: 345_678_901 }.as_millis(), 2345);
    assert_eq!(ClockReading { secs: 0, nanos: 999_999 }.as_millis(), 0);
}

#[test]
fn uuid_validation_error_text() {
    let err = validate_uuid("invalid-uuid").unwrap_err();
    assert!(err.to_string().starts_with("Other error: Invalid UUID: "));
}

#[test]
fn session_id_is_hyphenated() {
    let id = generate_session_id();
    assert_eq!(id.len(), 36);
    assert_eq!(id.matches('-').count(), 4);
    assert_ne!(id, generate_session_id());
}

#[test]
fn token_is_base64_of_32_bytes() {
    let token = generate_token();
    assert_eq!(token.len(), 44);
    assert_eq!(decode_base64(&token).unwrap().len(), 32);
}

#[test]
fn base64_known_values() {
    assert_eq!(encode_base64(b"Hello, World!"), "SGVsbG8sIFdvcmxkIQ==");
    assert_eq!(encode_base64(b""), "");
    assert_eq!(decode_base64("SGk=").unwrap(), b"Hi".to_vec());
    let err = decode_base64("***").unwrap_err();
    assert!(err.to_string().starts_with("Other error: Base64 decode error: "));
}

#[test]
fn sha256_known_value() {
    assert_eq!(
        hash_password("hello world").unwrap(),
        "b94d27b9934d3e08a52e52d7da7dabfac484efe37a5380ee9088f7ace2efcde9"
    );
    assert!(verify_password(
        "hello world",
        "b94d27b9934d3e08a52e52d7da7dabfac484efe37a5380ee9088f7ace2efcde9"
    )
    .unwrap());
}

#[test]
fn compression_changes_and_restores() {
    let data = vec![7u8; 4096];
    let compressed = compress_data(&data).unwrap();
    assert!(compressed.len() < data.len());
    assert_ne!(compressed, data);
    assert_eq!(decompress_data(&compressed).unwrap(), data);
}

#[test]
fn decompress_rejects_garbage() {
    let err = decompress_data(&[0xff, 0xff, 0xff, 0xff]).unwrap_err();
    assert!(err.to_string().starts_with("IO error: "));
}

#[test]
fn sanitize_edge_cases() {
    assert_eq!(sanitize_filename("/tmp/some dir/report 2024.pdf"), "report_2024.pdf");
    assert_eq!(sanitize_filename(".."), "unknown_file");
    assert_eq!(sanitize_filename(""), "unknown_file");
    assert_eq!(sanitize_filename("a-b_c.d"), "a-b_c.d");
    assert_eq!(sanitize_filename("naïve?.txt"), "naïve_.txt");
}

#[test]
fn memory_info_is_reported() {
    let (total, available) = get_system_memory_info().unwrap();
    assert!(total > 0);
    assert!(available <= total);
}

#[test]
fn port_search_steps() {
    assert_eq!(find_available_port(8080, &vec![]), PortSearch::Probe(8080));
    assert_eq!(find_available_port(8080, &vec![false, false]), PortSearch::Probe(8082));
    assert_eq!(find_available_port(8080, &vec![false, true, true]), PortSearch::Found(8081));
    assert_eq!(find_available_port(8080, &vec![false; 1000]), PortSearch::Exhausted);
    assert_eq!(find_available_port(8080, &vec![false; 999]), PortSearch::Probe(9079));
    // the port numbers end before the 1000 candidates do
    assert_eq!(find_available_port(65535, &vec![]), PortSearch::Probe(65535));
    assert_eq!(find_available_port(65535, &vec![false]), PortSearch::Exhausted);
    assert_eq!(find_available_port(65534, &vec![false, true]), PortSearch::Found(65535));
}

#[test]
fn seconds_of_a_reading_are_its_whole_seconds() {
    let reading = Ok(ClockReading { secs: 1_700_000_000, nanos: 999_999_999 });
    match seconds_of(reading) {
        Ok(secs) => assert_eq!(secs, 1_700_000_000),
        Err(_) => panic!("a good reading gives its seconds"),
    }
}

#[test]
fn seconds_of_a_failed_reading_is_a_system_time_error() {
    match seconds_of(Err("clock went backwards".to_string())) {
        Err(AgentError::SystemTime(text)) => assert_eq!(text, "clock went backwards"),
        _ => panic!("a failed reading gives a system time error"),
    }
}

#[test]
fn unix_seconds_agree_with_the_timestamp() {
    let before = get_timestamp_seconds();
    let now = unix_seconds().unwrap();
    let after = get_timestamp_seconds();
    assert!(before <= now && now <= after);
    assert!(now > 1_600_000_000);
}
