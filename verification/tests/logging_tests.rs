use agent::error::AgentError;
use agent::logging::{
    get_level, log_connection, log_debug, log_error, log_info, log_metrics, log_security_event,
    log_trace, log_warning, set_level, LogLevel,
};
use agent::types::Metrics;

fn pair(k: &str, v: &str) -> (String, String) {
    (k.to_string(), v.to_string())
}

#[test]
fn test_set_level() {
    assert!(set_level("info").is_ok());
    assert!(set_level("debug").is_ok());
    assert!(set_level("invalid").is_err());
}

#[test]
fn test_log_functions() {
    log_info("Test message", "test");
    log_warning("Test warning", "test");
    log_debug("Test debug", "test");
    log_trace("Test trace", "test");

    let error = AgentError::Config("Test error".to_string());
    log_error(&error, "test");
}

#[test]
fn levels_are_read_by_name_and_number() {
    assert_eq!(set_level("error").unwrap(), LogLevel::Error);
    assert_eq!(set_level("WARN").unwrap(), LogLevel::Warn);
    assert_eq!(set_level("Info").unwrap(), LogLevel::Info);
    assert_eq!(set_level("debug").unwrap(), LogLevel::Debug);
    assert_eq!(set_level("trace").unwrap(), LogLevel::Trace);
    assert_eq!(set_level("1").unwrap(), LogLevel::Error);
    assert_eq!(set_level("5").unwrap(), LogLevel::Trace);
    match set_level("loud") {
        Err(AgentError::Config(text)) => assert!(text.starts_with("Invalid log level: ")),
        other => panic!("unexpected {:?}", other),
    }
    assert_eq!(get_level(), LogLevel::Info);
}

#[test]
fn contextual_records() {
    let r = log_info("started", "Agent");
    assert_eq!(r.level, LogLevel::Info);
    assert_eq!(r.message, "Info");
    assert_eq!(r.fields, vec![pair("message", "started"), pair("context", "Agent")]);
    let r = log_warning("slow", "Capture");
    assert_eq!((r.level, r.message.as_str()), (LogLevel::Warn, "Warning"));
    let r = log_debug("tick", "Capture");
    assert_eq!((r.level, r.message.as_str()), (LogLevel::Debug, "Debug"));
    let r = log_trace("tick", "Capture");
    assert_eq!((r.level, r.message.as_str()), (LogLevel::Trace, "Trace"));
    let r = log_error(&AgentError::Network("down".to_string()), "Transport");
    assert_eq!(r.level, LogLevel::Error);
    assert_eq!(r.message, "Error occurred");
    assert_eq!(r.fields, vec![pair("error", "Network error: down"), pair("context", "Transport")]);
}

#[test]
fn connection_records() {
    let r = log_connection("c1", "open", Some("websocket"));
    assert_eq!(r.level, LogLevel::Info);
    assert_eq!(r.message, "Connection event");
    assert_eq!(r.fields, vec![pair("client_id", "c1"), pair("event", "open"), pair("details", "websocket")]);
    let r = log_connection("c1", "close", None);
    assert_eq!(r.fields, vec![pair("client_id", "c1"), pair("event", "close")]);
}

#[test]
fn security_records() {
    let r = log_security_event("bad token", Some("c1"), Some("3rd attempt"));
    assert_eq!(r.level, LogLevel::Warn);
    assert_eq!(r.message, "Security event");
    assert_eq!(
        r.fields,
        vec![pair("client_id", "c1"), pair("event", "bad token"), pair("details", "3rd attempt")]
    );
    assert_eq!(
        log_security_event("scan", Some("c1"), None).fields,
        vec![pair("client_id", "c1"), pair("event", "scan")]
    );
    assert_eq!(
        log_security_event("scan", None, Some("port 22")).fields,
        vec![pair("event", "scan"), pair("details", "port 22")]
    );
    assert_eq!(log_security_event("scan", None, None).fields, vec![pair("event", "scan")]);
}

#[test]
fn metrics_records() {
    let m = Metrics {
        fps: 30303,
        latency: 50,
        bitrate: 1_500_000,
        packet_loss: 500,
        jitter: 0,
        frame_drops: 2,
        bytes_received: 10,
        bytes_sent: 20,
        cpu_usage: 12_500,
        memory_usage: 4096,
    };
    let r = log_metrics(&m);
    assert_eq!(r.level, LogLevel::Info);
    assert_eq!(r.message, "Performance metrics");
    assert_eq!(
        r.fields,
        vec![
            pair("fps", "30.303"),
            pair("latency", "50"),
            pair("bitrate", "1500000"),
            pair("packet_loss", "0.5"),
            pair("jitter", "0"),
            pair("frame_drops", "2"),
            pair("bytes_received", "10"),
            pair("bytes_sent", "20"),
            pair("cpu_usage", "12.5"),
            pair("memory_usage", "4096"),
        ]
    );
}
