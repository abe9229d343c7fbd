use agent::error::{AgentError, ErrorKind};

#[test]
fn test_error_recoverable() {
    let network_error = AgentError::Network("connection failed".to_string());
    assert!(network_error.is_recoverable());

    let config_error = AgentError::Config("invalid config".to_string());
    assert!(!config_error.is_recoverable());
}

#[test]
fn test_error_critical() {
    let auth_error = AgentError::Auth("invalid token".to_string());
    assert!(auth_error.is_critical());

    let network_error = AgentError::Network("connection failed".to_string());
    assert!(!network_error.is_critical());
}

#[test]
fn test_error_context() {
    let error = AgentError::Capture("failed to capture screen".to_string());
    let contextualized = error.context("screen capture");

    match contextualized {
        AgentError::Capture(msg) => {
            assert!(msg.contains("screen capture"));
            assert!(msg.contains("failed to capture screen"));
        }
        _ => panic!("Expected Capture error"),
    }
}

#[test]
fn context_is_put_in_front() {
    match AgentError::Transport("send failed".to_string()).context("broadcast") {
        AgentError::Transport(msg) => assert_eq!(msg, "broadcast: send failed"),
        other => panic!("unexpected {:?}", other),
    }
}

#[test]
fn relayed_errors_take_no_context() {
    match AgentError::Io("disk full".to_string()).context("saving") {
        AgentError::Io(msg) => assert_eq!(msg, "disk full"),
        other => panic!("unexpected {:?}", other),
    }
    assert!(matches!(
        AgentError::EncoderNotInitialized.context("encode"),
        AgentError::EncoderNotInitialized
    ));
}

#[test]
fn error_classes() {
    for e in [
        AgentError::Transport("x".to_string()),
        AgentError::WebSocket("x".to_string()),
        AgentError::Capture("x".to_string()),
        AgentError::VideoEncoding("x".to_string()),
        AgentError::EncoderError("x".to_string()),
        AgentError::EncoderNotInitialized,
    ] {
        assert!(e.is_recoverable());
        assert!(!e.is_critical());
    }
    for e in [AgentError::Config("x".to_string()), AgentError::Security("x".to_string())] {
        assert!(e.is_critical());
        assert!(!e.is_recoverable());
    }
    for e in [AgentError::System("x".to_string()), AgentError::Input("x".to_string())] {
        assert!(!e.is_critical());
        assert!(!e.is_recoverable());
    }
}

#[test]
fn errors_render_with_their_kind() {
    assert_eq!(AgentError::Config("bad".to_string()).to_string(), "Configuration error: bad");
    assert_eq!(AgentError::Capture("bad".to_string()).to_string(), "Screen capture error: bad");
    assert_eq!(AgentError::Auth("bad".to_string()).to_string(), "Authentication error: bad");
    assert_eq!(AgentError::Url("bad".to_string()).to_string(), "URL parsing error: bad");
    assert_eq!(AgentError::EncoderNotInitialized.to_string(), "Encoder not initialized");
    assert_eq!(AgentError::Other("x".to_string()).error_kind(), ErrorKind::Other);
}
