use agent::agent::{
    describe_system, find_line, get_system_info, message_kind, Agent, MessageKind, Platform,
};
use agent::error::AgentError;
use agent::config::Config;
use agent::session::SessionRegistry;
use agent::types::{ClientCapabilities, Message, Quality, Session, SessionStats, SystemInfo};

fn system_info() -> SystemInfo {
    SystemInfo {
        os: "Linux".to_string(),
        version: "Test".to_string(),
        architecture: "x86_64".to_string(),
        cpu_cores: 4,
        memory_total: 8 * 1024 * 1024 * 1024,
        memory_available: 8 * 1024 * 1024 * 1024,
        displays: vec![],
    }
}

fn new_agent() -> Agent {
    Agent::new(Config::default(), system_info(), 1_000).unwrap()
}

fn session(id: &str, client: &str, last_activity: u64) -> Session {
    Session {
        id: id.to_string(),
        client_id: client.to_string(),
        start_time: 0,
        last_activity,
        quality: Quality::Medium,
        capabilities: ClientCapabilities::default(),
        stats: SessionStats::default(),
    }
}

#[test]
fn test_agent_creation() {
    let config = Config::default();
    let agent = Agent::new(config, system_info(), 0);
    assert!(agent.is_ok());
}

#[test]
fn test_session_management() {
    let mut agent = new_agent();

    // Test session creation
    let session_id = agent
        .create_session("test_client".to_string(), ClientCapabilities::default())
        .unwrap();

    assert!(!session_id.is_empty());

    // Test session retrieval
    let session = agent.get_session(&session_id);
    assert!(session.is_some());

    // Test session destruction
    let result = agent.destroy_session(&session_id);
    assert!(result.is_ok());

    let session = agent.get_session(&session_id);
    assert!(session.is_none());
}

#[test]
fn created_session_matches_the_request() {
    let mut agent = new_agent();
    let caps = ClientCapabilities { video: true, touch: true, ..ClientCapabilities::default() };
    let id = agent.create_session("alice".to_string(), caps).unwrap();
    let s = agent.get_session(&id).unwrap();
    assert_eq!(s.id, id);
    assert_eq!(s.client_id, "alice");
    assert_eq!(s.capabilities, caps);
    assert_eq!(s.quality, Quality::Medium);
    assert_eq!(s.start_time, s.last_activity);
    assert_eq!(s.stats, SessionStats::default());
    assert_eq!(agent.session_count(), 1);
    assert_eq!(agent.get_status(1_000).sessions, 1);
}

#[test]
fn session_ids_are_unique() {
    let mut agent = new_agent();
    let a = agent.create_session("a".to_string(), ClientCapabilities::default()).unwrap();
    let b = agent.create_session("b".to_string(), ClientCapabilities::default()).unwrap();
    assert_ne!(a, b);
    let all = agent.get_all_sessions();
    assert_eq!(all.len(), 2);
    assert_eq!(all[0].client_id, "a");
    assert_eq!(all[1].client_id, "b");
}

#[test]
fn destroy_is_idempotent() {
    let mut agent = new_agent();
    let id = agent.create_session("a".to_string(), ClientCapabilities::default()).unwrap();
    let other = agent.create_session("b".to_string(), ClientCapabilities::default()).unwrap();
    assert!(agent.destroy_session(&id).is_ok());
    assert!(agent.destroy_session(&id).is_ok());
    assert!(agent.destroy_session("no-such-session").is_ok());
    assert_eq!(agent.session_count(), 1);
    assert!(agent.get_session(&other).is_some());
}

#[test]
fn registering_the_same_id_replaces() {
    let mut agent = new_agent();
    agent.register_session("s1".to_string(), "old".to_string(), ClientCapabilities::default(), 5);
    agent.register_session("s2".to_string(), "other".to_string(), ClientCapabilities::default(), 6);
    agent.register_session("s1".to_string(), "new".to_string(), ClientCapabilities::default(), 7);
    assert_eq!(agent.session_count(), 2);
    let s = agent.get_session("s1").unwrap();
    assert_eq!(s.client_id, "new");
    assert_eq!(s.start_time, 7);
}

#[test]
fn sweep_evicts_exactly_the_expired() {
    let mut agent = new_agent();
    assert_eq!(Config::default().auth.session_timeout, 3_600_000);
    let timeout = 3_600;
    agent.register_session("old".to_string(), "a".to_string(), ClientCapabilities::default(), 100);
    agent.register_session("edge".to_string(), "b".to_string(), ClientCapabilities::default(), 200);
    agent.register_session("new".to_string(), "c".to_string(), ClientCapabilities::default(), 300);
    // nothing is evicted before its time
    assert!(agent.sweep_sessions(100 + timeout).is_empty());
    assert_eq!(agent.session_count(), 3);
    // idle for exactly the timeout is not yet too long
    let gone = agent.sweep_sessions(200 + timeout);
    assert_eq!(gone, vec!["old".to_string()]);
    assert!(agent.get_session("old").is_none());
    assert!(agent.get_session("edge").is_some());
    assert!(agent.get_session("new").is_some());
    let gone = agent.sweep_sessions(300 + timeout + 1);
    assert_eq!(gone, vec!["edge".to_string(), "new".to_string()]);
    assert_eq!(agent.session_count(), 0);
    assert_eq!(agent.get_status(0).sessions, 0);
}

#[test]
fn touch_keeps_a_session_alive() {
    let mut agent = new_agent();
    assert_eq!(Config::default().auth.session_timeout, 3_600_000);
    let timeout = 3_600;
    agent.register_session("s".to_string(), "a".to_string(), ClientCapabilities::default(), 100);
    assert!(agent.touch_session("s", 500));
    assert!(!agent.touch_session("missing", 500));
    assert_eq!(agent.get_session("s").unwrap().last_activity, 500);
    // the last activity never moves backwards
    assert!(agent.touch_session("s", 400));
    assert_eq!(agent.get_session("s").unwrap().last_activity, 500);
    assert!(agent.sweep_sessions(101 + timeout).is_empty());
    assert_eq!(agent.sweep_sessions(501 + timeout), vec!["s".to_string()]);
}

#[test]
fn sweep_tolerates_a_clock_before_the_last_activity() {
    let mut registry = SessionRegistry::new();
    registry.insert(session("s", "a", 1_000));
    assert!(registry.sweep(10, 0).is_empty());
    assert_eq!(registry.count(), 1);
}

#[test]
fn registry_operations() {
    let mut registry = SessionRegistry::new();
    registry.insert(session("a", "x", 1));
    registry.insert(session("b", "y", 2));
    assert!(registry.contains("a"));
    assert!(!registry.contains("c"));
    assert_eq!(registry.ids(), vec!["a".to_string(), "b".to_string()]);
    assert!(registry.remove("a"));
    assert!(!registry.remove("a"));
    assert_eq!(registry.get("b").unwrap().client_id, "y");
    assert_eq!(registry.clear(), vec!["b".to_string()]);
    assert_eq!(registry.count(), 0);
}

#[test]
fn stop_destroys_all_sessions() {
    let mut agent = new_agent();
    let plan = agent.start().unwrap();
    assert_eq!(plan.sweep_interval_secs, 30);
    assert_eq!(plan.status_interval_secs, 5);
    assert!(agent.is_running());
    let a = agent.create_session("a".to_string(), ClientCapabilities::default()).unwrap();
    let b = agent.create_session("b".to_string(), ClientCapabilities::default()).unwrap();
    let destroyed = agent.stop().unwrap();
    assert_eq!(destroyed, vec![a, b]);
    assert!(!agent.is_running());
    assert_eq!(agent.session_count(), 0);
    assert!(agent.get_all_sessions().is_empty());
}

#[test]
fn status_reports_uptime_and_metrics() {
    let mut agent = new_agent();
    let status = agent.get_status(1_042);
    assert_eq!(status.version, "1.0.0");
    assert_eq!(status.uptime, 42);
    assert_eq!(status.sessions, 0);
    assert_eq!(status.system_info.cpu_cores, 4);
    assert_eq!(agent.get_status(999).uptime, 0);
    agent.refresh_status(1_100);
    let status = agent.get_status(1_100);
    assert_eq!(status.uptime, 100);
    assert_eq!(status.metrics.bitrate, 1_500_000);
    assert_eq!(status.metrics.fps, 0);
}

#[test]
fn message_kinds() {
    assert_eq!(message_kind("session.create"), Some(MessageKind::SessionCreate));
    assert_eq!(message_kind("session.destroy"), Some(MessageKind::SessionDestroy));
    assert_eq!(message_kind("input.mouse"), Some(MessageKind::InputMouse));
    assert_eq!(message_kind("input.keyboard"), Some(MessageKind::InputKeyboard));
    assert_eq!(message_kind("input.touch"), Some(MessageKind::InputTouch));
    assert_eq!(message_kind("input.wheel"), Some(MessageKind::InputWheel));
    assert_eq!(message_kind("quality.set"), Some(MessageKind::QualitySet));
    assert_eq!(message_kind("framerate.set"), Some(MessageKind::FramerateSet));
    assert_eq!(message_kind("status.request"), Some(MessageKind::StatusRequest));
    assert_eq!(message_kind("Session.Create"), None);
    assert_eq!(message_kind("clipboard.set"), None);
    assert_eq!(message_kind(""), None);
}

#[test]
fn routing_marks_the_connection_active() {
    let mut agent = new_agent();
    let id = agent.get_transport_manager().create_websocket_connection("c".to_string()).unwrap();
    let before = agent.get_transport_manager().get_connection_info(&id).unwrap().last_activity;
    let message = Message {
        message_type: "status.request".to_string(),
        channel: "control".to_string(),
        data: format!("{{\"connection_id\":\"{}\"}}", id),
        timestamp: 0,
        sequence: Some(1),
        version: "1.0".to_string(),
    };
    assert_eq!(agent.route_message(&message, before + 77), Some(MessageKind::StatusRequest));
    assert_eq!(
        agent.get_transport_manager().get_connection_info(&id).unwrap().last_activity,
        before + 77
    );
    let unknown = Message { message_type: "bogus".to_string(), data: "not json".to_string(), ..message };
    assert_eq!(agent.route_message(&unknown, before + 99), None);
    assert_eq!(
        agent.get_transport_manager().get_connection_info(&id).unwrap().last_activity,
        before + 77
    );
}

#[test]
fn managers_are_reachable() {
    let mut agent = new_agent();
    assert!(!agent.get_capture_manager().is_capturing());
    assert!(!agent.get_input_manager().is_enabled());
    assert_eq!(agent.get_transport_manager().connection_count(), 0);
    agent.get_capture_manager().set_quality(Quality::High).unwrap();
    assert_eq!(agent.get_capture_manager().get_config().quality, Quality::High);
}

#[test]
fn linux_release_file_is_read() {
    let release = "NAME=\"Ubuntu\"\nVERSION_ID=\"22.04\"\nPRETTY_NAME=\"Ubuntu 22.04.3 LTS\"\nID=ubuntu\n";
    let info = describe_system(Platform::Linux, release, "x86_64", 8).unwrap();
    assert_eq!(info.os, "Linux");
    assert_eq!(info.version, "Ubuntu 22.04.3 LTS");
    assert_eq!(info.architecture, "x86_64");
    assert_eq!(info.cpu_cores, 8);
    assert_eq!(info.memory_total, 8 * 1024 * 1024 * 1024);
    assert_eq!(info.memory_available, info.memory_total);
    assert!(info.displays.is_empty());
    assert_eq!(describe_system(Platform::Linux, "ID=arch\n", "x86_64", 1).unwrap().version, "Unknown");
    assert_eq!(describe_system(Platform::Linux, "", "x86_64", 1).unwrap().version, "Unknown");
}

#[test]
fn other_platforms_are_described() {
    let info = describe_system(Platform::Windows, "\r\nMicrosoft Windows [Version 10.0.19045]\r\n", "x86_64", 2).unwrap();
    assert_eq!(info.os, "Windows");
    assert_eq!(info.version, "Microsoft Windows [Version 10.0.19045]");
    let report = "ProductName:\tmacOS\nProductVersion:\t14.2.1\nBuildVersion:\t23C71\n";
    let info = describe_system(Platform::MacOs, report, "aarch64", 10).unwrap();
    assert_eq!(info.os, "macOS");
    assert_eq!(info.version, "14.2.1");
    match describe_system(Platform::Other, "", "riscv64", 1) {
        Err(AgentError::System(text)) => assert_eq!(text, "Unsupported operating system"),
        other => panic!("unexpected {:?}", other.map(|i| i.os)),
    }
    assert!(get_system_info(Platform::Linux, "PRETTY_NAME=x", "x86_64").unwrap().cpu_cores >= 1);
}

#[test]
fn the_first_matching_line_is_found() {
    assert_eq!(find_line("a=1\nb=2\nb=3", "b="), Some("b=2".to_string()));
    assert_eq!(find_line("a=1\r\nb=2\r\n", "b="), Some("b=2".to_string()));
    assert_eq!(find_line("a=1", "b="), None);
    assert_eq!(find_line("", ""), None);
}

#[test]
fn a_created_session_has_a_full_identifier_and_fresh_counters() {
    let mut agent = new_agent();
    let id = agent.create_session("alice".to_string(), ClientCapabilities::default()).unwrap();
    assert_eq!(id.len(), 36);
    let s = agent.get_session(&id).unwrap();
    assert_eq!(s.client_id, "alice");
    assert_eq!(s.start_time, s.last_activity);
    assert_eq!(s.stats.frames_sent, SessionStats::default().frames_sent);
    assert_eq!(s.stats.bytes_sent, 0);
    assert_eq!(agent.get_all_sessions().last().unwrap().id, id);
}

#[test]
fn an_identifier_in_use_is_refused() {
    let mut agent = new_agent();
    let first = agent
        .admit_session("same".to_string(), "a".to_string(), ClientCapabilities::default(), Ok(5))
        .unwrap();
    assert_eq!(first, "same");
    match agent.admit_session("same".to_string(), "b".to_string(), ClientCapabilities::default(), Ok(6)) {
        Err(AgentError::System(text)) => assert_eq!(text, "Session identifier is already in use"),
        _ => panic!("an identifier in use is refused"),
    }
    assert_eq!(agent.session_count(), 1);
    let kept = agent.get_session("same").unwrap();
    assert_eq!(kept.client_id, "a");
    assert_eq!(kept.start_time, 5);
}

#[test]
fn a_clock_that_cannot_be_read_admits_nobody() {
    let mut agent = new_agent();
    let clock = Err(AgentError::SystemTime("before the epoch".to_string()));
    match agent.admit_session("s".to_string(), "a".to_string(), ClientCapabilities::default(), clock) {
        Err(AgentError::SystemTime(text)) => assert_eq!(text, "before the epoch"),
        _ => panic!("the clock's failure is handed on"),
    }
    assert_eq!(agent.session_count(), 0);
}

#[test]
fn the_status_counts_the_sessions_as_they_are() {
    let mut agent = new_agent();
    agent.register_session("a".to_string(), "x".to_string(), ClientCapabilities::default(), 1_000);
    agent.register_session("b".to_string(), "y".to_string(), ClientCapabilities::default(), 1_000);
    let status = agent.get_status(1_010);
    assert_eq!(status.sessions, 2);
    assert_eq!(status.version, agent::VERSION);
    assert_eq!(status.uptime, 10);
    assert_eq!(status.system_info.os, "Linux");
    assert_eq!(status.system_info.cpu_cores, 4);
    agent.destroy_session("a").unwrap();
    assert_eq!(agent.get_status(1_011).sessions, 1);
}

#[test]
fn the_default_timeout_is_one_hour() {
    let mut agent = new_agent();
    agent.register_session("s".to_string(), "a".to_string(), ClientCapabilities::default(), 10_000);
    assert!(agent.sweep_sessions(10_000 + 3_600).is_empty());
    assert_eq!(agent.sweep_sessions(10_000 + 3_601), vec!["s".to_string()]);
}

#[test]
fn a_pass_within_the_interval_evicts_the_idle_session() {
    let mut registry = SessionRegistry::new();
    registry.insert(session("idle", "a", 100));
    registry.insert(session("busy", "b", 150));
    // idle for more than 50 from 151 on; passes come 30 apart
    assert!(registry.sweep(150, 50).is_empty());
    assert_eq!(registry.sweep(180, 50), vec!["idle".to_string()]);
    assert!(registry.contains("busy"));
}

#[test]
fn routing_marks_the_session_active() {
    let mut agent = new_agent();
    agent.register_session("s1".to_string(), "a".to_string(), ClientCapabilities::default(), 100);
    agent.register_session("s2".to_string(), "b".to_string(), ClientCapabilities::default(), 100);
    let message = Message {
        message_type: "input.mouse".to_string(),
        channel: "control".to_string(),
        data: "{\"session_id\":\"s1\",\"x\":3}".to_string(),
        timestamp: 0,
        sequence: None,
        version: "1.0".to_string(),
    };
    assert_eq!(agent.route_message(&message, 250), Some(MessageKind::InputMouse));
    assert_eq!(agent.get_session("s1").unwrap().last_activity, 250);
    assert_eq!(agent.get_session("s2").unwrap().last_activity, 100);
    let nameless = Message { data: "{\"session_id\":7}".to_string(), ..message };
    assert_eq!(agent.route_message(&nameless, 900), Some(MessageKind::InputMouse));
    assert_eq!(agent.get_session("s1").unwrap().last_activity, 250);
}
