use agent::types::ConnectionState::{Connected, Connecting, Disconnected, Failed, Reconnecting};
use agent::types::{Display, Frame, Modifiers, Quality, SystemInfo, VideoCodec};
use agent::{NAME, VERSION};

#[test]
fn test_version() {
    assert!(!VERSION.is_empty());
    assert!(!NAME.is_empty());
}

#[test]
fn test_quality_parsing() {
    assert_eq!("low".parse::<Quality>().unwrap(), Quality::Low);
    assert_eq!("MEDIUM".parse::<Quality>().unwrap(), Quality::Medium);
    assert_eq!("High".parse::<Quality>().unwrap(), Quality::High);
    assert_eq!("ULTRA".parse::<Quality>().unwrap(), Quality::Ultra);

    assert!("invalid".parse::<Quality>().is_err());
}

#[test]
fn test_quality_display() {
    assert_eq!(Quality::Low.to_string(), "low");
    assert_eq!(Quality::Medium.to_string(), "medium");
    assert_eq!(Quality::High.to_string(), "high");
    assert_eq!(Quality::Ultra.to_string(), "ultra");
}

#[test]
fn test_video_codec_parsing() {
    assert_eq!("h264".parse::<VideoCodec>().unwrap(), VideoCodec::H264);
    assert_eq!("H.264".parse::<VideoCodec>().unwrap(), VideoCodec::H264);
    assert_eq!("vp8".parse::<VideoCodec>().unwrap(), VideoCodec::VP8);
    assert_eq!("VP9".parse::<VideoCodec>().unwrap(), VideoCodec::VP9);
    assert_eq!("av1".parse::<VideoCodec>().unwrap(), VideoCodec::AV1);

    assert!("invalid".parse::<VideoCodec>().is_err());
}

#[test]
fn test_modifiers_default() {
    let modifiers = Modifiers::default();
    assert!(!modifiers.ctrl);
    assert!(!modifiers.alt);
    assert!(!modifiers.shift);
    assert!(!modifiers.meta);
}

#[test]
fn test_frame_creation() {
    let frame = Frame {
        id: uuid::Uuid::new_v4().as_u128(),
        timestamp: 1234567890,
        width: 1920,
        height: 1080,
        data: vec![0; 100],
        format: VideoCodec::H264,
        quality: Quality::High,
        compressed: true,
    };

    assert_eq!(frame.width, 1920);
    assert_eq!(frame.height, 1080);
    assert_eq!(frame.format, VideoCodec::H264);
    assert_eq!(frame.quality, Quality::High);
    assert!(frame.compressed);
}

#[test]
fn quality_parse_error_quotes_the_input() {
    assert_eq!(Quality::parse("Best").unwrap_err(), "Unknown quality level: Best");
    assert_eq!(VideoCodec::parse("mpeg").unwrap_err(), "Unknown video codec: mpeg");
}

#[test]
fn quality_order_is_low_to_ultra() {
    assert_eq!(Quality::Low.index(), 0);
    assert_eq!(Quality::Medium.index(), 1);
    assert_eq!(Quality::High.index(), 2);
    assert_eq!(Quality::Ultra.index(), 3);
}

#[test]
fn codec_names_are_upper_case() {
    assert_eq!(VideoCodec::H264.to_string(), "H264");
    assert_eq!(VideoCodec::AV1.to_string(), "AV1");
}

#[test]
fn frame_clone_keeps_every_field() {
    let frame = Frame {
        id: 7,
        timestamp: 9,
        width: 2,
        height: 2,
        data: vec![1, 2, 3],
        format: VideoCodec::VP8,
        quality: Quality::Low,
        compressed: false,
    };
    let copy = frame.clone();
    assert_eq!(copy.id, 7);
    assert_eq!(copy.data, vec![1, 2, 3]);
    assert_eq!(copy.format, VideoCodec::VP8);
}

#[test]
fn connection_state_machine_transitions() {
    assert!(Disconnected.can_transition_to(Connecting));
    assert!(Connecting.can_transition_to(Connected));
    assert!(Connecting.can_transition_to(Failed));
    assert!(Connected.can_transition_to(Reconnecting));
    assert!(Reconnecting.can_transition_to(Connected));
    assert!(Reconnecting.can_transition_to(Failed));
    assert!(Connected.can_transition_to(Disconnected));
    assert!(Failed.can_transition_to(Disconnected));
    // Failed is terminal: no way back into the handshake.
    assert!(!Failed.can_transition_to(Connecting));
    assert!(!Failed.can_transition_to(Connected));
    assert!(!Failed.can_transition_to(Reconnecting));
    assert!(!Disconnected.can_transition_to(Connected));
    assert!(!Connected.can_transition_to(Connecting));
}

#[test]
fn parsing_through_the_trait_gives_the_same_complaint() {
    assert_eq!("Best".parse::<Quality>().unwrap_err(), "Unknown quality level: Best");
    assert_eq!("mpeg".parse::<VideoCodec>().unwrap_err(), "Unknown video codec: mpeg");
    assert_eq!("Ultra".parse::<Quality>(), Quality::parse("Ultra"));
    assert_eq!("h265".parse::<VideoCodec>(), VideoCodec::parse("h265"));
}

#[test]
fn a_copied_system_description_says_the_same() {
    let info = SystemInfo {
        os: "Linux".to_string(),
        version: "6.1".to_string(),
        architecture: "x86_64".to_string(),
        cpu_cores: 8,
        memory_total: 16,
        memory_available: 9,
        displays: vec![Display {
            id: 1,
            name: "Primary Display".to_string(),
            width: 1920,
            height: 1080,
            x: -5,
            y: 7,
            is_primary: true,
            refresh_rate: 60,
        }],
    };
    let copy = info.clone();
    assert_eq!(copy.os, "Linux");
    assert_eq!(copy.version, "6.1");
    assert_eq!(copy.architecture, "x86_64");
    assert_eq!((copy.cpu_cores, copy.memory_total, copy.memory_available), (8, 16, 9));
    assert_eq!(copy.displays.len(), 1);
    assert_eq!(copy.displays[0].name, "Primary Display");
    assert_eq!((copy.displays[0].x, copy.displays[0].y), (-5, 7));
}
