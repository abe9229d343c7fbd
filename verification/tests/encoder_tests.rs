use agent::config::CaptureConfig;
use agent::encoder::{bitrate_for, frame_from, VideoEncoder};
use agent::error::AgentError;
use agent::types::{PixelFormat, Quality, RawFrame, VideoCodec};

fn raw(width: u32, height: u32, format: PixelFormat) -> RawFrame {
    RawFrame {
        width,
        height,
        pixel_format: format,
        data: vec![200u8; (width * height * 4) as usize],
        display_id: 0,
        capture_timestamp: 0,
    }
}

#[test]
fn test_encoder_creation() {
    let config = CaptureConfig::default();
    let encoder = VideoEncoder::new(config);
    assert!(encoder.is_ok());
}

#[test]
fn test_encoder_initialization() {
    let config = CaptureConfig::default();
    let mut encoder = VideoEncoder::new(config).unwrap();
    let result = encoder.initialize();
    assert!(result.is_ok());
}

#[test]
fn test_frame_encoding() {
    let config = CaptureConfig::default();
    let mut encoder = VideoEncoder::new(config).unwrap();
    encoder.initialize().unwrap();

    // Create a test frame (red pixels)
    let test_data = vec![255u8; 1920 * 1080 * 4]; // RGBA data
    let result = encoder.encode_frame(test_data, 1920, 1080);
    assert!(result.is_ok());
}

#[test]
fn bitrate_table() {
    assert_eq!(bitrate_for(Quality::Low), 500_000);
    assert_eq!(bitrate_for(Quality::Medium), 1_500_000);
    assert_eq!(bitrate_for(Quality::High), 3_000_000);
    assert_eq!(bitrate_for(Quality::Ultra), 6_000_000);
    let all = [Quality::Low, Quality::Medium, Quality::High, Quality::Ultra];
    for pair in all.windows(2) {
        assert!(bitrate_for(pair[0]) <= bitrate_for(pair[1]));
    }
}

#[test]
fn encoding_needs_initialization() {
    let mut encoder = VideoEncoder::new(CaptureConfig::default()).unwrap();
    assert!(!encoder.is_initialized());
    assert!(matches!(encoder.encode(&raw(16, 16, PixelFormat::Rgba)), Err(AgentError::EncoderNotInitialized)));
    assert_eq!(encoder.frame_count(), 0);
    encoder.initialize().unwrap();
    assert!(encoder.is_initialized());
    assert!(encoder.encode(&raw(16, 16, PixelFormat::Rgba)).is_ok());
    encoder.shutdown().unwrap();
    assert!(matches!(encoder.encode(&raw(16, 16, PixelFormat::Rgba)), Err(AgentError::EncoderNotInitialized)));
}

#[test]
fn pictures_are_checked() {
    let mut encoder = VideoEncoder::new(CaptureConfig::default()).unwrap();
    encoder.initialize().unwrap();
    let text = |r: Result<agent::encoder::EncodedFrame, AgentError>| match r {
        Err(AgentError::VideoEncoding(text)) => text,
        other => panic!("unexpected {:?}", other.map(|f| f.is_keyframe)),
    };
    assert_eq!(text(encoder.encode(&raw(15, 16, PixelFormat::Rgba))), "Frame dimensions must be even and not zero");
    assert_eq!(text(encoder.encode(&raw(0, 16, PixelFormat::Rgba))), "Frame dimensions must be even and not zero");
    assert_eq!(text(encoder.encode(&raw(3842, 16, PixelFormat::Rgba))), "Frame is larger than the codec allows");
    let mut short = raw(16, 16, PixelFormat::Rgba);
    short.data.pop();
    assert_eq!(text(encoder.encode(&short)), "Frame data does not match its dimensions");
    assert_eq!(encoder.frame_count(), 0);
    assert!(VideoEncoder::check_picture(1920, 1080, 1920 * 1080 * 4).is_ok());
}

#[test]
fn keyframes_come_every_two_seconds() {
    let mut config = CaptureConfig::default();
    config.framerate = 5;
    let mut encoder = VideoEncoder::new(config).unwrap();
    encoder.initialize().unwrap();
    let mut keyframes = Vec::new();
    for n in 1..=25u64 {
        let encoded = encoder.encode(&raw(16, 16, PixelFormat::Bgra)).unwrap();
        assert_eq!(encoded.frame.width, 16);
        assert_eq!(encoded.frame.height, 16);
        assert_eq!(encoded.frame.format, VideoCodec::H264);
        assert_eq!(encoded.frame.quality, Quality::Medium);
        assert!(encoded.frame.compressed);
        if encoded.is_keyframe {
            keyframes.push(n);
        }
    }
    assert_eq!(keyframes, vec![1, 11, 21]);
    assert_eq!(encoder.frame_count(), 25);
}

#[test]
fn encoded_frames_carry_data_and_fresh_ids() {
    let mut encoder = VideoEncoder::new(CaptureConfig::default()).unwrap();
    encoder.initialize().unwrap();
    let a = encoder.encode_frame_to_frame(vec![10u8; 32 * 32 * 4], 32, 32).unwrap();
    let b = encoder.encode_frame_to_frame(vec![10u8; 32 * 32 * 4], 32, 32).unwrap();
    assert!(!a.data.is_empty());
    assert_ne!(a.data, vec![10u8; 32 * 32 * 4]);
    assert_ne!(a.id, b.id);
    assert!(a.timestamp > 0);
}

#[test]
fn quality_changes_reconfigure_the_bitrate() {
    let mut encoder = VideoEncoder::new(CaptureConfig::default()).unwrap();
    assert_eq!(encoder.get_bitrate(), 1_500_000);
    encoder.set_quality(Quality::Ultra).unwrap();
    assert_eq!(encoder.get_bitrate(), 6_000_000);
    assert!(!encoder.is_initialized());
    encoder.initialize().unwrap();
    encoder.encode(&raw(16, 16, PixelFormat::Rgba)).unwrap();
    encoder.set_quality(Quality::Low).unwrap();
    assert!(encoder.is_initialized());
    assert_eq!(encoder.get_bitrate(), 500_000);
    let next = encoder.encode(&raw(16, 16, PixelFormat::Rgba)).unwrap();
    assert_eq!(next.frame.quality, Quality::Low);
    assert_eq!(encoder.frame_count(), 2);
}

#[test]
fn upright_pictures_are_taken_up_to_the_codec_limit() {
    assert!(VideoEncoder::check_picture(2160, 3840, 2160 * 3840 * 4).is_ok());
    assert!(VideoEncoder::check_picture(3840, 2160, 3840 * 2160 * 4).is_ok());
    assert!(VideoEncoder::check_picture(2162, 2162, 2162 * 2162 * 4).is_err());
    assert!(VideoEncoder::check_picture(16, 3842, 16 * 3842 * 4).is_err());
    assert!(VideoEncoder::check_picture(3842, 16, 3842 * 16 * 4).is_err());
}

#[test]
fn an_upright_picture_is_encoded() {
    let mut encoder = VideoEncoder::new(CaptureConfig::default()).unwrap();
    encoder.initialize().unwrap();
    let encoded = encoder.encode(&raw(16, 32, PixelFormat::Rgba)).unwrap();
    assert_eq!((encoded.frame.width, encoded.frame.height), (16, 32));
    assert!(!encoded.frame.data.is_empty());
}

#[test]
fn the_codec_answer_becomes_the_frame() {
    let encoded = frame_from(Ok(vec![1, 2, 3]), 640, 480, Quality::High, true, 77, 1234).unwrap();
    assert!(encoded.is_keyframe);
    assert_eq!(encoded.frame.id, 77);
    assert_eq!(encoded.frame.timestamp, 1234);
    assert_eq!((encoded.frame.width, encoded.frame.height), (640, 480));
    assert_eq!(encoded.frame.data, vec![1, 2, 3]);
    assert_eq!(encoded.frame.format, VideoCodec::H264);
    assert_eq!(encoded.frame.quality, Quality::High);
    assert!(encoded.frame.compressed);
    let plain = frame_from(Ok(vec![]), 2, 2, Quality::Low, false, 0, 0).unwrap();
    assert!(!plain.is_keyframe);
}

#[test]
fn the_codec_complaint_becomes_an_encoding_error() {
    match frame_from(Err("bad slice".to_string()), 640, 480, Quality::High, true, 77, 1234) {
        Err(AgentError::VideoEncoding(text)) => assert_eq!(text, "bad slice"),
        _ => panic!("the codec's complaint is an encoding error"),
    }
}

#[test]
fn a_refused_picture_leaves_the_counters_alone() {
    let mut encoder = VideoEncoder::new(CaptureConfig::default()).unwrap();
    assert!(matches!(encoder.encode_frame(vec![0; 16 * 16 * 4], 16, 16), Err(AgentError::EncoderNotInitialized)));
    assert!(matches!(
        encoder.encode_frame_to_frame(vec![0; 16 * 16 * 4], 16, 16),
        Err(AgentError::EncoderNotInitialized)
    ));
    assert_eq!(encoder.frame_count(), 0);
    encoder.initialize().unwrap();
    assert!(matches!(encoder.encode_frame(vec![0; 7], 16, 16), Err(AgentError::VideoEncoding(_))));
    assert_eq!(encoder.frame_count(), 0);
    assert!(encoder.encode_frame(vec![0; 16 * 16 * 4], 16, 16).is_ok());
    assert_eq!(encoder.frame_count(), 1);
    assert!(encoder.encode_frame_to_frame(vec![0; 16 * 16 * 4], 16, 16).is_ok());
    assert_eq!(encoder.frame_count(), 2);
}
