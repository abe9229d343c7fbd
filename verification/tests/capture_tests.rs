use agent::capture::{
    bgra_to_rgba, outcome_of_status, CaptureManager, CaptureOutcome, CaptureReaction, CaptureStep,
};
use agent::config::CaptureConfig;
use agent::error::AgentError;
use agent::types::{PixelFormat, Quality, RawFrame};

fn raw(timestamp: u64) -> RawFrame {
    RawFrame {
        width: 2,
        height: 2,
        pixel_format: PixelFormat::Rgba,
        data: vec![0; 16],
        display_id: 0,
        capture_timestamp: timestamp,
    }
}

fn started(framerate: u32) -> CaptureManager {
    let mut config = CaptureConfig::default();
    config.framerate = framerate;
    let mut manager = CaptureManager::new(config).unwrap();
    manager.set_frame_sender(true);
    manager.start(vec![CaptureManager::fallback_display()], 0).unwrap();
    manager
}

/// Drives the pipeline through the milliseconds `from..to`; the backend
/// answers the n-th call with `answer(n)`. Returns the delivered frames'
/// timestamps.
fn run(manager: &mut CaptureManager, from: u64, to: u64, answer: &dyn Fn(u32) -> CaptureOutcome, calls: &mut u32) -> Vec<u64> {
    let mut delivered = Vec::new();
    let mut now = from;
    while now < to {
        match manager.tick(now) {
            CaptureStep::Stop => break,
            CaptureStep::Wait { millis } => now += millis,
            CaptureStep::Capture { .. } => {
                *calls += 1;
                match manager.on_capture_result(answer(*calls)) {
                    CaptureReaction::Deliver(frame) => {
                        delivered.push(frame.capture_timestamp);
                        manager.on_delivery(now, true);
                    }
                    CaptureReaction::Retry => now += 1,
                    CaptureReaction::Recreate => {
                        manager.on_context_result(true).unwrap();
                        now += 1;
                    }
                    CaptureReaction::Backoff { millis } => now += millis,
                    CaptureReaction::Discard => break,
                }
            }
        }
    }
    delivered
}

#[test]
fn test_capture_manager_creation() {
    let config = CaptureConfig::default();
    let manager = CaptureManager::new(config);
    assert!(manager.is_ok());
}

#[test]
fn test_display_discovery() {
    let config = CaptureConfig::default();
    let mut manager = CaptureManager::new(config).unwrap();
    manager.set_displays(vec![CaptureManager::fallback_display()]);
    let displays = manager.get_displays();
    assert_eq!(displays.len(), 1);
    assert_eq!(displays[0].name, "Primary Display");
    assert_eq!((displays[0].width, displays[0].height), (1920, 1080));
    assert!(displays[0].is_primary);
    assert_eq!(displays[0].refresh_rate, 60);
}

#[test]
fn test_quality_setting() {
    let config = CaptureConfig::default();
    let mut manager = CaptureManager::new(config).unwrap();
    let result = manager.set_quality(Quality::High);
    assert!(result.is_ok());
    assert_eq!(manager.get_config().quality, Quality::High);
}

#[test]
fn thirty_frames_per_second() {
    let mut manager = started(30);
    let mut calls = 0;
    let delivered = run(&mut manager, 0, 1000, &|n| CaptureOutcome::Frame(raw(n as u64)), &mut calls);
    assert_eq!(delivered.len(), 30);
    assert_eq!(manager.frames_captured(), 30);
    // 1000 / 30 = 33 ms between frames, which is 30.303 frames per second
    assert_eq!(manager.get_metrics().unwrap().fps, 30_303);
}

#[test]
fn pacing_waits_a_whole_interval() {
    let mut manager = started(30);
    assert_eq!(manager.tick(0), CaptureStep::Wait { millis: 1 });
    assert_eq!(manager.tick(32), CaptureStep::Wait { millis: 1 });
    assert_eq!(manager.tick(33), CaptureStep::Capture { timeout_ms: 50 });
    manager.on_delivery(33, true);
    assert_eq!(manager.tick(65), CaptureStep::Wait { millis: 1 });
    assert_eq!(manager.tick(66), CaptureStep::Capture { timeout_ms: 50 });
}

#[test]
fn lost_surface_on_the_fifth_call_does_not_end_the_capture() {
    let mut manager = started(30);
    let mut calls = 0;
    let delivered = run(
        &mut manager,
        0,
        1000,
        &|n| if n == 5 { CaptureOutcome::Lost } else { CaptureOutcome::Frame(raw(n as u64)) },
        &mut calls,
    );
    assert!(manager.is_capturing());
    assert_eq!(&delivered[..5], &[1, 2, 3, 4, 6]);
    assert!(delivered.len() >= 29);
    assert_eq!(manager.get_metrics().unwrap().frame_drops, 1);
}

#[test]
fn reactions_to_the_backend() {
    let mut manager = started(30);
    assert!(matches!(manager.on_capture_result(CaptureOutcome::Timeout), CaptureReaction::Retry));
    assert!(matches!(manager.on_capture_result(CaptureOutcome::Lost), CaptureReaction::Recreate));
    assert!(matches!(
        manager.on_capture_result(CaptureOutcome::Error(AgentError::Capture("boom".to_string()))),
        CaptureReaction::Backoff { millis: 100 }
    ));
    manager.set_retry_delay(250);
    assert!(matches!(
        manager.on_capture_result(CaptureOutcome::Error(AgentError::Capture("boom".to_string()))),
        CaptureReaction::Backoff { millis: 250 }
    ));
    assert!(matches!(
        manager.on_capture_result(CaptureOutcome::Frame(raw(9))),
        CaptureReaction::Deliver(_)
    ));
    assert!(manager.is_capturing());
    assert_eq!(manager.get_metrics().unwrap().frame_drops, 3);
}

#[test]
fn stop_silences_the_pipeline() {
    let mut manager = started(30);
    manager.stop().unwrap();
    assert!(!manager.is_capturing());
    assert_eq!(manager.tick(1000), CaptureStep::Stop);
    assert!(matches!(
        manager.on_capture_result(CaptureOutcome::Frame(raw(1))),
        CaptureReaction::Discard
    ));
    manager.on_delivery(1000, true);
    assert_eq!(manager.frames_captured(), 0);
}

#[test]
fn a_closed_sink_ends_the_capture() {
    let mut manager = started(30);
    manager.on_delivery(33, false);
    assert!(!manager.is_capturing());
    assert_eq!(manager.tick(100), CaptureStep::Stop);
}

#[test]
fn start_needs_a_sink_and_a_frame_rate() {
    let mut manager = CaptureManager::new(CaptureConfig::default()).unwrap();
    match manager.start(vec![], 0) {
        Err(AgentError::Config(text)) => assert_eq!(text, "Frame sender not set"),
        other => panic!("unexpected {:?}", other),
    }
    assert!(!manager.is_capturing());
    let mut config = CaptureConfig::default();
    config.framerate = 0;
    let mut manager = CaptureManager::new(config).unwrap();
    manager.set_frame_sender(true);
    match manager.start(vec![], 0) {
        Err(AgentError::Config(text)) => assert_eq!(text, "Framerate cannot be 0"),
        other => panic!("unexpected {:?}", other),
    }
    let mut config = CaptureConfig::default();
    config.video = false;
    let mut manager = CaptureManager::new(config).unwrap();
    assert!(manager.start(vec![], 0).is_ok());
    assert!(!manager.is_capturing());
}

#[test]
fn framerate_changes_take_effect_at_the_next_tick() {
    let mut manager = started(30);
    assert_eq!(manager.tick(20), CaptureStep::Wait { millis: 1 });
    manager.set_framerate(60).unwrap();
    assert_eq!(manager.tick(20), CaptureStep::Capture { timeout_ms: 50 });
    assert!(matches!(manager.set_framerate(0), Err(AgentError::Config(_))));
    assert_eq!(manager.get_config().framerate, 60);
}

#[test]
fn repeated_context_failures_are_fatal() {
    let mut manager = started(30);
    assert!(manager.on_context_result(false).is_ok());
    assert!(manager.on_context_result(false).is_ok());
    assert!(manager.is_capturing());
    match manager.on_context_result(false) {
        Err(AgentError::Capture(text)) => assert_eq!(text, "Capture backend could not be initialized"),
        other => panic!("unexpected {:?}", other),
    }
    assert!(!manager.is_capturing());
    let mut manager = started(30);
    assert!(manager.on_context_result(false).is_ok());
    assert!(manager.on_context_result(true).is_ok());
    assert!(manager.on_context_result(false).is_ok());
    assert!(manager.on_context_result(false).is_ok());
    assert!(manager.is_capturing());
}

#[test]
fn bgra_rows_become_packed_rgba() {
    // two rows of two pixels, each row padded to 12 bytes
    let data = [
        1, 2, 3, 4, 5, 6, 7, 8, 0, 0, 0, 0, //
        9, 10, 11, 12, 13, 14, 15, 16, 0, 0, 0, 0,
    ];
    assert_eq!(
        bgra_to_rgba(&data, 2, 2, 12),
        vec![3, 2, 1, 4, 7, 6, 5, 8, 11, 10, 9, 12, 15, 14, 13, 16]
    );
    assert_eq!(bgra_to_rgba(&data, 2, 1, 12), vec![3, 2, 1, 4, 7, 6, 5, 8]);
    assert!(bgra_to_rgba(&data, 0, 2, 12).is_empty());
    assert!(bgra_to_rgba(&[], 2, 2, 8).is_empty());
}

#[test]
fn pixels_outside_the_data_are_left_out() {
    // the second row is cut short: only its first pixel is whole
    let data = [1, 2, 3, 4, 5, 6, 7, 8, 9, 10, 11, 12, 13, 14];
    assert_eq!(bgra_to_rgba(&data, 2, 2, 8), vec![3, 2, 1, 4, 7, 6, 5, 8, 11, 10, 9, 12]);
    assert_eq!(bgra_to_rgba(&data, 1, 3, usize::MAX), vec![3, 2, 1, 4]);
}

#[test]
fn duplication_statuses() {
    assert!(matches!(outcome_of_status(0x887A_0027, "wait"), CaptureOutcome::Timeout));
    assert!(matches!(outcome_of_status(0x887A_0026, "lost"), CaptureOutcome::Lost));
    match outcome_of_status(0x887A_0005, "device removed") {
        CaptureOutcome::Error(AgentError::Capture(text)) => {
            assert_eq!(text, "DXGI capture failed: device removed")
        }
        other => panic!("unexpected {:?}", other),
    }
}

#[test]
fn a_frame_that_cannot_be_encoded_is_dropped_and_the_capture_goes_on() {
    let mut manager = started(30);
    assert_eq!(manager.tick(33), CaptureStep::Capture { timeout_ms: 50 });
    assert!(matches!(manager.on_capture_result(CaptureOutcome::Frame(raw(1))), CaptureReaction::Deliver(_)));
    manager.on_encode_failure(33);
    assert!(manager.is_capturing());
    assert_eq!(manager.frames_captured(), 0);
    assert_eq!(manager.get_metrics().unwrap().frame_drops, 1);
    // the next frame is asked for one interval later
    assert_eq!(manager.tick(65), CaptureStep::Wait { millis: 1 });
    assert_eq!(manager.tick(66), CaptureStep::Capture { timeout_ms: 50 });
    manager.on_delivery(66, true);
    assert_eq!(manager.frames_captured(), 1);
    assert_eq!(manager.get_metrics().unwrap().frame_drops, 1);
}

#[test]
fn an_encode_failure_after_the_stop_changes_nothing() {
    let mut manager = started(30);
    manager.stop().unwrap();
    manager.on_encode_failure(33);
    assert_eq!(manager.get_metrics().unwrap().frame_drops, 0);
    assert_eq!(manager.tick(100), CaptureStep::Stop);
}

#[test]
fn a_second_of_ticks_with_jitter_keeps_to_the_rate() {
    // ticks every 4 ms: frames lie between 33 and 36 ms apart
    let mut manager = started(30);
    let mut delivered = 0;
    let mut now = 0;
    while now < 1000 {
        now += 4;
        if manager.tick(now) == (CaptureStep::Capture { timeout_ms: 50 }) {
            assert!(matches!(manager.on_capture_result(CaptureOutcome::Frame(raw(now))), CaptureReaction::Deliver(_)));
            manager.on_delivery(now, true);
            delivered += 1;
        }
    }
    assert_eq!(now, 1000);
    // 33 ms at least and 36 ms at most between two frames
    assert!(delivered * 33 <= 1000);
    assert!(1000 <= delivered * 36 + 32);
    assert_eq!(delivered, 27);
    assert_eq!(manager.frames_captured(), 27);
    assert_eq!(manager.get_metrics().unwrap().fps, 30_303);
}
