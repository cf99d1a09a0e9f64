use recorder_core::external_recorder::{decode_external_frame, ExternalRecorder};
use recorder_core::manager::RecordingManager;
use recorder_core::queue::TryRecvResult;
use recorder_core::recording::{
    ExternalRecordingConfig, OutputResolution, PipPosition, RecordingConfig, RecordingError,
    VideoQuality,
};

fn screen_only_config() -> RecordingConfig {
    RecordingConfig {
        capture_screen: true,
        capture_webcam: false,
        webcam_position: PipPosition::TopRight,
        webcam_size: 25,
        capture_mic: false,
        capture_system_audio: false,
        output_path: None,
        video_quality: VideoQuality::Medium,
        frame_rate: Some(30),
        output_resolution: OutputResolution::Hd1080,
    }
}

#[test]
fn test_start_stop_idempotence() {
    let mut m = RecordingManager::new();
    assert!(m.start(screen_only_config(), String::from("a.mp4")).is_ok());
    assert!(m.status().is_recording);

    // stop twice: success, then NotRecording.
    assert_eq!(m.stop(), Ok(String::from("a.mp4")));
    assert_eq!(m.stop(), Err(RecordingError::NotRecording));
}

#[test]
fn test_start_while_running_fails() {
    let mut m = RecordingManager::new();
    assert!(m.start(screen_only_config(), String::from("a.mp4")).is_ok());
    assert_eq!(
        m.start(screen_only_config(), String::from("b.mp4")),
        Err(RecordingError::AlreadyRecording)
    );
    // The first session is untouched.
    assert_eq!(m.status().output_path, Some(String::from("a.mp4")));
}

#[test]
fn test_config_validation_no_video_source() {
    let mut m = RecordingManager::new();
    let mut config = screen_only_config();
    config.capture_screen = false;
    config.capture_webcam = false;
    assert_eq!(
        m.start(config, String::from("a.mp4")),
        Err(RecordingError::NoVideoSource)
    );
    assert!(!m.status().is_recording);
}

#[test]
fn test_stop_without_start() {
    let mut m = RecordingManager::new();
    assert_eq!(m.stop(), Err(RecordingError::NotRecording));
}

#[test]
fn test_configured_output_path_wins() {
    let mut m = RecordingManager::new();
    let mut config = screen_only_config();
    config.output_path = Some(String::from("chosen.mp4"));
    assert!(m.start(config, String::from("generated.mp4")).is_ok());
    assert_eq!(m.status().output_path, Some(String::from("chosen.mp4")));
    assert_eq!(m.stop(), Ok(String::from("chosen.mp4")));
}

#[test]
fn test_encoder_failure_surfaces_and_stops() {
    let mut m = RecordingManager::new();
    assert!(m.start(screen_only_config(), String::from("a.mp4")).is_ok());
    m.handle_encoder_failure(String::from("encoder died"));
    let status = m.status();
    assert!(!status.is_recording);
    assert_eq!(status.error, Some(String::from("encoder died")));
    assert_eq!(m.stop(), Err(RecordingError::NotRecording));
}

#[test]
fn test_manager_progress_reports() {
    let mut m = RecordingManager::new();
    assert!(m.start(screen_only_config(), String::from("a.mp4")).is_ok());
    m.record_progress(90, 3000);
    let status = m.status();
    assert_eq!(status.frame_count, 90);
    assert_eq!(status.duration_ms, 3000);
}

fn external_config(width: u32, height: u32) -> ExternalRecordingConfig {
    ExternalRecordingConfig {
        capture_mic: false,
        capture_system_audio: false,
        output_path: None,
        video_quality: VideoQuality::Medium,
        frame_rate: Some(30),
        output_resolution: OutputResolution::Hd1080,
        output_width: width,
        output_height: height,
    }
}

#[test]
fn test_external_frames_session() {
    // Frames pushed in from outside: 60 RGBA frames of 640x480.
    let mut r = ExternalRecorder::new();
    assert!(r.start(external_config(640, 480), String::from("ext.mp4")).is_ok());
    assert!(r.is_recording());

    for i in 0..60u64 {
        let data = vec![0u8; 640 * 480 * 4];
        assert!(r.receive_frame(data, 640, 480, i * 33).is_ok());
        // The encoder stage consumes concurrently, so the queue never fills.
        match r.next_frame() {
            TryRecvResult::Item(frame) => {
                assert_eq!(frame.width, 640);
                assert_eq!(frame.height, 480);
                assert_eq!(frame.timestamp_ms, i * 33);
                assert!(!frame.is_bgra);
            }
            _ => panic!("expected the queued frame"),
        }
    }
    assert_eq!(r.frame_count, 60);
    assert_eq!(r.status(1980).frame_count, 60);
    assert_eq!(r.status(1980).duration_ms, 1980);

    assert_eq!(r.stop(), Ok(String::from("ext.mp4")));
    assert!(!r.is_recording());
    assert_eq!(r.stop(), Err(RecordingError::NotRecording));
}

#[test]
fn test_external_frame_validation() {
    let mut r = ExternalRecorder::new();

    // Pushing without a session.
    assert_eq!(
        r.receive_frame(vec![0u8; 16], 2, 2, 0),
        Err(RecordingError::NotRecording)
    );

    assert!(r.start(external_config(2, 2), String::from("ext.mp4")).is_ok());

    // Wrong dimensions.
    match r.receive_frame(vec![0u8; 16], 4, 4, 0) {
        Err(RecordingError::Encoding(m)) => {
            assert_eq!(m, "frame dimensions do not match the configuration")
        }
        other => panic!("unexpected: {:?}", other),
    }

    // Right dimensions, wrong byte count.
    match r.receive_frame(vec![0u8; 15], 2, 2, 0) {
        Err(RecordingError::Encoding(m)) => {
            assert_eq!(m, "frame data size does not match the dimensions")
        }
        other => panic!("unexpected: {:?}", other),
    }

    // A valid frame.
    assert!(r.receive_frame(vec![0u8; 16], 2, 2, 0).is_ok());
    assert_eq!(r.frame_count, 1);
}

#[test]
fn test_external_queue_drops_on_full() {
    let mut r = ExternalRecorder::new();
    assert!(r.start(external_config(1, 1), String::from("ext.mp4")).is_ok());
    // The composite queue holds 120 frames; the 121st is dropped silently.
    for i in 0..121u64 {
        assert!(r.receive_frame(vec![0u8; 4], 1, 1, i).is_ok());
    }
    assert_eq!(r.frame_count, 120);
}

#[test]
fn test_decode_external_frame() {
    // "AAAA" is the base64 form of three zero bytes.
    assert_eq!(decode_external_frame("AAAA"), Ok(vec![0u8, 0, 0]));
    // "AQID" is the base64 form of [1, 2, 3].
    assert_eq!(decode_external_frame("AQID"), Ok(vec![1u8, 2, 3]));
    match decode_external_frame("not base64 !!!") {
        Err(RecordingError::Encoding(m)) => assert_eq!(m, "invalid base64 frame data"),
        other => panic!("unexpected: {:?}", other),
    }
}
