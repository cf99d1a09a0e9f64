use recorder_core::audio::MicrophoneCaptureConfig;
use recorder_core::encoder::{EncoderClock, EncoderConfig};
use recorder_core::recording::{
    OutputResolution, PipPosition, RecordingConfig, RecordingError, RecordingStatus, VideoQuality,
};
use recorder_core::screen::ScreenCaptureConfig;
use recorder_core::system_audio::SystemAudioCaptureConfig;
use recorder_core::timeline::MonotonicStamper;
use recorder_core::webcam::WebcamCaptureConfig;

#[test]
fn test_video_quality_table() {
    assert_eq!(VideoQuality::Low.crf(), 28);
    assert_eq!(VideoQuality::Medium.crf(), 23);
    assert_eq!(VideoQuality::High.crf(), 18);

    assert_eq!(VideoQuality::Low.video_bitrate(), 2500);
    assert_eq!(VideoQuality::Medium.video_bitrate(), 5000);
    assert_eq!(VideoQuality::High.video_bitrate(), 10000);

    assert_eq!(VideoQuality::Low.audio_bitrate(), 128);
    assert_eq!(VideoQuality::Medium.audio_bitrate(), 192);
    assert_eq!(VideoQuality::High.audio_bitrate(), 256);
}

#[test]
fn test_output_resolution_dimensions() {
    assert_eq!(OutputResolution::Hd720.dimensions(), (1280, 720));
    assert_eq!(OutputResolution::Hd1080.dimensions(), (1920, 1080));
    assert_eq!(OutputResolution::Qhd1440.dimensions(), (2560, 1440));
    assert_eq!(OutputResolution::Uhd4k.dimensions(), (3840, 2160));
    assert_eq!(OutputResolution::Uhd4k.width(), 3840);
    assert_eq!(OutputResolution::Uhd4k.height(), 2160);
}

#[test]
fn test_defaults() {
    let c = RecordingConfig::default();
    assert!(c.capture_screen);
    assert!(!c.capture_webcam);
    assert!(matches!(c.webcam_position, PipPosition::TopRight));
    assert_eq!(c.webcam_size, 25);
    assert!(c.capture_mic);
    assert!(!c.capture_system_audio);
    assert!(c.output_path.is_none());
    assert!(matches!(c.video_quality, VideoQuality::Medium));
    assert_eq!(c.frame_rate, Some(30));
    assert!(matches!(c.output_resolution, OutputResolution::Hd1080));

    let s = RecordingStatus::default();
    assert!(!s.is_recording);
    assert_eq!(s.duration_ms, 0);
    assert_eq!(s.frame_count, 0);

    let m = MicrophoneCaptureConfig::default();
    assert_eq!(m.sample_rate, 48000);
    assert_eq!(m.channels, 2);
    assert_eq!(m.buffer_size, 1024);

    let sa = SystemAudioCaptureConfig::default();
    assert_eq!(sa.sample_rate, 48000);
    assert_eq!(sa.channels, 2);

    let sc = ScreenCaptureConfig::default();
    assert_eq!(sc.fps, 30);
    assert_eq!(sc.display_index, 0);

    let wc = WebcamCaptureConfig::default();
    assert_eq!(wc.fps, 30);
    assert_eq!(wc.width, 640);
    assert_eq!(wc.height, 480);

    let e = EncoderConfig::default();
    assert_eq!(e.output_path, "output.mp4");
    assert_eq!(e.width, 1920);
    assert_eq!(e.height, 1080);
    assert_eq!(e.frame_rate, 30);
    assert_eq!(e.audio_sample_rate, 48000);
    assert_eq!(e.audio_channels, 2);
}

#[test]
fn test_generated_file_name() {
    assert_eq!(
        recorder_core::recording::generated_file_name("20250101_120000"),
        "recording_20250101_120000.mp4"
    );
}

#[test]
fn test_error_messages() {
    assert_eq!(
        RecordingError::AlreadyRecording.message(),
        "Recording already in progress"
    );
    assert_eq!(RecordingError::NotRecording.message(), "No recording in progress");
    assert_eq!(RecordingError::NoVideoSource.message(), "No video source selected");
    assert_eq!(
        RecordingError::ScreenCapture(String::from("no display")).message(),
        "Screen capture error: no display"
    );
    assert_eq!(
        RecordingError::Webcam(String::from("busy")).message(),
        "Webcam error: busy"
    );
    assert_eq!(
        RecordingError::Audio(String::from("no device")).message(),
        "Audio error: no device"
    );
    assert_eq!(
        RecordingError::Encoding(String::from("codec")).message(),
        "Encoding error: codec"
    );
    assert_eq!(RecordingError::Io(String::from("disk")).message(), "IO error: disk");
    assert!(RecordingError::PermissionDenied
        .message()
        .contains("Screen recording permission required"));
}

#[test]
fn test_monotonic_stamps() {
    // The clock jumping backwards never lowers the emitted stamps.
    let mut t = MonotonicStamper::new();
    assert_eq!(t.stamp(5), 5);
    assert_eq!(t.stamp(3), 5);
    assert_eq!(t.stamp(5), 5);
    assert_eq!(t.stamp(7), 7);
}

#[test]
fn test_encoder_clock_pts() {
    let mut clock = EncoderClock::new();
    assert_eq!(clock.next_video_pts(), 0);
    assert_eq!(clock.next_video_pts(), 1);
    assert_eq!(clock.next_video_pts(), 2);
    assert_eq!(clock.next_audio_pts(1024), 0);
    assert_eq!(clock.next_audio_pts(1024), 1024);
    assert_eq!(clock.next_audio_pts(1024), 2048);
}
