//! Recording configuration, status and error types.

use vstd::prelude::*;
use vstd::string::*;

verus! {

/// Position for the picture-in-picture webcam overlay.
#[derive(Debug, Clone, Copy, PartialEq, Eq, Structural)]
pub enum PipPosition {
    TopRight,
    TopLeft,
    BottomRight,
    BottomLeft,
}

impl Default for PipPosition {
    fn default() -> (d: Self)
        ensures
            d == PipPosition::TopRight,
    {
        PipPosition::TopRight
    }
}

/// Video quality preset.
#[derive(Debug, Clone, Copy, PartialEq, Eq, Structural)]
pub enum VideoQuality {
    Low,
    Medium,
    High,
}

impl Default for VideoQuality {
    fn default() -> (d: Self)
        ensures
            d == VideoQuality::Medium,
    {
        VideoQuality::Medium
    }
}

impl VideoQuality {
    /// CRF (constant rate factor) for H.264 encoding; lower means higher quality.
    pub fn crf(&self) -> (r: u32)
        ensures
            r == match *self {
                VideoQuality::Low => 28u32,
                VideoQuality::Medium => 23u32,
                VideoQuality::High => 18u32,
            },
    {
        match self {
            VideoQuality::Low => 28,
            VideoQuality::Medium => 23,
            VideoQuality::High => 18,
        }
    }

    /// Video bitrate in kbps.
    pub fn video_bitrate(&self) -> (r: u32)
        ensures
            r == match *self {
                VideoQuality::Low => 2500u32,
                VideoQuality::Medium => 5000u32,
                VideoQuality::High => 10000u32,
            },
    {
        match self {
            VideoQuality::Low => 2500,
            VideoQuality::Medium => 5000,
            VideoQuality::High => 10000,
        }
    }

    /// Audio bitrate in kbps.
    pub fn audio_bitrate(&self) -> (r: u32)
        ensures
            r == match *self {
                VideoQuality::Low => 128u32,
                VideoQuality::Medium => 192u32,
                VideoQuality::High => 256u32,
            },
    {
        match self {
            VideoQuality::Low => 128,
            VideoQuality::Medium => 192,
            VideoQuality::High => 256,
        }
    }
}

/// Output resolution preset; every preset is 16:9.
#[derive(Debug, Clone, Copy, PartialEq, Eq, Structural)]
pub enum OutputResolution {
    /// 1280x720
    Hd720,
    /// 1920x1080
    Hd1080,
    /// 2560x1440
    Qhd1440,
    /// 3840x2160
    Uhd4k,
}

impl Default for OutputResolution {
    fn default() -> (d: Self)
        ensures
            d == OutputResolution::Hd1080,
    {
        OutputResolution::Hd1080
    }
}

impl OutputResolution {
    /// The width and height of this preset.
    pub open spec fn spec_dimensions(&self) -> (u32, u32) {
        match *self {
            OutputResolution::Hd720 => (1280u32, 720u32),
            OutputResolution::Hd1080 => (1920u32, 1080u32),
            OutputResolution::Qhd1440 => (2560u32, 1440u32),
            OutputResolution::Uhd4k => (3840u32, 2160u32),
        }
    }

    /// The width and height of this preset.
    #[verifier::when_used_as_spec(spec_dimensions)]
    pub fn dimensions(&self) -> (r: (u32, u32))
        ensures
            r == self.spec_dimensions(),
    {
        match self {
            OutputResolution::Hd720 => (1280, 720),
            OutputResolution::Hd1080 => (1920, 1080),
            OutputResolution::Qhd1440 => (2560, 1440),
            OutputResolution::Uhd4k => (3840, 2160),
        }
    }

    /// Just the width.
    pub fn width(&self) -> (r: u32)
        ensures
            r == self.dimensions().0,
    {
        self.dimensions().0
    }

    /// Just the height.
    pub fn height(&self) -> (r: u32)
        ensures
            r == self.dimensions().1,
    {
        self.dimensions().1
    }
}

/// Every resolution preset is 16:9: width and height are in that ratio for
/// each of the four choices.
pub proof fn lemma_resolutions_are_16_to_9(r: OutputResolution)
    ensures
        r.spec_dimensions().0 * 9 == r.spec_dimensions().1 * 16,
{
}

/// Configuration of a recording session.
#[derive(Debug, Clone)]
pub struct RecordingConfig {
    /// Whether to capture the screen.
    pub capture_screen: bool,
    /// Whether to capture the webcam.
    pub capture_webcam: bool,
    /// Position of the webcam overlay.
    pub webcam_position: PipPosition,
    /// Webcam overlay size as a percentage of the output width (10 to 50).
    pub webcam_size: u32,
    /// Whether to capture microphone audio.
    pub capture_mic: bool,
    /// Whether to capture system (loopback) audio.
    pub capture_system_audio: bool,
    /// Output file path; generated from the clock when absent.
    pub output_path: Option<String>,
    /// Video quality preset.
    pub video_quality: VideoQuality,
    /// Target frame rate; 30 when absent.
    pub frame_rate: Option<u32>,
    /// Output resolution preset, always 16:9.
    pub output_resolution: OutputResolution,
}

impl Default for RecordingConfig {
    fn default() -> (d: Self)
        ensures
            d.capture_screen,
            !d.capture_webcam,
            d.webcam_position == PipPosition::TopRight,
            d.webcam_size == 25u32,
            d.capture_mic,
            !d.capture_system_audio,
            d.output_path is None,
            d.video_quality == VideoQuality::Medium,
            d.frame_rate == Some(30u32),
            d.output_resolution == OutputResolution::Hd1080,
    {
        RecordingConfig {
            capture_screen: true,
            capture_webcam: false,
            webcam_position: PipPosition::TopRight,
            webcam_size: 25,
            capture_mic: true,
            capture_system_audio: false,
            output_path: None,
            video_quality: VideoQuality::Medium,
            frame_rate: Some(30),
            output_resolution: OutputResolution::Hd1080,
        }
    }
}

/// Configuration of a recording fed with pre-composited frames from outside.
#[derive(Debug, Clone)]
pub struct ExternalRecordingConfig {
    /// Whether to capture microphone audio.
    pub capture_mic: bool,
    /// Whether to capture system (loopback) audio.
    pub capture_system_audio: bool,
    /// Output file path; generated from the clock when absent.
    pub output_path: Option<String>,
    /// Video quality preset.
    pub video_quality: VideoQuality,
    /// Target frame rate; 30 when absent.
    pub frame_rate: Option<u32>,
    /// Output resolution preset, always 16:9.
    pub output_resolution: OutputResolution,
    /// Width in pixels of the frames pushed in from outside.
    pub output_width: u32,
    /// Height in pixels of the frames pushed in from outside.
    pub output_height: u32,
}

impl Default for ExternalRecordingConfig {
    fn default() -> (d: Self)
        ensures
            d.capture_mic,
            !d.capture_system_audio,
            d.output_path is None,
            d.video_quality == VideoQuality::Medium,
            d.frame_rate == Some(30u32),
            d.output_resolution == OutputResolution::Hd1080,
            d.output_width == 1920u32,
            d.output_height == 1080u32,
    {
        ExternalRecordingConfig {
            capture_mic: true,
            capture_system_audio: false,
            output_path: None,
            video_quality: VideoQuality::Medium,
            frame_rate: Some(30),
            output_resolution: OutputResolution::Hd1080,
            output_width: 1920,
            output_height: 1080,
        }
    }
}

/// Snapshot of the current recording state.
#[derive(Debug, Clone)]
pub struct RecordingStatus {
    /// Whether a recording is active.
    pub is_recording: bool,
    /// Duration of the session in milliseconds.
    pub duration_ms: u64,
    /// Frames emitted so far.
    pub frame_count: u64,
    /// Output file path of the active session.
    pub output_path: Option<String>,
    /// Error message of a failed session.
    pub error: Option<String>,
}

impl Default for RecordingStatus {
    fn default() -> (d: Self)
        ensures
            !d.is_recording,
            d.duration_ms == 0u64,
            d.frame_count == 0u64,
            d.output_path is None,
            d.error is None,
    {
        RecordingStatus {
            is_recording: false,
            duration_ms: 0,
            frame_count: 0,
            output_path: None,
            error: None,
        }
    }
}

/// One capture device visible to the user.
#[derive(Debug, Clone)]
pub struct DeviceInfo {
    pub id: String,
    pub name: String,
}

/// The capture devices available on this machine.
#[derive(Debug, Clone)]
pub struct DeviceList {
    pub screens: Vec<DeviceInfo>,
    pub webcams: Vec<DeviceInfo>,
    pub microphones: Vec<DeviceInfo>,
    pub has_system_audio: bool,
}

impl Default for DeviceList {
    fn default() -> (d: Self)
        ensures
            d.screens@.len() == 0,
            d.webcams@.len() == 0,
            d.microphones@.len() == 0,
            !d.has_system_audio,
    {
        DeviceList {
            screens: Vec::new(),
            webcams: Vec::new(),
            microphones: Vec::new(),
            has_system_audio: false,
        }
    }
}

/// The generated output file name for a session started at the given
/// clock reading: `recording_<stamp>.mp4`.
pub fn generated_file_name(stamp: &str) -> (r: String)
    ensures
        r@ == "recording_"@ + stamp@ + ".mp4"@,
{
    String::from_str("recording_").concat(stamp).concat(".mp4")
}

/// Recording errors.
#[derive(Debug, Clone, PartialEq)]
pub enum RecordingError {
    /// A second start while a session is active.
    AlreadyRecording,
    /// A stop, or a pushed frame, without an active session.
    NotRecording,
    /// A configuration with neither screen nor webcam capture.
    NoVideoSource,
    /// The screen source failed; the payload names the cause.
    ScreenCapture(String),
    /// The webcam source failed; the payload names the cause.
    Webcam(String),
    /// An audio source or the mixer failed; the payload names the cause.
    Audio(String),
    /// The encoder failed; the payload names the cause.
    Encoding(String),
    /// A file operation failed; the payload names the cause.
    Io(String),
    /// Screen recording is not permitted by the operating system.
    PermissionDenied,
}

impl RecordingError {
    /// The human-readable form of this error, one line per kind.
    pub open spec fn spec_message(&self) -> Seq<char> {
        match *self {
            RecordingError::AlreadyRecording => "Recording already in progress"@,
            RecordingError::NotRecording => "No recording in progress"@,
            RecordingError::NoVideoSource => "No video source selected"@,
            RecordingError::ScreenCapture(m) => "Screen capture error: "@ + m@,
            RecordingError::Webcam(m) => "Webcam error: "@ + m@,
            RecordingError::Audio(m) => "Audio error: "@ + m@,
            RecordingError::Encoding(m) => "Encoding error: "@ + m@,
            RecordingError::Io(m) => "IO error: "@ + m@,
            RecordingError::PermissionDenied => "Screen recording permission required. Enable access for this app under Privacy & Security, Screen Recording."@,
        }
    }

    /// Render the error as the string shown to the user.
    pub fn message(&self) -> (r: String)
        ensures
            r@ == self.spec_message(),
    {
        match self {
            RecordingError::AlreadyRecording => String::from_str("Recording already in progress"),
            RecordingError::NotRecording => String::from_str("No recording in progress"),
            RecordingError::NoVideoSource => String::from_str("No video source selected"),
            RecordingError::ScreenCapture(m) => String::from_str("Screen capture error: ").concat(m.as_str()),
            RecordingError::Webcam(m) => String::from_str("Webcam error: ").concat(m.as_str()),
            RecordingError::Audio(m) => String::from_str("Audio error: ").concat(m.as_str()),
            RecordingError::Encoding(m) => String::from_str("Encoding error: ").concat(m.as_str()),
            RecordingError::Io(m) => String::from_str("IO error: ").concat(m.as_str()),
            RecordingError::PermissionDenied => String::from_str("Screen recording permission required. Enable access for this app under Privacy & Security, Screen Recording."),
        }
    }
}

} // verus!
