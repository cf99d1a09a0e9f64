//! Core of a multi-source desktop audio/video recorder.
//!
//! The library holds the verified pipeline logic: pixel-format conversion of
//! captured frames, the video compositor with its picture-in-picture overlay,
//! the bounded queue fabric that carries frames between stages, the encoder's
//! bookkeeping, and the state machines of the recording managers.  Platform
//! capture, floating-point audio mixing and file output live outside the
//! library, behind the plain-value interfaces defined here.

pub mod audio;
pub mod compositor;
pub mod encoder;
pub mod external_recorder;
pub mod manager;
pub mod queue;
pub mod recording;
pub mod scale;
pub mod screen;
pub mod system_audio;
pub mod timeline;
pub mod webcam;

pub use recording::{
    DeviceInfo, DeviceList, ExternalRecordingConfig, OutputResolution, PipPosition,
    RecordingConfig, RecordingError, RecordingStatus, VideoQuality,
};
