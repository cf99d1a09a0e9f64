//! Audio capture configuration.
//!
//! Audio sample buffers are floating point and are processed outside the
//! library; the types here carry the plain-value configuration that the
//! capture sources and the mixer are built from.

use vstd::prelude::*;

verus! {

/// Which capture device an audio stream comes from.
#[derive(Debug, Clone, Copy, PartialEq, Eq, Structural)]
pub enum AudioSource {
    Microphone,
    SystemAudio,
}

/// Microphone capture configuration.
#[derive(Debug, Clone)]
pub struct MicrophoneCaptureConfig {
    /// Target sample rate in Hz.
    pub sample_rate: u32,
    /// Number of channels; 1 is mono, 2 is stereo.
    pub channels: u16,
    /// Device name; the default input device when absent.
    pub device_name: Option<String>,
    /// Samples per capture callback.
    pub buffer_size: u32,
}

impl Default for MicrophoneCaptureConfig {
    fn default() -> (d: Self)
        ensures
            d.sample_rate == 48000u32,
            d.channels == 2u16,
            d.device_name is None,
            d.buffer_size == 1024u32,
    {
        MicrophoneCaptureConfig {
            sample_rate: 48000,
            channels: 2,
            device_name: None,
            buffer_size: 1024,
        }
    }
}

} // verus!
