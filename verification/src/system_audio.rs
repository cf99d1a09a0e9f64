//! System (loopback) audio capture configuration.

use vstd::prelude::*;

verus! {

/// System audio capture configuration.
#[derive(Debug, Clone)]
pub struct SystemAudioCaptureConfig {
    /// Target sample rate in Hz.
    pub sample_rate: u32,
    /// Number of channels.
    pub channels: u16,
}

impl Default for SystemAudioCaptureConfig {
    fn default() -> (d: Self)
        ensures
            d.sample_rate == 48000u32,
            d.channels == 2u16,
    {
        SystemAudioCaptureConfig { sample_rate: 48000, channels: 2 }
    }
}

} // verus!
