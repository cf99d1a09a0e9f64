//! Encoder configuration and timestamp bookkeeping.
//!
//! The codec calls themselves, and the fallback path that persists frames as
//! images, run outside the library; what is kept here is the configuration
//! they are built from and the presentation-timestamp assignment: video PTS
//! counts frames in the 1/fps time base, audio PTS counts samples in the
//! 1/sample-rate time base.

use vstd::prelude::*;
use vstd::string::*;

use crate::recording::VideoQuality;

verus! {

/// Encoder configuration.
#[derive(Debug, Clone)]
pub struct EncoderConfig {
    /// Output file path.
    pub output_path: String,
    /// Video width in pixels.
    pub width: u32,
    /// Video height in pixels.
    pub height: u32,
    /// Frames per second.
    pub frame_rate: u32,
    /// Video quality preset.
    pub quality: VideoQuality,
    /// Audio sample rate in Hz.
    pub audio_sample_rate: u32,
    /// Audio channels.
    pub audio_channels: u16,
}

impl Default for EncoderConfig {
    fn default() -> (d: Self)
        ensures
            d.output_path@ == "output.mp4"@,
            d.width == 1920u32,
            d.height == 1080u32,
            d.frame_rate == 30u32,
            d.quality == VideoQuality::Medium,
            d.audio_sample_rate == 48000u32,
            d.audio_channels == 2u16,
    {
        EncoderConfig {
            output_path: String::from_str("output.mp4"),
            width: 1920,
            height: 1080,
            frame_rate: 30,
            quality: VideoQuality::Medium,
            audio_sample_rate: 48000,
            audio_channels: 2,
        }
    }
}

/// Assigns presentation timestamps to outgoing frames and audio blocks.
pub struct EncoderClock {
    video_pts: u64,
    audio_pts: u64,
}

impl EncoderClock {
    /// The index of the next video frame, in the 1/fps time base.
    pub closed spec fn spec_video_pts(&self) -> u64 {
        self.video_pts
    }

    /// The index of the next audio sample, in the 1/sample-rate time base.
    pub closed spec fn spec_audio_pts(&self) -> u64 {
        self.audio_pts
    }

    /// A fresh clock: both streams start at zero.
    pub fn new() -> (r: Self)
        ensures
            r.spec_video_pts() == 0u64,
            r.spec_audio_pts() == 0u64,
    {
        EncoderClock { video_pts: 0, audio_pts: 0 }
    }

    /// The PTS of the next video frame; each frame advances the stream by
    /// one tick.
    pub fn next_video_pts(&mut self) -> (r: u64)
        requires
            old(self).spec_video_pts() < u64::MAX,
        ensures
            r == old(self).spec_video_pts(),
            final(self).spec_video_pts() == old(self).spec_video_pts() + 1,
            final(self).spec_audio_pts() == old(self).spec_audio_pts(),
    {
        let pts = self.video_pts;
        self.video_pts = self.video_pts + 1;
        pts
    }

    /// The PTS of the next audio block; a block of `samples_per_block`
    /// samples per channel advances the stream by that many ticks.
    pub fn next_audio_pts(&mut self, samples_per_block: u64) -> (r: u64)
        requires
            old(self).spec_audio_pts() + samples_per_block <= u64::MAX,
        ensures
            r == old(self).spec_audio_pts(),
            final(self).spec_audio_pts() == old(self).spec_audio_pts() + samples_per_block,
            final(self).spec_video_pts() == old(self).spec_video_pts(),
    {
        let pts = self.audio_pts;
        self.audio_pts = self.audio_pts + samples_per_block;
        pts
    }
}

} // verus!
