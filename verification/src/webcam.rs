//! Captured webcam frames and their pixel-format conversion.

use vstd::prelude::*;
use vstd::arithmetic::div_mod::{lemma_fundamental_div_mod, lemma_mod_bound};

verus! {

/// One captured webcam frame, packed RGB with 3 bytes per pixel.
#[derive(Debug, Clone)]
pub struct WebcamFrame {
    /// Raw RGB pixel data.
    pub data: Vec<u8>,
    /// Frame width in pixels.
    pub width: u32,
    /// Frame height in pixels.
    pub height: u32,
    /// Milliseconds since capture start.
    pub timestamp_ms: u64,
}

/// The four output bytes of pixel `i` are the three RGB source bytes followed
/// by a fully opaque alpha byte.
pub open spec fn rgb_pixel_matches(out: Seq<u8>, data: Seq<u8>, i: int) -> bool {
    &&& out[4 * i] == data[3 * i]
    &&& out[4 * i + 1] == data[3 * i + 1]
    &&& out[4 * i + 2] == data[3 * i + 2]
    &&& out[4 * i + 3] == 255u8
}

/// Byte `i` of the RGBA conversion of a webcam frame: the three RGB source
/// bytes of each pixel followed by a fully opaque alpha byte.
pub open spec fn webcam_rgba_byte_of(frame: WebcamFrame, i: int) -> u8 {
    let p = i / 4;
    let c = i % 4;
    if c < 3 {
        frame.data@[3 * p + c]
    } else {
        255u8
    }
}

/// The RGBA conversion of a whole webcam frame as one byte sequence.
pub open spec fn webcam_rgba_seq_of(frame: WebcamFrame) -> Seq<u8> {
    Seq::new((4 * frame.width * frame.height) as nat, |i: int| webcam_rgba_byte_of(frame, i))
}

/// From the per-pixel statement of the conversion to the whole-sequence one.
proof fn lemma_pointwise_webcam_rgba(out: Seq<u8>, frame: WebcamFrame)
    requires
        out.len() == 4 * frame.width * frame.height,
        forall|j: int|
            0 <= j < frame.width * frame.height ==> #[trigger] rgb_pixel_matches(
                out,
                frame.data@,
                j,
            ),
    ensures
        out == webcam_rgba_seq_of(frame),
{
    assert forall|i: int| 0 <= i < out.len() implies out[i] == webcam_rgba_byte_of(frame, i) by {
        let p = i / 4;
        let c = i % 4;
        lemma_fundamental_div_mod(i, 4);
        lemma_mod_bound(i, 4);
        assert(0 <= p < frame.width * frame.height) by (nonlinear_arith)
            requires
                i == 4 * p + c,
                0 <= c < 4,
                0 <= i < 4 * frame.width * frame.height,
        ;
        assert(rgb_pixel_matches(out, frame.data@, p));
        assert(4 * p + c == i);
    }
    assert(out =~= webcam_rgba_seq_of(frame));
}

impl WebcamFrame {
    /// The buffer holds three bytes for every pixel.
    pub open spec fn wf(&self) -> bool {
        self.data@.len() >= 3 * self.width * self.height
    }

    /// Convert the packed RGB pixels to RGBA by adding an opaque alpha
    /// channel.
    pub fn to_rgba(&self) -> (r: Vec<u8>)
        requires
            self.wf(),
        ensures
            r@ == webcam_rgba_seq_of(*self),
            r@.len() == 4 * self.width * self.height,
            forall|i: int|
                0 <= i < self.width * self.height ==> #[trigger] rgb_pixel_matches(
                    r@,
                    self.data@,
                    i,
                ),
    {
        let data_len = self.data.len();
        proof {
            assert(self.width * self.height <= self.data@.len()
                && 3 * (self.width * self.height) <= self.data@.len()) by (nonlinear_arith)
                requires
                    self.data@.len() >= 3 * self.width * self.height,
                    self.width >= 0,
                    self.height >= 0,
            ;
        }
        let pixel_count = (self.width as usize) * (self.height as usize);
        let mut rgba: Vec<u8> = Vec::new();
        let mut i: usize = 0;
        while i < pixel_count
            invariant
                self.wf(),
                data_len == self.data@.len(),
                pixel_count == self.width * self.height,
                3 * pixel_count <= data_len,
                i <= pixel_count,
                rgba@.len() == 4 * i,
                forall|j: int| 0 <= j < i ==> #[trigger] rgb_pixel_matches(rgba@, self.data@, j),
            decreases pixel_count - i,
        {
            let offset = 3 * i;
            let ghost before = rgba@;
            rgba.push(self.data[offset]);
            rgba.push(self.data[offset + 1]);
            rgba.push(self.data[offset + 2]);
            rgba.push(255);
            proof {
                assert forall|j: int| 0 <= j <= i implies #[trigger] rgb_pixel_matches(
                    rgba@,
                    self.data@,
                    j,
                ) by {
                    if j < i {
                        assert(rgb_pixel_matches(before, self.data@, j));
                        assert(4 * j + 3 < before.len());
                    } else {
                        assert(rgba@[4 * (i as int)] == self.data@[3 * (i as int)]);
                    }
                }
            }
            i += 1;
        }
        proof {
            assert(4 * (self.width * self.height) == 4 * self.width * self.height) by (nonlinear_arith);
            lemma_pointwise_webcam_rgba(rgba@, *self);
        }
        rgba
    }
}

/// Webcam capture configuration.
#[derive(Debug, Clone)]
pub struct WebcamCaptureConfig {
    /// Target frames per second.
    pub fps: u32,
    /// Desired capture width.
    pub width: u32,
    /// Desired capture height.
    pub height: u32,
    /// Camera device index.
    pub device_index: usize,
}

impl Default for WebcamCaptureConfig {
    fn default() -> (d: Self)
        ensures
            d.fps == 30u32,
            d.width == 640u32,
            d.height == 480u32,
            d.device_index == 0usize,
    {
        WebcamCaptureConfig { fps: 30, width: 640, height: 480, device_index: 0 }
    }
}

} // verus!
