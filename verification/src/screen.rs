//! Captured screen frames and their pixel-format conversions.

use vstd::prelude::*;
use vstd::arithmetic::div_mod::{lemma_fundamental_div_mod, lemma_mod_bound};

verus! {

/// One captured screen frame.
///
/// The pixel buffer is in the platform's BGRA order and each row may carry
/// alignment padding: `stride` is the true byte count per row and may exceed
/// `width * 4`.  Padding bytes never reach the output of a conversion.
#[derive(Debug, Clone)]
pub struct ScreenFrame {
    /// Raw BGRA pixel data, rows of `stride` bytes each.
    pub data: Vec<u8>,
    /// Frame width in pixels.
    pub width: u32,
    /// Frame height in pixels.
    pub height: u32,
    /// Bytes per row; at least `width * 4`.
    pub stride: usize,
    /// Milliseconds since capture start.
    pub timestamp_ms: u64,
}

/// The four output bytes of pixel (x, y) equal the RGBA reordering of the
/// BGRA source bytes of that pixel.
pub open spec fn rgba_pixel_matches(
    out: Seq<u8>,
    data: Seq<u8>,
    width: int,
    stride: int,
    y: int,
    x: int,
) -> bool {
    let o = 4 * (y * width + x);
    let s = y * stride + 4 * x;
    &&& out[o] == data[s + 2]
    &&& out[o + 1] == data[s + 1]
    &&& out[o + 2] == data[s]
    &&& out[o + 3] == data[s + 3]
}

/// The four output bytes of pixel (x, y) equal the BGRA source bytes of that
/// pixel, in source order.
pub open spec fn bgra_pixel_matches(
    out: Seq<u8>,
    data: Seq<u8>,
    width: int,
    stride: int,
    y: int,
    x: int,
) -> bool {
    let o = 4 * (y * width + x);
    let s = y * stride + 4 * x;
    &&& out[o] == data[s]
    &&& out[o + 1] == data[s + 1]
    &&& out[o + 2] == data[s + 2]
    &&& out[o + 3] == data[s + 3]
}

/// Byte `i` of the RGBA conversion of a frame: pixels in row-major order,
/// four bytes per pixel, reordered from the BGRA source bytes.
pub open spec fn rgba_byte_of(frame: ScreenFrame, i: int) -> u8 {
    let p = i / 4;
    let c = i % 4;
    let y = p / (frame.width as int);
    let x = p % (frame.width as int);
    let s = y * frame.stride + 4 * x;
    if c == 0 {
        frame.data@[s + 2]
    } else if c == 1 {
        frame.data@[s + 1]
    } else if c == 2 {
        frame.data@[s]
    } else {
        frame.data@[s + 3]
    }
}

/// The RGBA conversion of a whole frame as one tightly packed byte sequence.
pub open spec fn rgba_seq_of(frame: ScreenFrame) -> Seq<u8> {
    Seq::new((4 * frame.width * frame.height) as nat, |i: int| rgba_byte_of(frame, i))
}

/// Byte `i` of the tightly packed BGRA form of a frame: the source bytes in
/// source order with the row padding dropped.
pub open spec fn bgra_byte_of(frame: ScreenFrame, i: int) -> u8 {
    let p = i / 4;
    let c = i % 4;
    let y = p / (frame.width as int);
    let x = p % (frame.width as int);
    let s = y * frame.stride + 4 * x;
    frame.data@[s + c]
}

/// The tightly packed BGRA form of a whole frame as one byte sequence.
pub open spec fn bgra_seq_of(frame: ScreenFrame) -> Seq<u8> {
    Seq::new((4 * frame.width * frame.height) as nat, |i: int| bgra_byte_of(frame, i))
}

/// From the per-pixel statement of the conversion to the whole-sequence one.
proof fn lemma_pointwise_rgba(out: Seq<u8>, frame: ScreenFrame)
    requires
        out.len() == 4 * frame.width * frame.height,
        forall|y: int, x: int|
            0 <= y < frame.height && 0 <= x < frame.width ==> #[trigger] rgba_pixel_matches(
                out,
                frame.data@,
                frame.width as int,
                frame.stride as int,
                y,
                x,
            ),
    ensures
        out == rgba_seq_of(frame),
{
    let w = frame.width as int;
    let h = frame.height as int;
    assert forall|i: int| 0 <= i < out.len() implies out[i] == rgba_byte_of(frame, i) by {
        let p = i / 4;
        let c = i % 4;
        lemma_fundamental_div_mod(i, 4);
        lemma_mod_bound(i, 4);
        assert(w > 0 && h > 0) by (nonlinear_arith)
            requires
                4 * w * h > 0,
                w >= 0,
                h >= 0,
        ;
        let y = p / w;
        let x = p % w;
        lemma_fundamental_div_mod(p, w);
        lemma_mod_bound(p, w);
        assert(p < w * h) by (nonlinear_arith)
            requires
                4 * p + c == i,
                i < 4 * w * h,
                c >= 0,
        ;
        assert(0 <= y < h) by (nonlinear_arith)
            requires
                p == w * y + x,
                0 <= x < w,
                0 <= p < w * h,
                w > 0,
        ;
        assert(rgba_pixel_matches(out, frame.data@, w, frame.stride as int, y, x));
        assert(4 * (y * w + x) + c == i) by (nonlinear_arith)
            requires
                i == 4 * p + c,
                p == w * y + x,
        ;
    }
    assert(out =~= rgba_seq_of(frame));
}

/// From the per-pixel statement of the repacking to the whole-sequence one.
proof fn lemma_pointwise_bgra(out: Seq<u8>, frame: ScreenFrame)
    requires
        out.len() == 4 * frame.width * frame.height,
        forall|y: int, x: int|
            0 <= y < frame.height && 0 <= x < frame.width ==> #[trigger] bgra_pixel_matches(
                out,
                frame.data@,
                frame.width as int,
                frame.stride as int,
                y,
                x,
            ),
    ensures
        out == bgra_seq_of(frame),
{
    let w = frame.width as int;
    let h = frame.height as int;
    assert forall|i: int| 0 <= i < out.len() implies out[i] == bgra_byte_of(frame, i) by {
        let p = i / 4;
        let c = i % 4;
        lemma_fundamental_div_mod(i, 4);
        lemma_mod_bound(i, 4);
        assert(w > 0 && h > 0) by (nonlinear_arith)
            requires
                4 * w * h > 0,
                w >= 0,
                h >= 0,
        ;
        let y = p / w;
        let x = p % w;
        lemma_fundamental_div_mod(p, w);
        lemma_mod_bound(p, w);
        assert(p < w * h) by (nonlinear_arith)
            requires
                4 * p + c == i,
                i < 4 * w * h,
                c >= 0,
        ;
        assert(0 <= y < h) by (nonlinear_arith)
            requires
                p == w * y + x,
                0 <= x < w,
                0 <= p < w * h,
                w > 0,
        ;
        assert(bgra_pixel_matches(out, frame.data@, w, frame.stride as int, y, x));
        assert(4 * (y * w + x) + c == i) by (nonlinear_arith)
            requires
                i == 4 * p + c,
                p == w * y + x,
        ;
    }
    assert(out =~= bgra_seq_of(frame));
}

impl ScreenFrame {
    /// The buffer holds every row at the declared stride, and a row holds
    /// every pixel.
    pub open spec fn wf(&self) -> bool {
        &&& self.stride >= 4 * self.width
        &&& self.data@.len() >= self.height * self.stride
    }

    /// Convert the platform BGRA pixels to tightly packed RGBA, row by row,
    /// dropping any per-row padding.
    pub fn to_rgba(&self) -> (r: Vec<u8>)
        requires
            self.wf(),
        ensures
            r@ == rgba_seq_of(*self),
            r@.len() == 4 * self.width * self.height,
            forall|y: int, x: int|
                0 <= y < self.height && 0 <= x < self.width ==> #[trigger] rgba_pixel_matches(
                    r@,
                    self.data@,
                    self.width as int,
                    self.stride as int,
                    y,
                    x,
                ),
    {
        let width = self.width as usize;
        let height = self.height as usize;
        let data_len = self.data.len();
        let mut rgba: Vec<u8> = Vec::new();
        let mut y: usize = 0;
        while y < height
            invariant
                self.wf(),
                width == self.width,
                height == self.height,
                data_len == self.data@.len(),
                y <= height,
                rgba@.len() == 4 * (y * width),
                forall|yy: int, xx: int|
                    0 <= yy < y && 0 <= xx < width ==> #[trigger] rgba_pixel_matches(
                        rgba@,
                        self.data@,
                        width as int,
                        self.stride as int,
                        yy,
                        xx,
                    ),
            decreases height - y,
        {
            proof {
                assert(y * self.stride + self.stride <= self.data@.len()) by (nonlinear_arith)
                    requires
                        y + 1 <= self.height,
                        self.stride >= 0,
                        self.data@.len() >= self.height * self.stride,
                ;
            }
            let row_start = y * self.stride;
            let mut x: usize = 0;
            while x < width
                invariant
                    self.wf(),
                    width == self.width,
                    height == self.height,
                    data_len == self.data@.len(),
                    y < height,
                    x <= width,
                    row_start == y * self.stride,
                    row_start + self.stride <= self.data@.len(),
                    rgba@.len() == 4 * (y * width + x),
                    forall|yy: int, xx: int|
                        (0 <= yy < y && 0 <= xx < width) || (yy == y && 0 <= xx < x)
                            ==> #[trigger] rgba_pixel_matches(
                            rgba@,
                            self.data@,
                            width as int,
                            self.stride as int,
                            yy,
                            xx,
                        ),
                decreases width - x,
            {
                let offset = row_start + 4 * x;
                assert(offset + 4 <= row_start + self.stride);
                let ghost before = rgba@;
                rgba.push(self.data[offset + 2]);
                rgba.push(self.data[offset + 1]);
                rgba.push(self.data[offset]);
                rgba.push(self.data[offset + 3]);
                proof {
                    assert forall|yy: int, xx: int|
                        (0 <= yy < y && 0 <= xx < width) || (yy == y && 0 <= xx <= x)
                            implies #[trigger] rgba_pixel_matches(
                        rgba@,
                        self.data@,
                        width as int,
                        self.stride as int,
                        yy,
                        xx,
                    ) by {
                        if yy == y && xx == x {
                            assert(rgba@[4 * (y * width + x)] == self.data@[y * self.stride + 4 * x + 2]);
                        } else {
                            assert(rgba_pixel_matches(before, self.data@, width as int, self.stride as int, yy, xx));
                            assert(4 * (yy * width + xx) + 3 < before.len()) by (nonlinear_arith)
                                requires
                                    before.len() == 4 * (y * width + x),
                                    (0 <= yy < y && 0 <= xx < width) || (yy == y && 0 <= xx < x),
                                    0 <= width,
                            ;
                        }
                    }
                }
                x += 1;
            }
            proof {
                assert(4 * (y * width + width) == 4 * ((y + 1) * width)) by (nonlinear_arith);
            }
            y += 1;
        }
        proof {
            assert(4 * (height * width) == 4 * self.width * self.height) by (nonlinear_arith)
                requires
                    width == self.width,
                    height == self.height,
            ;
            lemma_pointwise_rgba(rgba@, *self);
        }
        rgba
    }

    /// Repack the BGRA pixels tightly, dropping any per-row padding but
    /// keeping the platform byte order.
    pub fn to_packed_bgra(&self) -> (r: Vec<u8>)
        requires
            self.wf(),
        ensures
            r@ == bgra_seq_of(*self),
            r@.len() == 4 * self.width * self.height,
            forall|y: int, x: int|
                0 <= y < self.height && 0 <= x < self.width ==> #[trigger] bgra_pixel_matches(
                    r@,
                    self.data@,
                    self.width as int,
                    self.stride as int,
                    y,
                    x,
                ),
    {
        let width = self.width as usize;
        let height = self.height as usize;
        let data_len = self.data.len();
        let mut bgra: Vec<u8> = Vec::new();
        let mut y: usize = 0;
        while y < height
            invariant
                self.wf(),
                width == self.width,
                height == self.height,
                data_len == self.data@.len(),
                y <= height,
                bgra@.len() == 4 * (y * width),
                forall|yy: int, xx: int|
                    0 <= yy < y && 0 <= xx < width ==> #[trigger] bgra_pixel_matches(
                        bgra@,
                        self.data@,
                        width as int,
                        self.stride as int,
                        yy,
                        xx,
                    ),
            decreases height - y,
        {
            proof {
                assert(y * self.stride + self.stride <= self.data@.len()) by (nonlinear_arith)
                    requires
                        y + 1 <= self.height,
                        self.stride >= 0,
                        self.data@.len() >= self.height * self.stride,
                ;
            }
            let row_start = y * self.stride;
            let mut x: usize = 0;
            while x < width
                invariant
                    self.wf(),
                    width == self.width,
                    height == self.height,
                    data_len == self.data@.len(),
                    y < height,
                    x <= width,
                    row_start == y * self.stride,
                    row_start + self.stride <= self.data@.len(),
                    bgra@.len() == 4 * (y * width + x),
                    forall|yy: int, xx: int|
                        (0 <= yy < y && 0 <= xx < width) || (yy == y && 0 <= xx < x)
                            ==> #[trigger] bgra_pixel_matches(
                            bgra@,
                            self.data@,
                            width as int,
                            self.stride as int,
                            yy,
                            xx,
                        ),
                decreases width - x,
            {
                let offset = row_start + 4 * x;
                assert(offset + 4 <= row_start + self.stride);
                let ghost before = bgra@;
                bgra.push(self.data[offset]);
                bgra.push(self.data[offset + 1]);
                bgra.push(self.data[offset + 2]);
                bgra.push(self.data[offset + 3]);
                proof {
                    assert forall|yy: int, xx: int|
                        (0 <= yy < y && 0 <= xx < width) || (yy == y && 0 <= xx <= x)
                            implies #[trigger] bgra_pixel_matches(
                        bgra@,
                        self.data@,
                        width as int,
                        self.stride as int,
                        yy,
                        xx,
                    ) by {
                        if yy == y && xx == x {
                            assert(bgra@[4 * (y * width + x)] == self.data@[y * self.stride + 4 * x]);
                        } else {
                            assert(bgra_pixel_matches(before, self.data@, width as int, self.stride as int, yy, xx));
                            assert(4 * (yy * width + xx) + 3 < before.len()) by (nonlinear_arith)
                                requires
                                    before.len() == 4 * (y * width + x),
                                    (0 <= yy < y && 0 <= xx < width) || (yy == y && 0 <= xx < x),
                                    0 <= width,
                            ;
                        }
                    }
                }
                x += 1;
            }
            proof {
                assert(4 * (y * width + width) == 4 * ((y + 1) * width)) by (nonlinear_arith);
            }
            y += 1;
        }
        proof {
            assert(4 * (height * width) == 4 * self.width * self.height) by (nonlinear_arith)
                requires
                    width == self.width,
                    height == self.height,
            ;
            lemma_pointwise_bgra(bgra@, *self);
        }
        bgra
    }
}

/// Screen capture configuration.
#[derive(Debug, Clone)]
pub struct ScreenCaptureConfig {
    /// Target frames per second.
    pub fps: u32,
    /// Display index to capture; 0 is the primary display.
    pub display_index: usize,
}

impl Default for ScreenCaptureConfig {
    fn default() -> (d: Self)
        ensures
            d.fps == 30u32,
            d.display_index == 0usize,
    {
        ScreenCaptureConfig { fps: 30, display_index: 0 }
    }
}

} // verus!
