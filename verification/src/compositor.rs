//! The video compositor: one output-sized frame per consumed capture frame.
//!
//! The fast path hands a tightly packed BGRA buffer straight through when no
//! webcam overlay is wanted and the screen already has the output size.  The
//! slow path converts to RGBA, resamples to the output size when needed, and
//! draws the webcam as a bordered picture-in-picture rectangle.

use vstd::arithmetic::div_mod::{lemma_fundamental_div_mod, lemma_mod_bound};
use vstd::prelude::*;

use crate::queue::{BoundedQueue, TryRecvResult};
use crate::recording::PipPosition;
use crate::scale::{resize_rgba_triangle, triangle_resample};
use crate::screen::{bgra_seq_of, rgba_seq_of, ScreenFrame};
use crate::webcam::{webcam_rgba_seq_of, WebcamFrame};

verus! {

/// A composited video frame ready for encoding.
#[derive(Debug, Clone)]
pub struct CompositeFrame {
    /// Pixel data; BGRA when `is_bgra` is set, RGBA otherwise.
    pub data: Vec<u8>,
    /// Frame width in pixels.
    pub width: u32,
    /// Frame height in pixels.
    pub height: u32,
    /// Milliseconds since capture start.
    pub timestamp_ms: u64,
    /// True on the fast path: the data kept the platform BGRA order and the
    /// encoder converts BGRA to YUV directly.
    pub is_bgra: bool,
}

/// Video compositor configuration.
#[derive(Debug, Clone)]
pub struct CompositorConfig {
    /// Output width in pixels.
    pub output_width: u32,
    /// Output height in pixels.
    pub output_height: u32,
    /// Whether to draw the webcam overlay.
    pub include_webcam: bool,
    /// Corner for the webcam overlay.
    pub pip_position: PipPosition,
    /// Webcam overlay width as a percentage of the output width (10 to 50).
    pub pip_size_percent: u32,
    /// Padding between the overlay and the output edges, in pixels.
    pub pip_padding: u32,
}

impl Default for CompositorConfig {
    fn default() -> (d: Self)
        ensures
            d.output_width == 1920u32,
            d.output_height == 1080u32,
            !d.include_webcam,
            d.pip_position == PipPosition::TopRight,
            d.pip_size_percent == 25u32,
            d.pip_padding == 20u32,
    {
        CompositorConfig {
            output_width: 1920,
            output_height: 1080,
            include_webcam: false,
            pip_position: PipPosition::TopRight,
            pip_size_percent: 25,
            pip_padding: 20,
        }
    }
}

/// The top-left corner of the overlay rectangle for each corner choice, with
/// the given padding from the output edges.
pub open spec fn spec_pip_position(
    output_width: int,
    output_height: int,
    pip_width: int,
    pip_height: int,
    position: PipPosition,
    padding: int,
) -> (int, int) {
    match position {
        PipPosition::TopLeft => (padding, padding),
        PipPosition::TopRight => (output_width - pip_width - padding, padding),
        PipPosition::BottomLeft => (padding, output_height - pip_height - padding),
        PipPosition::BottomRight => (
            output_width - pip_width - padding,
            output_height - pip_height - padding,
        ),
    }
}

impl CompositorConfig {
    /// Overlay width: the configured percentage of the output width.
    pub open spec fn spec_pip_width(&self) -> int {
        self.output_width * self.pip_size_percent / 100
    }

    /// Overlay height: 4:3 aspect from the overlay width.
    pub open spec fn spec_pip_height(&self) -> int {
        self.spec_pip_width() * 3 / 4
    }

    /// Top-left corner of the overlay rectangle.
    pub open spec fn spec_pip_xy(&self) -> (int, int) {
        spec_pip_position(
            self.output_width as int,
            self.output_height as int,
            self.spec_pip_width(),
            self.spec_pip_height(),
            self.pip_position,
            self.pip_padding as int,
        )
    }

    /// The configuration is within the documented domain and the overlay
    /// rectangle fits inside the output with its padding.
    pub open spec fn wf(&self) -> bool {
        &&& 10 <= self.pip_size_percent <= 50
        &&& self.output_width * self.pip_size_percent <= u32::MAX
        &&& self.spec_pip_width() + self.pip_padding <= self.output_width
        &&& self.spec_pip_height() + self.pip_padding <= self.output_height
        &&& 4 * self.output_width * self.output_height <= usize::MAX
    }
}

/// Whether output pixel (x, y) lies inside the overlay rectangle.
pub open spec fn in_pip_rect(px: int, py: int, pw: int, ph: int, x: int, y: int) -> bool {
    px <= x < px + pw && py <= y < py + ph
}

/// Whether output pixel (x, y) lies on the 2-pixel border ring drawn around
/// the overlay rectangle.  The ring starts two pixels above and left of the
/// rectangle, clamped at the output's edge.
pub open spec fn on_pip_border(px: int, py: int, pw: int, ph: int, x: int, y: int) -> bool {
    let bx = if px >= 2 { px - 2 } else { 0 };
    let by = if py >= 2 { py - 2 } else { 0 };
    &&& bx <= x < bx + pw + 4
    &&& by <= y < by + ph + 4
    &&& (x - bx < 2 || x - bx >= pw + 2 || y - by < 2 || y - by >= ph + 2)
}

/// Byte `c` of output pixel (x, y) after the overlay: the scaled webcam pixel
/// inside the rectangle, semi-transparent white on the border ring, and the
/// base pixel everywhere else.
pub open spec fn overlay_pixel_byte(
    base: Seq<u8>,
    pip: Seq<u8>,
    ow: int,
    px: int,
    py: int,
    pw: int,
    ph: int,
    x: int,
    y: int,
    c: int,
) -> u8 {
    if in_pip_rect(px, py, pw, ph, x, y) {
        pip[4 * ((y - py) * pw + (x - px)) + c]
    } else if on_pip_border(px, py, pw, ph, x, y) {
        if c == 3 {
            200u8
        } else {
            255u8
        }
    } else {
        base[4 * (y * ow + x) + c]
    }
}

/// All four bytes of output pixel (x, y) carry their overlay value.
pub open spec fn overlay_pixel_done(
    out: Seq<u8>,
    base: Seq<u8>,
    pip: Seq<u8>,
    ow: int,
    px: int,
    py: int,
    pw: int,
    ph: int,
    x: int,
    y: int,
) -> bool {
    &&& out[4 * (y * ow + x)] == overlay_pixel_byte(base, pip, ow, px, py, pw, ph, x, y, 0)
    &&& out[4 * (y * ow + x) + 1] == overlay_pixel_byte(base, pip, ow, px, py, pw, ph, x, y, 1)
    &&& out[4 * (y * ow + x) + 2] == overlay_pixel_byte(base, pip, ow, px, py, pw, ph, x, y, 2)
    &&& out[4 * (y * ow + x) + 3] == overlay_pixel_byte(base, pip, ow, px, py, pw, ph, x, y, 3)
}

/// The whole output after the overlay, as one byte sequence.
pub open spec fn overlay_seq(
    base: Seq<u8>,
    pip: Seq<u8>,
    ow: int,
    oh: int,
    px: int,
    py: int,
    pw: int,
    ph: int,
) -> Seq<u8> {
    Seq::new(
        (4 * ow * oh) as nat,
        |i: int|
            overlay_pixel_byte(
                base,
                pip,
                ow,
                px,
                py,
                pw,
                ph,
                (i / 4) % ow,
                (i / 4) / ow,
                i % 4,
            ),
    )
}

/// From the per-pixel statement of the overlay to the whole-sequence one.
proof fn lemma_pointwise_overlay(
    out: Seq<u8>,
    base: Seq<u8>,
    pip: Seq<u8>,
    ow: int,
    oh: int,
    px: int,
    py: int,
    pw: int,
    ph: int,
)
    requires
        out.len() == 4 * ow * oh,
        ow >= 0,
        oh >= 0,
        forall|y: int, x: int|
            0 <= y < oh && 0 <= x < ow ==> #[trigger] overlay_pixel_done(
                out,
                base,
                pip,
                ow,
                px,
                py,
                pw,
                ph,
                x,
                y,
            ),
    ensures
        out == overlay_seq(base, pip, ow, oh, px, py, pw, ph),
{
    assert forall|i: int| 0 <= i < out.len() implies out[i] == overlay_pixel_byte(
        base,
        pip,
        ow,
        px,
        py,
        pw,
        ph,
        (i / 4) % ow,
        (i / 4) / ow,
        i % 4,
    ) by {
        let p = i / 4;
        let c = i % 4;
        lemma_fundamental_div_mod(i, 4);
        lemma_mod_bound(i, 4);
        assert(ow > 0 && oh > 0) by (nonlinear_arith)
            requires
                4 * ow * oh > 0,
                ow >= 0,
                oh >= 0,
        ;
        let y = p / ow;
        let x = p % ow;
        lemma_fundamental_div_mod(p, ow);
        lemma_mod_bound(p, ow);
        assert(0 <= p < ow * oh) by (nonlinear_arith)
            requires
                i == 4 * p + c,
                0 <= c < 4,
                0 <= i < 4 * ow * oh,
        ;
        assert(0 <= y < oh) by (nonlinear_arith)
            requires
                p == ow * y + x,
                0 <= x < ow,
                0 <= p < ow * oh,
                ow > 0,
        ;
        assert(overlay_pixel_done(out, base, pip, ow, px, py, pw, ph, x, y));
        assert(4 * (y * ow + x) + c == i) by (nonlinear_arith)
            requires
                i == 4 * p + c,
                p == ow * y + x,
        ;
    }
    assert(out =~= overlay_seq(base, pip, ow, oh, px, py, pw, ph));
}

/// The slow-path output data of the compositor: the screen frame converted to
/// RGBA, resampled to the output size when its size differs, with the webcam
/// overlay drawn on top when one is wanted and available.
pub open spec fn spec_composite_data(
    cfg: CompositorConfig,
    screen: ScreenFrame,
    webcam: Option<WebcamFrame>,
) -> Seq<u8> {
    let base = if screen.width == cfg.output_width && screen.height == cfg.output_height {
        rgba_seq_of(screen)
    } else {
        triangle_resample(
            rgba_seq_of(screen),
            screen.width as int,
            screen.height as int,
            cfg.output_width as int,
            cfg.output_height as int,
        )
    };
    if cfg.include_webcam && webcam is Some {
        let w = webcam.unwrap();
        overlay_seq(
            base,
            triangle_resample(
                webcam_rgba_seq_of(w),
                w.width as int,
                w.height as int,
                cfg.spec_pip_width(),
                cfg.spec_pip_height(),
            ),
            cfg.output_width as int,
            cfg.output_height as int,
            cfg.spec_pip_xy().0,
            cfg.spec_pip_xy().1,
            cfg.spec_pip_width(),
            cfg.spec_pip_height(),
        )
    } else {
        base
    }
}

/// Combines screen capture and webcam into a single output-sized frame.
pub struct VideoCompositor {
    config: CompositorConfig,
    pip_width: u32,
    pip_height: u32,
    pip_x: u32,
    pip_y: u32,
}

impl VideoCompositor {
    /// The configuration this compositor was created with.
    pub closed spec fn spec_config(&self) -> CompositorConfig {
        self.config
    }

    /// The cached overlay rectangle agrees with the configuration.
    pub closed spec fn wf(&self) -> bool {
        &&& self.config.wf()
        &&& self.pip_width == self.config.spec_pip_width()
        &&& self.pip_height == self.config.spec_pip_height()
        &&& self.pip_x == self.config.spec_pip_xy().0
        &&& self.pip_y == self.config.spec_pip_xy().1
    }

    /// Create a compositor, caching the overlay rectangle derived from the
    /// configuration.
    pub fn new(config: CompositorConfig) -> (r: Self)
        requires
            config.wf(),
        ensures
            r.wf(),
            r.spec_config() == config,
    {
        let pw64 = (config.output_width as u64) * (config.pip_size_percent as u64) / 100;
        let ph64 = pw64 * 3 / 4;
        proof {
            assert(pw64 == config.spec_pip_width());
            assert(ph64 == config.spec_pip_height());
        }
        let pip_width = pw64 as u32;
        let pip_height = ph64 as u32;
        let (pip_x, pip_y) = Self::calculate_pip_position(
            config.output_width,
            config.output_height,
            pip_width,
            pip_height,
            config.pip_position,
            config.pip_padding,
        );
        VideoCompositor { config, pip_width, pip_height, pip_x, pip_y }
    }

    /// The top-left corner of the overlay rectangle for the chosen corner.
    pub fn calculate_pip_position(
        output_width: u32,
        output_height: u32,
        pip_width: u32,
        pip_height: u32,
        position: PipPosition,
        padding: u32,
    ) -> (r: (u32, u32))
        requires
            pip_width + padding <= output_width,
            pip_height + padding <= output_height,
        ensures
            r.0 == spec_pip_position(
                output_width as int,
                output_height as int,
                pip_width as int,
                pip_height as int,
                position,
                padding as int,
            ).0,
            r.1 == spec_pip_position(
                output_width as int,
                output_height as int,
                pip_width as int,
                pip_height as int,
                position,
                padding as int,
            ).1,
    {
        match position {
            PipPosition::TopLeft => (padding, padding),
            PipPosition::TopRight => (output_width - pip_width - padding, padding),
            PipPosition::BottomLeft => (padding, output_height - pip_height - padding),
            PipPosition::BottomRight => (
                output_width - pip_width - padding,
                output_height - pip_height - padding,
            ),
        }
    }

    /// Output width and height.
    pub fn output_dimensions(&self) -> (r: (u32, u32))
        ensures
            r.0 == self.spec_config().output_width,
            r.1 == self.spec_config().output_height,
    {
        (self.config.output_width, self.config.output_height)
    }

    /// Overlay rectangle width and height.
    pub fn pip_dimensions(&self) -> (r: (u32, u32))
        requires
            self.wf(),
        ensures
            r.0 == self.spec_config().spec_pip_width(),
            r.1 == self.spec_config().spec_pip_height(),
    {
        (self.pip_width, self.pip_height)
    }

    /// Fast-path compositing: hand the BGRA data through tightly packed, with
    /// no colour conversion; the encoder then converts BGRA to YUV directly.
    pub fn composite_fast_path(&self, screen_frame: &ScreenFrame) -> (r: CompositeFrame)
        requires
            screen_frame.wf(),
        ensures
            r.data@ == bgra_seq_of(*screen_frame),
            r.width == screen_frame.width,
            r.height == screen_frame.height,
            r.timestamp_ms == screen_frame.timestamp_ms,
            r.is_bgra,
    {
        CompositeFrame {
            data: screen_frame.to_packed_bgra(),
            width: screen_frame.width,
            height: screen_frame.height,
            timestamp_ms: screen_frame.timestamp_ms,
            is_bgra: true,
        }
    }

    /// The base of the slow path: the screen frame as packed RGBA, resampled
    /// to the output size when its size differs.
    fn prepare_base_frame(&self, screen_frame: &ScreenFrame) -> (r: Vec<u8>)
        requires
            self.wf(),
            screen_frame.wf(),
        ensures
            r@ == (if screen_frame.width == self.spec_config().output_width
                && screen_frame.height == self.spec_config().output_height {
                rgba_seq_of(*screen_frame)
            } else {
                triangle_resample(
                    rgba_seq_of(*screen_frame),
                    screen_frame.width as int,
                    screen_frame.height as int,
                    self.spec_config().output_width as int,
                    self.spec_config().output_height as int,
                )
            }),
            r@.len() == 4 * self.spec_config().output_width * self.spec_config().output_height,
    {
        let rgba_data = screen_frame.to_rgba();
        if screen_frame.width != self.config.output_width || screen_frame.height
            != self.config.output_height {
            resize_rgba_triangle(
                &rgba_data,
                screen_frame.width,
                screen_frame.height,
                self.config.output_width,
                self.config.output_height,
            )
        } else {
            rgba_data
        }
    }

    /// Draw the webcam frame, resampled to the overlay rectangle, over the
    /// base frame, with a 2-pixel semi-transparent white border around it.
    pub fn overlay_webcam(&self, output: &mut Vec<u8>, webcam_frame: &WebcamFrame)
        requires
            self.wf(),
            webcam_frame.wf(),
            old(output)@.len() == 4 * self.spec_config().output_width
                * self.spec_config().output_height,
        ensures
            final(output)@ == overlay_seq(
                old(output)@,
                triangle_resample(
                    webcam_rgba_seq_of(*webcam_frame),
                    webcam_frame.width as int,
                    webcam_frame.height as int,
                    self.spec_config().spec_pip_width(),
                    self.spec_config().spec_pip_height(),
                ),
                self.spec_config().output_width as int,
                self.spec_config().output_height as int,
                self.spec_config().spec_pip_xy().0,
                self.spec_config().spec_pip_xy().1,
                self.spec_config().spec_pip_width(),
                self.spec_config().spec_pip_height(),
            ),
    {
        proof {
            assert(4 * self.pip_width * self.pip_height <= 4 * self.config.output_width
                * self.config.output_height) by (nonlinear_arith)
                requires
                    0 <= self.pip_width <= self.config.output_width,
                    0 <= self.pip_height <= self.config.output_height,
            ;
        }
        let rgba = webcam_frame.to_rgba();
        let scaled = resize_rgba_triangle(
            &rgba,
            webcam_frame.width,
            webcam_frame.height,
            self.pip_width,
            self.pip_height,
        );

        let ow = self.config.output_width as usize;
        let oh = self.config.output_height as usize;
        let px = self.pip_x as usize;
        let py = self.pip_y as usize;
        let pw = self.pip_width as usize;
        let ph = self.pip_height as usize;
        let bx = if px >= 2 {
            px - 2
        } else {
            0
        };
        let by = if py >= 2 {
            py - 2
        } else {
            0
        };
        proof {
            assert(10 * self.config.output_width <= u32::MAX) by (nonlinear_arith)
                requires
                    self.config.output_width * self.config.pip_size_percent <= u32::MAX,
                    self.config.pip_size_percent >= 10,
                    self.config.output_width >= 0,
            ;
        }
        let bw = pw + 4;
        let bh = ph + 4;
        let pw2 = pw + 2;
        let ph2 = ph + 2;
        let ghost base = output@;
        let ghost pip = scaled@;

        let mut merged: Vec<u8> = Vec::new();
        let mut y: usize = 0;
        while y < oh
            invariant
                ow == self.spec_config().output_width,
                oh == self.spec_config().output_height,
                px == self.spec_config().spec_pip_xy().0,
                py == self.spec_config().spec_pip_xy().1,
                pw == self.spec_config().spec_pip_width(),
                ph == self.spec_config().spec_pip_height(),
                bx == (if px >= 2 { px - 2 } else { 0 }),
                by == (if py >= 2 { py - 2 } else { 0 }),
                bw == pw + 4,
                bh == ph + 4,
                pw2 == pw + 2,
                ph2 == ph + 2,
                base == output@,
                pip == scaled@,
                base.len() == 4 * ow * oh,
                pip.len() == 4 * pw * ph,
                output@.len() == output.len(),
                scaled@.len() == scaled.len(),
                y <= oh,
                merged@.len() == 4 * (y * ow),
                forall|yy: int, xx: int|
                    0 <= yy < y && 0 <= xx < ow ==> #[trigger] overlay_pixel_done(
                        merged@,
                        base,
                        pip,
                        ow as int,
                        px as int,
                        py as int,
                        pw as int,
                        ph as int,
                        xx,
                        yy,
                    ),
            decreases oh - y,
        {
            let mut x: usize = 0;
            while x < ow
                invariant
                    ow == self.spec_config().output_width,
                    oh == self.spec_config().output_height,
                    px == self.spec_config().spec_pip_xy().0,
                    py == self.spec_config().spec_pip_xy().1,
                    pw == self.spec_config().spec_pip_width(),
                    ph == self.spec_config().spec_pip_height(),
                    bx == (if px >= 2 { px - 2 } else { 0 }),
                    by == (if py >= 2 { py - 2 } else { 0 }),
                    bw == pw + 4,
                    bh == ph + 4,
                    pw2 == pw + 2,
                    ph2 == ph + 2,
                    base == output@,
                    pip == scaled@,
                    base.len() == 4 * ow * oh,
                    pip.len() == 4 * pw * ph,
                    output@.len() == output.len(),
                    scaled@.len() == scaled.len(),
                    y < oh,
                    x <= ow,
                    merged@.len() == 4 * (y * ow + x),
                    forall|yy: int, xx: int|
                        (0 <= yy < y && 0 <= xx < ow) || (yy == y && 0 <= xx < x)
                            ==> #[trigger] overlay_pixel_done(
                            merged@,
                            base,
                            pip,
                            ow as int,
                            px as int,
                            py as int,
                            pw as int,
                            ph as int,
                            xx,
                            yy,
                        ),
                decreases ow - x,
            {
                let ghost before = merged@;
                let ghost k = 4 * ((y as int) * (ow as int) + (x as int));
                proof {
                    assert(k + 4 <= 4 * ow * oh) by (nonlinear_arith)
                        requires
                            k == 4 * (y * ow + x),
                            0 <= y < oh,
                            0 <= x < ow,
                    ;
                }
                if x >= px && x - px < pw && y >= py && y - py < ph {
                    proof {
                        assert(4 * ((y - py) * pw + (x - px)) + 4 <= 4 * pw * ph)
                            by (nonlinear_arith)
                            requires
                                0 <= y - py < ph,
                                0 <= x - px < pw,
                        ;
                    }
                    let pi = 4 * ((y - py) * pw + (x - px));
                    merged.push(scaled[pi]);
                    merged.push(scaled[pi + 1]);
                    merged.push(scaled[pi + 2]);
                    merged.push(scaled[pi + 3]);
                } else if x >= bx && x - bx < bw && y >= by && y - by < bh && (x - bx < 2
                    || x - bx >= pw2 || y - by < 2 || y - by >= ph2) {
                    merged.push(255);
                    merged.push(255);
                    merged.push(255);
                    merged.push(200);
                } else {
                    let base_len = output.len();
                    let row = 4 * (y * ow);
                    proof {
                        assert(4 * (y * ow) + 4 * x + 4 <= 4 * ow * oh) by (nonlinear_arith)
                            requires
                                0 <= y < oh,
                                0 <= x < ow,
                        ;
                    }
                    let idx = row + 4 * x;
                    merged.push(output[idx]);
                    merged.push(output[idx + 1]);
                    merged.push(output[idx + 2]);
                    merged.push(output[idx + 3]);
                }
                proof {
                    assert forall|yy: int, xx: int|
                        (0 <= yy < y && 0 <= xx < ow) || (yy == y && 0 <= xx <= x)
                            implies #[trigger] overlay_pixel_done(
                        merged@,
                        base,
                        pip,
                        ow as int,
                        px as int,
                        py as int,
                        pw as int,
                        ph as int,
                        xx,
                        yy,
                    ) by {
                        if yy == y && xx == x {
                            assert(merged@[k] == overlay_pixel_byte(
                                base,
                                pip,
                                ow as int,
                                px as int,
                                py as int,
                                pw as int,
                                ph as int,
                                x as int,
                                y as int,
                                0,
                            ));
                        } else {
                            assert(overlay_pixel_done(
                                before,
                                base,
                                pip,
                                ow as int,
                                px as int,
                                py as int,
                                pw as int,
                                ph as int,
                                xx,
                                yy,
                            ));
                            assert(4 * (yy * ow + xx) + 3 < before.len()) by (nonlinear_arith)
                                requires
                                    before.len() == 4 * (y * ow + x),
                                    (0 <= yy < y && 0 <= xx < ow) || (yy == y && 0 <= xx < x),
                                    0 <= ow,
                            ;
                        }
                    }
                }
                x += 1;
            }
            proof {
                assert(4 * (y * ow + ow) == 4 * ((y + 1) * ow)) by (nonlinear_arith);
            }
            y += 1;
        }
        proof {
            assert(4 * ((oh as int) * (ow as int)) == 4 * (ow as int) * (oh as int))
                by (nonlinear_arith);
            lemma_pointwise_overlay(
                merged@,
                base,
                pip,
                ow as int,
                oh as int,
                px as int,
                py as int,
                pw as int,
                ph as int,
            );
        }
        *output = merged;
    }

    /// Composite one screen frame, with the webcam overlay when enabled and a
    /// frame is at hand.  The output frame is BGRA-tagged exactly when the
    /// overlay is off and the screen already has the output size.
    pub fn composite(&self, screen_frame: &ScreenFrame, webcam_frame: Option<&WebcamFrame>) -> (r:
        CompositeFrame)
        requires
            self.wf(),
            screen_frame.wf(),
            webcam_frame matches Some(w) ==> w.wf(),
        ensures
            r.width == self.spec_config().output_width,
            r.height == self.spec_config().output_height,
            r.timestamp_ms == screen_frame.timestamp_ms,
            r.is_bgra == (!self.spec_config().include_webcam && screen_frame.width
                == self.spec_config().output_width && screen_frame.height
                == self.spec_config().output_height),
            r.is_bgra ==> r.data@ == bgra_seq_of(*screen_frame),
            !r.is_bgra ==> r.data@ == spec_composite_data(
                self.spec_config(),
                *screen_frame,
                match webcam_frame {
                    Some(w) => Some(*w),
                    None => None,
                },
            ),
    {
        if !self.config.include_webcam && screen_frame.width == self.config.output_width
            && screen_frame.height == self.config.output_height {
            return self.composite_fast_path(screen_frame);
        }

        let mut output = self.prepare_base_frame(screen_frame);

        if self.config.include_webcam {
            if let Some(webcam) = webcam_frame {
                self.overlay_webcam(&mut output, webcam);
            }
        }

        CompositeFrame {
            data: output,
            width: self.config.output_width,
            height: self.config.output_height,
            timestamp_ms: screen_frame.timestamp_ms,
            is_bgra: false,
        }
    }

    /// Composite from only a webcam frame: scale it to the full output size.
    pub fn composite_webcam_only(&self, webcam_frame: &WebcamFrame) -> (r: CompositeFrame)
        requires
            self.wf(),
            webcam_frame.wf(),
        ensures
            r.data@ == triangle_resample(
                webcam_rgba_seq_of(*webcam_frame),
                webcam_frame.width as int,
                webcam_frame.height as int,
                self.spec_config().output_width as int,
                self.spec_config().output_height as int,
            ),
            r.width == self.spec_config().output_width,
            r.height == self.spec_config().output_height,
            r.timestamp_ms == webcam_frame.timestamp_ms,
            !r.is_bgra,
    {
        let rgba_data = webcam_frame.to_rgba();
        let scaled = resize_rgba_triangle(
            &rgba_data,
            webcam_frame.width,
            webcam_frame.height,
            self.config.output_width,
            self.config.output_height,
        );
        CompositeFrame {
            data: scaled,
            width: self.config.output_width,
            height: self.config.output_height,
            timestamp_ms: webcam_frame.timestamp_ms,
            is_bgra: false,
        }
    }
}

/// The backpressure rule of the compositor loop: a frame is skipped exactly
/// when the downstream queue is over 80% full and the last emitted frame is
/// younger than twice the target frame interval.  This keeps latency bounded
/// when the encoder stalls without starving a healthy pipeline.
pub fn should_skip_frame(
    queue_len: usize,
    queue_capacity: usize,
    ms_since_last_emit: u64,
    target_interval_ms: u64,
) -> (r: bool)
    ensures
        r == (5 * queue_len > 4 * queue_capacity && ms_since_last_emit < 2 * target_interval_ms),
{
    let pressure_high = (queue_len as u128) * 5 > (queue_capacity as u128) * 4;
    let recent = (ms_since_last_emit as u128) < 2 * (target_interval_ms as u128);
    pressure_high && recent
}

/// Drain every pending item from a capture queue, keeping only the newest
/// and counting the rest as skipped.  Under load the compositor therefore
/// always works on the most recent frame.
pub fn drain_latest<T>(q: &mut BoundedQueue<T>) -> (r: (Option<T>, usize))
    ensures
        final(q)@.len() == 0,
        final(q).spec_capacity() == old(q).spec_capacity(),
        final(q).is_closed() == old(q).is_closed(),
        old(q)@.len() == 0 ==> r.0 is None && r.1 == 0,
        old(q)@.len() > 0 ==> r.0 == Some(old(q)@.last()) && r.1 == old(q)@.len() - 1,
{
    let n0 = q.len();
    let mut latest: Option<T> = None;
    let mut skipped: usize = 0;
    let ghost mut k: int = 0;
    loop
        invariant
            n0 == old(q)@.len(),
            q.spec_capacity() == old(q).spec_capacity(),
            q.is_closed() == old(q).is_closed(),
            0 <= k <= old(q)@.len(),
            q@ == old(q)@.skip(k),
            k == 0 ==> latest is None && skipped == 0,
            k > 0 ==> latest == Some(old(q)@[k - 1]) && skipped == k - 1,
        ensures
            q@.len() == 0,
            q.spec_capacity() == old(q).spec_capacity(),
            q.is_closed() == old(q).is_closed(),
            k == old(q)@.len(),
            k == 0 ==> latest is None && skipped == 0,
            k > 0 ==> latest == Some(old(q)@[k - 1]) && skipped == k - 1,
        decreases q@.len(),
    {
        match q.try_recv() {
            TryRecvResult::Item(item) => {
                if latest.is_some() {
                    skipped += 1;
                }
                latest = Some(item);
                proof {
                    assert(old(q)@.skip(k).drop_first() =~= old(q)@.skip(k + 1));
                    k = k + 1;
                }
            },
            _ => {
                break;
            },
        }
    }
    (latest, skipped)
}

} // verus!
