use recorder_core::compositor::{
    drain_latest, should_skip_frame, CompositorConfig, VideoCompositor,
};
use recorder_core::queue::BoundedQueue;
use recorder_core::recording::PipPosition;
use recorder_core::screen::ScreenFrame;
use recorder_core::webcam::WebcamFrame;

#[test]
fn test_pip_position_calculation() {
    let (x, y) =
        VideoCompositor::calculate_pip_position(1920, 1080, 480, 360, PipPosition::TopRight, 20);
    assert_eq!(x, 1920 - 480 - 20); // 1420
    assert_eq!(y, 20);

    let (x, y) =
        VideoCompositor::calculate_pip_position(1920, 1080, 480, 360, PipPosition::BottomLeft, 20);
    assert_eq!(x, 20);
    assert_eq!(y, 1080 - 360 - 20); // 700
}

#[test]
fn test_compositor_creation() {
    let config = CompositorConfig {
        output_width: 1920,
        output_height: 1080,
        include_webcam: true,
        pip_position: PipPosition::TopRight,
        pip_size_percent: 25,
        pip_padding: 20,
    };

    let compositor = VideoCompositor::new(config);
    let (w, h) = compositor.output_dimensions();
    assert_eq!(w, 1920);
    assert_eq!(h, 1080);
}

#[test]
fn test_pip_dimensions_quarter_width() {
    let config = CompositorConfig {
        output_width: 1920,
        output_height: 1080,
        include_webcam: true,
        pip_position: PipPosition::TopRight,
        pip_size_percent: 25,
        pip_padding: 20,
    };
    let compositor = VideoCompositor::new(config);
    let (pw, ph) = compositor.pip_dimensions();
    assert_eq!(pw, 480); // 1920 * 25 / 100
    assert_eq!(ph, 360); // 480 * 3 / 4
}

fn solid_screen(width: u32, height: u32, stride: usize, b: u8, g: u8, r: u8) -> ScreenFrame {
    let mut data = vec![0u8; height as usize * stride];
    for y in 0..height as usize {
        for x in 0..width as usize {
            let o = y * stride + 4 * x;
            data[o] = b;
            data[o + 1] = g;
            data[o + 2] = r;
            data[o + 3] = 255;
        }
    }
    ScreenFrame { data, width, height, stride, timestamp_ms: 5 }
}

#[test]
fn test_fast_path_trigger() {
    // Webcam off and screen size equal to the output size: BGRA passthrough.
    let config = CompositorConfig {
        output_width: 40,
        output_height: 30,
        include_webcam: false,
        pip_position: PipPosition::TopRight,
        pip_size_percent: 25,
        pip_padding: 2,
    };
    let compositor = VideoCompositor::new(config);
    let frame = solid_screen(40, 30, 160, 10, 20, 30);
    let out = compositor.composite(&frame, None);
    assert!(out.is_bgra);
    assert_eq!(out.width, 40);
    assert_eq!(out.height, 30);
    assert_eq!(out.timestamp_ms, 5);
    assert_eq!(out.data.len(), 40 * 30 * 4);
    assert_eq!(&out.data[0..4], &[10, 20, 30, 255]); // BGRA kept
}

#[test]
fn test_fast_path_not_taken_when_scaling() {
    // A screen smaller than the output goes down the RGBA slow path.
    let config = CompositorConfig {
        output_width: 40,
        output_height: 30,
        include_webcam: false,
        pip_position: PipPosition::TopRight,
        pip_size_percent: 25,
        pip_padding: 2,
    };
    let compositor = VideoCompositor::new(config);
    let frame = solid_screen(20, 15, 80, 10, 20, 30);
    let out = compositor.composite(&frame, None);
    assert!(!out.is_bgra);
    // The resampler really ran: output has the output size, not the input's.
    assert_eq!(out.data.len(), 40 * 30 * 4);
}

#[test]
fn test_fast_path_not_taken_with_webcam() {
    let config = CompositorConfig {
        output_width: 40,
        output_height: 30,
        include_webcam: true,
        pip_position: PipPosition::TopRight,
        pip_size_percent: 25,
        pip_padding: 2,
    };
    let compositor = VideoCompositor::new(config);
    let frame = solid_screen(40, 30, 160, 10, 20, 30);
    let out = compositor.composite(&frame, None);
    assert!(!out.is_bgra);
}

#[test]
fn test_overlay_pixels() {
    // Output 40x30, overlay 10x7 at the top-right corner with padding 2:
    // the rectangle starts at (28, 2).  The webcam frame is exactly
    // overlay-sized, so resampling passes its pixels through.
    let config = CompositorConfig {
        output_width: 40,
        output_height: 30,
        include_webcam: true,
        pip_position: PipPosition::TopRight,
        pip_size_percent: 25,
        pip_padding: 2,
    };
    let compositor = VideoCompositor::new(config);
    assert_eq!(compositor.pip_dimensions(), (10, 7));

    let screen = solid_screen(40, 30, 160, 9, 9, 9);
    let webcam = WebcamFrame {
        data: vec![1u8; 10 * 7 * 3].iter().enumerate().map(|(i, _)| match i % 3 {
            0 => 1,
            1 => 2,
            _ => 3,
        }).collect(),
        width: 10,
        height: 7,
        timestamp_ms: 0,
    };
    let out = compositor.composite(&screen, Some(&webcam));
    assert!(!out.is_bgra);

    let px = |x: usize, y: usize| {
        let o = 4 * (y * 40 + x);
        [out.data[o], out.data[o + 1], out.data[o + 2], out.data[o + 3]]
    };
    // Inside the overlay rectangle: the webcam pixel with full alpha.
    assert_eq!(px(28, 2), [1, 2, 3, 255]);
    assert_eq!(px(37, 8), [1, 2, 3, 255]);
    // On the border ring, one pixel left of the rectangle.
    assert_eq!(px(27, 2), [255, 255, 255, 200]);
    // Above the rectangle, inside the ring.
    assert_eq!(px(30, 0), [255, 255, 255, 200]);
    // Far away from the overlay: the base pixel, BGRA (9,9,9,255) -> RGBA.
    assert_eq!(px(0, 29), [9, 9, 9, 255]);
}

#[test]
fn test_composite_webcam_only_output_size() {
    let config = CompositorConfig {
        output_width: 40,
        output_height: 30,
        include_webcam: true,
        pip_position: PipPosition::TopRight,
        pip_size_percent: 25,
        pip_padding: 2,
    };
    let compositor = VideoCompositor::new(config);
    let webcam = WebcamFrame { data: vec![7, 8, 9], width: 1, height: 1, timestamp_ms: 11 };
    let out = compositor.composite_webcam_only(&webcam);
    assert!(!out.is_bgra);
    assert_eq!(out.width, 40);
    assert_eq!(out.height, 30);
    assert_eq!(out.timestamp_ms, 11);
    // The resampler really ran: one input pixel became a full output buffer.
    assert_eq!(out.data.len(), 40 * 30 * 4);
}

#[test]
fn test_should_skip_frame_rule() {
    // Over 80% full and a recent emit: skip.
    assert!(should_skip_frame(97, 120, 10, 33));
    // Exactly 80% full is not over the threshold.
    assert!(!should_skip_frame(96, 120, 10, 33));
    // Full queue but the last emit is old: do not skip.
    assert!(!should_skip_frame(120, 120, 66, 33));
    assert!(should_skip_frame(120, 120, 65, 33));
}

#[test]
fn test_drain_latest_keeps_newest() {
    let mut q: BoundedQueue<u32> = BoundedQueue::new(10);
    assert!(q.try_send(1).is_ok());
    assert!(q.try_send(2).is_ok());
    assert!(q.try_send(3).is_ok());
    let (latest, skipped) = drain_latest(&mut q);
    assert_eq!(latest, Some(3));
    assert_eq!(skipped, 2);
    assert_eq!(q.len(), 0);

    let (latest, skipped) = drain_latest(&mut q);
    assert_eq!(latest, None);
    assert_eq!(skipped, 0);
}
