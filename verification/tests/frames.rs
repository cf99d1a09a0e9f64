use recorder_core::screen::ScreenFrame;
use recorder_core::webcam::WebcamFrame;

#[test]
fn test_screen_frame_conversion() {
    // Tightly-packed data: one BGRA pixel, stride = width * 4.
    let frame = ScreenFrame {
        data: vec![255, 128, 64, 255],
        width: 1,
        height: 1,
        stride: 4,
        timestamp_ms: 0,
    };

    let rgba = frame.to_rgba();
    assert_eq!(rgba, vec![64, 128, 255, 255]); // BGRA -> RGBA
}

#[test]
fn test_screen_frame_with_stride_padding() {
    // 2x2 frame with 16-byte stride: 8 bytes of padding per row.
    let frame = ScreenFrame {
        data: vec![
            // Row 0
            0, 255, 0, 255, // pixel (0,0): BGRA = green
            255, 0, 0, 255, // pixel (1,0): BGRA = blue
            0, 0, 0, 0, 0, 0, 0, 0, // 8 bytes padding
            // Row 1
            0, 0, 255, 255, // pixel (0,1): BGRA = red
            255, 255, 255, 255, // pixel (1,1): BGRA = white
            0, 0, 0, 0, 0, 0, 0, 0, // 8 bytes padding
        ],
        width: 2,
        height: 2,
        stride: 16,
        timestamp_ms: 0,
    };

    let rgba = frame.to_rgba();
    assert_eq!(rgba.len(), 16); // 2x2 * 4 bytes, no padding in the output
    assert_eq!(&rgba[0..4], &[0, 255, 0, 255]); // green
    assert_eq!(&rgba[4..8], &[0, 0, 255, 255]); // blue
}

#[test]
fn test_screen_frame_padded_full_output() {
    // The whole RGBA output of the padded 2x2 frame from the stride scenario:
    // green, blue, red, white, with no padding byte leaking in.
    let frame = ScreenFrame {
        data: vec![
            0, 255, 0, 255, 255, 0, 0, 255, 0, 0, 0, 0, 0, 0, 0, 0, 0, 0, 255, 255, 255, 255,
            255, 255, 0, 0, 0, 0, 0, 0, 0, 0,
        ],
        width: 2,
        height: 2,
        stride: 16,
        timestamp_ms: 7,
    };
    let rgba = frame.to_rgba();
    assert_eq!(
        rgba,
        vec![0, 255, 0, 255, 0, 0, 255, 255, 255, 0, 0, 255, 255, 255, 255, 255]
    );
}

#[test]
fn test_screen_frame_to_packed_bgra() {
    // Packing keeps the byte order and drops the row padding.
    let frame = ScreenFrame {
        data: vec![
            1, 2, 3, 4, 9, 9, 9, 9, // row 0: one pixel + 4 bytes padding
            5, 6, 7, 8, 9, 9, 9, 9, // row 1: one pixel + 4 bytes padding
        ],
        width: 1,
        height: 2,
        stride: 8,
        timestamp_ms: 0,
    };
    let bgra = frame.to_packed_bgra();
    assert_eq!(bgra, vec![1, 2, 3, 4, 5, 6, 7, 8]);
}

#[test]
fn test_webcam_frame_to_rgba() {
    let frame = WebcamFrame {
        data: vec![255, 128, 64], // one RGB pixel
        width: 1,
        height: 1,
        timestamp_ms: 0,
    };

    let rgba = frame.to_rgba();
    assert_eq!(rgba, vec![255, 128, 64, 255]); // RGBA with full alpha
}

#[test]
fn test_webcam_frame_to_rgba_two_pixels() {
    let frame = WebcamFrame {
        data: vec![1, 2, 3, 4, 5, 6],
        width: 2,
        height: 1,
        timestamp_ms: 0,
    };
    assert_eq!(frame.to_rgba(), vec![1, 2, 3, 255, 4, 5, 6, 255]);
}
