use particle_grid::color::{convert_frame, rgb_from_yuv, FRAME_HEIGHT, FRAME_WIDTH};

#[test]
fn fixed_yuv_inputs_are_reproducible() {
    // 1.164 * 133 + 1.596 * (-107) = -15.96 -> clamped to 0
    // 1.164 * 133 - 0.392 * (-85) - 0.813 * (-107) = 275.123 -> clamped to 255
    // 1.164 * 133 + 2.017 * (-85) = -16.633 -> clamped to 0
    assert_eq!(rgb_from_yuv(149, 43, 21), (0, 255, 0));
    // A second call with identical inputs gives the identical output.
    assert_eq!(rgb_from_yuv(149, 43, 21), (0, 255, 0));
}

#[test]
fn yuv_black_and_white() {
    assert_eq!(rgb_from_yuv(0, 128, 128), (0, 0, 0));
    assert_eq!(rgb_from_yuv(255, 128, 128), (255, 255, 255));
}

#[test]
fn yuv_truncates_instead_of_rounding() {
    // 1.164 * 84 + 1.596 * 72 = 212.688 -> 212 (truncated, not 213)
    // 1.164 * 84 - 0.392 * (-78) - 0.813 * 72 = 69.816 -> 69 (truncated, not 70)
    // 1.164 * 84 + 2.017 * (-78) = -59.55 -> 0
    assert_eq!(rgb_from_yuv(100, 50, 200), (212, 69, 0));
}

#[test]
fn yuv_neutral_chroma_is_grayscale() {
    assert_eq!(rgb_from_yuv(16, 128, 128), (0, 0, 0));
    // 1.164 * 84 = 97.776 -> 97 on every channel
    assert_eq!(rgb_from_yuv(100, 128, 128), (97, 97, 97));
    // 1.164 * 219 = 254.916 -> 254
    assert_eq!(rgb_from_yuv(235, 128, 128), (254, 254, 254));
}

#[test]
fn convert_uniform_frame() {
    // 2x2 frame: four luma samples sharing one chroma pair.
    let buf = vec![149, 149, 149, 149, 43, 21];
    let img = convert_frame(&buf, 2, 2);
    assert_eq!(img.width, 2);
    assert_eq!(img.height, 2);
    assert_eq!(img.pixels, vec![0, 255, 0, 0, 255, 0, 0, 255, 0, 0, 255, 0]);
}

#[test]
fn convert_frame_gradient_luma() {
    // Neutral chroma: each pixel is the grayscale of its own luma sample.
    let buf = vec![16, 235, 100, 200, 128, 128];
    let img = convert_frame(&buf, 2, 2);
    assert_eq!(
        img.pixels,
        vec![0, 0, 0, 254, 254, 254, 97, 97, 97, 214, 214, 214]
    );
}

#[test]
fn convert_frame_chroma_blocks() {
    // 4x2 frame: two chroma pairs, one per 2x2 block of luma samples.
    // Left block gets the green-pushing pair, right block stays neutral.
    let buf = vec![
        149, 149, 100, 100, // luma row 0
        149, 149, 100, 100, // luma row 1
        43, 128, // chroma u
        21, 128, // chroma v
    ];
    let img = convert_frame(&buf, 4, 2);
    assert_eq!(img.width, 4);
    assert_eq!(img.height, 2);
    for y in 0..2usize {
        let row = 3 * (y * 4);
        assert_eq!(&img.pixels[row..row + 6], &[0, 255, 0, 0, 255, 0]);
        assert_eq!(&img.pixels[row + 6..row + 12], &[97, 97, 97, 97, 97, 97]);
    }
}

#[test]
fn camera_frame_constants() {
    // The capture device's fixed resolution and the derived plane sizes.
    assert_eq!(FRAME_WIDTH, 640);
    assert_eq!(FRAME_HEIGHT, 480);
    let luma = (FRAME_WIDTH as usize) * (FRAME_HEIGHT as usize);
    let chroma = (FRAME_WIDTH as usize / 2) * (FRAME_HEIGHT as usize / 2);
    assert_eq!(luma, 307200);
    assert_eq!(luma + 2 * chroma, 460800);
}

#[test]
fn convert_full_camera_frame() {
    // A full 640x480 frame with neutral chroma and mid luma.
    let luma = 307200;
    let chroma = 76800;
    let mut buf = vec![100u8; luma];
    buf.extend(std::iter::repeat(128u8).take(2 * chroma));
    let img = convert_frame(&buf, 640, 480);
    assert_eq!(img.pixels.len(), 3 * 640 * 480);
    assert!(img.pixels.iter().all(|&c| c == 97));
}
