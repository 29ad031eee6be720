use rising_sun_common::framebuffer::{framebuffer_to_rgba, pixel_format_of};
use rising_sun_common::ioctl::PixelFormat;

#[test]
fn indexed_pixels_show_as_grey() {
    let src = [0x10, 0x80, 0xEE, 0x00];
    let out = framebuffer_to_rgba(&src, 2, 2, 2, 0).unwrap();
    assert_eq!(
        out,
        vec![0x10, 0x10, 0x10, 255, 0x80, 0x80, 0x80, 255, 0xEE, 0xEE, 0xEE, 255, 0, 0, 0, 255]
    );
}

#[test]
fn rgb565_channels_are_widened() {
    // Pure red, pure green, pure blue, then 0x0841 (r=1, g=2, b=1).
    let src = [0x00, 0xF8, 0xE0, 0x07, 0x1F, 0x00, 0x41, 0x08];
    let out = framebuffer_to_rgba(&src, 4, 1, 8, 1).unwrap();
    assert_eq!(&out[0..4], &[255, 0, 0, 255]);
    assert_eq!(&out[4..8], &[0, 255, 0, 255]);
    assert_eq!(&out[8..12], &[0, 0, 255, 255]);
    assert_eq!(&out[12..16], &[8, 8, 8, 255]);
}

#[test]
fn rgb888_and_xrgb8888_are_blue_first() {
    let out = framebuffer_to_rgba(&[1, 2, 3], 1, 1, 3, 2).unwrap();
    assert_eq!(out, vec![3, 2, 1, 255]);
    let out = framebuffer_to_rgba(&[1, 2, 3, 9], 1, 1, 4, 3).unwrap();
    assert_eq!(out, vec![3, 2, 1, 255]);
}

#[test]
fn stride_padding_is_skipped() {
    // Two rows of one pixel each, with three bytes of padding per row.
    let src = [7, 0, 0, 0, 9];
    let out = framebuffer_to_rgba(&src, 1, 2, 4, 0).unwrap();
    assert_eq!(out, vec![7, 7, 7, 255, 9, 9, 9, 255]);
}

#[test]
fn unknown_format_is_magenta() {
    let out = framebuffer_to_rgba(&[0], 2, 1, 0, 9).unwrap();
    assert_eq!(out, vec![255, 0, 255, 255, 255, 0, 255, 255]);
}

#[test]
fn unusable_frames_are_refused() {
    assert_eq!(framebuffer_to_rgba(&[1, 2, 3], 0, 1, 3, 0), None);
    assert_eq!(framebuffer_to_rgba(&[1, 2, 3], 1, 0, 3, 0), None);
    assert_eq!(framebuffer_to_rgba(&[], 1, 1, 1, 9), None);
    assert_eq!(framebuffer_to_rgba(&[1, 2, 3], 2, 1, 6, 1), None);
    assert_eq!(framebuffer_to_rgba(&[1, 2, 3, 4], 1, 2, 4, 0), None);
}

#[test]
fn pixel_format_codes() {
    assert_eq!(pixel_format_of(1), Some(PixelFormat::Rgb565));
    assert_eq!(pixel_format_of(7), None);
}
