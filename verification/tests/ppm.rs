use pathtrace::ppm::{push_decimal, push_header, push_pixel_line, render_ppm};

#[test]
fn decimal_single_digit() {
    let mut out: Vec<u8> = Vec::new();
    push_decimal(&mut out, 0);
    assert_eq!(out, b"0");
}

#[test]
fn decimal_multi_digit() {
    let mut out: Vec<u8> = Vec::new();
    push_decimal(&mut out, 254);
    assert_eq!(out, b"254");
    push_decimal(&mut out, 10);
    assert_eq!(out, b"25410");
}

#[test]
fn decimal_largest() {
    let mut out: Vec<u8> = Vec::new();
    push_decimal(&mut out, u32::MAX);
    assert_eq!(out, b"4294967295");
}

#[test]
fn pixel_line_saturated_white() {
    // A raw sum of (2,2,2) over 2 samples scales to 1.0 per channel, is
    // clipped to 0.999 and quantized to 254; the emitted line is below.
    let mut out: Vec<u8> = Vec::new();
    push_pixel_line(&mut out, 254, 254, 254);
    assert_eq!(out, b"254 254 254\n");
}

#[test]
fn pixel_line_black() {
    let mut out: Vec<u8> = Vec::new();
    push_pixel_line(&mut out, 0, 0, 0);
    assert_eq!(out, b"0 0 0\n");
}

#[test]
fn pixel_line_mixed() {
    let mut out: Vec<u8> = Vec::new();
    push_pixel_line(&mut out, 127, 5, 254);
    assert_eq!(out, b"127 5 254\n");
}

#[test]
fn header_layout() {
    let mut out: Vec<u8> = Vec::new();
    push_header(&mut out, 300, 168);
    assert_eq!(out, b"P3\n300 168\n255\n\n");
}

#[test]
fn full_stream_small_image() {
    let pixels: Vec<(u8, u8, u8)> = vec![(255, 0, 10), (1, 2, 3)];
    let stream = render_ppm(2, 1, &pixels);
    assert_eq!(stream, b"P3\n2 1\n255\n\n255 0 10\n1 2 3\n");
}

#[test]
fn full_stream_empty_image() {
    let stream = render_ppm(0, 0, &Vec::new());
    assert_eq!(stream, b"P3\n0 0\n255\n\n");
}
