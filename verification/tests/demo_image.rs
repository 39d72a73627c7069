use imgui_app::make_image;

fn pixel(bytes: &[u8], x: usize, y: usize) -> [u8; 4] {
    let i = (y * 64 + x) * 4;
    [bytes[i], bytes[i + 1], bytes[i + 2], bytes[i + 3]]
}

#[test]
fn gradient_corners() {
    let bytes = make_image(64, 64);
    assert_eq!(bytes.len(), 64 * 64 * 4);
    assert_eq!(pixel(&bytes, 0, 0), [0, 0, 0, 255]);
    assert_eq!(pixel(&bytes, 63, 0), [0, 255, 0, 255]);
    assert_eq!(pixel(&bytes, 0, 63), [0, 0, 255, 255]);
    assert_eq!(pixel(&bytes, 63, 63), [0, 255, 255, 255]);
}

#[test]
fn gradient_levels_round_to_nearest() {
    let bytes = make_image(64, 64);
    // 255 / 63 = 4.05 -> 4; 32 * 255 / 63 = 129.5 -> 130; 62 * 255 / 63 = 250.95 -> 251
    assert_eq!(pixel(&bytes, 1, 0)[1], 4);
    assert_eq!(pixel(&bytes, 32, 0)[1], 130);
    assert_eq!(pixel(&bytes, 0, 62)[2], 251);
    for x in 0..64usize {
        let expected = ((x as f32 / 63.0) * 255.0).round() as u8;
        assert_eq!(pixel(&bytes, x, 5)[1], expected);
        assert_eq!(pixel(&bytes, 5, x)[2], expected);
    }
}

#[test]
fn bytes_after_gradient_stay_zero() {
    let bytes = make_image(128, 64);
    assert_eq!(bytes.len(), 128 * 64 * 4);
    assert!(bytes[64 * 64 * 4..].iter().all(|b| *b == 0));
    assert_eq!(pixel(&bytes, 63, 63), [0, 255, 255, 255]);
}
