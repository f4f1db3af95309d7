use winbar::color::{Color, TRANSPARENT_COLOR};

#[test]
fn bgr_packs_blue_first() {
    assert_eq!(Color::Rgb { r: 0x11, g: 0x22, b: 0x33 }.bgr(), 0x332211);
    assert_eq!(Color::Rgba { r: 0x11, g: 0x22, b: 0x33, alpha: 0x44 }.bgr(), 0x332211);
    assert_eq!(Color::Rgb { r: 23, g: 23, b: 23 }.bgr(), 23 * 65536 + 23 * 256 + 23);
    assert_eq!(Color::Transparent.bgr(), TRANSPARENT_COLOR);
    assert_eq!(TRANSPARENT_COLOR, 0);
}

#[test]
fn argb_packs_alpha_first() {
    assert_eq!(Color::Rgb { r: 0x11, g: 0x22, b: 0x33 }.argb(), 0xFF112233);
    assert_eq!(Color::Rgba { r: 0x11, g: 0x22, b: 0x33, alpha: 0x44 }.argb(), 0x44112233);
    assert_eq!(Color::Transparent.argb(), 0);
}

#[test]
fn single_rgb_is_bgr() {
    assert_eq!(Color::Rgb { r: 33, g: 181, b: 80 }.to_single_rgb(), 80 << 16 | 181 << 8 | 33);
    assert_eq!(Color::Transparent.to_single_rgb(), 0);
}

#[test]
fn channels_beyond_a_byte_spill_over() {
    assert_eq!(Color::Rgb { r: 0x100, g: 0, b: 0 }.bgr(), 0x100);
    assert_eq!(Color::Rgb { r: 0x1FF, g: 0x01, b: 0 }.bgr(), 0x1FF);
    assert_eq!(Color::Rgb { r: 0, g: 0, b: 0x1_0000 }.bgr(), 0);
    assert_eq!(Color::Rgba { r: 0, g: 0, b: 0, alpha: 0x100 }.argb(), 0);
}

#[test]
fn byte_channels_stand_side_by_side() {
    assert_eq!(Color::Rgb { r: 1, g: 2, b: 3 }.bgr(), 3 * 0x1_0000 + 2 * 0x100 + 1);
    assert_eq!(Color::Rgb { r: 255, g: 255, b: 255 }.bgr(), 0xFF_FFFF);
    assert_eq!(Color::Rgb { r: 1, g: 2, b: 3 }.argb(), 0xFF00_0000 + 0x1_0000 + 2 * 0x100 + 3);
    assert_eq!(
        Color::Rgba { r: 1, g: 2, b: 3, alpha: 4 }.argb(),
        4 * 0x100_0000 + 0x1_0000 + 2 * 0x100 + 3
    );
}
