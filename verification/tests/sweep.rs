use starsoldier_visualize::vis::palette_color;
use starsoldier_visualize::vis::visualize;

#[test]
fn palette_matches_fixed_colors() {
    assert_eq!(palette_color(0), (0xFF, 0x9D, 0x00, 0xFF));
    assert_eq!(palette_color(4), (0xBC, 0x04, 0x6C, 0xFF));
    assert_eq!(palette_color(15), (0xFF, 0x00, 0xF5, 0xFF));
}

#[test]
fn sweep_image_has_canvas_dimensions() {
    let img = visualize();
    assert_eq!(img.buf.width(), 256);
    assert_eq!(img.buf.height(), 240);
}

#[test]
fn sweep_image_pixels_follow_the_classifier() {
    let img = visualize();
    // The origin itself classifies as code 0: orange.
    assert_eq!(img.buf.get_pixel(127, 119).0, [0xFF, 0x9D, 0x00, 0xFF]);
    // One step right of the origin classifies as code 4.
    assert_eq!(img.buf.get_pixel(128, 119).0, [0xBC, 0x04, 0x6C, 0xFF]);
    // Straight above the origin classifies as code 0 as well.
    assert_eq!(img.buf.get_pixel(127, 0).0, [0xFF, 0x9D, 0x00, 0xFF]);
    // Far up-left of the origin classifies as code 14.
    let idx = starsoldier_visualize::aim::aim((127, 119), (0, 0)) as usize;
    assert_eq!(idx, 14);
    assert_eq!(img.buf.get_pixel(0, 0).0, [0x15, 0x00, 0x47, 0xFF]);
}
