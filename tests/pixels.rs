use avif_ffi::pixels::{gray_to_rgba, premultiply, premultiply_pixel, rgb_to_rgba, scale_channel, Rgba8};

fn px(r: u8, g: u8, b: u8, a: u8) -> Rgba8 {
    Rgba8 { r, g, b, a }
}

#[test]
fn premultiply_scales_by_alpha() {
    assert_eq!(premultiply_pixel(px(200, 100, 50, 128)), px(100, 50, 25, 128));
    assert_eq!(scale_channel(255, 1), 1);
    assert_eq!(scale_channel(254, 1), 0);
}

#[test]
fn premultiply_opaque_is_identity() {
    assert_eq!(premultiply_pixel(px(12, 34, 56, 255)), px(12, 34, 56, 255));
}

#[test]
fn premultiply_transparent_is_black() {
    assert_eq!(premultiply_pixel(px(12, 34, 56, 0)), px(0, 0, 0, 0));
}

#[test]
fn premultiply_covers_every_pixel() {
    let mut v = vec![px(255, 255, 255, 51), px(10, 20, 30, 255), px(90, 90, 90, 0)];
    premultiply(&mut v);
    assert_eq!(v, vec![px(51, 51, 51, 51), px(10, 20, 30, 255), px(0, 0, 0, 0)]);
}

#[test]
fn gray_broadcasts_and_is_opaque() {
    assert_eq!(gray_to_rgba(&vec![0, 77]), vec![px(0, 0, 0, 255), px(77, 77, 77, 255)]);
    assert!(gray_to_rgba(&vec![]).is_empty());
}

#[test]
fn rgb_gets_opaque_alpha_and_drops_partial_triple() {
    assert_eq!(rgb_to_rgba(&vec![1, 2, 3, 4, 5, 6, 7]), vec![px(1, 2, 3, 255), px(4, 5, 6, 255)]);
}
