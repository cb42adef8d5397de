use riemann_core::pixels::{composite_over_white, invert_colors, swap_red_blue};

#[test]
fn invert_colors_negates_color_channels() {
    let mut pixels = vec![0u8, 128, 255, 7];
    invert_colors(&mut pixels);
    assert_eq!(pixels, vec![255u8, 127, 0, 7]);
}

#[test]
fn invert_colors_twice_restores_buffer() {
    let original = vec![1u8, 2, 3, 4, 250, 251, 252, 253];
    let mut pixels = original.clone();
    invert_colors(&mut pixels);
    invert_colors(&mut pixels);
    assert_eq!(pixels, original);
}

#[test]
fn swap_red_blue_swaps_first_and_third_channel() {
    let mut pixels = vec![1u8, 2, 3, 4, 5, 6, 7, 8];
    swap_red_blue(&mut pixels);
    assert_eq!(pixels, vec![3u8, 2, 1, 4, 7, 6, 5, 8]);
}

#[test]
fn swap_red_blue_twice_restores_buffer() {
    let original = vec![9u8, 8, 7, 6, 5, 4, 3, 2];
    let mut pixels = original.clone();
    swap_red_blue(&mut pixels);
    swap_red_blue(&mut pixels);
    assert_eq!(pixels, original);
}

#[test]
fn composite_forces_full_opacity() {
    let mut pixels = vec![40u8, 50, 60, 200, 70, 80, 90, 0];
    composite_over_white(&mut pixels);
    assert_eq!(pixels[3], 255);
    assert_eq!(pixels[7], 255);
}

#[test]
fn empty_buffer_transforms_stay_empty() {
    let mut pixels: Vec<u8> = Vec::new();
    invert_colors(&mut pixels);
    swap_red_blue(&mut pixels);
    composite_over_white(&mut pixels);
    assert!(pixels.is_empty());
}
