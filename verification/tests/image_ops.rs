use simplot::image::RawImage;

fn one_pixel(r: u8, g: u8, b: u8, a: u8) -> RawImage {
    RawImage::from_pixels(vec![r, g, b, a], 1, 1)
}

#[test]
fn solarize_inverts_red_below_threshold() {
    let mut img = one_pixel(50, 10, 20, 255);
    img.solarize();
    assert_eq!(img.raw_pixels, vec![150, 10, 20, 255]);
}

#[test]
fn solarize_twice_restores_red_between_bounds() {
    // One pass is not idempotent (50 -> 150), but a second pass restores
    // the original red value when both passes take the guarded branch.
    let mut img = one_pixel(50, 10, 20, 255);
    img.solarize();
    assert_eq!(img.raw_pixels[0], 150);
    img.solarize();
    assert_eq!(img.raw_pixels, vec![50, 10, 20, 255]);
}

#[test]
fn solarize_leaves_red_at_or_above_threshold() {
    let mut img = one_pixel(250, 0, 0, 255);
    img.solarize();
    assert_eq!(img.raw_pixels, vec![250, 0, 0, 255]);
    img.solarize();
    assert_eq!(img.raw_pixels, vec![250, 0, 0, 255]);
}

#[test]
fn solarize_sends_zero_red_to_threshold_for_good() {
    // A red byte of zero is the one value inside the guard that a second
    // pass does not restore: it lands exactly on the threshold and stays.
    let mut img = one_pixel(0, 1, 2, 3);
    img.solarize();
    assert_eq!(img.raw_pixels[0], 200);
    img.solarize();
    assert_eq!(img.raw_pixels[0], 200);
}

#[test]
fn solarize_threshold_boundary() {
    let mut img = RawImage::from_pixels(vec![199, 0, 0, 0, 200, 0, 0, 0], 2, 1);
    img.solarize();
    assert_eq!(img.raw_pixels[0], 1);
    assert_eq!(img.raw_pixels[4], 200);
}

#[test]
fn grayscale_averages_colour_channels() {
    let mut img = one_pixel(90, 60, 30, 255);
    img.grayscale();
    assert_eq!(img.raw_pixels, vec![60, 60, 60, 255]);
}

#[test]
fn grayscale_is_idempotent() {
    let mut img = one_pixel(90, 60, 30, 255);
    img.grayscale();
    img.grayscale();
    assert_eq!(img.raw_pixels, vec![60, 60, 60, 255]);
}

#[test]
fn grayscale_truncates_the_average() {
    // (1 + 1 + 0) / 3 truncates to 0.
    let mut img = one_pixel(1, 1, 0, 9);
    img.grayscale();
    assert_eq!(img.raw_pixels, vec![0, 0, 0, 9]);
}

#[test]
fn grayscale_at_the_clamp_ceiling() {
    let mut img = one_pixel(255, 255, 255, 255);
    img.grayscale();
    assert_eq!(img.raw_pixels, vec![255, 255, 255, 255]);
}

#[test]
fn grayscale_leaves_alpha_untouched() {
    let mut img = RawImage::from_pixels(vec![30, 60, 90, 7, 200, 100, 0, 42], 2, 1);
    img.grayscale();
    assert_eq!(img.raw_pixels, vec![60, 60, 60, 7, 100, 100, 100, 42]);
}

#[test]
fn alter_red_channel_shifts_red() {
    let mut img = one_pixel(100, 1, 2, 3);
    img.alter_red_channel(50);
    assert_eq!(img.raw_pixels, vec![150, 1, 2, 3]);
}

#[test]
fn alter_red_channel_clamps_high() {
    let mut img = one_pixel(250, 0, 0, 0);
    img.alter_red_channel(50);
    assert_eq!(img.raw_pixels[0], 255);
}

#[test]
fn alter_red_channel_clamps_low() {
    let mut img = one_pixel(10, 0, 0, 0);
    img.alter_red_channel(-50);
    assert_eq!(img.raw_pixels[0], 0);
}

#[test]
fn alter_red_channel_extreme_amounts() {
    let mut img = RawImage::from_pixels(vec![1, 0, 0, 0, 254, 0, 0, 0], 2, 1);
    img.alter_red_channel(i16::MAX);
    assert_eq!(img.raw_pixels[0], 255);
    assert_eq!(img.raw_pixels[4], 255);
    img.alter_red_channel(i16::MIN);
    assert_eq!(img.raw_pixels[0], 0);
    assert_eq!(img.raw_pixels[4], 0);
}

#[test]
fn empty_buffer_operations_are_no_ops() {
    let mut img = RawImage::new();
    img.solarize();
    img.grayscale();
    img.alter_red_channel(12);
    assert_eq!(img.raw_pixels.len(), 0);
    assert_eq!(img.width, 0);
    assert_eq!(img.height, 0);
}

#[test]
fn duplicate_copies_bytes_and_dimensions() {
    let img = RawImage::from_pixels(vec![9, 8, 7, 6], 1, 1);
    let copy = img.duplicate();
    assert_eq!(copy.raw_pixels, img.raw_pixels);
    assert_eq!(copy.width, 1);
    assert_eq!(copy.height, 1);
}
