use raytracer::camera::{
    choose_image_dimensions, clamp_image_height, encode_ppm, sample_counts_or_default,
    CameraBuilderError, ImageDimensions, ImageSettings, DEFAULT_MAX_DEPTH, DEFAULT_PIXEL_SAMPLES,
};
use raytracer::colour::{colour_line, gamma_to_linear, linearize_channels, push_decimal};
use raytracer::rtw_image::RTWImage;
use raytracer::texture::checker_cell_is_even;

#[test]
fn gamma_to_linear_agrees_with_squaring_in_unit_space_for_every_byte() {
    for c in 0..=255u8 {
        let unit = c as f32 / 255.;
        let expected = ((unit * unit) * 255.) as u8;
        assert_eq!(gamma_to_linear(c), expected, "byte {c}");
    }
}

#[test]
fn gamma_to_linear_keeps_black_and_white_and_darkens_midtones() {
    assert_eq!(gamma_to_linear(0), 0);
    assert_eq!(gamma_to_linear(255), 255);
    assert_eq!(gamma_to_linear(128), 64);
    assert_eq!(gamma_to_linear(16), 1);
    assert_eq!(gamma_to_linear(15), 0);
}

#[test]
fn gamma_to_linear_is_monotone() {
    let mut prev = 0u8;
    for c in 0..=255u8 {
        let v = gamma_to_linear(c);
        assert!(v >= prev);
        assert!(v <= c);
        prev = v;
    }
}

#[test]
fn linearize_channels_maps_every_byte() {
    let mut data = vec![0u8, 255, 128, 200];
    linearize_channels(&mut data);
    assert_eq!(data, vec![0, 255, 64, 156]);
}

#[test]
fn decimal_text_has_no_leading_zeros() {
    let mut out = Vec::new();
    push_decimal(&mut out, 0);
    push_decimal(&mut out, 7);
    out.push(b'|');
    push_decimal(&mut out, 1024);
    assert_eq!(String::from_utf8(out).unwrap(), "07|1024");
}

#[test]
fn colour_line_matches_plain_ppm_pixel_text() {
    assert_eq!(String::from_utf8(colour_line(255, 0, 17)).unwrap(), "255 0 17\n");
}

#[test]
fn encode_ppm_writes_header_then_one_line_per_pixel() {
    let text = encode_ppm(2, 1, &vec![[1, 2, 3], [255, 128, 0]]);
    assert_eq!(String::from_utf8(text).unwrap(), "P3\n2 1\n256\n1 2 3\n255 128 0\n");
    let empty = encode_ppm(0, 0, &vec![]);
    assert_eq!(String::from_utf8(empty).unwrap(), "P3\n0 0\n256\n");
}

#[test]
fn image_dimensions_prefer_width_and_height() {
    assert_eq!(
        choose_image_dimensions(Some(400), Some(300), true),
        Ok(ImageDimensions::WidthAndHeight { width: 400, height: 300 })
    );
    assert_eq!(
        choose_image_dimensions(Some(400), None, true),
        Ok(ImageDimensions::AspectAndWidth { width: 400 })
    );
    assert_eq!(
        choose_image_dimensions(None, Some(300), true),
        Ok(ImageDimensions::AspectAndHeight { height: 300 })
    );
}

#[test]
fn image_dimensions_are_insufficient_without_enough_settings() {
    assert_eq!(
        choose_image_dimensions(Some(400), None, false),
        Err(CameraBuilderError::InsufficientImageDimensions)
    );
    assert_eq!(
        choose_image_dimensions(None, Some(300), false),
        Err(CameraBuilderError::InsufficientImageDimensions)
    );
    assert_eq!(
        choose_image_dimensions(None, None, true),
        Err(CameraBuilderError::InsufficientImageDimensions)
    );
}

#[test]
fn sample_counts_fall_back_to_defaults() {
    assert_eq!(sample_counts_or_default(None, None), (DEFAULT_PIXEL_SAMPLES, DEFAULT_MAX_DEPTH));
    assert_eq!(sample_counts_or_default(Some(3), None), (3, 10));
    assert_eq!(sample_counts_or_default(None, Some(50)), (10, 50));
}

#[test]
fn image_height_is_at_least_one_row() {
    assert_eq!(clamp_image_height(0), 1);
    assert_eq!(clamp_image_height(1), 1);
    assert_eq!(clamp_image_height(225), 225);
}

fn two_by_two() -> RTWImage {
    // Row 0: red, green; row 1: blue, white (all gamma encoded).
    RTWImage::new(2, 2, vec![255, 0, 0, 0, 255, 0, 0, 0, 255, 255, 255, 128])
}

#[test]
fn rtw_image_stores_linearised_pixels() {
    let img = two_by_two();
    assert_eq!(img.width(), 2);
    assert_eq!(img.height(), 2);
    assert_eq!(img.pixel_data(0, 0), [255, 0, 0]);
    assert_eq!(img.pixel_data(1, 0), [0, 255, 0]);
    assert_eq!(img.pixel_data(0, 1), [0, 0, 255]);
    assert_eq!(img.pixel_data(1, 1), [255, 255, 64]);
}

#[test]
fn rtw_image_clamps_coordinates_past_the_edges() {
    let img = two_by_two();
    assert_eq!(img.pixel_data(5, 0), [0, 255, 0]);
    assert_eq!(img.pixel_data(0, 9), [0, 0, 255]);
    assert_eq!(img.pixel_data(usize::MAX, usize::MAX), [255, 255, 64]);
}

#[test]
fn checker_parity_alternates_between_neighbouring_cells() {
    assert!(checker_cell_is_even(0, 0, 0));
    assert!(!checker_cell_is_even(1, 0, 0));
    assert!(!checker_cell_is_even(0, -1, 0));
    assert!(checker_cell_is_even(-1, -1, 0));
    assert!(!checker_cell_is_even(-3, 0, 0));
    assert!(checker_cell_is_even(2, 3, -1));
}

#[test]
fn image_settings_builder_records_each_setting() {
    let s = ImageSettings::new().with_width(640).with_samples_per_pixel(4);
    assert_eq!(s.image_width, Some(640));
    assert_eq!(s.image_height, None);
    assert_eq!(s.counts(), (4, DEFAULT_MAX_DEPTH));
    assert_eq!(s.dimensions(false), Err(CameraBuilderError::InsufficientImageDimensions));
    assert_eq!(s.dimensions(true), Ok(ImageDimensions::AspectAndWidth { width: 640 }));
    let s = s.with_height(480).with_max_depth(3);
    assert_eq!(s.dimensions(false), Ok(ImageDimensions::WidthAndHeight { width: 640, height: 480 }));
    assert_eq!(s.counts(), (4, 3));
}
