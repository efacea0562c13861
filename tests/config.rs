use raytracer::config::{
    ConfigError, RenderConfig, DEFAULT_HEIGHT, DEFAULT_SAMPLES, DEFAULT_WIDTH,
};

#[test]
fn defaults_fill_absent_parameters() {
    let c = RenderConfig::from_options(None, None, None).unwrap();
    assert_eq!(c.samples(), DEFAULT_SAMPLES);
    assert_eq!(c.width(), DEFAULT_WIDTH);
    assert_eq!(c.height(), DEFAULT_HEIGHT);
    assert_eq!((c.samples(), c.width(), c.height()), (512, 640, 360));
}

#[test]
fn given_parameters_override_defaults() {
    let c = RenderConfig::from_options(Some(7), None, Some(9)).unwrap();
    assert_eq!((c.samples(), c.width(), c.height()), (7, 640, 9));
}

#[test]
fn zero_samples_rejected() {
    assert_eq!(RenderConfig::new(0, 10, 10).err(), Some(ConfigError::ZeroSamples));
    assert_eq!(RenderConfig::from_options(Some(0), None, None).err(), Some(ConfigError::ZeroSamples));
}

#[test]
fn zero_width_rejected() {
    assert_eq!(RenderConfig::new(1, 0, 10).err(), Some(ConfigError::ZeroWidth));
}

#[test]
fn zero_height_rejected() {
    assert_eq!(RenderConfig::new(1, 10, 0).err(), Some(ConfigError::ZeroHeight));
}

#[test]
fn first_zero_decides_the_error() {
    assert_eq!(RenderConfig::new(0, 0, 0).err(), Some(ConfigError::ZeroSamples));
    assert_eq!(RenderConfig::new(3, 0, 0).err(), Some(ConfigError::ZeroWidth));
}

#[test]
fn largest_image_fits_only_a_wide_address_space() {
    let r = RenderConfig::new(1, u32::MAX, u32::MAX);
    if usize::BITS >= 64 {
        let c = r.unwrap();
        assert_eq!(c.pixel_count() as u128, (u32::MAX as u128) * (u32::MAX as u128));
    } else {
        assert_eq!(r.err(), Some(ConfigError::TooManyPixels));
    }
}

#[test]
fn pixel_count_is_width_times_height() {
    let c = RenderConfig::new(4, 640, 360).unwrap();
    assert_eq!(c.pixel_count(), 230_400);
}

#[test]
fn pixels_are_row_major() {
    let c = RenderConfig::new(1, 4, 3).unwrap();
    assert_eq!(c.pixel_index(0, 0), 0);
    assert_eq!(c.pixel_index(0, 3), 3);
    assert_eq!(c.pixel_index(1, 0), 4);
    assert_eq!(c.pixel_index(2, 3), 11);
    let mut seen = vec![false; c.pixel_count()];
    for row in 0..3 {
        for col in 0..4 {
            let i = c.pixel_index(row, col);
            assert!(!seen[i]);
            seen[i] = true;
        }
    }
    assert!(seen.iter().all(|s| *s));
}

#[test]
fn row_offsets_center_on_middle_row() {
    let c = RenderConfig::new(1, 8, 5).unwrap();
    assert_eq!(c.row_offset(0), -2);
    assert_eq!(c.row_offset(2), 0);
    assert_eq!(c.row_offset(4), 2);
    let odd = RenderConfig::new(1, 1, 7).unwrap();
    assert_eq!(odd.row_offset(0), -3);
    assert_eq!(odd.row_offset(6), 3);
    let even = RenderConfig::new(1, 1, 360).unwrap();
    assert_eq!(even.row_offset(0), -180);
    assert_eq!(even.row_offset(359), 179);
}
