use display_settings::geometry::{Point, Size};
use display_settings::output_settings::{InvalidArgument, OutputSettings, OutputSettingsBuilder};
use display_settings::theme::BinaryColorTheme;

#[test]
fn default_build_has_identity_settings() {
    let s = OutputSettingsBuilder::new().build();
    assert_eq!(s.scale, Size::new(1, 1));
    assert_eq!(s.pixel_spacing, 0);
    assert_eq!(s.theme, BinaryColorTheme::NoTheme);
}

#[test]
fn default_settings_match_fresh_build() {
    assert_eq!(OutputSettings::default(), OutputSettingsBuilder::new().build());
}

#[test]
fn uniform_scale_sets_both_components() {
    let s = OutputSettingsBuilder::new().scale(4).unwrap().build();
    assert_eq!(s.scale, Size::new(4, 4));
    assert_eq!(s.pixel_spacing, 0);
}

#[test]
fn uniform_scale_of_zero_is_rejected() {
    let r = OutputSettingsBuilder::new().scale(0);
    assert!(matches!(r, Err(InvalidArgument)));
}

#[test]
fn non_square_scale_is_kept() {
    let s = OutputSettingsBuilder::new()
        .scale_non_square(Size::new(2, 5))
        .unwrap()
        .build();
    assert_eq!(s.scale, Size::new(2, 5));
}

#[test]
fn non_square_scale_with_zero_width_is_rejected() {
    let r = OutputSettingsBuilder::new().scale_non_square(Size::new(0, 5));
    assert!(matches!(r, Err(InvalidArgument)));
}

#[test]
fn non_square_scale_with_zero_height_is_rejected() {
    let r = OutputSettingsBuilder::new().scale_non_square(Size::new(5, 0));
    assert!(matches!(r, Err(InvalidArgument)));
}

#[test]
fn theme_defaults_scale_and_spacing() {
    let s = OutputSettingsBuilder::new()
        .theme(BinaryColorTheme::LcdGreen)
        .build();
    assert_eq!(s.scale, Size::new(3, 3));
    assert_eq!(s.pixel_spacing, 1);
    assert_eq!(s.theme, BinaryColorTheme::LcdGreen);
}

#[test]
fn theme_keeps_explicit_scale() {
    let s = OutputSettingsBuilder::new()
        .scale(5)
        .unwrap()
        .theme(BinaryColorTheme::OledBlue)
        .build();
    assert_eq!(s.scale, Size::new(5, 5));
    assert_eq!(s.pixel_spacing, 1);
    assert_eq!(s.theme, BinaryColorTheme::OledBlue);
}

#[test]
fn spacing_before_theme_is_not_overridden() {
    let s = OutputSettingsBuilder::new()
        .pixel_spacing(0)
        .theme(BinaryColorTheme::LcdWhite)
        .build();
    assert_eq!(s.pixel_spacing, 0);
    assert_eq!(s.scale, Size::new(3, 3));
}

#[test]
fn spacing_after_theme_overrides_the_default() {
    let s = OutputSettingsBuilder::new()
        .theme(BinaryColorTheme::LcdBlue)
        .pixel_spacing(0)
        .build();
    assert_eq!(s.pixel_spacing, 0);
    assert_eq!(s.scale, Size::new(3, 3));
}

#[test]
fn second_theme_call_keeps_resolved_defaults() {
    let s = OutputSettingsBuilder::new()
        .theme(BinaryColorTheme::LcdWhite)
        .theme(BinaryColorTheme::OledWhite)
        .build();
    assert_eq!(s.scale, Size::new(3, 3));
    assert_eq!(s.pixel_spacing, 1);
    assert_eq!(s.theme, BinaryColorTheme::OledWhite);
}

#[test]
fn pixel_pitch_adds_spacing_to_each_component() {
    let s = OutputSettingsBuilder::new()
        .scale_non_square(Size::new(2, 3))
        .unwrap()
        .pixel_spacing(2)
        .build();
    assert_eq!(s.pixel_pitch(), Point::new(4, 5));
}

#[test]
fn pixel_pitch_without_spacing_equals_scale() {
    let s = OutputSettingsBuilder::new().scale(2).unwrap().build();
    assert_eq!(s.pixel_pitch(), Point::new(2, 2));
}

#[test]
fn pixel_pitch_at_largest_coordinate() {
    let s = OutputSettingsBuilder::new()
        .scale_non_square(Size::new(i32::MAX as u32, 1))
        .unwrap()
        .build();
    assert_eq!(s.pixel_pitch(), Point::new(i32::MAX, 1));
}

#[test]
fn output_to_display_divides_by_pitch() {
    let s = OutputSettingsBuilder::new()
        .scale(3)
        .unwrap()
        .pixel_spacing(1)
        .build();
    assert_eq!(s.pixel_pitch(), Point::new(4, 4));
    assert_eq!(s.output_to_display(Point::new(10, 10)), Point::new(2, 2));
}

#[test]
fn output_to_display_truncates_within_first_pixel() {
    let s = OutputSettingsBuilder::new()
        .scale(3)
        .unwrap()
        .pixel_spacing(1)
        .build();
    assert_eq!(s.output_to_display(Point::new(3, 3)), Point::new(0, 0));
}

#[test]
fn output_to_display_maps_origin_to_origin() {
    let s = OutputSettingsBuilder::new()
        .scale_non_square(Size::new(7, 2))
        .unwrap()
        .build();
    assert_eq!(s.output_to_display(Point::new(0, 0)), Point::new(0, 0));
}

#[test]
fn output_to_display_with_non_square_pitch() {
    let s = OutputSettingsBuilder::new()
        .scale_non_square(Size::new(2, 3))
        .unwrap()
        .pixel_spacing(1)
        .build();
    assert_eq!(s.pixel_pitch(), Point::new(3, 4));
    assert_eq!(s.output_to_display(Point::new(9, 9)), Point::new(3, 2));
}

#[test]
fn component_div_divides_each_coordinate() {
    let p = Point::new(10, 7).component_div(Point::new(4, 2));
    assert_eq!(p, Point::new(2, 3));
}

#[test]
fn identical_configuration_sequences_compare_equal() {
    let a = OutputSettingsBuilder::new()
        .scale(2)
        .unwrap()
        .theme(BinaryColorTheme::OledBlue)
        .pixel_spacing(3)
        .build();
    let b = OutputSettingsBuilder::new()
        .scale(2)
        .unwrap()
        .theme(BinaryColorTheme::OledBlue)
        .pixel_spacing(3)
        .build();
    assert_eq!(a, b);
}

#[test]
fn settings_are_freely_copyable() {
    let a = OutputSettingsBuilder::new().scale(2).unwrap().build();
    let b = a;
    assert_eq!(a, b);
    assert_eq!(a.pixel_pitch(), b.pixel_pitch());
}

#[test]
fn size_new_equal_sets_both_components() {
    assert_eq!(Size::new_equal(6), Size::new(6, 6));
}
