use gpui_platform::float::{scalar, Scalar};
use gpui_platform::input::Tilt;
use gpui_platform::pen_tilt::{appkit, degrees, windows, windows_is_pen_mouse, windows_mouse};

fn tilt(x: f32, y: f32) -> Tilt {
    Tilt { x: scalar(x.to_bits()), y: scalar(y.to_bits()) }
}

fn value(number: Scalar) -> f32 {
    f32::from_bits(number.bits)
}

fn values(tilt: Option<Tilt>) -> Option<[f32; 2]> {
    tilt.map(|tilt| [value(tilt.x), value(tilt.y)])
}

/// What the caller makes of the tilt that AppKit reports.
fn scaled(x: f32, y: f32) -> Tilt {
    tilt(x * 90.0, y * 90.0)
}

#[test]
fn degree_axes_preserve_direction_and_reject_invalid_samples() {
    assert_eq!(values(degrees(tilt(-45.0, 30.0))), Some([-45.0, 30.0]));
    assert_eq!(values(degrees(tilt(0.0, 0.0))), Some([0.0, 0.0]));
    assert_eq!(values(degrees(tilt(-90.0, 90.0))), Some([-90.0, 90.0]));
    for value in [f32::NAN, f32::INFINITY, -91.0, 91.0] {
        assert_eq!(degrees(tilt(value, 0.0)), None);
        assert_eq!(degrees(tilt(0.0, value)), None);
    }
}

#[test]
fn appkit_scales_tablet_axes_and_flips_unflipped_view_y() {
    assert_eq!(values(appkit(1, scaled(-0.5, 0.25))), Some([-45.0, -22.5]));
    assert_eq!(appkit(0, scaled(0.5, 0.5)), None);
    assert_eq!(appkit(1, scaled(1.1, 0.0)), None);
}

#[test]
fn windows_requires_both_axes_and_filters_synthetic_touch_and_real_mouse() {
    let sample = windows(12, -45, 30);
    assert_eq!(values(sample), Some([-45.0, 30.0]));
    for mask in [0, 4, 8] {
        assert_eq!(windows(mask, 30, 30), None);
    }
    assert_eq!(windows(12, 91, 0), None);
    assert_eq!(windows_mouse(0xff515700, sample), sample);
    assert_eq!(windows_mouse(0xff515701, sample), sample);
    assert_eq!(windows_mouse(0xff515780, sample), None);
    assert_eq!(windows_mouse(0, sample), None);
    assert_eq!(windows_mouse(0xff515700, None), None);
}

#[test]
fn whole_degrees_are_exact_up_to_the_limits() {
    for degree in -90..=90 {
        let sample = windows(0xffff_ffff, degree, -degree);
        assert_eq!(values(sample), Some([degree as f32, -degree as f32]));
    }
    assert_eq!(windows(12, 0, -91), None);
    assert_eq!(windows(12, i32::MIN, i32::MAX), None);
}

#[test]
fn the_next_number_beyond_ninety_is_no_tilt() {
    let beyond = f32::from_bits(90.0f32.to_bits() + 1);
    assert_eq!(degrees(tilt(beyond, 0.0)), None);
    assert_eq!(degrees(tilt(0.0, -beyond)), None);
}

#[test]
fn a_pen_signs_its_mouse_messages() {
    assert!(windows_is_pen_mouse(0xff51577f));
    assert!(!windows_is_pen_mouse(0xff5156ff));
    assert!(!windows_is_pen_mouse(0xff515780));
    assert!(!windows_is_pen_mouse(0x7f515700));
}
