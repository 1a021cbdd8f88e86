use gpui_platform::float::{scalar, Scalar};
use gpui_platform::geometry::{origin, point, Point};
use gpui_platform::input::{
    no_modifiers, PinchDelta, PinchEvent, PlatformInput, ScrollDelta, ScrollWheelEvent, TouchPhase,
};
use gpui_platform::windows::direct_manipulation::{
    is_enabled, keeps_updating, ContentUpdate, Manipulation, ViewportStatus,
};

fn f(value: f32) -> Scalar {
    scalar(value.to_bits())
}

fn at(x: f32, y: f32) -> Point {
    point(f(x), f(y))
}

fn update(before: f32, scale: f32, x: f32, y: f32) -> ContentUpdate {
    ContentUpdate {
        scale: f(scale),
        translation: at(x, y),
        scale_change: f((scale / before - 1.0).abs()),
        scale_factor: f(2.0),
        position: at(7.0, 8.0),
        modifiers: no_modifiers(),
    }
}

fn pinch(phase: TouchPhase, delta: PinchDelta) -> PlatformInput {
    PlatformInput::Pinch(PinchEvent {
        position: at(7.0, 8.0),
        delta,
        scale: f(1.0),
        modifiers: no_modifiers(),
        phase,
    })
}

fn scroll(from: Point, to: Point) -> PlatformInput {
    PlatformInput::ScrollWheel(ScrollWheelEvent {
        position: at(7.0, 8.0),
        delta: ScrollDelta::DeviceBetween { from, to, scale_factor: f(2.0) },
        modifiers: no_modifiers(),
        touch_phase: TouchPhase::Moved,
    })
}

#[test]
fn gestures_of_the_touchpad_are_opted_into() {
    assert!(is_enabled(Some("1")));
    assert!(is_enabled(Some("true")));
    assert!(!is_enabled(Some("TRUE")));
    assert!(!is_enabled(Some("0")));
    assert!(!is_enabled(Some("")));
    assert!(!is_enabled(None));
}

#[test]
fn the_timer_stops_at_rest() {
    assert!(!keeps_updating(Some(ViewportStatus::Ready)));
    assert!(!keeps_updating(Some(ViewportStatus::Enabled)));
    assert!(!keeps_updating(Some(ViewportStatus::Disabled)));
    assert!(!keeps_updating(None));
    assert!(keeps_updating(Some(ViewportStatus::Running)));
    assert!(keeps_updating(Some(ViewportStatus::Inertia)));
    assert!(keeps_updating(Some(ViewportStatus::Suspended)));
    assert!(keeps_updating(Some(ViewportStatus::Building)));
}

#[test]
fn a_touchpad_pinch_starts_moves_and_ends() {
    let mut manipulation = Manipulation::new();
    let mut out = Vec::new();
    assert!(!manipulation.status_changed(ViewportStatus::Running, origin(), no_modifiers(), &mut out));
    manipulation.content_updated(update(1.0, 1.5, 0.0, 0.0), &mut out);
    manipulation.content_updated(update(1.5, 3.0, 0.0, 0.0), &mut out);
    assert!(manipulation.status_changed(ViewportStatus::Ready, at(7.0, 8.0), no_modifiers(), &mut out));
    assert_eq!(
        out,
        vec![
            pinch(TouchPhase::Started, PinchDelta::Unchanged),
            pinch(TouchPhase::Moved, PinchDelta::Ratio { now: f(3.0), before: f(1.5) }),
            pinch(TouchPhase::Ended, PinchDelta::Unchanged),
        ]
    );
    out.clear();
    assert!(manipulation.status_changed(ViewportStatus::Ready, origin(), no_modifiers(), &mut out));
    assert_eq!(out, vec![]);
}

#[test]
fn tremor_of_the_scale_is_no_pinch() {
    let mut manipulation = Manipulation::new();
    let mut out = Vec::new();
    manipulation.content_updated(update(1.0, 1.00005, 3.0, 0.0), &mut out);
    assert_eq!(out, vec![scroll(origin(), at(3.0, 0.0))]);
    assert!(!manipulation.pinching);
    assert_eq!(manipulation.scale, f(1.0));
}

#[test]
fn a_degenerate_scale_is_no_pinch() {
    let mut manipulation = Manipulation::new();
    let mut out = Vec::new();
    for scale in [0.0, -1.0, f32::INFINITY, f32::NAN] {
        manipulation.content_updated(update(1.0, scale, 0.0, 0.0), &mut out);
    }
    assert_eq!(out, vec![]);
    assert_eq!(manipulation, Manipulation::new());
}

#[test]
fn a_pan_scrolls_by_what_is_new() {
    let mut manipulation = Manipulation::new();
    let mut out = Vec::new();
    manipulation.content_updated(update(1.0, 1.0, 4.0, 0.0), &mut out);
    manipulation.content_updated(update(1.0, 1.0, 4.0, 0.0), &mut out);
    manipulation.content_updated(update(1.0, 1.0, 4.0, -6.0), &mut out);
    assert_eq!(
        out,
        vec![scroll(origin(), at(4.0, 0.0)), scroll(at(4.0, 0.0), at(4.0, -6.0))]
    );
}

#[test]
fn the_two_zeros_do_not_scroll() {
    let mut manipulation = Manipulation::new();
    let mut out = Vec::new();
    manipulation.content_updated(update(1.0, 1.0, -0.0, 0.0), &mut out);
    assert_eq!(out, vec![]);
}
