use gpui_platform::android::events::{
    capslock_from_meta_state, is_modifier_key, keystroke_from_key_event, modifiers_from_meta_state,
    named_key,
};
use gpui_platform::android::window::{
    finish_key_down, finish_key_up, AndroidTouch, InputStatus, KeyAction, KeyEvent, KeyOutcome,
    KeyStep, Measures, MotionAction, MotionEvent, Pointer, ToolType, TwoFingerGesture,
};
use gpui_platform::float::{scalar, Scalar};
use gpui_platform::geometry::{origin, point, Point};
use gpui_platform::input::{
    no_modifiers, Capslock, KeyDownEvent, Keystroke, Modifiers, ModifiersChangedEvent, MouseButton,
    MouseDownEvent, MouseExitEvent, MouseMoveEvent, MouseUpEvent, PinchDelta, PinchEvent,
    PlatformInput, ScrollDelta, ScrollWheelEvent, TouchPhase,
};
use gpui_platform::touch::{Touch, TouchMode};

const MILLI: u64 = 1_000_000;

fn f(value: f32) -> Scalar {
    scalar(value.to_bits())
}

fn at(x: f32, y: f32) -> Point {
    point(f(x), f(y))
}

fn outside() -> Point {
    at(-100_000.0, -100_000.0)
}

fn finger(id: i32, x: f32, y: f32) -> Pointer {
    Pointer {
        id,
        tool: ToolType::Finger,
        position: at(x, y),
        pressure: f(0.3),
        wheel: origin(),
    }
}

fn motion(action: MotionAction, index: usize, pointers: Vec<Pointer>) -> MotionEvent {
    MotionEvent { action, mouse_source: false, meta_state: 0, button_state: 0, index, pointers }
}

fn length(a: Point, b: Point) -> f32 {
    let x = f32::from_bits(a.x.bits) - f32::from_bits(b.x.bits);
    let y = f32::from_bits(a.y.bits) - f32::from_bits(b.y.bits);
    x.hypot(y)
}

/// What a caller measures of an event.
fn measures(touch: &Touch, event: &MotionEvent, velocity: Point) -> Measures {
    let acting = event.pointers[event.index].position;
    let start = touch.primary.as_ref().map_or(acting, |primary| primary.start);
    let last = event.pointers[event.pointers.len() - 1].position;
    let first = event.pointers[0].position;
    let middle = |a: Scalar, b: Scalar| f((f32::from_bits(a.bits) + f32::from_bits(b.bits)) / 2.0);
    Measures {
        tap: f(touch.last_tap.map_or(0.0, |tap| length(tap.position, acting))),
        travel: event.pointers.iter().map(|pointer| f(length(start, pointer.position))).collect(),
        velocity,
        centroid: point(middle(first.x, last.x), middle(first.y, last.y)),
        separation: f(length(first, last)),
    }
}

fn send(touch: &mut AndroidTouch, now: u64, event: MotionEvent) -> Vec<PlatformInput> {
    send_flung(touch, now, event, origin())
}

fn send_flung(
    touch: &mut AndroidTouch,
    now: u64,
    event: MotionEvent,
    velocity: Point,
) -> Vec<PlatformInput> {
    let measured = measures(&touch.touch, &event, velocity);
    let mut out = Vec::new();
    touch.handle_motion(now, &event, &measured, &mut out);
    out
}

fn down(button: MouseButton, position: Point, click_count: usize, pressure: f32) -> PlatformInput {
    PlatformInput::MouseDown(MouseDownEvent {
        button,
        position,
        modifiers: no_modifiers(),
        click_count,
        first_mouse: false,
        pressure: f(pressure),
        tilt: None,
    })
}

fn up(button: MouseButton, position: Point, click_count: usize) -> PlatformInput {
    PlatformInput::MouseUp(MouseUpEvent {
        button,
        position,
        modifiers: no_modifiers(),
        click_count,
        pressure: f(1.0),
        tilt: None,
    })
}

fn moved(position: Point, pressed_button: Option<MouseButton>, pressure: f32) -> PlatformInput {
    PlatformInput::MouseMove(MouseMoveEvent {
        position,
        pressed_button,
        modifiers: no_modifiers(),
        pressure: f(pressure),
        tilt: None,
    })
}

fn scroll(position: Point, delta: ScrollDelta, touch_phase: TouchPhase) -> PlatformInput {
    PlatformInput::ScrollWheel(ScrollWheelEvent {
        position,
        delta,
        modifiers: no_modifiers(),
        touch_phase,
    })
}

fn still(position: Point, touch_phase: TouchPhase) -> PlatformInput {
    scroll(position, ScrollDelta::Pixels(origin()), touch_phase)
}

fn pinch(position: Point, delta: PinchDelta, phase: TouchPhase) -> PlatformInput {
    PlatformInput::Pinch(PinchEvent {
        position,
        delta,
        scale: f(1.0),
        modifiers: no_modifiers(),
        phase,
    })
}

#[test]
fn a_tap_is_a_click() {
    let mut touch = AndroidTouch::new();
    let here = at(10.0, 20.0);
    assert_eq!(
        send(&mut touch, 0, motion(MotionAction::Down, 0, vec![finger(1, 10.0, 20.0)])),
        vec![down(MouseButton::Left, here, 1, 1.0)]
    );
    assert_eq!(
        send(&mut touch, MILLI, motion(MotionAction::Move, 0, vec![finger(1, 15.0, 20.0)])),
        vec![]
    );
    assert_eq!(
        send(&mut touch, 2 * MILLI, motion(MotionAction::Up, 0, vec![finger(1, 10.0, 20.0)])),
        vec![up(MouseButton::Left, here, 1), moved(outside(), None, 0.0)]
    );
}

#[test]
fn quick_taps_in_one_place_count_up() {
    let mut touch = AndroidTouch::new();
    let mut counts = Vec::new();
    for (now, x) in [(0, 0.0), (300, 10.0), (600, 0.0), (1000, 0.0), (1100, 30.0)] {
        let out = send(
            &mut touch,
            now * MILLI,
            motion(MotionAction::Down, 0, vec![finger(1, x, 0.0)]),
        );
        if let PlatformInput::MouseDown(event) = &out[0] {
            counts.push(event.click_count);
        }
        send(
            &mut touch,
            (now + 10) * MILLI,
            motion(MotionAction::Up, 0, vec![finger(1, x, 0.0)]),
        );
    }
    assert_eq!(counts, vec![1, 2, 3, 1, 1]);
}

#[test]
fn a_drag_scrolls_and_flings() {
    let mut touch = AndroidTouch::new();
    let start = at(0.0, 0.0);
    send(&mut touch, 0, motion(MotionAction::Down, 0, vec![finger(1, 0.0, 0.0)]));
    let first = at(0.0, 8.0);
    assert_eq!(
        send(&mut touch, 10 * MILLI, motion(MotionAction::Move, 0, vec![finger(1, 0.0, 8.0)])),
        vec![
            up(MouseButton::Left, outside(), 1),
            scroll(first, ScrollDelta::Between { from: start, to: first }, TouchPhase::Started),
        ]
    );
    let second = at(0.0, 20.0);
    assert_eq!(
        send(&mut touch, 20 * MILLI, motion(MotionAction::Move, 0, vec![finger(1, 0.0, 20.0)])),
        vec![scroll(second, ScrollDelta::Between { from: first, to: second }, TouchPhase::Moved)]
    );
    let velocity = at(0.0, 900.0);
    assert_eq!(
        send_flung(
            &mut touch,
            30 * MILLI,
            motion(MotionAction::Up, 0, vec![finger(1, 0.0, 20.0)]),
            velocity
        ),
        vec![still(second, TouchPhase::Ended)]
    );
    let mut out = Vec::new();
    touch.tick_momentum(46 * MILLI, at(0.0, 500.0), &mut out);
    assert_eq!(
        out,
        vec![scroll(
            second,
            ScrollDelta::Coast { velocity, nanos: 16 * MILLI },
            TouchPhase::Moved
        )]
    );
    out.clear();
    touch.tick_momentum(62 * MILLI, at(0.0, 10.0), &mut out);
    assert_eq!(
        out,
        vec![
            scroll(
                second,
                ScrollDelta::Coast { velocity: at(0.0, 500.0), nanos: 16 * MILLI },
                TouchPhase::Ended
            ),
            moved(outside(), None, 0.0),
        ]
    );
    out.clear();
    touch.tick_momentum(78 * MILLI, origin(), &mut out);
    assert_eq!(out, vec![]);
}

#[test]
fn a_press_stops_momentum() {
    let mut touch = AndroidTouch::new();
    send(&mut touch, 0, motion(MotionAction::Down, 0, vec![finger(1, 0.0, 0.0)]));
    send(&mut touch, MILLI, motion(MotionAction::Move, 0, vec![finger(1, 0.0, 30.0)]));
    let up = motion(MotionAction::Up, 0, vec![finger(1, 0.0, 40.0)]);
    send_flung(&mut touch, 2 * MILLI, up, at(0.0, 700.0));
    assert!(touch.touch.momentum.is_some());
    send(&mut touch, 3 * MILLI, motion(MotionAction::Down, 0, vec![finger(2, 0.0, 0.0)]));
    assert!(touch.touch.momentum.is_none());
}

#[test]
fn a_swipe_without_a_move_scrolls() {
    let mut touch = AndroidTouch::new();
    send(&mut touch, 0, motion(MotionAction::Down, 0, vec![finger(1, 0.0, 0.0)]));
    let end = at(50.0, 0.0);
    assert_eq!(
        send(&mut touch, MILLI, motion(MotionAction::Up, 0, vec![finger(1, 50.0, 0.0)])),
        vec![
            up(MouseButton::Left, outside(), 1),
            scroll(end, ScrollDelta::Between { from: origin(), to: end }, TouchPhase::Started),
            still(end, TouchPhase::Ended),
            moved(outside(), None, 0.0),
        ]
    );
}

#[test]
fn a_still_finger_is_a_right_click() {
    let mut touch = AndroidTouch::new();
    let here = at(5.0, 5.0);
    send(&mut touch, 0, motion(MotionAction::Down, 0, vec![finger(1, 5.0, 5.0)]));
    let mut out = Vec::new();
    touch.tick_touch_timers(499 * MILLI, f(0.0), origin(), &mut out);
    assert_eq!(out, vec![]);
    touch.tick_touch_timers(500 * MILLI, f(0.0), origin(), &mut out);
    assert_eq!(
        out,
        vec![
            up(MouseButton::Left, outside(), 1),
            down(MouseButton::Right, here, 1, 1.0),
            up(MouseButton::Right, here, 1),
        ]
    );
    out.clear();
    touch.tick_touch_timers(900 * MILLI, f(0.0), origin(), &mut out);
    assert_eq!(out, vec![]);
    assert_eq!(
        send(&mut touch, 950 * MILLI, motion(MotionAction::Up, 0, vec![finger(1, 5.0, 5.0)])),
        vec![moved(outside(), None, 0.0)]
    );
}

#[test]
fn a_long_press_that_moves_drags() {
    let mut touch = AndroidTouch::new();
    send(&mut touch, 0, motion(MotionAction::Down, 0, vec![finger(1, 0.0, 0.0)]));
    let mut out = Vec::new();
    touch.tick_long_press(500 * MILLI, f(2.0), &mut out);
    assert_eq!(
        send(&mut touch, 600 * MILLI, motion(MotionAction::Move, 0, vec![finger(1, 9.0, 0.0)])),
        vec![
            down(MouseButton::Left, origin(), 1, 1.0),
            moved(at(9.0, 0.0), Some(MouseButton::Left), 1.0),
        ]
    );
    assert_eq!(
        send(&mut touch, 700 * MILLI, motion(MotionAction::Up, 0, vec![finger(1, 9.0, 0.0)])),
        vec![up(MouseButton::Left, at(9.0, 0.0), 1), moved(outside(), None, 0.0)]
    );
}

#[test]
fn two_fingers_scroll_and_pinch_together() {
    let mut touch = AndroidTouch::new();
    send(&mut touch, 0, motion(MotionAction::Down, 0, vec![finger(1, 0.0, 0.0)]));
    let both = vec![finger(1, 0.0, 0.0), finger(2, 20.0, 0.0)];
    let middle = at(10.0, 0.0);
    assert_eq!(
        send(&mut touch, MILLI, motion(MotionAction::PointerDown, 1, both)),
        vec![
            up(MouseButton::Left, outside(), 1),
            still(middle, TouchPhase::Started),
            pinch(middle, PinchDelta::Unchanged, TouchPhase::Started),
        ]
    );
    let spread = vec![finger(1, 0.0, 0.0), finger(2, 40.0, 0.0)];
    let next = at(20.0, 0.0);
    assert_eq!(
        send(&mut touch, 2 * MILLI, motion(MotionAction::Move, 0, spread.clone())),
        vec![
            scroll(next, ScrollDelta::Between { from: middle, to: next }, TouchPhase::Moved),
            pinch(
                next,
                PinchDelta::Ratio { now: f(40.0), before: f(20.0) },
                TouchPhase::Moved
            ),
        ]
    );
    assert_eq!(
        touch.two_finger,
        Some(TwoFingerGesture {
            pointer_id: 2,
            last_centroid: next,
            last_distance: f(40.0),
        })
    );
    assert_eq!(
        send(&mut touch, 3 * MILLI, motion(MotionAction::PointerUp, 0, spread)),
        vec![
            still(next, TouchPhase::Ended),
            pinch(next, PinchDelta::Unchanged, TouchPhase::Ended),
        ]
    );
    assert_eq!(
        send(&mut touch, 4 * MILLI, motion(MotionAction::Move, 0, vec![finger(2, 90.0, 0.0)])),
        vec![]
    );
    assert_eq!(
        send(&mut touch, 5 * MILLI, motion(MotionAction::Up, 0, vec![finger(2, 90.0, 0.0)])),
        vec![moved(outside(), None, 0.0)]
    );
}

#[test]
fn fingers_on_one_spot_are_one_point_apart() {
    let mut touch = AndroidTouch::new();
    send(&mut touch, 0, motion(MotionAction::Down, 0, vec![finger(1, 5.0, 5.0)]));
    let both = vec![finger(1, 5.0, 5.0), finger(2, 5.0, 5.0)];
    send(&mut touch, MILLI, motion(MotionAction::PointerDown, 1, both));
    assert_eq!(touch.two_finger.map(|gesture| gesture.last_distance), Some(f(1.0)));
}

#[test]
fn a_claimed_finger_drags_until_a_second_one_lands() {
    let mut touch = AndroidTouch::new();
    send(&mut touch, 0, motion(MotionAction::Down, 0, vec![finger(1, 0.0, 0.0)]));
    touch.touch.claim_touch_drag();
    assert_eq!(
        send(&mut touch, MILLI, motion(MotionAction::Move, 0, vec![finger(1, 30.0, 0.0)])),
        vec![moved(at(30.0, 0.0), Some(MouseButton::Left), 1.0)]
    );
    let both = vec![finger(1, 30.0, 0.0), finger(2, 50.0, 0.0)];
    let out = send(&mut touch, 2 * MILLI, motion(MotionAction::PointerDown, 1, both));
    assert_eq!(out[0], up(MouseButton::Left, at(30.0, 0.0), 1));
}

#[test]
fn a_stylus_draws_with_pressure() {
    let mut touch = AndroidTouch::new();
    let stylus = |x: f32, pressure: f32| Pointer {
        tool: ToolType::Stylus,
        pressure: f(pressure),
        ..finger(1, x, 0.0)
    };
    assert_eq!(
        send(&mut touch, 0, motion(MotionAction::Down, 0, vec![stylus(0.0, 0.25)])),
        vec![down(MouseButton::Left, origin(), 1, 0.25)]
    );
    assert_eq!(
        send(&mut touch, MILLI, motion(MotionAction::Move, 0, vec![stylus(50.0, 1.5)])),
        vec![moved(at(50.0, 0.0), Some(MouseButton::Left), 1.0)]
    );
    let mut side = motion(MotionAction::Down, 0, vec![stylus(0.0, 0.5)]);
    side.button_state = 0x20;
    assert_eq!(
        send(&mut AndroidTouch::new(), 0, side),
        vec![down(MouseButton::Right, origin(), 1, 0.5)]
    );
}

#[test]
fn a_mouse_is_a_mouse() {
    let mut touch = AndroidTouch::new();
    let mouse = |x: f32| Pointer { tool: ToolType::Mouse, ..finger(0, x, 0.0) };
    assert_eq!(
        send(&mut touch, 0, motion(MotionAction::HoverMove, 0, vec![mouse(3.0)])),
        vec![moved(at(3.0, 0.0), None, 1.0)]
    );
    let mut press = motion(MotionAction::Down, 0, vec![mouse(3.0)]);
    press.button_state = 4;
    assert_eq!(
        send(&mut touch, MILLI, press),
        vec![down(MouseButton::Middle, at(3.0, 0.0), 1, 1.0)]
    );
    assert_eq!(
        send(&mut touch, 2 * MILLI, motion(MotionAction::Move, 0, vec![mouse(90.0)])),
        vec![moved(at(90.0, 0.0), Some(MouseButton::Middle), 1.0)]
    );
    assert_eq!(
        send(&mut touch, 3 * MILLI, motion(MotionAction::Up, 0, vec![mouse(90.0)])),
        vec![up(MouseButton::Middle, at(90.0, 0.0), 1)]
    );
    let wheel = Pointer { wheel: at(0.0, -1.0), ..mouse(90.0) };
    assert_eq!(
        send(&mut touch, 4 * MILLI, motion(MotionAction::Scroll, 0, vec![wheel])),
        vec![scroll(at(90.0, 0.0), ScrollDelta::Lines(at(0.0, -1.0)), TouchPhase::Moved)]
    );
    assert_eq!(
        send(&mut touch, 5 * MILLI, motion(MotionAction::HoverExit, 0, vec![mouse(90.0)])),
        vec![PlatformInput::MouseExited(MouseExitEvent {
            position: at(90.0, 0.0),
            pressed_button: None,
            modifiers: no_modifiers(),
        })]
    );
    let both = vec![mouse(90.0), mouse(91.0)];
    assert_eq!(send(&mut touch, 6 * MILLI, motion(MotionAction::PointerDown, 1, both)), vec![]);
}

#[test]
fn a_cancelled_touch_clicks_nothing() {
    let mut touch = AndroidTouch::new();
    send(&mut touch, 0, motion(MotionAction::Down, 0, vec![finger(1, 0.0, 0.0)]));
    assert_eq!(
        send(&mut touch, MILLI, motion(MotionAction::Cancel, 0, vec![finger(1, 0.0, 0.0)])),
        vec![up(MouseButton::Left, outside(), 1), moved(outside(), None, 0.0)]
    );
    assert!(touch.touch.primary.is_none());
}

#[test]
fn changed_modifiers_are_reported_once() {
    let mut touch = AndroidTouch::new();
    let shifted = |action: MotionAction| MotionEvent {
        meta_state: 1,
        ..motion(action, 0, vec![finger(1, 0.0, 0.0)])
    };
    let out = send(&mut touch, 0, shifted(MotionAction::HoverMove));
    assert_eq!(
        out[0],
        PlatformInput::ModifiersChanged(ModifiersChangedEvent {
            modifiers: Modifiers { shift: true, ..no_modifiers() },
            capslock: Capslock { on: false },
        })
    );
    assert_eq!(out.len(), 2);
    assert_eq!(send(&mut touch, 1, shifted(MotionAction::HoverMove)).len(), 1);
}

#[test]
fn meta_states_are_modifiers() {
    assert_eq!(modifiers_from_meta_state(0), no_modifiers());
    assert!(modifiers_from_meta_state(0x1).shift);
    assert!(modifiers_from_meta_state(0x2).alt);
    assert!(modifiers_from_meta_state(0x8).function);
    assert!(modifiers_from_meta_state(0x1000).control);
    assert!(modifiers_from_meta_state(0x1_0000).platform);
    assert!(capslock_from_meta_state(0x10_0000).on);
    assert!(is_modifier_key(59) && !is_modifier_key(29));
}

#[test]
fn android_keys_have_names() {
    assert_eq!(named_key(66), Some(("enter", Some("\n"))));
    assert_eq!(named_key(4), Some(("escape", None)));
    assert_eq!(named_key(62), Some(("space", Some(" "))));
    assert_eq!(named_key(142), Some(("f12", None)));
    assert_eq!(named_key(29), None);
}

#[test]
fn android_keystrokes_name_letters_unshifted_and_symbols_shifted() {
    let shift = Modifiers { shift: true, ..no_modifiers() };
    assert_eq!(
        keystroke_from_key_event(29, 1, Some('A'), Some('a')),
        Some(Keystroke {
            modifiers: shift,
            key: "a".to_string(),
            key_char: Some("A".to_string()),
        })
    );
    assert_eq!(
        keystroke_from_key_event(8, 1, Some('!'), Some('1')),
        Some(Keystroke {
            modifiers: no_modifiers(),
            key: "!".to_string(),
            key_char: Some("!".to_string()),
        })
    );
    let control = Modifiers { control: true, ..no_modifiers() };
    assert_eq!(
        keystroke_from_key_event(66, 0x1000, None, None),
        Some(Keystroke { modifiers: control, key: "enter".to_string(), key_char: None })
    );
    assert_eq!(keystroke_from_key_event(59, 1, None, None), None);
    assert_eq!(keystroke_from_key_event(24, 0, None, None), None);
}

#[test]
fn android_keys_type_what_nothing_took() {
    let mut touch = AndroidTouch::new();
    let mut out = Vec::new();
    let event = KeyEvent {
        action: KeyAction::Down,
        key_code: 29,
        meta_state: 0,
        repeat_count: 1,
        typed: Some('a'),
        unshifted: Some('a'),
    };
    let step = touch.handle_key(event, &mut out);
    let key_down = KeyDownEvent {
        keystroke: Keystroke {
            modifiers: no_modifiers(),
            key: "a".to_string(),
            key_char: Some("a".to_string()),
        },
        is_held: true,
    };
    assert_eq!(step, KeyStep::Dispatch(PlatformInput::KeyDown(key_down.clone())));
    assert_eq!(
        finish_key_down(key_down.clone(), false, true),
        KeyOutcome::Insert("a".to_string())
    );
    assert_eq!(
        finish_key_down(key_down.clone(), true, true),
        KeyOutcome::Done(InputStatus::Handled)
    );
    assert_eq!(
        finish_key_down(key_down, false, false),
        KeyOutcome::Done(InputStatus::Unhandled)
    );
    assert_eq!(finish_key_up(true), InputStatus::Handled);
    assert_eq!(finish_key_up(false), InputStatus::Unhandled);
    let modifier = KeyEvent { key_code: 59, ..event };
    assert_eq!(touch.handle_key(modifier, &mut out), KeyStep::Done(InputStatus::Handled));
    let volume = KeyEvent { key_code: 24, typed: None, unshifted: None, ..event };
    assert_eq!(touch.handle_key(volume, &mut out), KeyStep::Done(InputStatus::Unhandled));
    let other = KeyEvent { action: KeyAction::Other, ..event };
    assert_eq!(touch.handle_key(other, &mut out), KeyStep::Done(InputStatus::Unhandled));
    assert_eq!(out, vec![]);
}

#[test]
fn only_eight_positions_are_remembered() {
    let mut touch = AndroidTouch::new();
    send(&mut touch, 0, motion(MotionAction::Down, 0, vec![finger(1, 0.0, 0.0)]));
    for step in 1..30 {
        let event = motion(MotionAction::Move, 0, vec![finger(1, step as f32, 0.0)]);
        send(&mut touch, step * MILLI, event);
    }
    let primary = touch.touch.primary.as_ref().unwrap();
    assert_eq!(primary.samples.len(), 8);
    assert_eq!(primary.samples[0].at, 22 * MILLI);
    assert_eq!(primary.mode, TouchMode::Scroll);
    assert_eq!(primary.fling(29 * MILLI).map(|sample| sample.at), Some(22 * MILLI));
    assert_eq!(primary.fling(500 * MILLI), None);
}
