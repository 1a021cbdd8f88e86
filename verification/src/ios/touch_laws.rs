//! What each touch, gesture and press does to an iOS window.

use crate::float;
use crate::float::{scalar, Scalar};
use crate::geometry::Point;
use crate::input::{
    Capslock, Modifiers, ModifiersChangedEvent, MouseButton, MouseDownEvent, MouseExitEvent,
    MouseMoveEvent, MouseUpEvent, PinchDelta, PinchEvent, PlatformInput, ScrollDelta,
    ScrollWheelEvent, TouchPhase,
};
use crate::ios::events::UiKey;
use crate::ios::window;
use crate::ios::window::{IosTouchView, PressId, UiPress, UiTouch};
use crate::touch::step_laws;
use crate::touch::{Press, PrimaryView, TouchMode, TouchView};
use vstd::prelude::*;

verus! {

/// The pressure of a touch: a pencil's force kept between 0 and 1, and full pressure where
/// no force is known or a finger presses.
pub open spec fn pressure(touch: UiTouch) -> Scalar {
    if touch.kind == 2 && touch.force is Some {
        let force = touch.force->0;
        if force.is_nan() {
            force
        } else if force.units() < 0 {
            scalar(0)
        } else if force.units() > scalar(0x3f80_0000).units() {
            scalar(0x3f80_0000)
        } else {
            force
        }
    } else {
        scalar(0x3f80_0000)
    }
}

/// What a touch presses: a pointer and a pencil drag from the start, a finger is
/// undecided. Only a pointer has a right button, the second bit of the button mask.
pub proof fn law_press_of_a_touch(touch: UiTouch, button_mask: usize)
    ensures
        touch.press(button_mask) == (Press {
            id: touch.id,
            position: touch.position,
            button: if touch.kind == 3 && button_mask & 2 != 0 {
                MouseButton::Right
            } else {
                MouseButton::Left
            },
            mode: if touch.kind == 3 || touch.kind == 2 {
                TouchMode::Drag
            } else {
                TouchMode::Undecided
            },
            pointer: touch.kind == 3,
            pressure: pressure(touch),
        }),
{
    if touch.force is Some {
        float::laws::law_kept_in_the_unit(touch.force->0);
    }
    float::laws::law_small_numbers();
}

/// The first of the touches that begin presses, where no finger is down yet.
pub proof fn law_first_touch_presses(
    state: IosTouchView,
    now: u64,
    touches: Seq<UiTouch>,
    button_mask: usize,
)
    requires
        touches.len() > 0,
        state.touch.primary is None,
        state.touch.last_tap matches Some(tap) ==> tap.count < usize::MAX,
    ensures
        ({
            let touch = touches[0];
            let button = if touch.kind == 3 && button_mask & 2 != 0 {
                MouseButton::Right
            } else {
                MouseButton::Left
            };
            let count = match state.touch.last_tap {
                Some(tap) => if now < tap.at + 350_000_000 && step_laws::below_pixels(
                    touch.tap,
                    24,
                ) {
                    (tap.count + 1) as usize
                } else {
                    1
                },
                None => 1,
            };
            &&& state.began_events(now, touches, button_mask) == seq![
                PlatformInput::MouseDown(
                    MouseDownEvent {
                        button,
                        position: touch.position,
                        modifiers: state.touch.modifiers,
                        click_count: count,
                        first_mouse: false,
                        pressure: pressure(touch),
                        tilt: None,
                    },
                ),
            ]
            &&& state.began(now, touches, button_mask) == IosTouchView {
                touch: state.touch.pressed(
                    now,
                    Press {
                        id: touch.id,
                        position: touch.position,
                        button,
                        mode: if touch.kind == 3 || touch.kind == 2 {
                            TouchMode::Drag
                        } else {
                            TouchMode::Undecided
                        },
                        pointer: touch.kind == 3,
                        pressure: pressure(touch),
                    },
                    touch.tap,
                ),
                pinch_last_scale: state.pinch_last_scale,
                last_press: state.last_press,
            }
        }),
{
    law_press_of_a_touch(touches[0], button_mask);
    step_laws::law_press_step(state.touch, now, touches[0].press(button_mask), touches[0].tap);
}

/// Further touches do nothing while a finger is down.
pub proof fn law_further_touches_do_nothing(
    state: IosTouchView,
    now: u64,
    touches: Seq<UiTouch>,
    button_mask: usize,
)
    requires
        touches.len() == 0 || state.touch.primary is Some,
    ensures
        state.began_events(now, touches, button_mask) == Seq::<PlatformInput>::empty(),
        state.began(now, touches, button_mask) == state,
{
}

/// Of the touches that move only the primary finger counts.
pub proof fn law_primary_touch_moves(
    state: IosTouchView,
    now: u64,
    touches: Seq<UiTouch>,
    index: int,
)
    requires
        state.touch.primary is Some,
        0 <= index < touches.len(),
        touches[index].id == state.touch.primary->0.id,
        forall|k: int|
            0 <= k < touches.len() && k != index ==> (#[trigger] touches[k]).id
                != state.touch.primary->0.id,
    ensures
        ({
            let touch = touches[index];
            &&& state.moved_by_events(now, touches) == state.touch.move_events(
                touch.position,
                pressure(touch),
                touch.travel,
            )
            &&& state.moved_by(now, touches) == IosTouchView {
                touch: state.touch.moved(now, touch.position, touch.travel),
                pinch_last_scale: state.pinch_last_scale,
                last_press: state.last_press,
            }
        }),
    decreases touches.len(),
{
    let rest = touches.drop_last();
    assert(touches.last() == touches[touches.len() - 1]);
    assert forall|k: int| 0 <= k < rest.len() && k != index implies (#[trigger] rest[k]).id
        != state.touch.primary->0.id by {
        assert(rest[k] == touches[k]);
    }
    law_press_of_a_touch(touches[index], 0);
    if index == touches.len() - 1 {
        law_other_touches_do_not_move(state, now, rest);
    } else {
        assert(rest[index] == touches[index]);
        law_primary_touch_moves(state, now, rest, index);
        assert(state.moved_by(now, rest).touch.primary->0.id == state.touch.primary->0.id);
    }
}

/// Touches that are not the primary one do nothing as they move.
pub proof fn law_other_touches_do_not_move(state: IosTouchView, now: u64, touches: Seq<UiTouch>)
    requires
        state.touch.primary is None || forall|k: int|
            0 <= k < touches.len() ==> (#[trigger] touches[k]).id != state.touch.primary->0.id,
    ensures
        state.moved_by_events(now, touches) == Seq::<PlatformInput>::empty(),
        state.moved_by(now, touches) == state,
    decreases touches.len(),
{
    if touches.len() > 0 {
        let rest = touches.drop_last();
        assert(touches.last() == touches[touches.len() - 1]);
        if state.touch.primary is Some {
            assert forall|k: int| 0 <= k < rest.len() implies (#[trigger] rest[k]).id
                != state.touch.primary->0.id by {
                assert(rest[k] == touches[k]);
            }
        }
        law_other_touches_do_not_move(state, now, rest);
    }
}

/// The touch that lifts the primary finger is the first with its id.
pub proof fn law_lifting_touch_is_found(state: IosTouchView, touches: Seq<UiTouch>, index: int)
    requires
        state.touch.primary is Some,
        0 <= index < touches.len(),
        touches[index].id == state.touch.primary->0.id,
        forall|k: int|
            0 <= k < index ==> (#[trigger] touches[k]).id != state.touch.primary->0.id,
    ensures
        state.lifting(touches) == Some(touches[index]),
    decreases touches.len(),
{
    if index > 0 {
        let rest = touches.drop_first();
        assert(touches[0].id != state.touch.primary->0.id);
        assert(rest[index - 1] == touches[index]);
        assert forall|k: int| 0 <= k < index - 1 implies (#[trigger] rest[k]).id
            != state.touch.primary->0.id by {
            assert(rest[k] == touches[k + 1]);
        }
        law_lifting_touch_is_found(state, rest, index - 1);
    }
}

/// Touches that are not the primary one, and touches without one, lift unnoticed.
pub proof fn law_other_touches_lift_unnoticed(
    state: IosTouchView,
    now: u64,
    touches: Seq<UiTouch>,
    cancelled: bool,
)
    requires
        state.touch.primary is None || forall|k: int|
            0 <= k < touches.len() ==> (#[trigger] touches[k]).id != state.touch.primary->0.id,
    ensures
        state.lifted_events(touches, cancelled) == Seq::<PlatformInput>::empty(),
        state.lifted(now, touches, cancelled) == state,
    decreases touches.len(),
{
    if state.touch.primary is Some && touches.len() > 0 {
        let rest = touches.drop_first();
        assert(touches[0].id != state.touch.primary->0.id);
        assert forall|k: int| 0 <= k < rest.len() implies (#[trigger] rest[k]).id
            != state.touch.primary->0.id by {
            assert(rest[k] == touches[k + 1]);
        }
        law_other_touches_lift_unnoticed(state, now, rest, cancelled);
    }
}

/// A release of a button.
pub open spec fn releases(
    button: MouseButton,
    position: Point,
    modifiers: Modifiers,
    click_count: usize,
) -> PlatformInput {
    PlatformInput::MouseUp(
        MouseUpEvent {
            button,
            position,
            modifiers,
            click_count,
            pressure: scalar(0x3f80_0000),
            tilt: None,
        },
    )
}

/// What the primary finger sends as it lifts, and what stays of it. A tap and a drag are
/// released with the count of the last tap, a press that the system takes away far outside
/// the window, and a scroll ends and may coast on. Only a tap is counted on from.
pub proof fn law_lift_step(
    state: IosTouchView,
    primary: PrimaryView,
    lift: UiTouch,
    now: u64,
    touches: Seq<UiTouch>,
    cancelled: bool,
)
    requires
        state.touch.primary == Some(primary),
        state.lifting(touches) == Some(lift),
    ensures
        ({
            let modifiers = state.touch.modifiers;
            let count = match state.touch.last_tap {
                Some(tap) => tap.count,
                None => 1,
            };
            let far = Point { x: scalar(0xc7c3_5000), y: scalar(0xc7c3_5000) };
            let events = state.lifted_events(touches, cancelled);
            let after = state.lifted(now, touches, cancelled);
            let up = TouchView { primary: None, mouse_position: lift.position, ..state.touch };
            let forgotten = TouchView { last_tap: None, ..up };
            &&& after.pinch_last_scale == state.pinch_last_scale
            &&& after.last_press == state.last_press
            &&& primary.mode == TouchMode::Undecided ==> after.touch == up && events == seq![
                if cancelled {
                    releases(primary.button, far, modifiers, 1)
                } else {
                    releases(primary.button, lift.position, modifiers, count)
                },
            ]
            &&& primary.mode == TouchMode::Drag ==> after.touch == forgotten && events == seq![
                releases(primary.button, lift.position, modifiers, count),
            ]
            &&& primary.mode == TouchMode::Scroll ==> events == seq![
                PlatformInput::ScrollWheel(
                    ScrollWheelEvent {
                        position: lift.position,
                        delta: ScrollDelta::Pixels(Point { x: scalar(0), y: scalar(0) }),
                        modifiers,
                        touch_phase: TouchPhase::Ended,
                    },
                ),
            ]
            &&& primary.mode == TouchMode::Scroll && cancelled ==> after.touch == forgotten
            &&& primary.mode == TouchMode::Scroll && !cancelled ==> after.touch == forgotten.flung(
                primary,
                now,
                lift.position,
                modifiers,
                lift.velocity,
            )
            &&& primary.mode == TouchMode::LongPressed || primary.mode == TouchMode::Cancelled
                ==> after.touch == forgotten && events == Seq::<PlatformInput>::empty()
        }),
{
}

/// The phases of a recognizer: it begins, changes, and ends or is cancelled.
pub proof fn law_gesture_phases(gesture_state: isize)
    ensures
        window::gesture_phase(1) == Some(TouchPhase::Started),
        window::gesture_phase(2) == Some(TouchPhase::Moved),
        window::gesture_phase(3) == Some(TouchPhase::Ended),
        window::gesture_phase(4) == Some(TouchPhase::Ended),
        gesture_state < 1 || 4 < gesture_state ==> window::gesture_phase(gesture_state) is None,
{
}

/// A pinch that begins takes the finger over and changes no scale; one that changes
/// scales by the new scale over the one before, whether it grew or shrank; one that ends
/// changes no scale. Every step remembers its scale.
pub proof fn law_pinch_step(
    state: IosTouchView,
    gesture_state: isize,
    scale: Scalar,
    position: Point,
)
    ensures
        ({
            let events = state.pinch_events(gesture_state, scale, position);
            let after = state.pinched(gesture_state, scale);
            let still = PinchEvent {
                position,
                delta: PinchDelta::Unchanged,
                scale: scalar(0x3f80_0000),
                modifiers: state.touch.modifiers,
                phase: TouchPhase::Ended,
            };
            let before = state.pinch_last_scale;
            &&& gesture_state == 1 ==> {
                &&& events == state.touch.takeover_events().push(
                    PlatformInput::Pinch(PinchEvent { phase: TouchPhase::Started, ..still }),
                )
                &&& after == IosTouchView {
                    touch: state.touch.taken_over(),
                    pinch_last_scale: scale,
                    last_press: state.last_press,
                }
            }
            &&& gesture_state == 2 && !before.is_nan() && 0 < before.units() ==> events == seq![
                PlatformInput::Pinch(
                    PinchEvent {
                        delta: PinchDelta::Ratio { now: scale, before },
                        phase: TouchPhase::Moved,
                        ..still
                    },
                ),
            ]
            &&& gesture_state == 2 && (before.is_nan() || before.units() <= 0) ==> events == seq![
                PlatformInput::Pinch(PinchEvent { phase: TouchPhase::Moved, ..still }),
            ]
            &&& gesture_state == 3 || gesture_state == 4 ==> events == seq![
                PlatformInput::Pinch(still),
            ]
            &&& 2 <= gesture_state <= 4 ==> after == IosTouchView {
                touch: state.touch,
                pinch_last_scale: scale,
                last_press: state.last_press,
            }
            &&& gesture_state < 1 || 4 < gesture_state ==> after == state && events == Seq::<
                PlatformInput,
            >::empty()
        }),
{
    float::laws::law_magnitudes_step_up(0);
}

/// A long press that begins on an undecided finger takes its press back far outside the
/// window. Where the edit menu was shown the finger is ignored from then on, else a right
/// click follows where the press is. Anything else does nothing.
pub proof fn law_long_press(
    state: IosTouchView,
    gesture_state: isize,
    position: Point,
    edit_menu_shown: bool,
)
    ensures
        ({
            let long = gesture_state == 1 && state.touch.primary is Some
                && state.touch.primary->0.mode == TouchMode::Undecided;
            let primary = state.touch.primary->0;
            let modifiers = state.touch.modifiers;
            let far = Point { x: scalar(0xc7c3_5000), y: scalar(0xc7c3_5000) };
            let events = state.long_press_events(gesture_state, position, edit_menu_shown);
            let after = state.long_pressed(gesture_state, edit_menu_shown);
            &&& state.is_long_press(gesture_state) <==> long
            &&& long && edit_menu_shown ==> events == seq![
                releases(primary.button, far, modifiers, 1),
            ]
            &&& long && !edit_menu_shown ==> events == seq![
                releases(primary.button, far, modifiers, 1),
                PlatformInput::MouseDown(
                    MouseDownEvent {
                        button: MouseButton::Right,
                        position,
                        modifiers,
                        click_count: 1,
                        first_mouse: false,
                        pressure: scalar(0x3f80_0000),
                        tilt: None,
                    },
                ),
                releases(MouseButton::Right, position, modifiers, 1),
            ]
            &&& long ==> after == IosTouchView {
                touch: TouchView {
                    primary: Some(
                        PrimaryView {
                            mode: if edit_menu_shown {
                                TouchMode::Cancelled
                            } else {
                                TouchMode::LongPressed
                            },
                            ..primary
                        },
                    ),
                    ..state.touch
                },
                ..state
            }
            &&& !long ==> events == Seq::<PlatformInput>::empty() && after == state
        }),
{
}

/// A pointer that scrolls scrolls by its translation, phase by phase, and stops any
/// coasting; two fingers that pan scroll the same way and, as they begin, take the first
/// finger over.
pub proof fn law_scroll_steps(
    state: IosTouchView,
    gesture_state: isize,
    position: Point,
    translation: Point,
)
    ensures
        ({
            let scrolled = PlatformInput::ScrollWheel(
                ScrollWheelEvent {
                    position,
                    delta: ScrollDelta::Pixels(translation),
                    modifiers: state.touch.modifiers,
                    touch_phase: if gesture_state == 1 {
                        TouchPhase::Started
                    } else if gesture_state == 2 {
                        TouchPhase::Moved
                    } else {
                        TouchPhase::Ended
                    },
                },
            );
            &&& 1 <= gesture_state <= 4 ==> {
                &&& state.pointer_scroll_events(gesture_state, position, translation) == seq![
                    scrolled,
                ]
                &&& state.pointer_scrolled(gesture_state, position) == IosTouchView {
                    touch: TouchView { momentum: None, mouse_position: position, ..state.touch },
                    ..state
                }
            }
            &&& gesture_state == 1 ==> {
                &&& state.pan_events(gesture_state, position, translation)
                    == state.touch.takeover_events().push(scrolled)
                &&& state.panned(gesture_state, position) == IosTouchView {
                    touch: TouchView { mouse_position: position, ..state.touch.taken_over() },
                    ..state
                }
            }
            &&& 2 <= gesture_state <= 4 ==> {
                &&& state.pan_events(gesture_state, position, translation) == seq![scrolled]
                &&& state.panned(gesture_state, position) == IosTouchView {
                    touch: TouchView { mouse_position: position, ..state.touch },
                    ..state
                }
            }
            &&& gesture_state < 1 || 4 < gesture_state ==> {
                &&& state.pointer_scroll_events(gesture_state, position, translation) == Seq::<
                    PlatformInput,
                >::empty()
                &&& state.pointer_scrolled(gesture_state, position) == state
                &&& state.pan_events(gesture_state, position, translation) == Seq::<
                    PlatformInput,
                >::empty()
                &&& state.panned(gesture_state, position) == state
            }
        }),
{
}

/// A pointer that hovers moves the mouse, unless it drags, which reports itself; one that
/// stops exits the window, with the button that it drags.
pub proof fn law_hover_step(state: IosTouchView, gesture_state: isize, position: Point)
    ensures
        ({
            let drags = state.touch.primary is Some && state.touch.primary->0.mode
                == TouchMode::Drag;
            let modifiers = state.touch.modifiers;
            let events = state.hover_events(gesture_state, position);
            &&& (gesture_state == 1 || gesture_state == 2) && !drags ==> events == seq![
                PlatformInput::MouseMove(
                    MouseMoveEvent {
                        position,
                        pressed_button: None,
                        modifiers,
                        pressure: scalar(0x3f80_0000),
                        tilt: None,
                    },
                ),
            ]
            &&& (gesture_state == 1 || gesture_state == 2) && drags ==> events == Seq::<
                PlatformInput,
            >::empty()
            &&& gesture_state == 3 || gesture_state == 4 ==> events == seq![
                PlatformInput::MouseExited(
                    MouseExitEvent {
                        position,
                        pressed_button: if drags {
                            Some(state.touch.primary->0.button)
                        } else {
                            None
                        },
                        modifiers,
                    },
                ),
            ]
            &&& gesture_state < 1 || 4 < gesture_state ==> events == Seq::<PlatformInput>::empty()
        }),
{
}

/// Flags bring the modifiers up to date: a change is reported, and changes nothing else.
pub proof fn law_flags_are_followed(state: IosTouchView, flags: usize)
    ensures
        ({
            let modifiers = Modifiers {
                control: flags & 0x4_0000 != 0,
                alt: flags & 0x8_0000 != 0,
                shift: flags & 0x2_0000 != 0,
                platform: flags & 0x10_0000 != 0,
                function: false,
            };
            let capslock = Capslock { on: flags & 0x1_0000 != 0 };
            &&& state.with_flags(flags) == IosTouchView {
                touch: TouchView { modifiers, capslock, ..state.touch },
                ..state
            }
            &&& state.touch.modifiers != modifiers || state.touch.capslock != capslock
                ==> state.flag_events(flags) == seq![
                PlatformInput::ModifiersChanged(ModifiersChangedEvent { modifiers, capslock }),
            ]
            &&& state.touch.modifiers == modifiers && state.touch.capslock == capslock
                ==> state.flag_events(flags) == Seq::<PlatformInput>::empty()
        }),
{
}

/// The flag that a modifier key takes with it when it is released: the left and the right
/// control, shift, alt and command keys, usage by usage.
pub proof fn law_released_flags(key: UiKey)
    ensures
        ({
            let after = IosTouchView::flags_after(key);
            &&& key.key_code == 0xE0 || key.key_code == 0xE4 ==> after == key.flags & !0x4_0000usize
            &&& key.key_code == 0xE1 || key.key_code == 0xE5 ==> after == key.flags & !0x2_0000usize
            &&& key.key_code == 0xE2 || key.key_code == 0xE6 ==> after == key.flags & !0x8_0000usize
            &&& key.key_code == 0xE3 || key.key_code == 0xE7 ==> after == key.flags
                & !0x10_0000usize
            &&& key.key_code < 0xE0 || 0xE7 < key.key_code ==> after == key.flags
        }),
{
}

/// A press is a second copy of the last one where its id is the same and its time is the
/// same number: the bits are the same and those of a number, or both are a zero.
pub proof fn law_second_copies(press: PressId, last: PressId)
    ensures
        ({
            let size = press.timestamp as int % 0x8000_0000_0000_0000;
            let zeros = size == 0 && last.timestamp as int % 0x8000_0000_0000_0000 == 0;
            press.repeats(last) <==> press.id == last.id && (zeros || (press.timestamp
                == last.timestamp && size <= 0x7ff0_0000_0000_0000))
        }),
{
}

/// A key press is new where it is no second copy of the last one.
pub proof fn law_new_keys(state: IosTouchView, press: UiPress)
    ensures
        state.is_new_key(press) <==> press.key is Some && !press.press.repeats(state.last_press),
{
}

} // verus!
