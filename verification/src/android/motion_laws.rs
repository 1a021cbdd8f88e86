//! What each motion event and each timer does to an Android window.

use crate::android::events;
use crate::android::key_laws;
use crate::android::window;
use crate::android::window::{
    AndroidTouchView, InputStatus, KeyAction, KeyEvent, KeyStep, Measures, MotionAction,
    MotionEvent, Pointer, ToolType,
};
use crate::float;
use crate::float::{scalar, Scalar};
use crate::geometry::Point;
use crate::input::{
    Capslock, Modifiers, ModifiersChangedEvent, MouseButton, MouseDownEvent, MouseExitEvent,
    MouseMoveEvent, MouseUpEvent, PlatformInput, ScrollDelta, ScrollWheelEvent, TouchPhase,
};
use crate::touch::step_laws;
use crate::touch::{Press, PrimaryView, TouchMode, TouchView};
use vstd::prelude::*;

verus! {

/// The pressure of a pointer: that of a pen or an eraser is its own, kept between 0 and
/// 1, and everything else presses in full.
pub open spec fn pressure(pointer: Pointer) -> Scalar {
    if pointer.tool == ToolType::Stylus || pointer.tool == ToolType::Eraser {
        if pointer.pressure.is_nan() {
            pointer.pressure
        } else if pointer.pressure.units() < 0 {
            scalar(0)
        } else if pointer.pressure.units() > scalar(0x3f80_0000).units() {
            scalar(0x3f80_0000)
        } else {
            pointer.pressure
        }
    } else {
        scalar(0x3f80_0000)
    }
}

/// Every pointer presses with that pressure.
pub proof fn law_pressure(pointer: Pointer)
    ensures
        window::pressure_of(pointer) == pressure(pointer),
{
    float::laws::law_kept_in_the_unit(pointer.pressure);
    float::laws::law_small_numbers();
}

/// The button that a press presses. The first button of a pen is the right one for every
/// tool. A mouse has a secondary and a tertiary button, which are the right and the middle
/// one; the second button of a pen is the right one too. Everything else is the left one.
pub proof fn law_pressed_button(event: MotionEvent)
    requires
        event.index < event.pointers@.len(),
    ensures
        ({
            let mouse = event.pointers@[event.index as int].tool == ToolType::Mouse
                || event.mouse_source;
            let state = event.button_state;
            &&& state & 0x20 != 0 ==> event.button() == MouseButton::Right
            &&& state & 0x20 == 0 && mouse && state & 0x2 != 0 ==> event.button()
                == MouseButton::Right
            &&& state & 0x20 == 0 && mouse && state & 0x2 == 0 && state & 0x4 != 0
                ==> event.button() == MouseButton::Middle
            &&& state & 0x20 == 0 && mouse && state & 0x2 == 0 && state & 0x4 == 0
                ==> event.button() == MouseButton::Left
            &&& state & 0x20 == 0 && !mouse && state & 0x40 != 0 ==> event.button()
                == MouseButton::Right
            &&& state & 0x20 == 0 && !mouse && state & 0x40 == 0 ==> event.button()
                == MouseButton::Left
        }),
{
}

/// A first pointer that lands presses where it landed: a mouse and a pen drag from the
/// start, a finger is undecided. A gesture that was under way is forgotten.
pub proof fn law_first_pointer_presses(
    state: AndroidTouchView,
    now: u64,
    event: MotionEvent,
    measures: Measures,
)
    requires
        event.action == MotionAction::Down,
        event.index < event.pointers@.len(),
        state.touch.last_tap matches Some(tap) ==> tap.count < usize::MAX,
    ensures
        ({
            let pointer = event.pointers@[event.index as int];
            let mouse = pointer.tool == ToolType::Mouse || event.mouse_source;
            let pen = pointer.tool == ToolType::Stylus || pointer.tool == ToolType::Eraser;
            let press = Press {
                id: pointer.id as i64,
                position: pointer.position,
                button: event.button(),
                mode: if mouse || pen {
                    TouchMode::Drag
                } else {
                    TouchMode::Undecided
                },
                pointer: mouse,
                pressure: pressure(pointer),
            };
            let count = match state.touch.last_tap {
                Some(tap) => if now < tap.at + 350_000_000 && step_laws::below_pixels(
                    measures.tap,
                    24,
                ) {
                    (tap.count + 1) as usize
                } else {
                    1
                },
                None => 1,
            };
            &&& state.action_events(now, event, measures) == seq![
                PlatformInput::MouseDown(
                    MouseDownEvent {
                        button: event.button(),
                        position: pointer.position,
                        modifiers: state.touch.modifiers,
                        click_count: count,
                        first_mouse: false,
                        pressure: pressure(pointer),
                        tilt: None,
                    },
                ),
            ]
            &&& state.acted(now, event, measures) == AndroidTouchView {
                touch: state.touch.pressed(now, press, measures.tap),
                two_finger: None,
            }
        }),
{
    law_pressure(event.pointers@[event.index as int]);
    step_laws::law_press_step(state.touch, now, event.press(), measures.tap);
}

/// A move of one finger moves the primary pointer, wherever it stands among the pointers,
/// and no other.
pub proof fn law_one_finger_moves(
    state: AndroidTouchView,
    now: u64,
    event: MotionEvent,
    measures: Measures,
    index: int,
)
    requires
        event.action == MotionAction::Move,
        state.two_finger is None,
        state.touch.primary is Some,
        0 <= index < event.pointers@.len(),
        event.pointers@[index].id == state.touch.primary->0.id,
        forall|k: int|
            0 <= k < event.pointers@.len() && k != index ==> (#[trigger] event.pointers@[k]).id
                != state.touch.primary->0.id,
    ensures
        ({
            let pointer = event.pointers@[index];
            let travel = measures.travel@[index];
            &&& state.action_events(now, event, measures) == state.touch.move_events(
                pointer.position,
                pressure(pointer),
                travel,
            )
            &&& state.acted(now, event, measures) == AndroidTouchView {
                touch: state.touch.moved(now, pointer.position, travel),
                two_finger: None,
            }
        }),
{
    lemma_only_one_moves(
        state,
        now,
        event.pointers@,
        measures.travel@,
        state.touch.primary->0.id,
        index,
    );
}

proof fn lemma_none_moves(
    state: AndroidTouchView,
    now: u64,
    pointers: Seq<Pointer>,
    travel: Seq<Scalar>,
    id: i64,
)
    requires
        forall|k: int| 0 <= k < pointers.len() ==> (#[trigger] pointers[k]).id != id,
    ensures
        state.moved_by(now, pointers, travel, id) == state,
        state.moved_by_events(now, pointers, travel, id) == Seq::<PlatformInput>::empty(),
    decreases pointers.len(),
{
    if pointers.len() > 0 {
        let rest = pointers.drop_last();
        assert(pointers.last() == pointers[pointers.len() - 1]);
        assert forall|k: int| 0 <= k < rest.len() implies (#[trigger] rest[k]).id != id by {
            assert(rest[k] == pointers[k]);
        }
        lemma_none_moves(state, now, rest, travel, id);
    }
}

proof fn lemma_only_one_moves(
    state: AndroidTouchView,
    now: u64,
    pointers: Seq<Pointer>,
    travel: Seq<Scalar>,
    id: i64,
    index: int,
)
    requires
        0 <= index < pointers.len(),
        pointers[index].id == id,
        forall|k: int|
            0 <= k < pointers.len() && k != index ==> (#[trigger] pointers[k]).id != id,
    ensures
        state.moved_by(now, pointers, travel, id) == state.with_touch(
            state.touch.moved(now, pointers[index].position, travel[index]),
        ),
        state.moved_by_events(now, pointers, travel, id) == state.touch.move_events(
            pointers[index].position,
            pressure(pointers[index]),
            travel[index],
        ),
    decreases pointers.len(),
{
    let rest = pointers.drop_last();
    assert(pointers.last() == pointers[pointers.len() - 1]);
    assert forall|k: int| 0 <= k < rest.len() && k != index implies (#[trigger] rest[k]).id
        != id by {
        assert(rest[k] == pointers[k]);
    }
    if index == pointers.len() - 1 {
        lemma_none_moves(state, now, rest, travel, id);
        law_pressure(pointers[index]);
    } else {
        assert(rest[index] == pointers[index]);
        lemma_only_one_moves(state, now, rest, travel, id, index);
    }
}

/// A move without a finger down does nothing.
pub proof fn law_no_finger_moves(
    state: AndroidTouchView,
    now: u64,
    event: MotionEvent,
    measures: Measures,
)
    requires
        event.action == MotionAction::Move,
        state.two_finger is None,
        state.touch.primary is None || forall|k: int|
            0 <= k < event.pointers@.len() ==> (#[trigger] event.pointers@[k]).id
                != state.touch.primary->0.id,
    ensures
        state.action_events(now, event, measures) == Seq::<PlatformInput>::empty(),
        state.acted(now, event, measures) == state,
{
    if state.touch.primary is Some {
        lemma_none_moves(
            state,
            now,
            event.pointers@,
            measures.travel@,
            state.touch.primary->0.id,
        );
    }
}

/// What takes the mouse off the window: a move far outside it, with no button held and no
/// pressure.
pub open spec fn leaves(modifiers: Modifiers) -> PlatformInput {
    PlatformInput::MouseMove(
        MouseMoveEvent {
            position: Point { x: scalar(0xc7c3_5000), y: scalar(0xc7c3_5000) },
            pressed_button: None,
            modifiers,
            pressure: scalar(0),
            tilt: None,
        },
    )
}

/// A release of the button where the finger is.
pub open spec fn releases(
    button: MouseButton,
    position: Point,
    modifiers: Modifiers,
    click_count: usize,
) -> PlatformInput {
    PlatformInput::MouseUp(
        MouseUpEvent {
            button,
            position,
            modifiers,
            click_count,
            pressure: scalar(0x3f80_0000),
            tilt: None,
        },
    )
}

/// A scroll of no distance.
pub open spec fn rests(position: Point, modifiers: Modifiers, phase: TouchPhase) -> PlatformInput {
    PlatformInput::ScrollWheel(
        ScrollWheelEvent {
            position,
            delta: ScrollDelta::Pixels(Point { x: scalar(0), y: scalar(0) }),
            modifiers,
            touch_phase: phase,
        },
    )
}

/// What the primary finger sends as it lifts, or as the system takes it away. A tap and a
/// drag are released with the count of the last tap; a press that the system takes away
/// is taken back far outside the window; a fast swipe, 8 pixels or more from where it
/// landed, scrolls all of its way and ends; a scroll ends. A long press and an ignored
/// finger have nothing to release.
pub proof fn law_lift_releases(
    state: AndroidTouchView,
    primary: PrimaryView,
    position: Point,
    cancelled: bool,
    travel: Scalar,
)
    requires
        state.touch.primary == Some(primary),
    ensures
        ({
            let modifiers = state.touch.modifiers;
            let count = match state.touch.last_tap {
                Some(tap) => tap.count,
                None => 1,
            };
            let far = Point { x: scalar(0xc7c3_5000), y: scalar(0xc7c3_5000) };
            let swipe = !primary.pointer && !travel.is_nan() && 8 * scalar(0x3f80_0000).units()
                <= travel.units();
            let events = state.release_events(position, cancelled, travel);
            &&& primary.mode == TouchMode::Undecided && cancelled ==> events == seq![
                releases(primary.button, far, modifiers, 1),
            ]
            &&& primary.mode == TouchMode::Undecided && !cancelled && !swipe ==> events == seq![
                releases(primary.button, position, modifiers, count),
            ]
            &&& primary.mode == TouchMode::Undecided && !cancelled && swipe ==> events == seq![
                releases(primary.button, far, modifiers, 1),
                PlatformInput::ScrollWheel(
                    ScrollWheelEvent {
                        position,
                        delta: ScrollDelta::Between { from: primary.start, to: position },
                        modifiers,
                        touch_phase: TouchPhase::Started,
                    },
                ),
                rests(position, modifiers, TouchPhase::Ended),
            ]
            &&& primary.mode == TouchMode::Drag ==> events == seq![
                releases(primary.button, position, modifiers, count),
            ]
            &&& primary.mode == TouchMode::Scroll ==> events == seq![
                rests(position, modifiers, TouchPhase::Ended),
            ]
            &&& primary.mode == TouchMode::LongPressed || primary.mode == TouchMode::Cancelled
                ==> events == Seq::<PlatformInput>::empty()
        }),
{
    float::laws::law_small_numbers();
}

/// What stays of the primary finger once it has lifted: nothing is primary, the mouse is
/// where it lifted, and only a tap and a mouse are counted on from. A scroll and a swipe
/// may coast on.
pub proof fn law_lift_step(
    state: AndroidTouchView,
    primary: PrimaryView,
    now: u64,
    position: Point,
    cancelled: bool,
    travel: Scalar,
    velocity: Point,
)
    requires
        state.touch.primary == Some(primary),
    ensures
        ({
            let swipe = !primary.pointer && !travel.is_nan() && 8 * scalar(0x3f80_0000).units()
                <= travel.units();
            let up = TouchView { primary: None, mouse_position: position, ..state.touch };
            let forgotten = TouchView { last_tap: None, ..up };
            let flung = forgotten.flung(primary, now, position, state.touch.modifiers, velocity);
            let after = state.lifted(now, primary.id, position, cancelled, travel, velocity);
            &&& after.two_finger == state.two_finger
            &&& primary.mode == TouchMode::Undecided && (cancelled || !swipe) ==> after.touch == up
            &&& primary.mode == TouchMode::Undecided && !cancelled && swipe ==> after.touch
                == flung
            &&& primary.mode == TouchMode::Drag ==> after.touch == if primary.pointer {
                up
            } else {
                forgotten
            }
            &&& primary.mode == TouchMode::Scroll ==> after.touch == if cancelled {
                forgotten
            } else {
                flung
            }
            &&& primary.mode == TouchMode::LongPressed || primary.mode == TouchMode::Cancelled
                ==> after.touch == forgotten
        }),
{
    float::laws::law_small_numbers();
}

/// A finger or pen that has lifted leaves the window, unless its scroll coasts on. A mouse
/// stays where it is, and a pointer that is not the primary one does nothing.
pub proof fn law_lift_leaves(
    state: AndroidTouchView,
    primary: PrimaryView,
    now: u64,
    id: i64,
    position: Point,
    cancelled: bool,
    travel: Scalar,
    velocity: Point,
)
    requires
        state.touch.primary == Some(primary),
    ensures
        ({
            let events = state.lifted_events(now, id, position, cancelled, travel, velocity);
            let after = state.lifted(now, id, position, cancelled, travel, velocity);
            let sent = state.release_events(position, cancelled, travel);
            &&& id != primary.id ==> events == Seq::<PlatformInput>::empty() && after == state
            &&& id == primary.id && (primary.pointer || after.touch.momentum is Some) ==> events
                == sent
            &&& id == primary.id && !primary.pointer && after.touch.momentum is None ==> events
                == sent.push(leaves(state.touch.modifiers))
        }),
{
}

/// Nothing lifts where no pointer is down.
pub proof fn law_nothing_lifts_alone(
    state: AndroidTouchView,
    now: u64,
    id: i64,
    position: Point,
    cancelled: bool,
    travel: Scalar,
    velocity: Point,
)
    requires
        state.touch.primary is None,
    ensures
        state.lifted_events(now, id, position, cancelled, travel, velocity) == Seq::<
            PlatformInput,
        >::empty(),
        state.lifted(now, id, position, cancelled, travel, velocity) == state,
{
}

/// The last pointer that lifts lifts the primary finger, where it is. A pointer that the
/// system takes away first ends a gesture.
pub proof fn law_up_and_cancel(
    state: AndroidTouchView,
    now: u64,
    event: MotionEvent,
    measures: Measures,
)
    requires
        event.index < event.pointers@.len(),
        measures.travel@.len() == event.pointers@.len(),
    ensures
        ({
            let pointer = event.pointers@[event.index as int];
            let travel = measures.travel@[event.index as int];
            let id = pointer.id as i64;
            let at = pointer.position;
            let parted = state.parted(id, at);
            &&& event.action == MotionAction::Up ==> {
                &&& state.action_events(now, event, measures) == state.lifted_events(
                    now,
                    id,
                    at,
                    false,
                    travel,
                    measures.velocity,
                )
                &&& state.acted(now, event, measures) == state.lifted(
                    now,
                    id,
                    at,
                    false,
                    travel,
                    measures.velocity,
                )
            }
            &&& event.action == MotionAction::Cancel && state.two_finger is None ==> {
                &&& state.action_events(now, event, measures) == state.lifted_events(
                    now,
                    id,
                    at,
                    true,
                    travel,
                    measures.velocity,
                )
                &&& state.acted(now, event, measures) == state.lifted(
                    now,
                    id,
                    at,
                    true,
                    travel,
                    measures.velocity,
                )
            }
            &&& event.action == MotionAction::Cancel && state.two_finger is Some ==> {
                &&& state.action_events(now, event, measures) == state.part_events()
                    + parted.lifted_events(now, id, at, true, travel, measures.velocity)
                &&& state.acted(now, event, measures) == parted.lifted(
                    now,
                    id,
                    at,
                    true,
                    travel,
                    measures.velocity,
                )
            }
        }),
{
}

/// A mouse or pen that hovers moves the mouse with no button held; one that leaves exits
/// the window; a wheel scrolls by lines and stops any coasting; every other action does
/// nothing.
pub proof fn law_hover_and_wheel(
    state: AndroidTouchView,
    now: u64,
    event: MotionEvent,
    measures: Measures,
)
    requires
        event.index < event.pointers@.len(),
    ensures
        ({
            let pointer = event.pointers@[event.index as int];
            let modifiers = state.touch.modifiers;
            let events = state.action_events(now, event, measures);
            let after = state.acted(now, event, measures);
            &&& event.action == MotionAction::HoverEnter || event.action == MotionAction::HoverMove
                ==> {
                &&& events == seq![
                    PlatformInput::MouseMove(
                        MouseMoveEvent {
                            position: pointer.position,
                            pressed_button: None,
                            modifiers,
                            pressure: pressure(pointer),
                            tilt: None,
                        },
                    ),
                ]
                &&& after == AndroidTouchView {
                    touch: TouchView { mouse_position: pointer.position, ..state.touch },
                    two_finger: state.two_finger,
                }
            }
            &&& event.action == MotionAction::HoverExit ==> {
                &&& events == seq![
                    PlatformInput::MouseExited(
                        MouseExitEvent {
                            position: pointer.position,
                            pressed_button: None,
                            modifiers,
                        },
                    ),
                ]
                &&& after == state
            }
            &&& event.action == MotionAction::Scroll ==> {
                &&& events == seq![
                    PlatformInput::ScrollWheel(
                        ScrollWheelEvent {
                            position: pointer.position,
                            delta: ScrollDelta::Lines(pointer.wheel),
                            modifiers,
                            touch_phase: TouchPhase::Moved,
                        },
                    ),
                ]
                &&& after == AndroidTouchView {
                    touch: TouchView {
                        momentum: None,
                        mouse_position: pointer.position,
                        ..state.touch
                    },
                    two_finger: state.two_finger,
                }
            }
            &&& event.action == MotionAction::Other ==> events == Seq::<PlatformInput>::empty()
                && after == state
        }),
{
    law_pressure(event.pointers@[event.index as int]);
}

/// A finger that has been held for half a second, less than 8 pixels from where it landed,
/// is a long press: the left press is taken back far outside the window, and a right click
/// follows where the finger is.
pub proof fn law_long_press(
    state: AndroidTouchView,
    primary: PrimaryView,
    now: u64,
    travel: Scalar,
)
    requires
        state.touch.primary == Some(primary),
    ensures
        ({
            let long = primary.mode == TouchMode::Undecided && !primary.pointer && now
                >= primary.down_at + 500_000_000 && (travel.is_nan() || travel.units() < 8
                * scalar(0x3f80_0000).units());
            let modifiers = state.touch.modifiers;
            let far = Point { x: scalar(0xc7c3_5000), y: scalar(0xc7c3_5000) };
            &&& long ==> {
                &&& state.hold_events(now, travel) == seq![
                    releases(primary.button, far, modifiers, 1),
                    PlatformInput::MouseDown(
                        MouseDownEvent {
                            button: MouseButton::Right,
                            position: primary.last,
                            modifiers,
                            click_count: 1,
                            first_mouse: false,
                            pressure: scalar(0x3f80_0000),
                            tilt: None,
                        },
                    ),
                    releases(MouseButton::Right, primary.last, modifiers, 1),
                ]
                &&& state.held(now, travel) == AndroidTouchView {
                    touch: TouchView {
                        primary: Some(PrimaryView { mode: TouchMode::LongPressed, ..primary }),
                        ..state.touch
                    },
                    two_finger: state.two_finger,
                }
            }
            &&& !long ==> {
                &&& state.hold_events(now, travel) == Seq::<PlatformInput>::empty()
                &&& state.held(now, travel) == state
            }
        }),
{
    float::laws::law_small_numbers();
}

/// Nothing is held where no finger is down.
pub proof fn law_nothing_is_held_alone(state: AndroidTouchView, now: u64, travel: Scalar)
    requires
        state.touch.primary is None,
    ensures
        state.hold_events(now, travel) == Seq::<PlatformInput>::empty(),
        state.held(now, travel) == state,
{
}

/// A step of coasting scrolls; the step that ends it also takes the mouse off the window,
/// unless a finger is down.
pub proof fn law_coasting(
    state: AndroidTouchView,
    now: u64,
    decayed: Point,
)
    ensures
        ({
            let sent = state.touch.coast_events(now, decayed);
            let ends = state.touch.momentum is Some && step_laws::is_slow(decayed)
                && state.touch.primary is None;
            &&& ends ==> state.coast_events(now, decayed) == sent.push(
                leaves(state.touch.modifiers),
            )
            &&& !ends ==> state.coast_events(now, decayed) == sent
        }),
{
    if state.touch.momentum is Some {
        step_laws::law_coast_step(state.touch, state.touch.momentum->0, now, decayed);
    }
}

/// Once nothing touches the window and nothing coasts the mouse leaves it.
pub proof fn law_hover_is_lifted(state: AndroidTouchView)
    ensures
        state.touch.primary is None && state.touch.momentum is None ==> state.lift_events()
            == seq![leaves(state.touch.modifiers)],
        state.touch.primary is Some || state.touch.momentum is Some ==> state.lift_events()
            == Seq::<PlatformInput>::empty(),
{
}

/// Every motion event brings the modifiers up to date first: a change of its meta state is
/// reported, and changes nothing else.
pub proof fn law_meta_state_is_followed(state: AndroidTouchView, meta: u32)
    ensures
        ({
            let modifiers = Modifiers {
                control: meta & 0x1000 != 0,
                alt: meta & 0x2 != 0,
                shift: meta & 0x1 != 0,
                platform: meta & 0x1_0000 != 0,
                function: meta & 0x8 != 0,
            };
            let capslock = Capslock { on: meta & 0x10_0000 != 0 };
            &&& state.with_meta(meta) == AndroidTouchView {
                touch: TouchView { modifiers, capslock, ..state.touch },
                two_finger: state.two_finger,
            }
            &&& state.touch.modifiers != modifiers || state.touch.capslock != capslock
                ==> state.meta_events(meta) == seq![
                PlatformInput::ModifiersChanged(ModifiersChangedEvent { modifiers, capslock }),
            ]
            &&& state.touch.modifiers == modifiers && state.touch.capslock == capslock
                ==> state.meta_events(meta) == Seq::<PlatformInput>::empty()
        }),
{
}

/// What a key event comes to first: a modifier key is handled and no more; a key without a
/// keystroke, and anything but a press or a release, is left to the system; a press is
/// dispatched, held where it repeats, and so is a release.
pub proof fn law_key_steps(event: KeyEvent, step: KeyStep)
    requires
        event.first_step(step),
    ensures
        ({
            let keystroke = events::keystroke_of(
                event.key_code,
                event.meta_state,
                event.typed,
                event.unshifted,
            );
            let modifier = events::is_modifier(event.key_code);
            &&& event.action == KeyAction::Other ==> step == KeyStep::Done(InputStatus::Unhandled)
            &&& event.action != KeyAction::Other && modifier ==> step == KeyStep::Done(
                InputStatus::Handled,
            )
            &&& event.action != KeyAction::Other && !modifier && keystroke is None ==> step
                == KeyStep::Done(InputStatus::Unhandled)
            &&& event.action == KeyAction::Down && !modifier && keystroke is Some ==> (step
                matches KeyStep::Dispatch(PlatformInput::KeyDown(down)) && Some(down.keystroke@)
                == keystroke && (down.is_held <==> event.repeat_count > 0))
            &&& event.action == KeyAction::Up && !modifier && keystroke is Some ==> (step
                matches KeyStep::Dispatch(PlatformInput::KeyUp(up)) && Some(up.keystroke@)
                == keystroke)
        }),
{
    key_laws::law_modifier_keys(
        event.key_code,
        event.meta_state,
        event.typed,
        event.unshifted,
    );
}

} // verus!
