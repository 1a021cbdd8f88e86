//! What each browser event does to a window, event by event.

use crate::clipboard::ClipboardEntry;
use crate::float;
use crate::float::{scalar, Scalar};
use crate::geometry::Point;
use crate::input::{
    Capslock, KeystrokeView, ModifiersChangedEvent, MouseButton, MouseDownEvent, MouseUpEvent,
    NavigationDirection, PinchDelta, PinchEvent, PlatformInput, ScrollDelta, ScrollWheelEvent,
    TouchPhase,
};
use crate::web::keys;
use crate::web::window;
use crate::web::window::{
    Click, DomKey, KeyStepView, PinchState, PointerInput, WebAction, WebInputView, WheelEnd,
    WheelInput,
};
use vstd::prelude::*;

verus! {

/// Whether a press at this time counts on from the last one: it is of the same button,
/// comes no more than 400 milliseconds later, and stands no more than 4 pixels away on
/// either axis.
pub open spec fn repeats(click: Click, now: u64, button: MouseButton, apart: Point) -> bool {
    let pixel = scalar(0x3f80_0000).units();
    &&& click.button == button
    &&& now <= click.last_click + 400_000_000
    &&& !apart.x.is_nan() && -4 * pixel <= apart.x.units() <= 4 * pixel
    &&& !apart.y.is_nan() && -4 * pixel <= apart.y.units() <= 4 * pixel
}

/// A press of the same button as the last one, soon after it and close to it, counts
/// exactly one more than the last one did, however many came before. Every other press
/// counts one.
pub proof fn law_click_count_is_exact(
    state: WebInputView,
    now: u64,
    button: MouseButton,
    apart: Point,
)
    ensures
        match state.click {
            Some(click) => {
                &&& repeats(click, now, button, apart) ==> state.click_count(now, button, apart)
                    == click.count + 1
                &&& !repeats(click, now, button, apart) ==> state.click_count(now, button, apart)
                    == 1
            },
            None => state.click_count(now, button, apart) == 1,
        },
{
    float::laws::law_small_numbers();
    float::laws::law_signs(apart.x);
    float::laws::law_signs(apart.y);
}

/// So presses of one button, each soon after the one before and close to it, count 1, 2,
/// 3 and on.
pub proof fn law_repeated_presses_count_on(
    state: WebInputView,
    first: u64,
    second: u64,
    press: PointerInput,
    again: PointerInput,
    apart: Point,
    moved: Point,
)
    requires
        0 <= press.button <= 4,
        again.button == press.button,
        first <= second <= first + 400_000_000,
        !moved.x.is_nan(),
        !moved.y.is_nan(),
        -4 * scalar(0x3f80_0000).units() <= moved.x.units() <= 4 * scalar(0x3f80_0000).units(),
        -4 * scalar(0x3f80_0000).units() <= moved.y.units() <= 4 * scalar(0x3f80_0000).units(),
        state.click matches Some(click) ==> click.count < usize::MAX - 1,
    ensures
        ({
            let once = state.pressed(first, press, apart);
            let twice = once.pressed(second, again, moved);
            twice.click->0.count == once.click->0.count + 1
        }),
{
    let once = state.pressed(first, press, apart);
    let button = keys::button_of(press.button)->0;
    law_click_count_is_exact(state, first, button, apart);
    law_click_count_is_exact(once, second, button, moved);
}

/// The buttons of a pointer event by their numbers.
pub proof fn law_buttons_by_number(number: i16)
    ensures
        keys::button_of(0) == Some(MouseButton::Left),
        keys::button_of(1) == Some(MouseButton::Middle),
        keys::button_of(2) == Some(MouseButton::Right),
        keys::button_of(3) == Some(MouseButton::Navigate(NavigationDirection::Back)),
        keys::button_of(4) == Some(MouseButton::Navigate(NavigationDirection::Forward)),
        number < 0 || 4 < number ==> keys::button_of(number) is None,
{
}

/// Of the buttons held during a move the first of left, right, middle, back and forward
/// is reported: each has its own bit, and none is reported where no bit is set.
pub proof fn law_held_buttons_by_bit(buttons: u16)
    ensures
        buttons & 1 != 0 ==> keys::held_button(buttons) == Some(MouseButton::Left),
        buttons & 1 == 0 && buttons & 2 != 0 ==> keys::held_button(buttons) == Some(
            MouseButton::Right,
        ),
        buttons & 1 == 0 && buttons & 2 == 0 && buttons & 4 != 0 ==> keys::held_button(buttons)
            == Some(MouseButton::Middle),
        buttons & 1 == 0 && buttons & 2 == 0 && buttons & 4 == 0 && buttons & 8 != 0
            ==> keys::held_button(buttons) == Some(
            MouseButton::Navigate(NavigationDirection::Back),
        ),
        buttons & 1 == 0 && buttons & 2 == 0 && buttons & 4 == 0 && buttons & 8 == 0 && buttons & 16
            != 0 ==> keys::held_button(buttons) == Some(
            MouseButton::Navigate(NavigationDirection::Forward),
        ),
        buttons & 1 == 0 && buttons & 2 == 0 && buttons & 4 == 0 && buttons & 8 == 0 && buttons & 16
            == 0 ==> keys::held_button(buttons) is None,
{
}

/// A pen has its own pressure, everything else presses in full.
pub proof fn law_only_pens_have_pressure(pointer_type: Seq<char>, pressure: Scalar)
    ensures
        pointer_type == "pen"@ ==> window::pressure_of(pointer_type, pressure) == pressure,
        pointer_type != "pen"@ ==> window::pressure_of(pointer_type, pressure) == scalar(
            0x3f80_0000,
        ),
{
}

/// A press of a known button captures the pointer, keeps the browser from its own
/// response, focuses the keyboard and is reported with the count that the state keeps;
/// it is the first of the window's where the window was not active.
pub proof fn law_press_is_reported(
    state: WebInputView,
    now: u64,
    event: PointerInput,
    apart: Point,
)
    requires
        0 <= event.button <= 4,
        state.click matches Some(click) ==> click.count < usize::MAX,
    ensures
        ({
            let button = match event.button {
                0 => MouseButton::Left,
                1 => MouseButton::Middle,
                2 => MouseButton::Right,
                3 => MouseButton::Navigate(NavigationDirection::Back),
                _ => MouseButton::Navigate(NavigationDirection::Forward),
            };
            let count = match state.click {
                Some(click) => if repeats(click, now, button, apart) {
                    (click.count + 1) as usize
                } else {
                    1
                },
                None => 1,
            };
            &&& state.press_actions(now, event, apart) == seq![
                WebAction::CapturePointer(event.pointer_id),
                WebAction::PreventDefault,
                WebAction::FocusInput,
                WebAction::Dispatch(
                    PlatformInput::MouseDown(
                        MouseDownEvent {
                            button,
                            position: event.position,
                            modifiers: event.modifiers,
                            click_count: count,
                            first_mouse: !state.active,
                            pressure: if event.pointer_type@ == "pen"@ {
                                event.pressure
                            } else {
                                scalar(0x3f80_0000)
                            },
                            tilt: None,
                        },
                    ),
                ),
            ]
            &&& state.pressed(now, event, apart) == WebInputView {
                mouse_position: event.position,
                modifiers: event.modifiers,
                click: Some(
                    Click { last_click: now, last_position: event.position, button, count },
                ),
                ..state
            }
        }),
{
    law_click_count_is_exact(state, now, keys::button_of(event.button)->0, apart);
}

/// A release of a known button is reported where it happened, with the count of the last
/// press.
pub proof fn law_release_is_reported(state: WebInputView, event: PointerInput)
    requires
        0 <= event.button <= 4,
    ensures
        state.release_actions(event) == seq![
            WebAction::DispatchAndFollow(
                PlatformInput::MouseUp(
                    MouseUpEvent {
                        button: match event.button {
                            0 => MouseButton::Left,
                            1 => MouseButton::Middle,
                            2 => MouseButton::Right,
                            3 => MouseButton::Navigate(NavigationDirection::Back),
                            _ => MouseButton::Navigate(NavigationDirection::Forward),
                        },
                        position: event.position,
                        modifiers: event.modifiers,
                        click_count: match state.click {
                            Some(click) => click.count,
                            None => 1,
                        },
                        pressure: if event.pointer_type@ == "pen"@ {
                            event.pressure
                        } else {
                            scalar(0x3f80_0000)
                        },
                        tilt: None,
                    },
                ),
            ),
        ],
{
}

/// A button with another number is neither pressed nor released.
pub proof fn law_unknown_buttons_do_nothing(
    state: WebInputView,
    now: u64,
    event: PointerInput,
    apart: Point,
)
    requires
        event.button < 0 || 4 < event.button,
    ensures
        state.press_actions(now, event, apart) == Seq::<WebAction>::empty(),
        state.pressed(now, event, apart) == state,
        state.release_actions(event) == Seq::<WebAction>::empty(),
{
}

/// A wheel that turns without the control key scrolls the other way by as much as it
/// turned, in pixels, lines or pages as the browser counts. It leaves the state alone.
pub proof fn law_wheel_scrolls(state: WebInputView, event: WheelInput, delta: Point)
    requires
        !event.modifiers.control || state.pinch.gesture_active,
        delta.x.bits == if event.delta_x.bits < 0x8000_0000 {
            event.delta_x.bits + 0x8000_0000
        } else {
            event.delta_x.bits - 0x8000_0000
        },
        delta.y.bits == if event.delta_y.bits < 0x8000_0000 {
            event.delta_y.bits + 0x8000_0000
        } else {
            event.delta_y.bits - 0x8000_0000
        },
    ensures
        state.wheel_actions(event) == seq![
            WebAction::Dispatch(
                PlatformInput::ScrollWheel(
                    ScrollWheelEvent {
                        position: event.position,
                        delta: match event.delta_mode {
                            0 => ScrollDelta::Pixels(delta),
                            1 => ScrollDelta::Lines(delta),
                            _ => ScrollDelta::Pages(delta),
                        },
                        modifiers: event.modifiers,
                        touch_phase: TouchPhase::Moved,
                    },
                ),
            ),
            WebAction::PreventDefault,
        ],
        state.wheeled(event) == state,
{
    assert(delta.x == event.delta_x.negated());
    assert(delta.y == event.delta_y.negated());
}

/// With the control key held, and no gesture of the browser's own under way, a wheel
/// pinches: a first event begins the pinch, every event moves it by what the wheel turned,
/// and each sets a new timeout for its end, numbered one more than the last.
pub proof fn law_wheel_pinches(state: WebInputView, event: WheelInput)
    requires
        event.modifiers.control,
        !state.pinch.gesture_active,
        state.pinch.wheel_generation < u64::MAX,
    ensures
        ({
            let begin = if state.pinch.wheel_active {
                seq![]
            } else {
                seq![
                    WebAction::Dispatch(
                        PlatformInput::Pinch(
                            PinchEvent {
                                position: event.position,
                                delta: PinchDelta::Unchanged,
                                scale: scalar(0x3f80_0000),
                                modifiers: event.modifiers,
                                phase: TouchPhase::Started,
                            },
                        ),
                    ),
                ]
            };
            &&& state.wheel_actions(event) == begin + seq![
                WebAction::Dispatch(
                    PlatformInput::Pinch(
                        PinchEvent {
                            position: event.position,
                            delta: PinchDelta::Wheel {
                                turned: event.delta_y,
                                pixels_per_unit: if event.delta_mode == 0 {
                                    1
                                } else {
                                    16
                                },
                            },
                            scale: scalar(0x3f80_0000),
                            modifiers: event.modifiers,
                            phase: TouchPhase::Moved,
                        },
                    ),
                ),
                WebAction::ScheduleWheelEnd(
                    WheelEnd {
                        generation: (state.pinch.wheel_generation + 1) as u64,
                        position: event.position,
                        modifiers: event.modifiers,
                    },
                ),
                WebAction::PreventDefault,
            ]
            &&& state.wheeled(event) == WebInputView {
                pinch: PinchState {
                    wheel_active: true,
                    wheel_generation: (state.pinch.wheel_generation + 1) as u64,
                    ..state.pinch
                },
                ..state
            }
        }),
{
}

/// The last timeout of a pinch ends it, where the pointer was then. An earlier one, or one
/// without a pinch, does nothing.
pub proof fn law_timeouts(state: WebInputView, end: WheelEnd)
    ensures
        state.pinch.wheel_active && state.pinch.wheel_generation == end.generation ==> {
            &&& state.wheel_end_actions(end) == seq![
                WebAction::Dispatch(
                    PlatformInput::Pinch(
                        PinchEvent {
                            position: end.position,
                            delta: PinchDelta::Unchanged,
                            scale: scalar(0x3f80_0000),
                            modifiers: end.modifiers,
                            phase: TouchPhase::Ended,
                        },
                    ),
                ),
            ]
            &&& state.wheel_ended(end) == WebInputView {
                pinch: PinchState { wheel_active: false, ..state.pinch },
                ..state
            }
        },
        !state.pinch.wheel_active || state.pinch.wheel_generation != end.generation ==> {
            &&& state.wheel_end_actions(end) == Seq::<WebAction>::empty()
            &&& state.wheel_ended(end) == state
        },
{
}

/// The gesture events of a browser: the start and the end change no scale, a change is
/// the new scale over the one before, the first one over 1. A gesture without a position
/// stands where the mouse is, and one without a scale has scale 1.
pub proof fn law_gesture_events(
    state: WebInputView,
    scale: Option<Scalar>,
    position: Option<Point>,
)
    ensures
        ({
            let at = match position {
                Some(position) => position,
                None => state.mouse_position,
            };
            let now = match scale {
                Some(scale) => scale,
                None => scalar(0x3f80_0000),
            };
            &&& state.gesture_start_actions(position) == seq![
                WebAction::Dispatch(
                    PlatformInput::Pinch(
                        PinchEvent {
                            position: at,
                            delta: PinchDelta::Unchanged,
                            scale: scalar(0x3f80_0000),
                            modifiers: state.modifiers,
                            phase: TouchPhase::Started,
                        },
                    ),
                ),
                WebAction::PreventDefault,
            ]
            &&& state.gesture_started() == WebInputView {
                pinch: PinchState {
                    gesture_active: true,
                    gesture_previous_scale: scalar(0x3f80_0000),
                    ..state.pinch
                },
                ..state
            }
            &&& state.pinch.gesture_active && (state.pinch.gesture_previous_scale.is_nan() || 0
                < state.pinch.gesture_previous_scale.units()) ==> {
                &&& state.gesture_change_actions(scale, position) == seq![
                    WebAction::Dispatch(
                        PlatformInput::Pinch(
                            PinchEvent {
                                position: at,
                                delta: PinchDelta::Ratio {
                                    now,
                                    before: state.pinch.gesture_previous_scale,
                                },
                                scale: scalar(0x3f80_0000),
                                modifiers: state.modifiers,
                                phase: TouchPhase::Moved,
                            },
                        ),
                    ),
                    WebAction::PreventDefault,
                ]
                &&& state.gesture_changed(scale) == WebInputView {
                    pinch: PinchState { gesture_previous_scale: now, ..state.pinch },
                    ..state
                }
            }
            &&& !state.pinch.gesture_active || (!state.pinch.gesture_previous_scale.is_nan()
                && state.pinch.gesture_previous_scale.units() <= 0) ==> {
                &&& state.gesture_change_actions(scale, position) == Seq::<WebAction>::empty()
                &&& state.gesture_changed(scale) == state
            }
            &&& state.gesture_end_actions(position) == seq![
                WebAction::Dispatch(
                    PlatformInput::Pinch(
                        PinchEvent {
                            position: at,
                            delta: PinchDelta::Unchanged,
                            scale: scalar(0x3f80_0000),
                            modifiers: state.modifiers,
                            phase: TouchPhase::Ended,
                        },
                    ),
                ),
                WebAction::PreventDefault,
            ]
            &&& state.gesture_ended() == WebInputView {
                pinch: PinchState { gesture_active: false, ..state.pinch },
                ..state
            }
        }),
{
    float::laws::law_magnitudes_step_up(0);
}

/// What a key does: nothing while a composition carries the text or for a dead key, a
/// change of modifiers for a modifier key, a paste for command or control with V, and a
/// keystroke for every other.
pub proof fn law_key_steps(state: WebInputView, event: DomKey, keystroke: KeystrokeView)
    ensures
        ({
            let swallowed = event.composing || event.key_code == 229 || event.key@ == "Dead"@;
            let modifier = event.key@ == "Shift"@ || event.key@ == "Control"@ || event.key@
                == "Alt"@ || event.key@ == "Meta"@ || event.key@ == "CapsLock"@;
            let pastes = (event.modifiers.platform || event.modifiers.control)
                && !event.modifiers.alt && keystroke.key == "v"@ && !event.repeat;
            let change = ModifiersChangedEvent {
                modifiers: event.modifiers,
                capslock: Capslock { on: event.caps_lock },
            };
            let changed = WebInputView {
                modifiers: event.modifiers,
                capslock: Capslock { on: event.caps_lock },
                ..state
            };
            &&& swallowed ==> {
                &&& event.step(keystroke) == KeyStepView::Ignore
                &&& event.up_step(keystroke) == KeyStepView::Ignore
                &&& state.key_pressed(event, keystroke) == state
                &&& state.key_released(event) == state
            }
            &&& !swallowed && modifier ==> {
                &&& event.step(keystroke) == KeyStepView::Report(change)
                &&& event.up_step(keystroke) == KeyStepView::Report(change)
                &&& state.key_pressed(event, keystroke) == changed
                &&& state.key_released(event) == changed
            }
            &&& !swallowed && !modifier && pastes ==> {
                &&& event.step(keystroke) == KeyStepView::Hold
                &&& state.key_pressed(event, keystroke) == WebInputView {
                    modifiers: event.modifiers,
                    pending_paste: Some((keystroke, false)),
                    ..state
                }
            }
            &&& !swallowed && !modifier && !pastes ==> {
                &&& event.step(keystroke) == KeyStepView::Dispatch {
                    keystroke,
                    is_held: event.repeat,
                }
                &&& state.key_pressed(event, keystroke) == WebInputView {
                    modifiers: event.modifiers,
                    ..state
                }
            }
            &&& !swallowed && !modifier ==> {
                &&& event.up_step(keystroke) == KeyStepView::Dispatch { keystroke, is_held: false }
                &&& state.key_released(event) == state
            }
        }),
{
}

/// A paste that was held back is delivered once.
pub proof fn law_delivered_paste_is_gone(state: WebInputView)
    ensures
        state.paste_delivered() == (WebInputView { pending_paste: None, ..state }),
{
}

/// A paste brings the clipboard up to date: a text that is not empty becomes its only
/// entry, without metadata, and anything else leaves it as it is.
pub proof fn law_paste_refreshes_the_clipboard(
    before: Option<Vec<ClipboardEntry>>,
    text: Option<String>,
    after: Option<Vec<ClipboardEntry>>,
)
    requires
        window::refreshed(before, text, after),
    ensures
        text is None || text->0@.len() == 0 ==> after == before,
        text is Some && text->0@.len() > 0 ==> after is Some && after->0@.len() == 1 && (
        after->0@[0] matches ClipboardEntry::Text(string) && string.text@ == text->0@
            && string.metadata is None),
{
}

/// How long things wait: a wheel's pinch ends 150 milliseconds after its last event, and a
/// paste waits 100 for the clipboard. A page of a wheel is worth three lines.
pub proof fn law_delays()
    ensures
        window::PINCH_END_DELAY_MS == 150,
        window::PASTE_EVENT_DELAY_MS == 100,
        window::SCROLL_LINES == 3,
{
}

/// A keystroke types where it carries no command: without control, alt, command and
/// function keys, or with alt but without command.
pub proof fn law_typing_modifiers(modifiers: crate::input::Modifiers)
    ensures
        modifiers.platform ==> !window::types(modifiers),
        !modifiers.platform && modifiers.alt ==> window::types(modifiers),
        !modifiers.platform && !modifiers.alt ==> (window::types(modifiers) <==> !modifiers.control
            && !modifiers.function),
{
}

} // verus!
