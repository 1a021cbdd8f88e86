//! What holds of a window's input over several events.

use crate::float::Scalar;
use crate::geometry::Point;
use crate::input::{KeystrokeView, MouseButton, PinchDelta, PlatformInput, TouchPhase};
use crate::protocol;
use crate::protocol::Pinching;
use crate::web::keys;
use crate::web::window;
use crate::web::window::{
    DomKey, PointerInput, WebAction, WebInputView, WheelEnd, WheelInput,
};
use vstd::prelude::*;

verus! {

/// The events among the actions, in order.
pub open spec fn events(actions: Seq<WebAction>) -> Seq<PlatformInput>
    decreases actions.len(),
{
    if actions.len() == 0 {
        seq![]
    } else {
        match actions.last() {
            WebAction::Dispatch(event) => events(actions.drop_last()).push(event),
            WebAction::DispatchAndFollow(event) => events(actions.drop_last()).push(event),
            _ => events(actions.drop_last()),
        }
    }
}

/// What a receiver has seen of the pinches.
pub open spec fn seen(state: WebInputView) -> Pinching {
    if state.pinch.wheel_active || state.pinch.gesture_active {
        Pinching::Active
    } else {
        Pinching::Idle
    }
}

/// At most one pinch is under way: one of the wheel or one that the browser reports.
pub open spec fn one_pinch(state: WebInputView) -> bool {
    !(state.pinch.wheel_active && state.pinch.gesture_active)
}

/// A wheel event starts and moves a pinch, or scrolls: what a receiver sees of pinches
/// stays whole, and never are there two.
pub proof fn law_wheel_keeps_pinching(state: WebInputView, event: WheelInput)
    requires
        one_pinch(state),
    ensures
        seen(state).after_all(events(state.wheel_actions(event))) == seen(state.wheeled(event)),
        one_pinch(state.wheeled(event)),
{
    reveal_with_fuel(events, 6);
    let actions = state.wheel_actions(event);
    let sent = events(actions);
    if state.wheel_pinches(event) {
        if state.pinch.wheel_active {
            assert(actions.len() == 3);
            assert(actions.drop_last().drop_last().drop_last() =~= seq![]);
            assert(sent.len() == 1);
        } else {
            assert(actions.len() == 4);
            assert(actions.drop_last().drop_last().drop_last().drop_last() =~= seq![]);
            assert(sent.len() == 2);
        }
    } else {
        assert(actions.drop_last().drop_last() =~= seq![]);
        assert(sent.len() == 1);
    }
    protocol::lemma_pinching_few(seen(state), sent);
}

/// A timeout ends the pinch or does nothing: what a receiver sees of pinches stays whole.
pub proof fn law_wheel_end_keeps_pinching(state: WebInputView, end: WheelEnd)
    requires
        one_pinch(state),
    ensures
        seen(state).after_all(events(state.wheel_end_actions(end))) == seen(
            state.wheel_ended(end),
        ),
        one_pinch(state.wheel_ended(end)),
{
    reveal_with_fuel(events, 3);
    let actions = state.wheel_end_actions(end);
    if state.ends_wheel(end) {
        assert(actions.drop_last() =~= seq![]);
    }
    protocol::lemma_pinching_few(seen(state), events(actions));
}

/// A pinch that the browser reports starts, moves and ends for a receiver as it does for
/// the browser. A gesture that starts while another pinch is under way, and one that ends
/// without having started, are left out: the window passes both on as they come.
pub proof fn law_gesture_keeps_pinching(
    state: WebInputView,
    scale: Option<Scalar>,
    position: Option<Point>,
)
    requires
        one_pinch(state),
    ensures
        seen(state) is Idle ==> seen(state).after_all(
            events(state.gesture_start_actions(position)),
        ) == seen(state.gesture_started()) && one_pinch(state.gesture_started()),
        seen(state).after_all(events(state.gesture_change_actions(scale, position))) == seen(
            state.gesture_changed(scale),
        ) && one_pinch(state.gesture_changed(scale)),
        state.pinch.gesture_active ==> seen(state).after_all(
            events(state.gesture_end_actions(position)),
        ) == seen(state.gesture_ended()) && one_pinch(state.gesture_ended()),
{
    reveal_with_fuel(events, 4);
    let start = state.gesture_start_actions(position);
    assert(start.drop_last().drop_last() =~= seq![]);
    protocol::lemma_pinching_few(seen(state), events(start));
    let change = state.gesture_change_actions(scale, position);
    if state.gesture_counts() {
        assert(change.drop_last().drop_last() =~= seq![]);
    }
    protocol::lemma_pinching_few(seen(state), events(change));
    let end = state.gesture_end_actions(position);
    assert(end.drop_last().drop_last() =~= seq![]);
    protocol::lemma_pinching_few(seen(state), events(end));
}

/// The end that a wheel event of a pinch sets a timeout for.
pub open spec fn end_of(state: WebInputView, event: WheelInput) -> WheelEnd {
    WheelEnd {
        generation: (state.pinch.wheel_generation + 1) as u64,
        position: event.position,
        modifiers: event.modifiers,
    }
}

/// A pinch made with the wheel ends with the timeout of its last event, and with no
/// timeout before that.
pub proof fn law_last_timeout_ends_the_pinch(
    state: WebInputView,
    first: WheelInput,
    second: WheelInput,
)
    requires
        state.wheel_pinches(first),
        state.wheeled(first).wheel_pinches(second),
        state.pinch.wheel_generation < u64::MAX - 1,
    ensures
        state.wheel_actions(first).contains(WebAction::ScheduleWheelEnd(end_of(state, first))),
        state.wheeled(first).wheel_ended(end_of(state, first)).pinch.wheel_active == false,
        state.wheeled(first).wheeled(second).wheel_end_actions(end_of(state, first)).len() == 0,
        state.wheeled(first).wheeled(second).wheel_ended(end_of(state, first)) == state.wheeled(
            first,
        ).wheeled(second),
        state.wheeled(first).wheeled(second).wheel_end_actions(
            end_of(state.wheeled(first), second),
        ).len() == 1,
{
    let actions = state.wheel_actions(first);
    let index: int = actions.len() - 2;
    assert(actions[index] == WebAction::ScheduleWheelEnd(end_of(state, first)));
}

/// The factors that a gesture reports connect: each quotient starts where the one before
/// ended, and the first at 1.
pub proof fn law_gesture_scales_chain(
    state: WebInputView,
    first: Option<Scalar>,
    second: Option<Scalar>,
    position: Option<Point>,
)
    ensures
        state.gesture_started().pinch.gesture_previous_scale.bits == crate::float::ONE,
        state.gesture_counts() && state.gesture_changed(first).gesture_counts()
            ==> state.gesture_changed(first).gesture_change_actions(second, position)[0]
            == window::pinch_action(
            state.gesture_position(position),
            state.modifiers,
            TouchPhase::Moved,
            PinchDelta::Ratio {
                now: window::gesture_scale(second),
                before: window::gesture_scale(first),
            },
        ),
{
}

/// The browser's own response to the wheel never happens: the page neither scrolls nor
/// zooms under the window.
pub proof fn law_wheel_is_consumed(state: WebInputView, event: WheelInput)
    ensures
        state.wheel_actions(event).last() == WebAction::PreventDefault,
{
}

/// A keystroke that pastes reaches the application once: with the clipboard or, where that
/// does not come, with the timeout, and the other of the two then finds nothing. Only
/// another keystroke that pastes takes its place meanwhile.
pub proof fn law_paste_is_delivered_once(
    state: WebInputView,
    event: DomKey,
    keystroke: KeystrokeView,
)
    requires
        event.step(keystroke) is Hold,
    ensures
        state.key_pressed(event, keystroke).pending_paste == Some((keystroke, false)),
        state.key_pressed(event, keystroke).paste_delivered().pending_paste is None,
{
}

/// A keystroke that does not paste is handed on at once, and a paste that waits goes on
/// waiting.
pub proof fn law_other_keys_do_not_wait(
    state: WebInputView,
    event: DomKey,
    keystroke: KeystrokeView,
)
    requires
        !(event.step(keystroke) is Hold),
    ensures
        state.key_pressed(event, keystroke).pending_paste == state.pending_paste,
{
}

/// While a composition is under way no key reaches the application.
pub proof fn law_composition_swallows_keys(
    state: WebInputView,
    event: DomKey,
    keystroke: KeystrokeView,
)
    requires
        event.composing,
    ensures
        event.step(keystroke) is Ignore,
        event.up_step(keystroke) is Ignore,
        state.key_pressed(event, keystroke) == state,
        state.key_released(event) == state,
{
}

/// A release carries the count of the press before it.
pub proof fn law_release_counts_like_the_press(
    state: WebInputView,
    now: u64,
    event: PointerInput,
    apart: Point,
    release: PointerInput,
    button: MouseButton,
)
    requires
        keys::button_of(event.button) == Some(button),
        keys::button_of(release.button) == Some(button),
        state.click_count(now, button, apart) <= usize::MAX,
    ensures
        state.press_actions(now, event, apart)[3] matches WebAction::Dispatch(
            PlatformInput::MouseDown(down),
        ) && down.click_count == state.click_count(now, button, apart) && (state.pressed(
            now,
            event,
            apart,
        ).release_actions(release)[0] matches WebAction::DispatchAndFollow(
            PlatformInput::MouseUp(up),
        ) && up.click_count == down.click_count && up.button == down.button),
{
}

/// Clicks count up by one, and from one: a press in the same place with the same button
/// soon after counts one more, any other press counts one.
pub proof fn law_clicks_count_up(
    state: WebInputView,
    now: u64,
    event: PointerInput,
    apart: Point,
    button: MouseButton,
)
    requires
        keys::button_of(event.button) == Some(button),
        state.click_count(now, button, apart) <= usize::MAX,
    ensures
        state.click_count(now, button, apart) == 1 || (state.click matches Some(click)
            && click.button == button && state.click_count(now, button, apart) == click.count
            + 1),
        state.pressed(now, event, apart).click matches Some(click) && click.count
            == state.click_count(now, button, apart) && click.button == button,
{
}

} // verus!
