//! What holds of the touches on an iOS window, whatever the fingers do.

use crate::float::Scalar;
use crate::geometry::Point;
use crate::input::PlatformInput;
use crate::ios::window;
use crate::ios::window::{
    IosTouchView, UiPress, UiTouch, GESTURE_BEGAN, GESTURE_CANCELLED, GESTURE_CHANGED,
    GESTURE_ENDED,
};
use crate::protocol;
use crate::protocol::Pinching;
use crate::touch::laws;
use crate::touch::TouchMode;
use vstd::prelude::*;

verus! {

proof fn lemma_flag_events(state: IosTouchView, flags: usize, rest: Seq<PlatformInput>)
    ensures
        state.touch.buttons().after_all(state.flag_events(flags) + rest) == state.with_flags(
            flags,
        ).touch.buttons().after_all(rest),
{
    protocol::lemma_buttons_few(state.touch.buttons(), state.flag_events(flags));
    protocol::lemma_buttons_concat(state.touch.buttons(), state.flag_events(flags), rest);
}

proof fn lemma_moved_by(state: IosTouchView, now: u64, touches: Seq<UiTouch>)
    ensures
        state.touch.buttons().after_all(state.moved_by_events(now, touches)) == state.moved_by(
            now,
            touches,
        ).touch.buttons(),
    decreases touches.len(),
{
    if touches.len() > 0 {
        let before = state.moved_by(now, touches.drop_last());
        let sent = state.moved_by_events(now, touches.drop_last());
        let last = touches.last();
        lemma_moved_by(state, now, touches.drop_last());
        laws::law_move_keeps_buttons(
            before.touch,
            now,
            last.position,
            last.pressure(),
            last.travel,
        );
        protocol::lemma_buttons_concat(
            state.touch.buttons(),
            sent,
            before.touch.move_events(last.position, last.pressure(), last.travel),
        );
    }
}

/// Every press is released once, and nothing is released that was not pressed: touches
/// that begin, move, lift or are cancelled leave a receiver that knew which button was
/// held knowing it still.
pub proof fn law_touches_keep_buttons(
    state: IosTouchView,
    now: u64,
    flags: usize,
    button_mask: usize,
    touches: Seq<UiTouch>,
    cancelled: bool,
)
    ensures
        ({
            let s = state.with_flags(flags);
            &&& state.touch.buttons().after_all(
                state.flag_events(flags) + s.began_events(now, touches, button_mask),
            ) == s.began(now, touches, button_mask).touch.buttons()
            &&& state.touch.buttons().after_all(
                state.flag_events(flags) + s.moved_by_events(now, touches),
            ) == s.moved_by(now, touches).touch.buttons()
            &&& state.touch.buttons().after_all(
                state.flag_events(flags) + s.lifted_events(touches, cancelled),
            ) == s.lifted(now, touches, cancelled).touch.buttons()
        }),
{
    let s = state.with_flags(flags);
    lemma_flag_events(state, flags, s.began_events(now, touches, button_mask));
    lemma_flag_events(state, flags, s.moved_by_events(now, touches));
    lemma_flag_events(state, flags, s.lifted_events(touches, cancelled));
    if s.touch.primary is None && touches.len() > 0 {
        laws::law_press_holds(s.touch, now, touches[0].press(button_mask), touches[0].tap);
    } else {
        protocol::lemma_buttons_few(s.touch.buttons(), s.began_events(now, touches, button_mask));
    }
    lemma_moved_by(s, now, touches);
    protocol::lemma_buttons_few(s.touch.buttons(), s.lifted_events(touches, cancelled));
}

/// Gestures keep the buttons right too: two fingers release what was pressed, a long press
/// is a whole right click or gives the finger to the edit menu, and scrolling and hovering
/// press nothing. A gesture that begins on a long press is left out: it releases the button
/// although nothing holds it.
pub proof fn law_gestures_keep_buttons(
    state: IosTouchView,
    gesture_state: isize,
    scale: Scalar,
    position: Point,
    translation: Point,
    edit_menu_shown: bool,
)
    ensures
        ({
            let buttons = state.touch.buttons();
            let settled = gesture_state == GESTURE_BEGAN ==> (state.touch.primary matches Some(
                primary,
            ) ==> primary.mode != TouchMode::LongPressed);
            &&& settled ==> buttons.after_all(state.pinch_events(gesture_state, scale, position))
                == state.pinched(gesture_state, scale).touch.buttons()
            &&& settled ==> buttons.after_all(
                state.pan_events(gesture_state, position, translation),
            ) == state.panned(gesture_state, position).touch.buttons()
            &&& buttons.after_all(
                state.long_press_events(gesture_state, position, edit_menu_shown),
            ) == state.long_pressed(gesture_state, edit_menu_shown).touch.buttons()
            &&& buttons.after_all(
                state.pointer_scroll_events(gesture_state, position, translation),
            ) == state.pointer_scrolled(gesture_state, position).touch.buttons()
            &&& buttons.after_all(state.hover_events(gesture_state, position)) == buttons
        }),
{
    let buttons = state.touch.buttons();
    protocol::lemma_buttons_few(buttons, state.pinch_events(gesture_state, scale, position));
    protocol::lemma_buttons_few(buttons, state.pan_events(gesture_state, position, translation));
    protocol::lemma_buttons_few(
        buttons,
        state.long_press_events(gesture_state, position, edit_menu_shown),
    );
    protocol::lemma_buttons_few(
        buttons,
        state.pointer_scroll_events(gesture_state, position, translation),
    );
    protocol::lemma_buttons_few(buttons, state.hover_events(gesture_state, position));
}

/// A recognizer that begins, changes and ends a pinch makes a start, moves and an end of
/// it, and the first and last event change no scale.
pub proof fn law_pinch_follows_recognizer(
    state: IosTouchView,
    gesture_state: isize,
    scale: Scalar,
    position: Point,
)
    ensures
        gesture_state == GESTURE_BEGAN ==> Pinching::Idle.after_all(
            state.pinch_events(gesture_state, scale, position),
        ) is Active,
        gesture_state == GESTURE_CHANGED ==> Pinching::Active.after_all(
            state.pinch_events(gesture_state, scale, position),
        ) is Active,
        gesture_state == GESTURE_ENDED || gesture_state == GESTURE_CANCELLED
            ==> Pinching::Active.after_all(
            state.pinch_events(gesture_state, scale, position),
        ) is Idle,
{
    let events = state.pinch_events(gesture_state, scale, position);
    protocol::lemma_pinching_few(Pinching::Idle, events);
    protocol::lemma_pinching_few(Pinching::Active, events);
}

/// The scale of each pinch step is told against the one before it.
pub proof fn law_pinch_steps_chain(
    state: IosTouchView,
    first: Scalar,
    second: Scalar,
    position: Point,
)
    requires
        crate::float::scalar(0).below(first),
    ensures
        ({
            let events = state.pinched(GESTURE_CHANGED, first).pinch_events(
                GESTURE_CHANGED,
                second,
                position,
            );
            events.len() == 1 && (events[0] matches PlatformInput::Pinch(pinch) && pinch.delta == (
            crate::input::PinchDelta::Ratio { now: second, before: first }))
        }),
{
}

/// A pinch and a pan of the same two fingers release the press once: the second takeover
/// finds nothing left.
pub proof fn law_takeover_once(state: IosTouchView)
    ensures
        state.touch.taken_over().takeover_events() == Seq::<PlatformInput>::empty(),
        state.touch.taken_over().taken_over() == state.touch.taken_over(),
{
}

/// The second copy of a press, delivered because a key command matched it, is no second
/// keystroke.
pub proof fn law_press_seen_once(state: IosTouchView, press: UiPress)
    requires
        window::same_double(press.press.timestamp, press.press.timestamp),
    ensures
        !(IosTouchView { last_press: press.press, ..state }).is_new_key(press),
{
}

/// A pencil and a pointer never scroll: their press is a drag from the start, and a drag
/// that lifts only releases its button.
pub proof fn law_pencils_and_pointers_never_scroll(
    state: IosTouchView,
    now: u64,
    touches: Seq<UiTouch>,
    button_mask: usize,
    cancelled: bool,
)
    ensures
        touches.len() > 0 && (touches[0].is_pointer() || touches[0].kind
            == window::UI_TOUCH_TYPE_PENCIL) && state.touch.primary is None ==> state.began(
            now,
            touches,
            button_mask,
        ).touch.primary->0.mode == TouchMode::Drag,
        (state.touch.primary matches Some(primary) && primary.mode == TouchMode::Drag)
            ==> protocol::scrolls_nothing(state.lifted_events(touches, cancelled)) && state.lifted(
            now,
            touches,
            cancelled,
        ).touch.momentum == state.touch.momentum,
{
}

/// A modifier key that is released is not held afterwards.
pub proof fn law_released_modifier_is_off(flags: usize)
    ensures
        !crate::ios::events::flag_modifiers(
            flags & !crate::ios::events::UI_KEY_MODIFIER_CONTROL,
        ).control,
        !crate::ios::events::flag_modifiers(
            flags & !crate::ios::events::UI_KEY_MODIFIER_SHIFT,
        ).shift,
        !crate::ios::events::flag_modifiers(
            flags & !crate::ios::events::UI_KEY_MODIFIER_ALTERNATE,
        ).alt,
        !crate::ios::events::flag_modifiers(
            flags & !crate::ios::events::UI_KEY_MODIFIER_COMMAND,
        ).platform,
{
    assert((flags & !0x4_0000usize) & 0x4_0000usize == 0) by (bit_vector);
    assert((flags & !0x2_0000usize) & 0x2_0000usize == 0) by (bit_vector);
    assert((flags & !0x8_0000usize) & 0x8_0000usize == 0) by (bit_vector);
    assert((flags & !0x10_0000usize) & 0x10_0000usize == 0) by (bit_vector);
}

} // verus!
