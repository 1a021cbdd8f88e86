//! What holds of the touches on an Android window, whatever the fingers do.

use crate::android::window;
use crate::android::window::{
    AndroidTouchView, Measures, MotionAction, MotionEvent, Pointer,
};
use crate::float::{scalar, Scalar};
use crate::geometry::Point;
use crate::input::PlatformInput;
use crate::protocol;
use crate::protocol::{Buttons, Pinching};
use crate::touch;
use crate::touch::laws;
use crate::touch::{TouchMode, TOUCH_SLOP};
use vstd::prelude::*;

verus! {

impl AndroidTouchView {
    /// While two fingers make a gesture, the primary one presses nothing.
    pub open spec fn valid(self) -> bool {
        self.two_finger is Some ==> (self.touch.primary matches Some(primary) ==> primary.mode
            == TouchMode::Cancelled)
    }

    /// What a receiver knows of the pinch: one is under way exactly while two fingers
    /// are down.
    pub open spec fn pinching(self) -> Pinching {
        if self.two_finger is Some {
            Pinching::Active
        } else {
            Pinching::Idle
        }
    }
}

proof fn lemma_meta_events(state: AndroidTouchView, meta: u32)
    ensures
        state.touch.buttons().after_all(state.meta_events(meta)) == state.with_meta(
            meta,
        ).touch.buttons(),
        state.pinching().after_all(state.meta_events(meta)) == state.with_meta(meta).pinching(),
{
    protocol::lemma_buttons_few(state.touch.buttons(), state.meta_events(meta));
    protocol::lemma_pinching_untouched(state.pinching(), state.meta_events(meta));
}

proof fn lemma_moved_by(
    state: AndroidTouchView,
    now: u64,
    pointers: Seq<Pointer>,
    travel: Seq<Scalar>,
    id: i64,
)
    ensures
        state.touch.buttons().after_all(state.moved_by_events(now, pointers, travel, id))
            == state.moved_by(now, pointers, travel, id).touch.buttons(),
        protocol::pinches_nothing(state.moved_by_events(now, pointers, travel, id)),
        state.moved_by(now, pointers, travel, id).two_finger == state.two_finger,
    decreases pointers.len(),
{
    if pointers.len() > 0 {
        let before = state.moved_by(now, pointers.drop_last(), travel, id);
        let sent = state.moved_by_events(now, pointers.drop_last(), travel, id);
        lemma_moved_by(state, now, pointers.drop_last(), travel, id);
        if pointers.last().id == id {
            let last = pointers.last();
            let far = travel[pointers.len() - 1];
            let pressure = window::pressure_of(last);
            laws::law_move_keeps_buttons(before.touch, now, last.position, pressure, far);
            protocol::lemma_buttons_concat(
                state.touch.buttons(),
                sent,
                before.touch.move_events(last.position, pressure, far),
            );
        }
    }
}

proof fn lemma_lifted(
    state: AndroidTouchView,
    now: u64,
    id: i64,
    position: Point,
    cancelled: bool,
    travel: Scalar,
    velocity: Point,
)
    ensures
        state.touch.buttons().after_all(
            state.lifted_events(now, id, position, cancelled, travel, velocity),
        ) == state.lifted(now, id, position, cancelled, travel, velocity).touch.buttons(),
        protocol::pinches_nothing(
            state.lifted_events(now, id, position, cancelled, travel, velocity),
        ),
        state.lifted(now, id, position, cancelled, travel, velocity).two_finger == state.two_finger,
{
    if state.is_primary(id) {
        let sent = state.release_events(position, cancelled, travel);
        let after = state.lifted(now, id, position, cancelled, travel, velocity);
        let rest: Seq<PlatformInput> = if state.touch.primary->0.pointer {
            seq![]
        } else {
            after.lift_events()
        };
        protocol::lemma_buttons_few(state.touch.buttons(), sent);
        protocol::lemma_buttons_few(state.touch.buttons().after_all(sent), rest);
        protocol::lemma_buttons_concat(state.touch.buttons(), sent, rest);
    } else {
        protocol::lemma_buttons_few(state.touch.buttons(), seq![]);
    }
}

/// A two-finger gesture leaves no finger pressed: from its start on, the primary finger
/// is ignored. Every step of the window keeps it so.
pub proof fn law_gesture_owns_fingers(
    state: AndroidTouchView,
    now: u64,
    event: MotionEvent,
    measures: Measures,
    travel: Scalar,
    decayed: Point,
)
    requires
        state.valid(),
    ensures
        state.with_meta(event.meta_state).acted(now, event, measures).valid(),
        state.with_touch(state.touch.claimed()).valid(),
        state.held(now, travel).valid(),
        state.with_touch(state.touch.coasted(now, decayed)).valid(),
{
    let s = state.with_meta(event.meta_state);
    if event.action == MotionAction::Move && s.two_finger is None && s.touch.primary is Some {
        lemma_moved_by(s, now, event.pointers@, measures.travel@, s.touch.primary->0.id);
    }
}

/// Every press is released once, and nothing is released that was not pressed: a
/// motion event leaves a receiver that knew which button was held knowing it still.
/// Left out are a first finger that lands while a button is held, a second one that
/// lands on a long press (it is released all the same), and a second one that the
/// event itself does not locate while a button is held.
pub proof fn law_motion_keeps_buttons(
    state: AndroidTouchView,
    now: u64,
    event: MotionEvent,
    measures: Measures,
)
    requires
        state.valid(),
        event.index < event.pointers@.len(),
        measures.travel@.len() == event.pointers@.len(),
        event.action == MotionAction::Down ==> state.touch.buttons() is Free,
        event.action == MotionAction::PointerDown && state.can_begin() ==> {
            &&& state.touch.primary->0.mode != TouchMode::LongPressed
            &&& state.fingers(event.pointers@) is None ==> state.touch.buttons() is Free
        },
    ensures
        state.touch.buttons().after_all(
            state.meta_events(event.meta_state) + state.with_meta(event.meta_state).action_events(
                now,
                event,
                measures,
            ),
        ) == state.with_meta(event.meta_state).acted(now, event, measures).touch.buttons(),
{
    let meta = event.meta_state;
    let s = state.with_meta(meta);
    let events = s.action_events(now, event, measures);
    let held = s.touch.buttons();
    lemma_meta_events(state, meta);
    protocol::lemma_buttons_concat(state.touch.buttons(), state.meta_events(meta), events);
    let pointer = event.acting();
    let id = pointer.id as i64;
    let travel = measures.travel@[event.index as int];
    match event.action {
        MotionAction::Down => {
            laws::law_press_holds(s.touch, now, event.press(), measures.tap);
        },
        MotionAction::PointerDown => {
            if !event.is_mouse() && s.can_begin() && s.fingers(event.pointers@) is Some {
                laws::law_takeover_releases(s.touch);
                let taken = s.touch.takeover_events();
                let rest = events.subrange(taken.len() as int, events.len() as int);
                assert(events =~= taken + rest);
                protocol::lemma_buttons_concat(held, taken, rest);
                protocol::lemma_buttons_few(Buttons::Free, rest);
            } else {
                protocol::lemma_buttons_few(held, events);
            }
        },
        MotionAction::Move => {
            if s.two_finger is Some {
                protocol::lemma_buttons_few(held, events);
            } else if s.touch.primary is Some {
                lemma_moved_by(
                    s,
                    now,
                    event.pointers@,
                    measures.travel@,
                    s.touch.primary->0.id,
                );
            } else {
                protocol::lemma_buttons_few(held, events);
            }
        },
        MotionAction::PointerUp => {
            protocol::lemma_buttons_few(held, events);
        },
        MotionAction::Up => {
            lemma_lifted(s, now, id, pointer.position, false, travel, measures.velocity);
        },
        MotionAction::Cancel => {
            let parted = s.parted(id, pointer.position);
            protocol::lemma_buttons_few(held, s.part_events());
            lemma_lifted(parted, now, id, pointer.position, true, travel, measures.velocity);
            protocol::lemma_buttons_concat(
                held,
                s.part_events(),
                parted.lifted_events(now, id, pointer.position, true, travel, measures.velocity),
            );
        },
        _ => {
            protocol::lemma_buttons_few(held, events);
        },
    }
}

/// A pinch is reported as a start, moves and an end, and its first and last event change
/// no scale: a motion event leaves a receiver that knew whether a pinch is under way
/// knowing it still. Left out is a first finger that lands while two are down.
pub proof fn law_motion_keeps_pinching(
    state: AndroidTouchView,
    now: u64,
    event: MotionEvent,
    measures: Measures,
)
    requires
        event.index < event.pointers@.len(),
        measures.travel@.len() == event.pointers@.len(),
        event.action == MotionAction::Down ==> state.two_finger is None,
    ensures
        state.pinching().after_all(
            state.meta_events(event.meta_state) + state.with_meta(event.meta_state).action_events(
                now,
                event,
                measures,
            ),
        ) == state.with_meta(event.meta_state).acted(now, event, measures).pinching(),
{
    let meta = event.meta_state;
    let s = state.with_meta(meta);
    let events = s.action_events(now, event, measures);
    let pinching = s.pinching();
    lemma_meta_events(state, meta);
    protocol::lemma_pinching_concat(state.pinching(), state.meta_events(meta), events);
    let pointer = event.acting();
    let id = pointer.id as i64;
    let travel = measures.travel@[event.index as int];
    match event.action {
        MotionAction::PointerDown => {
            if !event.is_mouse() && s.can_begin() && s.fingers(event.pointers@) is Some {
                let taken = s.touch.takeover_events();
                let rest = events.subrange(taken.len() as int, events.len() as int);
                assert(events =~= taken + rest);
                protocol::lemma_pinching_concat(pinching, taken, rest);
                protocol::lemma_pinching_untouched(pinching, taken);
                protocol::lemma_pinching_few(pinching, rest);
            } else {
                protocol::lemma_pinching_few(pinching, events);
            }
        },
        MotionAction::Move => {
            if s.two_finger is None && s.touch.primary is Some {
                lemma_moved_by(s, now, event.pointers@, measures.travel@, s.touch.primary->0.id);
                protocol::lemma_pinching_untouched(pinching, events);
            } else {
                protocol::lemma_pinching_few(pinching, events);
            }
        },
        MotionAction::Up => {
            lemma_lifted(s, now, id, pointer.position, false, travel, measures.velocity);
            protocol::lemma_pinching_untouched(pinching, events);
        },
        MotionAction::Cancel => {
            let parted = s.parted(id, pointer.position);
            let lifted = parted.lifted_events(
                now,
                id,
                pointer.position,
                true,
                travel,
                measures.velocity,
            );
            protocol::lemma_pinching_few(pinching, s.part_events());
            lemma_lifted(parted, now, id, pointer.position, true, travel, measures.velocity);
            protocol::lemma_pinching_untouched(pinching.after_all(s.part_events()), lifted);
            protocol::lemma_pinching_concat(pinching, s.part_events(), lifted);
        },
        _ => {
            protocol::lemma_pinching_few(pinching, events);
        },
    }
}

/// A long press is a whole right click after the left press is taken back; with the
/// momentum of the same frame it leaves the buttons as the receiver knows them.
pub proof fn law_timers_keep_buttons(
    state: AndroidTouchView,
    now: u64,
    travel: Scalar,
    decayed: Point,
)
    ensures
        ({
            let held = state.held(now, travel);
            let events = state.hold_events(now, travel) + held.coast_events(now, decayed);
            &&& state.touch.buttons().after_all(events) == held.with_touch(
                held.touch.coasted(now, decayed),
            ).touch.buttons()
            &&& state.pinching().after_all(events) == state.pinching()
        }),
{
    let held = state.held(now, travel);
    let hold = state.hold_events(now, travel);
    let coast = held.coast_events(now, decayed);
    protocol::lemma_buttons_few(state.touch.buttons(), hold);
    protocol::lemma_buttons_few(held.touch.buttons(), coast);
    protocol::lemma_buttons_concat(state.touch.buttons(), hold, coast);
    protocol::lemma_pinching_untouched(state.pinching(), hold + coast);
}

/// A tap is a press and a release where the finger landed, with one click count, and
/// leaves nothing hovered.
pub proof fn law_tap_is_a_click(
    state: AndroidTouchView,
    now: u64,
    later: u64,
    event: MotionEvent,
    tap: Scalar,
    travel: Scalar,
    velocity: Point,
)
    requires
        event.index < event.pointers@.len(),
        !event.is_mouse(),
        !window::is_pen(event.acting().tool),
        !scalar(TOUCH_SLOP).at_most(travel),
        state.touch.click_count(now, tap) <= usize::MAX,
    ensures
        ({
            let press = event.press();
            let down = state.pressed(now, press, tap);
            let count = state.touch.click_count(now, tap) as usize;
            let modifiers = state.touch.modifiers;
            state.touch.press_events(now, press, tap) + down.lifted_events(
                later,
                press.id,
                press.position,
                false,
                travel,
                velocity,
            ) == seq![
                touch::down_event(
                    press.button,
                    press.position,
                    modifiers,
                    count,
                    scalar(crate::float::ONE),
                ),
                touch::up_event(press.button, press.position, modifiers, count),
                window::lift_event(modifiers),
            ]
        }),
{
}

/// Once a finger or pen has lifted, either the scroll coasts on or the last event takes
/// the mouse off the window.
pub proof fn law_lift_clears_hover(
    state: AndroidTouchView,
    now: u64,
    id: i64,
    position: Point,
    cancelled: bool,
    travel: Scalar,
    velocity: Point,
)
    requires
        state.is_primary(id),
        !state.touch.primary->0.pointer,
    ensures
        ({
            let after = state.lifted(now, id, position, cancelled, travel, velocity);
            let events = state.lifted_events(now, id, position, cancelled, travel, velocity);
            after.touch.momentum is None ==> events.len() > 0 && events.last()
                == window::lift_event(state.touch.modifiers)
        }),
{
}

/// Once a fling has stopped and no finger is down, the last event takes the mouse off
/// the window.
pub proof fn law_fling_clears_hover(state: AndroidTouchView, now: u64, decayed: Point)
    requires
        state.touch.momentum is Some,
        state.touch.primary is None,
        state.touch.coasted(now, decayed).momentum is None,
    ensures
        state.coast_events(now, decayed).last() == window::lift_event(state.touch.modifiers),
{
}

/// A pen and a mouse never scroll: a press is a drag from the start, and a lift releases
/// the button.
pub proof fn law_pens_and_mice_never_scroll(
    state: AndroidTouchView,
    now: u64,
    event: MotionEvent,
    tap: Scalar,
    id: i64,
    position: Point,
    cancelled: bool,
    travel: Scalar,
    velocity: Point,
)
    requires
        event.index < event.pointers@.len(),
    ensures
        event.is_mouse() || window::is_pen(event.acting().tool) ==> state.pressed(
            now,
            event.press(),
            tap,
        ).touch.primary->0.mode == TouchMode::Drag,
        state.is_primary(id) && state.touch.primary->0.mode == TouchMode::Drag ==> {
            &&& protocol::scrolls_nothing(
                state.lifted_events(now, id, position, cancelled, travel, velocity),
            )
            &&& state.lifted(now, id, position, cancelled, travel, velocity).touch.momentum
                == state.touch.momentum
            &&& state.hold_events(now, travel) == Seq::<PlatformInput>::empty()
        },
{
}

/// A pen presses with a pressure from 0 to 1, and everything else with full pressure.
pub proof fn law_pressure_in_range(pointer: Pointer)
    requires
        !pointer.pressure.is_nan(),
    ensures
        0 <= window::pressure_of(pointer).units() <= scalar(crate::float::ONE).units(),
        !window::is_pen(pointer.tool) ==> window::pressure_of(pointer) == scalar(
            crate::float::ONE,
        ),
{
    crate::float::lemma_unit_range(pointer.pressure);
}

/// A drag that two fingers take over is released where it last was; a press that has not
/// moved is released far outside the window.
pub proof fn law_second_finger_releases(
    state: AndroidTouchView,
    pointers: Seq<Pointer>,
    centroid: Point,
)
    requires
        state.can_begin(),
        state.fingers(pointers) is Some,
        state.touch.buttons() is Held,
    ensures
        state.begin_events(pointers, centroid)[0] matches PlatformInput::MouseUp(up) && up.button
            == state.touch.primary->0.button && up.position == if state.touch.primary->0.mode
            == TouchMode::Drag {
            state.touch.mouse_position
        } else {
            touch::cancel_position()
        },
{
}

} // verus!
