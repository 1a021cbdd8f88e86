//! What holds of a finger whatever it does.

use crate::float::Scalar;
use crate::geometry::Point;
use crate::input::{Capslock, Modifiers, PlatformInput};
use crate::protocol;
use crate::protocol::{Buttons, Pinching};
use crate::touch;
use crate::touch::{Press, Sample, TouchMode, TouchView, SAMPLE_COUNT};
use vstd::prelude::*;

verus! {

impl TouchView {
    /// What a receiver of all events so far knows of the mouse buttons: a button is
    /// held exactly while the primary finger is undecided or dragging.
    pub open spec fn buttons(self) -> Buttons {
        match self.primary {
            Some(primary) => match primary.mode {
                TouchMode::Undecided | TouchMode::Drag => Buttons::Held(primary.button),
                _ => Buttons::Free,
            },
            None => Buttons::Free,
        }
    }

    /// The state keeps few samples.
    pub open spec fn bounded(self) -> bool {
        match self.primary {
            Some(primary) => primary.samples.len() <= SAMPLE_COUNT,
            None => true,
        }
    }
}

/// A press that finds no button held is reported as a press of its button.
pub proof fn law_press_holds(state: TouchView, now: u64, press: Press, tap: Scalar)
    requires
        state.buttons() is Free,
        press.mode == TouchMode::Undecided || press.mode == TouchMode::Drag,
    ensures
        state.buttons().after_all(state.press_events(now, press, tap)) == state.pressed(
            now,
            press,
            tap,
        ).buttons(),
{
    protocol::lemma_buttons_few(state.buttons(), state.press_events(now, press, tap));
}

/// However the primary finger moves, the receiver's idea of the buttons stays right:
/// a press that becomes a scroll is released, a long press that becomes a drag is
/// pressed.
pub proof fn law_move_keeps_buttons(
    state: TouchView,
    now: u64,
    position: Point,
    pressure: Scalar,
    travel: Scalar,
)
    ensures
        state.buttons().after_all(state.move_events(position, pressure, travel)) == state.moved(
            now,
            position,
            travel,
        ).buttons(),
{
    protocol::lemma_buttons_few(state.buttons(), state.move_events(position, pressure, travel));
}

/// A gesture that takes over releases what was pressed. A long press has nothing
/// pressed, yet gets a release all the same, so it is left out here.
pub proof fn law_takeover_releases(state: TouchView)
    requires
        state.primary matches Some(primary) ==> primary.mode != TouchMode::LongPressed,
    ensures
        state.buttons().after_all(state.takeover_events()) == Buttons::Free,
        state.taken_over().buttons() is Free,
{
    protocol::lemma_buttons_few(state.buttons(), state.takeover_events());
}

/// Claiming a press as a drag does not release it.
pub proof fn law_claim_keeps_buttons(state: TouchView)
    ensures
        state.claimed().buttons() == state.buttons(),
{
}

/// A claimed press, a pen and a mouse never scroll: a move reports the drag with the
/// button held and leaves it a drag, however far it goes.
pub proof fn law_drag_never_scrolls(
    state: TouchView,
    now: u64,
    position: Point,
    pressure: Scalar,
    travel: Scalar,
)
    requires
        state.primary matches Some(primary) && primary.mode == TouchMode::Drag,
    ensures
        state.move_events(position, pressure, travel) == seq![
            touch::drag_event(position, state.primary->0.button, state.modifiers, pressure),
        ],
        state.moved(now, position, travel).primary->0.mode == TouchMode::Drag,
        protocol::scrolls_nothing(state.move_events(position, pressure, travel)),
{
}

/// A claimed press is a drag at once, so a press whose handler claims it never
/// scrolls.
pub proof fn law_claim_makes_drag(state: TouchView, now: u64, press: Press, tap: Scalar)
    requires
        press.mode == TouchMode::Undecided,
    ensures
        state.pressed(now, press, tap).claimed().primary->0.mode == TouchMode::Drag,
{
}

/// A press that has begun to scroll, and one that a gesture took, can no longer be
/// claimed.
pub proof fn law_claim_is_early(state: TouchView)
    requires
        state.primary matches Some(primary) ==> primary.mode != TouchMode::Undecided,
    ensures
        state.claimed() == state,
{
}

/// A finger that a gesture took is ignored until it lifts.
pub proof fn law_cancelled_is_silent(
    state: TouchView,
    now: u64,
    position: Point,
    pressure: Scalar,
    travel: Scalar,
)
    requires
        state.primary matches Some(primary) && primary.mode == TouchMode::Cancelled,
    ensures
        state.move_events(position, pressure, travel) == Seq::<PlatformInput>::empty(),
        state.moved(now, position, travel).primary->0.mode == TouchMode::Cancelled,
{
}

/// A finger within the slop of where it landed sends nothing.
pub proof fn law_slop_is_silent(state: TouchView, position: Point, pressure: Scalar, travel: Scalar)
    requires
        state.primary matches Some(primary) && (primary.mode == TouchMode::Undecided
            || primary.mode == TouchMode::LongPressed),
        travel.below(crate::float::scalar(touch::TOUCH_SLOP)),
    ensures
        state.move_events(position, pressure, travel) == Seq::<PlatformInput>::empty(),
{
}

/// No more than the newest samples are ever kept, and the newest is the finger's
/// position.
pub proof fn law_samples_bounded(
    state: TouchView,
    now: u64,
    press: Press,
    tap: Scalar,
    position: Point,
    travel: Scalar,
)
    requires
        state.bounded(),
    ensures
        state.pressed(now, press, tap).bounded(),
        state.claimed().bounded(),
        state.taken_over().bounded(),
        state.moved(now, position, travel).bounded(),
        state.primary is Some ==> state.moved(now, position, travel).primary->0.samples.last() == (
        Sample { at: now, position }),
{
}

/// A press soon after another and close to it counts one click more; one that is late
/// or far away is a first click.
pub proof fn law_clicks_count_up(
    state: TouchView,
    first: Press,
    at: u64,
    then: u64,
    tap: Scalar,
    again: Scalar,
)
    requires
        state.click_count(at, tap) <= usize::MAX,
    ensures
        ({
            let quick = touch::since(then, at) < touch::MULTI_TAP_INTERVAL;
            let near = again.below(crate::float::scalar(touch::MULTI_TAP_DISTANCE));
            state.pressed(at, first, tap).click_count(then, again) == if quick && near {
                state.click_count(at, tap) + 1
            } else {
                1
            }
        }),
{
}

/// Momentum that has run out ends the scroll; until then it goes on.
pub proof fn law_momentum_ends_once(state: TouchView, now: u64, decayed: Point)
    requires
        state.momentum is Some,
    ensures
        state.coast_events(now, decayed).len() == 1,
        state.coast_events(now, decayed)[0] matches PlatformInput::ScrollWheel(scroll) && (
        scroll.touch_phase is Ended <==> state.coasted(now, decayed).momentum is None),
        state.coasted(now, decayed).momentum is None ==> state.coasted(now, decayed).coast_events(
            now,
            decayed,
        ) == Seq::<PlatformInput>::empty(),
{
}

/// A press stops a scroll that is still coasting.
pub proof fn law_press_stops_momentum(state: TouchView, now: u64, press: Press, tap: Scalar)
    ensures
        state.pressed(now, press, tap).momentum is None,
        state.taken_over().momentum is None,
{
}

/// The modifiers are reported once for each change.
pub proof fn law_modifiers_reported_once(state: TouchView, modifiers: Modifiers, capslock: Capslock)
    ensures
        state.with_modifiers(modifiers, capslock).modifiers_events(modifiers, capslock)
            == Seq::<PlatformInput>::empty(),
        state.modifiers_events(modifiers, capslock).len() == 0 <==> state.with_modifiers(
            modifiers,
            capslock,
        ) == state,
{
}

/// One finger alone never pinches.
pub proof fn law_one_finger_never_pinches(
    state: TouchView,
    pinching: Pinching,
    position: Point,
    pressure: Scalar,
    travel: Scalar,
    now: u64,
    press: Press,
    tap: Scalar,
    decayed: Point,
)
    ensures
        pinching.after_all(state.move_events(position, pressure, travel)) == pinching,
        pinching.after_all(state.press_events(now, press, tap)) == pinching,
        pinching.after_all(state.takeover_events()) == pinching,
        pinching.after_all(state.coast_events(now, decayed)) == pinching,
{
    protocol::lemma_pinching_untouched(
        pinching,
        state.move_events(position, pressure, travel),
    );
    protocol::lemma_pinching_untouched(pinching, state.press_events(now, press, tap));
    protocol::lemma_pinching_untouched(pinching, state.takeover_events());
    protocol::lemma_pinching_untouched(pinching, state.coast_events(now, decayed));
}

} // verus!
