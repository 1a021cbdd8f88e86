//! What a finger does, step by step. Distances are compared in pixels.

use crate::float;
use crate::float::{scalar, Scalar};
use crate::geometry::Point;
use crate::input::{
    Capslock, Modifiers, ModifiersChangedEvent, MouseDownEvent, MouseMoveEvent, MouseUpEvent,
    PlatformInput, ScrollDelta, ScrollWheelEvent, TouchPhase,
};
use crate::touch;
use crate::touch::{Momentum, Press, PrimaryView, Sample, Tap, TouchMode, TouchView};
use vstd::prelude::*;

verus! {

/// Whether a number is below so many pixels.
pub open spec fn below_pixels(number: Scalar, pixels: int) -> bool {
    !number.is_nan() && number.units() < pixels * scalar(0x3f80_0000).units()
}

/// Whether a velocity is below 20 pixels per second on both axes, whichever way it points.
pub open spec fn is_slow(velocity: Point) -> bool {
    let limit = 20 * scalar(0x3f80_0000).units();
    &&& !velocity.x.is_nan() && -limit < velocity.x.units() < limit
    &&& !velocity.y.is_nan() && -limit < velocity.y.units() < limit
}

/// A press within 350 milliseconds of the last tap and less than 24 pixels from it counts
/// exactly one more than that, however many came before. Every other press counts one.
pub proof fn law_tap_count_is_exact(state: TouchView, now: u64, tap_distance: Scalar)
    ensures
        match state.last_tap {
            Some(tap) => {
                let repeats = now < tap.at + 350_000_000 && below_pixels(tap_distance, 24);
                &&& repeats ==> state.click_count(now, tap_distance) == tap.count + 1
                &&& !repeats ==> state.click_count(now, tap_distance) == 1
            },
            None => state.click_count(now, tap_distance) == 1,
        },
{
    float::laws::law_small_numbers();
}

/// A press is reported as a press of its button where it landed, with its count and
/// pressure. The finger is from then on the primary one, and any coasting stops.
pub proof fn law_press_step(state: TouchView, now: u64, press: Press, tap_distance: Scalar)
    requires
        state.last_tap matches Some(tap) ==> tap.count < usize::MAX,
    ensures
        ({
            let count = match state.last_tap {
                Some(tap) => if now < tap.at + 350_000_000 && below_pixels(tap_distance, 24) {
                    (tap.count + 1) as usize
                } else {
                    1
                },
                None => 1,
            };
            &&& state.press_events(now, press, tap_distance) == seq![
                PlatformInput::MouseDown(
                    MouseDownEvent {
                        button: press.button,
                        position: press.position,
                        modifiers: state.modifiers,
                        click_count: count,
                        first_mouse: false,
                        pressure: press.pressure,
                        tilt: None,
                    },
                ),
            ]
            &&& state.pressed(now, press, tap_distance) == TouchView {
                primary: Some(
                    PrimaryView {
                        id: press.id,
                        button: press.button,
                        mode: press.mode,
                        pointer: press.pointer,
                        start: press.position,
                        last: press.position,
                        down_at: now,
                        samples: seq![Sample { at: now, position: press.position }],
                    },
                ),
                momentum: None,
                last_tap: Some(Tap { at: now, position: press.position, count }),
                mouse_position: press.position,
                modifiers: state.modifiers,
                capslock: state.capslock,
            }
        }),
{
    law_tap_count_is_exact(state, now, tap_distance);
}

/// What a move of the primary finger sends. A finger that is 8 pixels or more from where
/// it landed scrolls: the press is taken back far outside the window, and the scroll starts
/// with all of the way so far. A scroll goes on from where the last move ended. A drag moves
/// with its button held, and a long press becomes one, pressed where it landed, once it is
/// 8 pixels away.
pub proof fn law_move_events(
    state: TouchView,
    primary: PrimaryView,
    position: Point,
    pressure: Scalar,
    travel: Scalar,
)
    requires
        state.primary == Some(primary),
    ensures
        ({
            let events = state.move_events(position, pressure, travel);
            let near = below_pixels(travel, 8);
            let dragged = PlatformInput::MouseMove(
                MouseMoveEvent {
                    position,
                    pressed_button: Some(primary.button),
                    modifiers: state.modifiers,
                    pressure,
                    tilt: None,
                },
            );
            let far = Point { x: scalar(0xc7c3_5000), y: scalar(0xc7c3_5000) };
            &&& primary.mode == TouchMode::Undecided && near ==> events.len() == 0
            &&& primary.mode == TouchMode::Undecided && !near ==> events == seq![
                PlatformInput::MouseUp(
                    MouseUpEvent {
                        button: primary.button,
                        position: far,
                        modifiers: state.modifiers,
                        click_count: 1,
                        pressure: scalar(0x3f80_0000),
                        tilt: None,
                    },
                ),
                PlatformInput::ScrollWheel(
                    ScrollWheelEvent {
                        position,
                        delta: ScrollDelta::Between { from: primary.start, to: position },
                        modifiers: state.modifiers,
                        touch_phase: TouchPhase::Started,
                    },
                ),
            ]
            &&& primary.mode == TouchMode::Scroll ==> events == seq![
                PlatformInput::ScrollWheel(
                    ScrollWheelEvent {
                        position,
                        delta: ScrollDelta::Between { from: primary.last, to: position },
                        modifiers: state.modifiers,
                        touch_phase: TouchPhase::Moved,
                    },
                ),
            ]
            &&& primary.mode == TouchMode::LongPressed && near ==> events.len() == 0
            &&& primary.mode == TouchMode::LongPressed && !near ==> events == seq![
                PlatformInput::MouseDown(
                    MouseDownEvent {
                        button: primary.button,
                        position: primary.start,
                        modifiers: state.modifiers,
                        click_count: 1,
                        first_mouse: false,
                        pressure,
                        tilt: None,
                    },
                ),
                dragged,
            ]
            &&& primary.mode == TouchMode::Drag ==> events == seq![dragged]
            &&& primary.mode == TouchMode::Cancelled ==> events.len() == 0
        }),
{
    float::laws::law_small_numbers();
}

/// What a move of the primary finger changes: where it is, what is remembered of its way,
/// and, 8 pixels from where it landed, what it does. Everything else stays.
pub proof fn law_move_step(
    state: TouchView,
    primary: PrimaryView,
    now: u64,
    position: Point,
    travel: Scalar,
)
    requires
        state.primary == Some(primary),
        primary.samples.len() <= 8,
    ensures
        ({
            let near = below_pixels(travel, 8);
            let sample = Sample { at: now, position };
            state.moved(now, position, travel) == TouchView {
                primary: Some(
                    PrimaryView {
                        id: primary.id,
                        button: primary.button,
                        mode: if primary.mode == TouchMode::Undecided && !near {
                            TouchMode::Scroll
                        } else if primary.mode == TouchMode::LongPressed && !near {
                            TouchMode::Drag
                        } else {
                            primary.mode
                        },
                        pointer: primary.pointer,
                        start: primary.start,
                        last: position,
                        down_at: primary.down_at,
                        samples: if primary.samples.len() == 8 {
                            primary.samples.skip(1).push(sample)
                        } else {
                            primary.samples.push(sample)
                        },
                    },
                ),
                momentum: state.momentum,
                last_tap: state.last_tap,
                mouse_position: position,
                modifiers: state.modifiers,
                capslock: state.capslock,
            }
        }),
{
    float::laws::law_small_numbers();
}

/// Without a finger down a move does nothing.
pub proof fn law_nothing_moves_alone(
    state: TouchView,
    now: u64,
    position: Point,
    pressure: Scalar,
    travel: Scalar,
)
    requires
        state.primary is None,
    ensures
        state.move_events(position, pressure, travel).len() == 0,
        state.moved(now, position, travel) == state,
        state.takeover_events().len() == 0,
        state.claimed() == state,
{
}

/// Two scrolling moves join: the second starts where the first ended, so the distances add
/// up to the way from where the finger landed.
pub proof fn law_scroll_moves_join(
    state: TouchView,
    primary: PrimaryView,
    now: u64,
    first: Point,
    second: Point,
    pressure: Scalar,
    travel: Scalar,
    further: Scalar,
)
    requires
        state.primary == Some(primary),
        primary.mode == TouchMode::Scroll || (primary.mode == TouchMode::Undecided
            && !below_pixels(travel, 8)),
    ensures
        ({
            let moved = state.moved(now, first, travel);
            let one = state.move_events(first, pressure, travel).last();
            let two = moved.move_events(second, pressure, further).last();
            &&& one->ScrollWheel_0.delta == ScrollDelta::Between {
                from: if primary.mode == TouchMode::Scroll {
                    primary.last
                } else {
                    primary.start
                },
                to: first,
            }
            &&& two->ScrollWheel_0.delta == ScrollDelta::Between { from: first, to: second }
        }),
{
    float::laws::law_small_numbers();
}

/// A gesture that takes over releases a press that has not moved far outside the window,
/// and a drag where it is; a scroll has nothing to release.
pub proof fn law_takeover_step(state: TouchView, primary: PrimaryView)
    requires
        state.primary == Some(primary),
    ensures
        ({
            let far = Point { x: scalar(0xc7c3_5000), y: scalar(0xc7c3_5000) };
            &&& primary.mode == TouchMode::Scroll || primary.mode == TouchMode::Cancelled
                ==> state.takeover_events().len() == 0
            &&& primary.mode != TouchMode::Scroll && primary.mode != TouchMode::Cancelled
                ==> state.takeover_events() == seq![
                PlatformInput::MouseUp(
                    MouseUpEvent {
                        button: primary.button,
                        position: if primary.mode == TouchMode::Drag {
                            state.mouse_position
                        } else {
                            far
                        },
                        modifiers: state.modifiers,
                        click_count: 1,
                        pressure: scalar(0x3f80_0000),
                        tilt: None,
                    },
                ),
            ]
            &&& state.taken_over() == TouchView {
                primary: Some(PrimaryView { mode: TouchMode::Cancelled, ..primary }),
                momentum: None,
                ..state
            }
        }),
{
}

/// A press that is claimed drags from then on. Nothing else can be claimed.
pub proof fn law_claim_step(state: TouchView, primary: PrimaryView)
    requires
        state.primary == Some(primary),
    ensures
        primary.mode == TouchMode::Undecided ==> state.claimed() == (TouchView {
            primary: Some(PrimaryView { mode: TouchMode::Drag, ..primary }),
            ..state
        }),
        primary.mode != TouchMode::Undecided ==> state.claimed() == state,
{
}

/// The sample that a fling is measured from is the oldest one of the last 120
/// milliseconds; there is none where all are older.
pub proof fn law_fling_sample(samples: Seq<Sample>, now: u64)
    ensures
        match touch::fling_sample(samples, now) {
            Some(sample) => exists|i: int|
                0 <= i < samples.len() && #[trigger] samples[i] == sample && now <= sample.at
                    + 120_000_000 && (forall|k: int|
                    0 <= k < i ==> now > (#[trigger] samples[k]).at + 120_000_000),
            None => forall|k: int|
                0 <= k < samples.len() ==> now > (#[trigger] samples[k]).at + 120_000_000,
        },
    decreases samples.len(),
{
    if samples.len() > 0 {
        if now <= samples[0].at + 120_000_000 {
            assert(samples[0] == touch::fling_sample(samples, now)->0);
        } else {
            let rest = samples.drop_first();
            law_fling_sample(rest, now);
            match touch::fling_sample(rest, now) {
                Some(sample) => {
                    let i = choose|i: int|
                        0 <= i < rest.len() && #[trigger] rest[i] == sample && now <= sample.at
                            + 120_000_000 && (forall|k: int|
                            0 <= k < i ==> now > (#[trigger] rest[k]).at + 120_000_000);
                    assert(samples[i + 1] == sample);
                    assert forall|k: int| 0 <= k < i + 1 implies now > (#[trigger] samples[k]).at
                        + 120_000_000 by {
                        if k > 0 {
                            assert(rest[k - 1] == samples[k]);
                        }
                    }
                },
                None => {
                    assert forall|k: int| 0 <= k < samples.len() implies now > (
                    #[trigger] samples[k]).at + 120_000_000 by {
                        if k > 0 {
                            assert(rest[k - 1] == samples[k]);
                        }
                    }
                },
            }
        }
    }
}

/// A finger that lifts while it moves at 20 pixels per second or more on either axis
/// flings: the scroll coasts on with its velocity from where it lifted. A slower one, and
/// one with no sample to measure from, does not.
pub proof fn law_fling_step(
    state: TouchView,
    primary: PrimaryView,
    now: u64,
    position: Point,
    modifiers: Modifiers,
    velocity: Point,
    sample: Sample,
)
    ensures
        touch::fling_sample(primary.samples, now) == Some(sample) && sample.at < now && !is_slow(
            velocity,
        ) ==> state.flung(primary, now, position, modifiers, velocity) == (TouchView {
            momentum: Some(Momentum { velocity, position, modifiers, last_tick: now }),
            ..state
        }),
        touch::fling_sample(primary.samples, now) is None || is_slow(velocity) || (
        touch::fling_sample(primary.samples, now) == Some(sample) && sample.at >= now)
            ==> state.flung(primary, now, position, modifiers, velocity) == state,
{
    lemma_slow(velocity);
}

proof fn lemma_slow(velocity: Point)
    ensures
        touch::too_slow(velocity) == is_slow(velocity),
{
    float::laws::law_small_numbers();
    float::laws::law_signs(velocity.x);
    float::laws::law_signs(velocity.y);
}

/// A step of coasting covers what the velocity makes of the time since the last step, at
/// most a tenth of a second. The scroll ends with the step after which it is too slow.
pub proof fn law_coast_step(state: TouchView, momentum: Momentum, now: u64, decayed: Point)
    requires
        state.momentum == Some(momentum),
    ensures
        ({
            let nanos = if now < momentum.last_tick {
                0
            } else if now - momentum.last_tick < 100_000_000 {
                (now - momentum.last_tick) as u64
            } else {
                100_000_000
            };
            &&& TouchView::coast_nanos(momentum, now) == nanos
            &&& state.coast_events(now, decayed) == seq![
                PlatformInput::ScrollWheel(
                    ScrollWheelEvent {
                        position: momentum.position,
                        delta: ScrollDelta::Coast { velocity: momentum.velocity, nanos },
                        modifiers: momentum.modifiers,
                        touch_phase: if is_slow(decayed) {
                            TouchPhase::Ended
                        } else {
                            TouchPhase::Moved
                        },
                    },
                ),
            ]
            &&& is_slow(decayed) ==> state.coasted(now, decayed) == TouchView {
                momentum: None,
                ..state
            }
            &&& !is_slow(decayed) ==> state.coasted(now, decayed) == TouchView {
                momentum: Some(
                    Momentum {
                        velocity: decayed,
                        position: momentum.position,
                        modifiers: momentum.modifiers,
                        last_tick: now,
                    },
                ),
                ..state
            }
        }),
{
    lemma_slow(decayed);
}

/// Without momentum nothing coasts.
pub proof fn law_nothing_coasts_alone(state: TouchView, now: u64, decayed: Point)
    requires
        state.momentum is None,
    ensures
        state.coast_events(now, decayed).len() == 0,
        state.coasted(now, decayed) == state,
{
}

/// A change of the modifiers or of caps lock is reported, and remembered.
pub proof fn law_modifiers_step(state: TouchView, modifiers: Modifiers, capslock: Capslock)
    ensures
        state.modifiers != modifiers || state.capslock != capslock ==> state.modifiers_events(
            modifiers,
            capslock,
        ) == seq![
            PlatformInput::ModifiersChanged(ModifiersChangedEvent { modifiers, capslock }),
        ],
        state.modifiers == modifiers && state.capslock == capslock ==> state.modifiers_events(
            modifiers,
            capslock,
        ).len() == 0,
        state.with_modifiers(modifiers, capslock) == (TouchView { modifiers, capslock, ..state }),
{
}

/// Time passed is never negative.
pub proof fn law_time_passed(now: u64, earlier: u64)
    ensures
        earlier <= now ==> touch::since(now, earlier) == now - earlier,
        now < earlier ==> touch::since(now, earlier) == 0,
{
}

} // verus!
