//! What two fingers do, event by event and over a whole gesture.

use crate::android::window;
use crate::android::window::{
    AndroidTouchView, Measures, MotionAction, MotionEvent, Pointer, TwoFingerGesture,
};
use crate::float::{scalar, Scalar};
use crate::geometry::Point;
use crate::input::{
    MouseUpEvent, PinchDelta, PinchEvent, PlatformInput, ScrollDelta, ScrollWheelEvent, TouchPhase,
};
use crate::touch::{PrimaryView, TouchMode, TouchView};
use vstd::prelude::*;

verus! {

/// A pointer that stands among the pointers has a position.
proof fn lemma_located(pointers: Seq<Pointer>, index: int)
    requires
        0 <= index < pointers.len(),
    ensures
        window::position_of(pointers, pointers[index].id as i64) is Some,
    decreases pointers.len(),
{
    if pointers.last().id != pointers[index].id {
        assert(pointers.drop_last()[index] == pointers[index]);
        lemma_located(pointers.drop_last(), index);
    }
}

/// Where an id occurs once, its position is that of the pointer that has it.
proof fn lemma_position(pointers: Seq<Pointer>, index: int)
    requires
        0 <= index < pointers.len(),
        forall|k: int| index < k < pointers.len() ==> (#[trigger] pointers[k]).id != pointers[index].id,
    ensures
        window::position_of(pointers, pointers[index].id as i64) == Some(pointers[index].position),
    decreases pointers.len(),
{
    if index < pointers.len() - 1 {
        let rest = pointers.drop_last();
        assert(pointers.last() == pointers[pointers.len() - 1]);
        assert(rest[index] == pointers[index]);
        assert forall|k: int| index < k < rest.len() implies (#[trigger] rest[k]).id
            != rest[index].id by {
            assert(rest[k] == pointers[k]);
        }
        lemma_position(rest, index);
    }
}

proof fn lemma_absent(pointers: Seq<Pointer>, id: i64)
    requires
        forall|k: int| 0 <= k < pointers.len() ==> (#[trigger] pointers[k]).id != id,
    ensures
        window::position_of(pointers, id) is None,
    decreases pointers.len(),
{
    if pointers.len() > 0 {
        let rest = pointers.drop_last();
        assert(pointers.last() == pointers[pointers.len() - 1]);
        assert forall|k: int| 0 <= k < rest.len() implies (#[trigger] rest[k]).id != id by {
            assert(rest[k] == pointers[k]);
        }
        lemma_absent(rest, id);
    }
}

/// The first pointer other than `id` is the second finger.
proof fn lemma_other(pointers: Seq<Pointer>, id: i64, index: int)
    requires
        0 <= index < pointers.len(),
        pointers[index].id != id,
        forall|k: int| 0 <= k < index ==> (#[trigger] pointers[k]).id == id,
    ensures
        window::other_than(pointers, id) == Some(pointers[index].id as i64),
    decreases pointers.len(),
{
    if index > 0 {
        let rest = pointers.drop_first();
        assert(pointers[0].id == id);
        assert(rest[index - 1] == pointers[index]);
        assert forall|k: int| 0 <= k < index - 1 implies (#[trigger] rest[k]).id == id by {
            assert(rest[k] == pointers[k + 1]);
        }
        lemma_other(rest, id, index - 1);
    }
}

/// The two fingers are the pointers with their ids: the primary pointer and, while a
/// gesture is under way, the pointer that began it. Before that the second finger is the
/// first pointer that is not the primary one, `other`. Where several pointers share an id
/// the last of them counts.
pub proof fn law_fingers_are_found(
    state: AndroidTouchView,
    pointers: Seq<Pointer>,
    first: int,
    second: int,
    other: int,
)
    requires
        state.touch.primary is Some,
        0 <= first < pointers.len(),
        0 <= second < pointers.len(),
        pointers[first].id == state.touch.primary->0.id,
        pointers[second].id != state.touch.primary->0.id,
        forall|k: int|
            first < k < pointers.len() ==> (#[trigger] pointers[k]).id != pointers[first].id,
        forall|k: int|
            second < k < pointers.len() ==> (#[trigger] pointers[k]).id != pointers[second].id,
        match state.two_finger {
            Some(gesture) => pointers[second].id == gesture.pointer_id,
            None => 0 <= other < pointers.len() && pointers[other].id == pointers[second].id
                && forall|k: int| 0 <= k < other ==> (#[trigger] pointers[k]).id
                == pointers[first].id,
        },
    ensures
        state.fingers(pointers) == Some((pointers[first].position, pointers[second].position)),
{
    lemma_position(pointers, first);
    lemma_position(pointers, second);
    if state.two_finger is None {
        lemma_other(pointers, pointers[first].id as i64, other);
    }
}

/// One finger alone is no two: before a gesture, nothing is found where every pointer is
/// the primary one, or none is.
pub proof fn law_one_finger_is_no_two(state: AndroidTouchView, pointers: Seq<Pointer>)
    requires
        state.two_finger is None,
        match state.touch.primary {
            Some(primary) => (forall|k: int|
                0 <= k < pointers.len() ==> (#[trigger] pointers[k]).id == primary.id) || (forall|
                k: int,
            |
                0 <= k < pointers.len() ==> (#[trigger] pointers[k]).id != primary.id),
            None => true,
        },
    ensures
        state.fingers(pointers) is None,
{
    if let Some(primary) = state.touch.primary {
        if forall|k: int| 0 <= k < pointers.len() ==> (#[trigger] pointers[k]).id != primary.id {
            lemma_absent(pointers, primary.id);
        } else {
            lemma_no_other(pointers, primary.id);
        }
    }
}

proof fn lemma_no_other(pointers: Seq<Pointer>, id: i64)
    requires
        forall|k: int| 0 <= k < pointers.len() ==> (#[trigger] pointers[k]).id == id,
    ensures
        window::other_than(pointers, id) is None,
    decreases pointers.len(),
{
    if pointers.len() > 0 {
        let rest = pointers.drop_first();
        assert(pointers[0].id == id);
        assert forall|k: int| 0 <= k < rest.len() implies (#[trigger] rest[k]).id == id by {
            assert(rest[k] == pointers[k + 1]);
        }
        lemma_no_other(rest, id);
    }
}

/// No finger is found where one of the two is not among the pointers.
pub proof fn law_missing_finger_is_not_found(
    state: AndroidTouchView,
    pointers: Seq<Pointer>,
    gesture: TwoFingerGesture,
)
    requires
        state.two_finger == Some(gesture),
        match state.touch.primary {
            Some(primary) => (forall|k: int|
                0 <= k < pointers.len() ==> (#[trigger] pointers[k]).id != primary.id) || (forall|
                k: int,
            |
                0 <= k < pointers.len() ==> (#[trigger] pointers[k]).id != gesture.pointer_id),
            None => true,
        },
    ensures
        state.fingers(pointers) is None,
{
    if let Some(primary) = state.touch.primary {
        if forall|k: int| 0 <= k < pointers.len() ==> (#[trigger] pointers[k]).id != primary.id {
            lemma_absent(pointers, primary.id);
        } else {
            lemma_absent(pointers, gesture.pointer_id);
        }
    }
}

impl AndroidTouchView {
    /// While two fingers are down, the separation that the next pinch is measured
    /// against is 1 or more.
    pub open spec fn measured(self) -> bool {
        self.two_finger matches Some(gesture) ==> {
            &&& !gesture.last_distance.is_nan()
            &&& scalar(0x3f80_0000).units() <= gesture.last_distance.units()
        }
    }
}

proof fn lemma_one_is_positive()
    ensures
        0 < scalar(0x3f80_0000).units(),
        scalar(0).units() == 0,
{
    crate::float::lemma_unit_range(scalar(0));
}

/// The separation that a gesture remembers is always 1 or more: a second finger that
/// lands makes it so, and every event after it keeps it so.
pub proof fn law_separation_is_never_below_one(
    state: AndroidTouchView,
    now: u64,
    event: MotionEvent,
    measures: Measures,
)
    requires
        state.measured(),
        event.index < event.pointers@.len(),
        measures.travel@.len() == event.pointers@.len(),
    ensures
        state.with_meta(event.meta_state).acted(now, event, measures).measured(),
{
    let s = state.with_meta(event.meta_state);
    if event.action == MotionAction::Move && s.two_finger is None && s.touch.primary is Some {
        lemma_move_begins_nothing(
            s,
            now,
            event.pointers@,
            measures.travel@,
            s.touch.primary->0.id,
        );
    }
}

proof fn lemma_move_begins_nothing(
    state: AndroidTouchView,
    now: u64,
    pointers: Seq<Pointer>,
    travel: Seq<Scalar>,
    id: i64,
)
    ensures
        state.moved_by(now, pointers, travel, id).two_finger == state.two_finger,
    decreases pointers.len(),
{
    if pointers.len() > 0 {
        lemma_move_begins_nothing(state, now, pointers.drop_last(), travel, id);
    }
}

/// A move of two fingers scrolls from their last midpoint to the new one, and pinches by
/// the new separation over the one before, whether they draw apart or together. A
/// separation below 1 counts as 1.
pub proof fn law_two_fingers_pinch_by_the_ratio(
    state: AndroidTouchView,
    now: u64,
    event: MotionEvent,
    measures: Measures,
    first: int,
    second: int,
)
    requires
        state.measured(),
        event.action == MotionAction::Move,
        state.touch.primary is Some,
        state.two_finger is Some,
        state.touch.primary->0.id != state.two_finger->0.pointer_id,
        0 <= first < event.pointers@.len(),
        0 <= second < event.pointers@.len(),
        event.pointers@[first].id == state.touch.primary->0.id,
        event.pointers@[second].id == state.two_finger->0.pointer_id,
    ensures
        ({
            let gesture = state.two_finger->0;
            let separation = if scalar(0x3f80_0000).below(measures.separation) {
                measures.separation
            } else {
                scalar(0x3f80_0000)
            };
            let modifiers = state.touch.modifiers;
            &&& state.action_events(now, event, measures) == seq![
                PlatformInput::ScrollWheel(
                    ScrollWheelEvent {
                        position: measures.centroid,
                        delta: ScrollDelta::Between {
                            from: gesture.last_centroid,
                            to: measures.centroid,
                        },
                        modifiers,
                        touch_phase: TouchPhase::Moved,
                    },
                ),
                PlatformInput::Pinch(
                    PinchEvent {
                        position: measures.centroid,
                        delta: PinchDelta::Ratio { now: separation, before: gesture.last_distance },
                        scale: scalar(0x3f80_0000),
                        modifiers,
                        phase: TouchPhase::Moved,
                    },
                ),
            ]
            &&& state.acted(now, event, measures) == AndroidTouchView {
                touch: TouchView { mouse_position: measures.centroid, ..state.touch },
                two_finger: Some(
                    TwoFingerGesture {
                        pointer_id: gesture.pointer_id,
                        last_centroid: measures.centroid,
                        last_distance: separation,
                    },
                ),
            }
        }),
{
    lemma_located(event.pointers@, first);
    lemma_located(event.pointers@, second);
    lemma_one_is_positive();
}

/// A separation of zero or less, which no gesture remembers, would change no scale.
pub proof fn law_no_ratio_to_nothing(
    state: AndroidTouchView,
    pointers: Seq<Pointer>,
    centroid: Point,
    separation: Scalar,
)
    requires
        state.two_finger is Some,
        state.fingers(pointers) is Some,
    ensures
        ({
            let before = state.two_finger->0.last_distance;
            let events = state.stretch_events(pointers, centroid, separation);
            &&& events.len() == 2
            &&& events[1] is Pinch
            &&& events[1]->Pinch_0.delta is Ratio <==> !before.is_nan() && 0 < before.units()
            &&& before.is_nan() || before.units() <= 0 ==> events[1]->Pinch_0.delta
                == PinchDelta::Unchanged
        }),
{
    lemma_one_is_positive();
}

/// A move of two fingers that the event does not both locate does nothing.
pub proof fn law_unlocated_fingers_do_nothing(
    state: AndroidTouchView,
    now: u64,
    event: MotionEvent,
    measures: Measures,
)
    requires
        event.action == MotionAction::Move,
        state.two_finger is Some,
        match state.touch.primary {
            Some(primary) => (forall|k: int|
                0 <= k < event.pointers@.len() ==> (#[trigger] event.pointers@[k]).id
                    != primary.id) || (forall|k: int|
                0 <= k < event.pointers@.len() ==> (#[trigger] event.pointers@[k]).id
                    != state.two_finger->0.pointer_id),
            None => true,
        },
    ensures
        state.action_events(now, event, measures) == Seq::<PlatformInput>::empty(),
        state.acted(now, event, measures) == state,
{
    law_missing_finger_is_not_found(state, event.pointers@, state.two_finger->0);
}

/// Moves of two fingers, one after the other: the pointers of each, with the midpoint
/// and the separation measured between the fingers.
pub struct Stretch {
    pub pointers: Seq<Pointer>,
    pub centroid: Point,
    pub separation: Scalar,
}

pub open spec fn stretched_by(state: AndroidTouchView, moves: Seq<Stretch>) -> AndroidTouchView
    decreases moves.len(),
{
    if moves.len() == 0 {
        state
    } else {
        stretched_by(state, moves.drop_last()).stretched(
            moves.last().pointers,
            moves.last().centroid,
            moves.last().separation,
        )
    }
}

/// The pinch event of each move.
pub open spec fn pinches(state: AndroidTouchView, moves: Seq<Stretch>) -> Seq<PlatformInput>
    decreases moves.len(),
{
    if moves.len() == 0 {
        seq![]
    } else {
        pinches(state, moves.drop_last()).push(
            stretched_by(state, moves.drop_last()).stretch_events(
                moves.last().pointers,
                moves.last().centroid,
                moves.last().separation,
            )[1],
        )
    }
}

/// The product of the new measures of the pinches, and of the ones before them.
pub open spec fn product_now(pinches: Seq<PlatformInput>) -> int
    decreases pinches.len(),
{
    if pinches.len() == 0 {
        1
    } else {
        product_now(pinches.drop_last()) * pinches.last()->Pinch_0.delta->now.units()
    }
}

pub open spec fn product_before(pinches: Seq<PlatformInput>) -> int
    decreases pinches.len(),
{
    if pinches.len() == 0 {
        1
    } else {
        product_before(pinches.drop_last()) * pinches.last()->Pinch_0.delta->before.units()
    }
}

/// Whether both fingers stand among the pointers of every move.
pub open spec fn both_located(moves: Seq<Stretch>, first: i64, second: i64) -> bool {
    forall|k: int| #![trigger moves[k]]
        0 <= k < moves.len() ==> window::position_of(moves[k].pointers, first) is Some
            && window::position_of(moves[k].pointers, second) is Some
}

/// Over any moves of two fingers every pinch is a ratio, each starts where the one before
/// ended, and their product is the last separation over the first.
pub proof fn law_pinches_multiply_up(state: AndroidTouchView, moves: Seq<Stretch>)
    requires
        state.measured(),
        state.touch.primary is Some,
        state.two_finger is Some,
        state.touch.primary->0.id != state.two_finger->0.pointer_id,
        both_located(moves, state.touch.primary->0.id, state.two_finger->0.pointer_id),
    ensures
        ({
            let all = pinches(state, moves);
            let first = state.two_finger->0.last_distance;
            let last = if moves.len() == 0 {
                first
            } else if scalar(0x3f80_0000).below(moves.last().separation) {
                moves.last().separation
            } else {
                scalar(0x3f80_0000)
            };
            &&& all.len() == moves.len()
            &&& forall|k: int|
                0 <= k < all.len() ==> (#[trigger] all[k]) is Pinch && all[k]->Pinch_0.delta
                    is Ratio
            &&& forall|i: int, k: int| #![trigger all[i], all[k]]
                0 <= i < k < all.len() && k == i + 1 ==> all[k]->Pinch_0.delta->before
                    == all[i]->Pinch_0.delta->now
            &&& all.len() > 0 ==> all[0]->Pinch_0.delta->before == first
            &&& all.len() > 0 ==> all.last()->Pinch_0.delta->now == last
            &&& product_now(all) * first.units() == product_before(all) * last.units()
        }),
{
    lemma_pinches(state, moves);
}

/// One move of two located fingers.
proof fn lemma_one_stretch(state: AndroidTouchView, step: Stretch)
    requires
        state.measured(),
        state.touch.primary is Some,
        state.two_finger is Some,
        state.touch.primary->0.id != state.two_finger->0.pointer_id,
        window::position_of(step.pointers, state.touch.primary->0.id) is Some,
        window::position_of(step.pointers, state.two_finger->0.pointer_id) is Some,
    ensures
        ({
            let after = state.stretched(step.pointers, step.centroid, step.separation);
            let sent = state.stretch_events(step.pointers, step.centroid, step.separation)[1];
            let to = if scalar(0x3f80_0000).below(step.separation) {
                step.separation
            } else {
                scalar(0x3f80_0000)
            };
            &&& after.measured()
            &&& after.two_finger is Some
            &&& after.touch.primary == state.touch.primary
            &&& after.two_finger->0.pointer_id == state.two_finger->0.pointer_id
            &&& after.two_finger->0.last_distance == to
            &&& sent is Pinch
            &&& sent->Pinch_0.delta == PinchDelta::Ratio {
                now: to,
                before: state.two_finger->0.last_distance,
            }
        }),
{
    lemma_one_is_positive();
}

proof fn lemma_pinches(state: AndroidTouchView, moves: Seq<Stretch>)
    requires
        state.measured(),
        state.touch.primary is Some,
        state.two_finger is Some,
        state.touch.primary->0.id != state.two_finger->0.pointer_id,
        both_located(moves, state.touch.primary->0.id, state.two_finger->0.pointer_id),
    ensures
        ({
            let all = pinches(state, moves);
            let first = state.two_finger->0.last_distance;
            let last = if moves.len() == 0 {
                first
            } else if scalar(0x3f80_0000).below(moves.last().separation) {
                moves.last().separation
            } else {
                scalar(0x3f80_0000)
            };
            let after = stretched_by(state, moves);
            &&& after.measured()
            &&& after.two_finger is Some
            &&& after.touch.primary == state.touch.primary
            &&& after.two_finger->0.pointer_id == state.two_finger->0.pointer_id
            &&& after.two_finger->0.last_distance == last
            &&& all.len() == moves.len()
            &&& forall|k: int|
                0 <= k < all.len() ==> (#[trigger] all[k]) is Pinch && all[k]->Pinch_0.delta
                    is Ratio
            &&& forall|i: int, k: int| #![trigger all[i], all[k]]
                0 <= i < k < all.len() && k == i + 1 ==> all[k]->Pinch_0.delta->before
                    == all[i]->Pinch_0.delta->now
            &&& all.len() > 0 ==> all[0]->Pinch_0.delta->before == first
            &&& all.len() > 0 ==> all.last()->Pinch_0.delta->now == last
            &&& product_now(all) * first.units() == product_before(all) * last.units()
        }),
    decreases moves.len(),
{
    if moves.len() > 0 {
        let rest = moves.drop_last();
        let primary = state.touch.primary->0.id;
        let second = state.two_finger->0.pointer_id;
        assert(both_located(rest, primary, second)) by {
            assert forall|k: int| #![trigger rest[k]] 0 <= k < rest.len() implies window::position_of(
                rest[k].pointers,
                primary,
            ) is Some && window::position_of(rest[k].pointers, second) is Some by {
                assert(rest[k] == moves[k]);
            }
        }
        lemma_pinches(state, rest);
        let before = stretched_by(state, rest);
        let step = moves[moves.len() - 1];
        lemma_one_stretch(before, step);
        let all = pinches(state, moves);
        let earlier = pinches(state, rest);
        let sent = before.stretch_events(step.pointers, step.centroid, step.separation)[1];
        assert(all == earlier.push(sent));
        assert(all.drop_last() =~= earlier);
        assert(all.last() == sent);
        assert forall|i: int, k: int| #![trigger all[i], all[k]]
            0 <= i < k < all.len() && k == i + 1 implies all[k]->Pinch_0.delta->before
            == all[i]->Pinch_0.delta->now by {
            if k < earlier.len() {
                assert(all[i] == earlier[i] && all[k] == earlier[k]);
            } else {
                assert(all[i] == earlier[i]);
                assert(earlier.last() == earlier[i]);
            }
        }
        if earlier.len() > 0 {
            assert(all[0] == earlier[0]);
        }
        let from = before.two_finger->0.last_distance;
        let to = stretched_by(state, moves).two_finger->0.last_distance;
        let first = state.two_finger->0.last_distance.units();
        let p = product_now(earlier);
        let q = product_before(earlier);
        let a = from.units();
        let b = to.units();
        assert((p * b) * first == (q * a) * b) by (nonlinear_arith)
            requires
                p * first == q * a,
        ;
    }
}

/// A second finger that lands while the first is down takes the touch over: a press or a
/// drag is released, and a still scroll and a still pinch begin at the midpoint. From
/// then on the gesture remembers the second finger, the midpoint and the separation.
pub proof fn law_second_finger_begins(
    state: AndroidTouchView,
    now: u64,
    event: MotionEvent,
    measures: Measures,
    primary: PrimaryView,
)
    requires
        event.action == MotionAction::PointerDown,
        event.index < event.pointers@.len(),
        event.pointers@[event.index as int].tool != window::ToolType::Mouse,
        !event.mouse_source,
        state.touch.primary == Some(primary),
        state.two_finger is None,
        state.fingers(event.pointers@) is Some,
    ensures
        ({
            let still = Point { x: scalar(0), y: scalar(0) };
            let far = Point { x: scalar(0xc7c3_5000), y: scalar(0xc7c3_5000) };
            let released = if primary.mode == TouchMode::Scroll || primary.mode
                == TouchMode::Cancelled {
                seq![]
            } else {
                seq![
                    PlatformInput::MouseUp(
                        MouseUpEvent {
                            button: primary.button,
                            position: if primary.mode == TouchMode::Drag {
                                state.touch.mouse_position
                            } else {
                                far
                            },
                            modifiers: state.touch.modifiers,
                            click_count: 1,
                            pressure: scalar(0x3f80_0000),
                            tilt: None,
                        },
                    ),
                ]
            };
            &&& state.action_events(now, event, measures) == released + seq![
                PlatformInput::ScrollWheel(
                    ScrollWheelEvent {
                        position: measures.centroid,
                        delta: ScrollDelta::Pixels(still),
                        modifiers: state.touch.modifiers,
                        touch_phase: TouchPhase::Started,
                    },
                ),
                PlatformInput::Pinch(
                    PinchEvent {
                        position: measures.centroid,
                        delta: PinchDelta::Unchanged,
                        scale: scalar(0x3f80_0000),
                        modifiers: state.touch.modifiers,
                        phase: TouchPhase::Started,
                    },
                ),
            ]
            &&& state.acted(now, event, measures) == AndroidTouchView {
                touch: TouchView {
                    primary: Some(PrimaryView { mode: TouchMode::Cancelled, ..primary }),
                    momentum: None,
                    mouse_position: measures.centroid,
                    ..state.touch
                },
                two_finger: Some(
                    TwoFingerGesture {
                        pointer_id: event.pointers@[event.index as int].id as i64,
                        last_centroid: measures.centroid,
                        last_distance: if scalar(0x3f80_0000).below(measures.separation) {
                            measures.separation
                        } else {
                            scalar(0x3f80_0000)
                        },
                    },
                ),
            }
        }),
{
}

/// A second pointer that lands does nothing where a gesture is under way, where no first
/// pointer is down, or where a mouse pressed another button.
pub proof fn law_other_pointers_begin_nothing(
    state: AndroidTouchView,
    now: u64,
    event: MotionEvent,
    measures: Measures,
)
    requires
        event.action == MotionAction::PointerDown,
        event.index < event.pointers@.len(),
        state.two_finger is Some || state.touch.primary is None || event.mouse_source
            || event.pointers@[event.index as int].tool == window::ToolType::Mouse,
    ensures
        state.action_events(now, event, measures) == Seq::<PlatformInput>::empty(),
        state.acted(now, event, measures) == state,
{
}

/// A second finger that the event does not locate takes the first one over all the same,
/// but no gesture begins and nothing is sent.
pub proof fn law_unlocated_second_finger_takes_over(
    state: AndroidTouchView,
    now: u64,
    event: MotionEvent,
    measures: Measures,
    primary: PrimaryView,
)
    requires
        event.action == MotionAction::PointerDown,
        event.index < event.pointers@.len(),
        event.pointers@[event.index as int].tool != window::ToolType::Mouse,
        !event.mouse_source,
        state.touch.primary == Some(primary),
        state.two_finger is None,
        state.fingers(event.pointers@) is None,
    ensures
        state.action_events(now, event, measures) == Seq::<PlatformInput>::empty(),
        state.acted(now, event, measures) == (AndroidTouchView {
            touch: TouchView {
                primary: Some(PrimaryView { mode: TouchMode::Cancelled, ..primary }),
                momentum: None,
                ..state.touch
            },
            two_finger: None,
        }),
{
}

/// One of two fingers lifts: a still scroll and a still pinch end at the last midpoint,
/// and the finger that stays is ignored until it lifts. It becomes the primary one where
/// the primary one lifted.
pub proof fn law_parted_fingers_end_the_gesture(
    state: AndroidTouchView,
    now: u64,
    event: MotionEvent,
    measures: Measures,
    gesture: TwoFingerGesture,
    primary: PrimaryView,
)
    requires
        event.action == MotionAction::PointerUp,
        event.index < event.pointers@.len(),
        state.two_finger == Some(gesture),
        state.touch.primary == Some(primary),
    ensures
        ({
            let still = Point { x: scalar(0), y: scalar(0) };
            let lifted = event.pointers@[event.index as int];
            &&& state.action_events(now, event, measures) == seq![
                PlatformInput::ScrollWheel(
                    ScrollWheelEvent {
                        position: gesture.last_centroid,
                        delta: ScrollDelta::Pixels(still),
                        modifiers: state.touch.modifiers,
                        touch_phase: TouchPhase::Ended,
                    },
                ),
                PlatformInput::Pinch(
                    PinchEvent {
                        position: gesture.last_centroid,
                        delta: PinchDelta::Unchanged,
                        scale: scalar(0x3f80_0000),
                        modifiers: state.touch.modifiers,
                        phase: TouchPhase::Ended,
                    },
                ),
            ]
            &&& lifted.id == gesture.pointer_id ==> state.acted(now, event, measures)
                == AndroidTouchView { touch: state.touch, two_finger: None }
            &&& lifted.id != gesture.pointer_id ==> state.acted(now, event, measures)
                == AndroidTouchView {
                touch: TouchView {
                    primary: Some(
                        PrimaryView {
                            id: gesture.pointer_id,
                            mode: TouchMode::Cancelled,
                            last: lifted.position,
                            ..primary
                        },
                    ),
                    ..state.touch
                },
                two_finger: None,
            }
        }),
{
}

/// A gesture whose primary finger is gone ends all the same.
pub proof fn law_gesture_without_primary_ends(
    state: AndroidTouchView,
    gesture: TwoFingerGesture,
    id: i64,
    position: Point,
)
    requires
        state.two_finger == Some(gesture),
        state.touch.primary is None,
    ensures
        state.parted(id, position) == (AndroidTouchView { touch: state.touch, two_finger: None }),
        state.part_events().len() == 2,
{
}

/// Without a gesture, a pointer other than the first that lifts does nothing.
pub proof fn law_extra_pointers_lift_unnoticed(
    state: AndroidTouchView,
    now: u64,
    event: MotionEvent,
    measures: Measures,
)
    requires
        event.action == MotionAction::PointerUp,
        state.two_finger is None,
    ensures
        state.action_events(now, event, measures) == Seq::<PlatformInput>::empty(),
        state.acted(now, event, measures) == state,
{
}

} // verus!
