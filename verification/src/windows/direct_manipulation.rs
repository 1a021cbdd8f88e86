//! Pinch and pan of a precision touchpad, read off the transform that the system applies
//! to the content. The transform is cumulative; events report the change since the event
//! before.

use crate::float::{scalar, Scalar, ONE};
use crate::geometry::{origin, Point};
use crate::input::{
    Modifiers, PinchDelta, PinchEvent, PlatformInput, ScrollDelta, ScrollWheelEvent, TouchPhase,
};
use crate::protocol;
use crate::protocol::Pinching;
use crate::text::same_text;
use vstd::prelude::*;
use vstd::string::*;

verus! {

/// The timer that advances the manipulation, and its period in milliseconds.
pub const DIRECT_MANIPULATION_TIMER_ID: usize = 2;

pub const UPDATE_INTERVAL_MS: u32 = 16;

/// A ten-thousandth: a smaller change of the scale is hand tremor.
pub const SCALE_EPSILON: u32 = 0x38d1_b717;

/// Whether the user turned touchpad gestures on; `value` is that of the environment
/// variable, where it is set.
pub fn is_enabled(value: Option<&str>) -> (enabled: bool)
    ensures
        enabled == (value matches Some(value) && (value@ == "true"@ || value@ == "1"@)),
{
    match value {
        Some(value) => same_text(value, "true") || same_text(value, "1"),
        None => false,
    }
}

/// What a viewport is doing.
#[derive(Clone, Copy, Debug, PartialEq, Eq, Structural)]
pub enum ViewportStatus {
    Building,
    Enabled,
    Disabled,
    Running,
    Inertia,
    Ready,
    Suspended,
}

/// Whether the timer goes on after an update, given the status that the viewport then
/// reports. A contact that turned out to be no manipulation never changes the status, so
/// the status decides and not its changes.
pub fn keeps_updating(status: Option<ViewportStatus>) -> (goes_on: bool)
    ensures
        goes_on == match status {
            Some(status) => status != ViewportStatus::Ready && status != ViewportStatus::Enabled
                && status != ViewportStatus::Disabled,
            None => false,
        },
{
    match status {
        Some(ViewportStatus::Ready)
        | Some(ViewportStatus::Enabled)
        | Some(ViewportStatus::Disabled)
        | None => false,
        _ => true,
    }
}

/// The part of a manipulation that has been turned into events.
#[derive(Clone, Copy, Debug, PartialEq, Eq, Structural)]
pub struct Manipulation {
    pub scale: Scalar,
    pub translation: Point,
    /// Whether a pinch has started, so that its end is owed.
    pub pinching: bool,
}

/// What the system reports of a manipulation under way.
#[derive(Clone, Copy, Debug, PartialEq, Eq, Structural)]
pub struct ContentUpdate {
    pub scale: Scalar,
    pub translation: Point,
    /// How far the quotient of the new scale and the one before is from 1.
    pub scale_change: Scalar,
    pub scale_factor: Scalar,
    /// Where the cursor is.
    pub position: Point,
    pub modifiers: Modifiers,
}

/// Whether the difference of two numbers is anything but zero.
pub open spec fn differ(a: Scalar, b: Scalar) -> bool {
    !(a.is_finite() && b.is_finite() && a.same_value(b))
}

fn different(a: Scalar, b: Scalar) -> (yes: bool)
    ensures
        yes == differ(a, b),
{
    !(a.finite() && b.finite() && a.equal(b))
}

pub open spec fn pinch_event(
    position: Point,
    modifiers: Modifiers,
    phase: TouchPhase,
    delta: PinchDelta,
) -> PlatformInput {
    PlatformInput::Pinch(
        PinchEvent { position, delta, scale: scalar(ONE), modifiers, phase },
    )
}

impl Manipulation {
    /// A manipulation that has not moved anything.
    #[verifier::allow_in_spec]
    pub fn new() -> Manipulation
        returns
            (Manipulation { scale: scalar(ONE), translation: origin(), pinching: false }),
    {
        Manipulation { scale: scalar(ONE), translation: origin(), pinching: false }
    }

    /// Whether an update pinches: its scale is positive and finite, and differs from the
    /// one before by more than tremor.
    pub open spec fn pinches(self, update: ContentUpdate) -> bool {
        update.scale.is_finite() && scalar(0).below(update.scale) && scalar(SCALE_EPSILON).below(
            update.scale_change,
        )
    }

    pub open spec fn updated(self, update: ContentUpdate) -> Manipulation {
        Manipulation {
            scale: if self.pinches(update) {
                update.scale
            } else {
                self.scale
            },
            translation: update.translation,
            pinching: self.pinching || self.pinches(update),
        }
    }

    pub open spec fn scroll_events(self, update: ContentUpdate) -> Seq<PlatformInput> {
        if differ(update.translation.x, self.translation.x) || differ(
            update.translation.y,
            self.translation.y,
        ) {
            seq![
                PlatformInput::ScrollWheel(
                    ScrollWheelEvent {
                        position: update.position,
                        delta: ScrollDelta::DeviceBetween {
                            from: self.translation,
                            to: update.translation,
                            scale_factor: update.scale_factor,
                        },
                        modifiers: update.modifiers,
                        touch_phase: TouchPhase::Moved,
                    },
                ),
            ]
        } else {
            seq![]
        }
    }

    /// The first event of a pinch reports no change, the later ones the quotient of the
    /// scales.
    pub open spec fn pinch_events(self, update: ContentUpdate) -> Seq<PlatformInput> {
        if !self.pinches(update) {
            seq![]
        } else if self.pinching {
            seq![
                pinch_event(
                    update.position,
                    update.modifiers,
                    TouchPhase::Moved,
                    PinchDelta::Ratio { now: update.scale, before: self.scale },
                ),
            ]
        } else {
            seq![
                pinch_event(
                    update.position,
                    update.modifiers,
                    TouchPhase::Started,
                    PinchDelta::Unchanged,
                ),
            ]
        }
    }

    /// The content moved or grew.
    pub fn content_updated(&mut self, update: ContentUpdate, out: &mut Vec<PlatformInput>)
        ensures
            *final(self) == old(self).updated(update),
            final(out)@ == old(out)@ + old(self).scroll_events(update) + old(self).pinch_events(
                update,
            ),
    {
        let from = self.translation;
        self.translation = update.translation;
        if different(update.translation.x, from.x) || different(update.translation.y, from.y) {
            out.push(
                PlatformInput::ScrollWheel(
                    ScrollWheelEvent {
                        position: update.position,
                        delta: ScrollDelta::DeviceBetween {
                            from,
                            to: update.translation,
                            scale_factor: update.scale_factor,
                        },
                        modifiers: update.modifiers,
                        touch_phase: TouchPhase::Moved,
                    },
                ),
            );
        }
        if update.scale.finite() && scalar(0).less(update.scale) && scalar(SCALE_EPSILON).less(
            update.scale_change,
        ) {
            let before = self.scale;
            self.scale = update.scale;
            let (phase, delta) = if self.pinching {
                (TouchPhase::Moved, PinchDelta::Ratio { now: update.scale, before })
            } else {
                self.pinching = true;
                (TouchPhase::Started, PinchDelta::Unchanged)
            };
            out.push(
                PlatformInput::Pinch(
                    PinchEvent {
                        position: update.position,
                        delta,
                        scale: scalar(ONE),
                        modifiers: update.modifiers,
                        phase,
                    },
                ),
            );
        }
        assert(out@ =~= old(out)@ + old(self).scroll_events(update) + old(self).pinch_events(
            update,
        ));
    }

    pub open spec fn after_status(self, status: ViewportStatus) -> Manipulation {
        match status {
            ViewportStatus::Running => Manipulation::new(),
            ViewportStatus::Ready => Manipulation { pinching: false, ..self },
            _ => self,
        }
    }

    pub open spec fn status_events(
        self,
        status: ViewportStatus,
        position: Point,
        modifiers: Modifiers,
    ) -> Seq<PlatformInput> {
        if status == ViewportStatus::Ready && self.pinching {
            seq![pinch_event(position, modifiers, TouchPhase::Ended, PinchDelta::Unchanged)]
        } else {
            seq![]
        }
    }

    /// The viewport began to move or came to rest. Tells whether the content is to be put
    /// back where it was, so that the next manipulation is measured from there.
    pub fn status_changed(
        &mut self,
        status: ViewportStatus,
        position: Point,
        modifiers: Modifiers,
        out: &mut Vec<PlatformInput>,
    ) -> (resets: bool)
        ensures
            *final(self) == old(self).after_status(status),
            final(out)@ == old(out)@ + old(self).status_events(status, position, modifiers),
            resets == (status == ViewportStatus::Ready),
    {
        if status == ViewportStatus::Running {
            *self = Manipulation::new();
            return false;
        }
        if status != ViewportStatus::Ready {
            return false;
        }
        if self.pinching {
            self.pinching = false;
            out.push(
                PlatformInput::Pinch(
                    PinchEvent {
                        position,
                        delta: PinchDelta::Unchanged,
                        scale: scalar(ONE),
                        modifiers,
                        phase: TouchPhase::Ended,
                    },
                ),
            );
        }
        true
    }

    /// What a receiver has seen of the pinch.
    pub open spec fn seen(self) -> Pinching {
        if self.pinching {
            Pinching::Active
        } else {
            Pinching::Idle
        }
    }
}

/// An update starts a pinch where none is under way and moves the one that is.
pub proof fn law_updates_keep_pinching(manipulation: Manipulation, update: ContentUpdate)
    ensures
        manipulation.seen().after_all(
            manipulation.scroll_events(update) + manipulation.pinch_events(update),
        ) == manipulation.updated(update).seen(),
{
    let events = manipulation.scroll_events(update) + manipulation.pinch_events(update);
    protocol::lemma_pinching_few(manipulation.seen(), events);
}

/// Coming to rest ends the pinch that is under way, and ends it once. A manipulation that
/// starts while the one before still pinches is left out: its predecessor is forgotten
/// without an end.
pub proof fn law_rest_ends_the_pinch(
    manipulation: Manipulation,
    status: ViewportStatus,
    position: Point,
    modifiers: Modifiers,
)
    requires
        status == ViewportStatus::Running ==> !manipulation.pinching,
    ensures
        manipulation.seen().after_all(manipulation.status_events(status, position, modifiers))
            == manipulation.after_status(status).seen(),
        status == ViewportStatus::Ready ==> manipulation.after_status(status).seen() is Idle,
        manipulation.after_status(ViewportStatus::Ready).status_events(
            ViewportStatus::Ready,
            position,
            modifiers,
        ).len() == 0,
{
    protocol::lemma_pinching_few(
        manipulation.seen(),
        manipulation.status_events(status, position, modifiers),
    );
}

/// The factors that a pinch reports connect: each quotient starts at the scale where the
/// one before ended.
pub proof fn law_scales_chain(manipulation: Manipulation, first: ContentUpdate, second: ContentUpdate)
    requires
        manipulation.pinches(first),
        manipulation.updated(first).pinches(second),
    ensures
        manipulation.updated(first).pinch_events(second) == seq![
            pinch_event(
                second.position,
                second.modifiers,
                TouchPhase::Moved,
                PinchDelta::Ratio { now: second.scale, before: first.scale },
            ),
        ],
{
}

/// What is scrolled connects in the same way, and nothing that was scrolled is scrolled
/// again.
pub proof fn law_translations_chain(
    manipulation: Manipulation,
    first: ContentUpdate,
    second: ContentUpdate,
)
    ensures
        manipulation.updated(first).translation == first.translation,
        first.translation.x.is_finite() && first.translation.y.is_finite() && second.translation
            == first.translation ==> manipulation.updated(first).scroll_events(second).len() == 0,
{
}

/// An update that moves the content scrolls by the whole way since the last one, in device
/// pixels; one that does not move it scrolls nothing. Either way its place is remembered.
pub proof fn law_scroll_update(state: Manipulation, update: ContentUpdate)
    ensures
        ({
            let same = |a: Scalar, b: Scalar|
                a.is_finite() && b.is_finite() && a.units() == b.units();
            let still = same(update.translation.x, state.translation.x) && same(
                update.translation.y,
                state.translation.y,
            );
            &&& still ==> state.scroll_events(update) == Seq::<PlatformInput>::empty()
            &&& !still ==> state.scroll_events(update) == seq![
                PlatformInput::ScrollWheel(
                    ScrollWheelEvent {
                        position: update.position,
                        delta: ScrollDelta::DeviceBetween {
                            from: state.translation,
                            to: update.translation,
                            scale_factor: update.scale_factor,
                        },
                        modifiers: update.modifiers,
                        touch_phase: TouchPhase::Moved,
                    },
                ),
            ]
            &&& state.updated(update).translation == update.translation
        }),
{
}

/// An update scales the content where its scale is a positive finite number that differs
/// by more than a ten-thousandth from the one before. The first such update begins a pinch,
/// later ones move it by the new scale over the one before, and its scale is remembered;
/// other updates pinch nothing and change no scale.
pub proof fn law_pinch_update(state: Manipulation, update: ContentUpdate)
    ensures
        ({
            let scales = update.scale.is_finite() && 0 < update.scale.units()
                && !update.scale_change.is_nan() && scalar(0x38d1_b717).units()
                < update.scale_change.units();
            let still = PinchEvent {
                position: update.position,
                delta: PinchDelta::Unchanged,
                scale: scalar(0x3f80_0000),
                modifiers: update.modifiers,
                phase: TouchPhase::Started,
            };
            &&& scales && !state.pinching ==> state.pinch_events(update) == seq![
                PlatformInput::Pinch(still),
            ]
            &&& scales && state.pinching ==> state.pinch_events(update) == seq![
                PlatformInput::Pinch(
                    PinchEvent {
                        delta: PinchDelta::Ratio { now: update.scale, before: state.scale },
                        phase: TouchPhase::Moved,
                        ..still
                    },
                ),
            ]
            &&& !scales ==> state.pinch_events(update) == Seq::<PlatformInput>::empty()
            &&& scales ==> state.updated(update).scale == update.scale && state.updated(
                update,
            ).pinching
            &&& !scales ==> state.updated(update).scale == state.scale && state.updated(
                update,
            ).pinching == state.pinching
        }),
{
    crate::float::laws::law_magnitudes_step_up(0);
}

/// Content that starts to move starts anew, at scale 1 and its origin; content that comes
/// to rest ends a pinch that was under way, and nothing else changes anything.
pub proof fn law_status_change(
    state: Manipulation,
    status: ViewportStatus,
    position: Point,
    modifiers: Modifiers,
)
    ensures
        state.after_status(ViewportStatus::Running) == (Manipulation {
            scale: scalar(0x3f80_0000),
            translation: Point { x: scalar(0), y: scalar(0) },
            pinching: false,
        }),
        state.after_status(ViewportStatus::Ready) == (Manipulation { pinching: false, ..state }),
        status != ViewportStatus::Running && status != ViewportStatus::Ready ==> state.after_status(
            status,
        ) == state,
        status == ViewportStatus::Ready && state.pinching ==> state.status_events(
            status,
            position,
            modifiers,
        ) == seq![
            PlatformInput::Pinch(
                PinchEvent {
                    position,
                    delta: PinchDelta::Unchanged,
                    scale: scalar(0x3f80_0000),
                    modifiers,
                    phase: TouchPhase::Ended,
                },
            ),
        ],
        status != ViewportStatus::Ready || !state.pinching ==> state.status_events(
            status,
            position,
            modifiers,
        ) == Seq::<PlatformInput>::empty(),
{
}

} // verus!
