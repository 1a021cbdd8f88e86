//! One finger as a mouse: the state that the touch screens of Android and iOS
//! share, and the events it turns into.
//!
//! A finger presses the left button where it lands. If it lifts again nearby it
//! was a tap; if it travels it becomes a scroll, and the press is taken back by a
//! release far outside the window. A pen or a mouse drags from the start. Lengths
//! and velocities are measured by the caller and handed in.

pub mod laws;
pub mod step_laws;

use crate::float::{scalar, Scalar, ONE};
use crate::geometry::Point;
use crate::input::{
    Capslock, Modifiers, ModifiersChangedEvent, MouseButton, MouseDownEvent, MouseMoveEvent,
    MouseUpEvent, PlatformInput, ScrollDelta, ScrollWheelEvent, TouchPhase,
};
use std::collections::VecDeque;
use vstd::prelude::*;

verus! {

/// How far a finger may travel before a press turns into a scroll: 8.
pub const TOUCH_SLOP: u32 = 0x4100_0000;

/// Taps closer in time than this, in nanoseconds, and closer in space than 24
/// count as a multi-click.
pub const MULTI_TAP_INTERVAL: u64 = 350_000_000;

pub const MULTI_TAP_DISTANCE: u32 = 0x41c0_0000;

/// The speed below which momentum stops: 20.
pub const MOMENTUM_MIN_VELOCITY: u32 = 0x41a0_0000;

/// How long before a lift a sample may lie to tell the velocity of a fling.
pub const FLING_WINDOW: u64 = 120_000_000;

/// The longest time that one step of momentum covers.
pub const MOMENTUM_STEP: u64 = 100_000_000;

/// How many recent positions are kept.
pub const SAMPLE_COUNT: usize = 8;

/// A coordinate far outside every window: -100000.
pub const FAR_OUTSIDE: u32 = 0xc7c3_5000;

/// A release this far outside the window cancels a press without a click.
#[verifier::allow_in_spec]
pub fn cancel_position() -> Point
    returns
        (Point { x: scalar(FAR_OUTSIDE), y: scalar(FAR_OUTSIDE) }),
{
    Point { x: scalar(FAR_OUTSIDE), y: scalar(FAR_OUTSIDE) }
}

/// What the primary finger has turned into.
#[derive(Clone, Copy, Debug, PartialEq, Eq, Structural)]
pub enum TouchMode {
    /// Pressed, not yet moved far enough to tell a tap from a scroll.
    Undecided,
    /// Scrolling; the pending press has been cancelled.
    Scroll,
    /// Dragging with the button held: mice, pens, and fingers that moved after a
    /// long press.
    Drag,
    /// Long-pressed and still; a move starts a drag, a lift does nothing.
    LongPressed,
    /// Taken over by a gesture or a menu; ignored until it lifts.
    Cancelled,
}

/// Where the finger was, and when, in nanoseconds.
#[derive(Clone, Copy, Debug, PartialEq, Eq, Structural)]
pub struct Sample {
    pub at: u64,
    pub position: Point,
}

/// The last press that may begin a multi-click.
#[derive(Clone, Copy, Debug, PartialEq, Eq, Structural)]
pub struct Tap {
    pub at: u64,
    pub position: Point,
    pub count: usize,
}

/// A scroll that goes on after the finger lifted.
#[derive(Clone, Copy, Debug, PartialEq, Eq, Structural)]
pub struct Momentum {
    /// In pixels per second.
    pub velocity: Point,
    pub position: Point,
    pub modifiers: Modifiers,
    pub last_tick: u64,
}

/// The finger, pen or mouse that presses.
#[derive(Debug)]
pub struct PrimaryTouch {
    pub id: i64,
    pub button: MouseButton,
    pub mode: TouchMode,
    /// A mouse rather than a finger or a pen: it keeps hovering after it lets go,
    /// where a finger leaves nothing under it.
    pub pointer: bool,
    pub start: Point,
    pub last: Point,
    pub down_at: u64,
    /// Recent positions, for the fling velocity.
    pub samples: VecDeque<Sample>,
}

#[verifier::ext_equal]
pub struct PrimaryView {
    pub id: i64,
    pub button: MouseButton,
    pub mode: TouchMode,
    pub pointer: bool,
    pub start: Point,
    pub last: Point,
    pub down_at: u64,
    pub samples: Seq<Sample>,
}

impl View for PrimaryTouch {
    type V = PrimaryView;

    open spec fn view(&self) -> PrimaryView {
        PrimaryView {
            id: self.id,
            button: self.button,
            mode: self.mode,
            pointer: self.pointer,
            start: self.start,
            last: self.last,
            down_at: self.down_at,
            samples: self.samples@,
        }
    }
}

/// The touch state of a window.
#[derive(Debug)]
pub struct Touch {
    pub primary: Option<PrimaryTouch>,
    pub momentum: Option<Momentum>,
    pub last_tap: Option<Tap>,
    pub mouse_position: Point,
    pub modifiers: Modifiers,
    pub capslock: Capslock,
}

#[verifier::ext_equal]
pub struct TouchView {
    pub primary: Option<PrimaryView>,
    pub momentum: Option<Momentum>,
    pub last_tap: Option<Tap>,
    pub mouse_position: Point,
    pub modifiers: Modifiers,
    pub capslock: Capslock,
}

pub open spec fn primary_view(primary: Option<PrimaryTouch>) -> Option<PrimaryView> {
    match primary {
        Some(primary) => Some(primary@),
        None => None,
    }
}

impl View for Touch {
    type V = TouchView;

    open spec fn view(&self) -> TouchView {
        TouchView {
            primary: primary_view(self.primary),
            momentum: self.momentum,
            last_tap: self.last_tap,
            mouse_position: self.mouse_position,
            modifiers: self.modifiers,
            capslock: self.capslock,
        }
    }
}

/// The time from `earlier` to `now`, zero where `earlier` is the later one.
pub open spec fn since(now: u64, earlier: u64) -> int {
    if now >= earlier {
        now - earlier
    } else {
        0
    }
}

/// The youngest `SAMPLE_COUNT` samples.
pub open spec fn recent(samples: Seq<Sample>) -> Seq<Sample> {
    if samples.len() > SAMPLE_COUNT {
        samples.subrange(samples.len() - SAMPLE_COUNT, samples.len() as int)
    } else {
        samples
    }
}

/// The oldest sample that is young enough to tell the velocity of a fling.
pub open spec fn fling_sample(samples: Seq<Sample>, now: u64) -> Option<Sample>
    decreases samples.len(),
{
    if samples.len() == 0 {
        None
    } else if since(now, samples[0].at) <= FLING_WINDOW {
        Some(samples[0])
    } else {
        fling_sample(samples.drop_first(), now)
    }
}

/// Whether a velocity is too small on both axes to go on.
pub open spec fn too_slow(velocity: Point) -> bool {
    velocity.x.magnitude_of().below(scalar(MOMENTUM_MIN_VELOCITY))
        && velocity.y.magnitude_of().below(scalar(MOMENTUM_MIN_VELOCITY))
}

/// The release that takes a press back. One still undecided is released far
/// outside the window, so nothing under it sees a click; a drag in progress is
/// released where the finger last was.
pub open spec fn cancel_event(state: TouchView, button: MouseButton, mode: TouchMode) -> PlatformInput {
    PlatformInput::MouseUp(
        MouseUpEvent {
            button,
            position: if mode == TouchMode::Drag {
                state.mouse_position
            } else {
                cancel_position()
            },
            modifiers: state.modifiers,
            click_count: 1,
            pressure: scalar(ONE),
            tilt: None,
        },
    )
}

pub open spec fn scroll_event(
    position: Point,
    delta: ScrollDelta,
    modifiers: Modifiers,
    touch_phase: TouchPhase,
) -> PlatformInput {
    PlatformInput::ScrollWheel(ScrollWheelEvent { position, delta, modifiers, touch_phase })
}

/// A scroll event that scrolls by nothing.
pub open spec fn still_scroll(
    position: Point,
    modifiers: Modifiers,
    touch_phase: TouchPhase,
) -> PlatformInput {
    scroll_event(position, ScrollDelta::Pixels(crate::geometry::origin()), modifiers, touch_phase)
}

pub open spec fn drag_event(
    position: Point,
    button: MouseButton,
    modifiers: Modifiers,
    pressure: Scalar,
) -> PlatformInput {
    PlatformInput::MouseMove(
        MouseMoveEvent { position, pressed_button: Some(button), modifiers, pressure, tilt: None },
    )
}

/// The first press of a click.
pub open spec fn down_event(
    button: MouseButton,
    position: Point,
    modifiers: Modifiers,
    click_count: usize,
    pressure: Scalar,
) -> PlatformInput {
    PlatformInput::MouseDown(
        MouseDownEvent {
            button,
            position,
            modifiers,
            click_count,
            first_mouse: false,
            pressure,
            tilt: None,
        },
    )
}

pub open spec fn up_event(
    button: MouseButton,
    position: Point,
    modifiers: Modifiers,
    click_count: usize,
) -> PlatformInput {
    PlatformInput::MouseUp(
        MouseUpEvent {
            button,
            position,
            modifiers,
            click_count,
            pressure: scalar(ONE),
            tilt: None,
        },
    )
}

/// A finger, pen or mouse button going down.
#[derive(Clone, Copy, Debug, PartialEq, Eq, Structural)]
pub struct Press {
    pub id: i64,
    pub position: Point,
    pub button: MouseButton,
    pub mode: TouchMode,
    /// Whether it is a mouse.
    pub pointer: bool,
    pub pressure: Scalar,
}

/// What each step does to the state, and what it sends.
impl TouchView {
    pub open spec fn with_modifiers(self, modifiers: Modifiers, capslock: Capslock) -> TouchView {
        TouchView { modifiers, capslock, ..self }
    }

    pub open spec fn modifiers_events(
        self,
        modifiers: Modifiers,
        capslock: Capslock,
    ) -> Seq<PlatformInput> {
        if self.modifiers == modifiers && self.capslock == capslock {
            seq![]
        } else {
            seq![PlatformInput::ModifiersChanged(ModifiersChangedEvent { modifiers, capslock })]
        }
    }

    /// The click that a press now is, `tap_distance` away from the last one.
    pub open spec fn click_count(self, now: u64, tap_distance: Scalar) -> int {
        match self.last_tap {
            Some(tap) => if since(now, tap.at) < MULTI_TAP_INTERVAL && tap_distance.below(
                scalar(MULTI_TAP_DISTANCE),
            ) {
                tap.count + 1
            } else {
                1
            },
            None => 1,
        }
    }

    pub open spec fn pressed(self, now: u64, press: Press, tap_distance: Scalar) -> TouchView {
        TouchView {
            primary: Some(
                PrimaryView {
                    id: press.id,
                    button: press.button,
                    mode: press.mode,
                    pointer: press.pointer,
                    start: press.position,
                    last: press.position,
                    down_at: now,
                    samples: seq![Sample { at: now, position: press.position }],
                },
            ),
            momentum: None,
            last_tap: Some(
                Tap {
                    at: now,
                    position: press.position,
                    count: self.click_count(now, tap_distance) as usize,
                },
            ),
            mouse_position: press.position,
            ..self
        }
    }

    pub open spec fn press_events(
        self,
        now: u64,
        press: Press,
        tap_distance: Scalar,
    ) -> Seq<PlatformInput> {
        seq![
            down_event(
                press.button,
                press.position,
                self.modifiers,
                self.click_count(now, tap_distance) as usize,
                press.pressure,
            ),
        ]
    }

    /// A press that has not moved yet becomes a drag, so the finger will not
    /// scroll.
    pub open spec fn claimed(self) -> TouchView {
        match self.primary {
            Some(primary) => if primary.mode == TouchMode::Undecided {
                TouchView {
                    primary: Some(PrimaryView { mode: TouchMode::Drag, ..primary }),
                    ..self
                }
            } else {
                self
            },
            None => self,
        }
    }

    /// The primary finger moves to `position`, now `travel` away from where it
    /// landed.
    pub open spec fn moved(self, now: u64, position: Point, travel: Scalar) -> TouchView {
        match self.primary {
            Some(primary) => TouchView {
                primary: Some(
                    PrimaryView {
                        mode: if travel.below(scalar(TOUCH_SLOP)) {
                            primary.mode
                        } else {
                            match primary.mode {
                                TouchMode::Undecided => TouchMode::Scroll,
                                TouchMode::LongPressed => TouchMode::Drag,
                                mode => mode,
                            }
                        },
                        last: position,
                        samples: recent(primary.samples.push(Sample { at: now, position })),
                        ..primary
                    },
                ),
                mouse_position: position,
                ..self
            },
            None => self,
        }
    }

    pub open spec fn move_events(
        self,
        position: Point,
        pressure: Scalar,
        travel: Scalar,
    ) -> Seq<PlatformInput> {
        match self.primary {
            Some(primary) => match primary.mode {
                TouchMode::Undecided => if travel.below(scalar(TOUCH_SLOP)) {
                    seq![]
                } else {
                    seq![
                        cancel_event(self, primary.button, TouchMode::Undecided),
                        scroll_event(
                            position,
                            ScrollDelta::Between { from: primary.start, to: position },
                            self.modifiers,
                            TouchPhase::Started,
                        ),
                    ]
                },
                TouchMode::Scroll => seq![
                    scroll_event(
                        position,
                        ScrollDelta::Between { from: primary.last, to: position },
                        self.modifiers,
                        TouchPhase::Moved,
                    ),
                ],
                TouchMode::LongPressed => if travel.below(scalar(TOUCH_SLOP)) {
                    seq![]
                } else {
                    seq![
                        down_event(primary.button, primary.start, self.modifiers, 1, pressure),
                        drag_event(position, primary.button, self.modifiers, pressure),
                    ]
                },
                TouchMode::Drag => seq![
                    drag_event(position, primary.button, self.modifiers, pressure),
                ],
                TouchMode::Cancelled => seq![],
            },
            None => seq![],
        }
    }

    /// A gesture takes the primary finger: its press is over.
    pub open spec fn taken_over(self) -> TouchView {
        TouchView {
            primary: match self.primary {
                Some(primary) => Some(PrimaryView { mode: TouchMode::Cancelled, ..primary }),
                None => None,
            },
            momentum: None,
            ..self
        }
    }

    /// The release that a takeover owes: one for every finger that is neither
    /// scrolling nor taken over already.
    pub open spec fn takeover_events(self) -> Seq<PlatformInput> {
        match self.primary {
            Some(primary) => if primary.mode == TouchMode::Scroll || primary.mode
                == TouchMode::Cancelled {
                seq![]
            } else {
                seq![cancel_event(self, primary.button, primary.mode)]
            },
            None => seq![],
        }
    }

    /// The finger that `primary` was has lifted with `velocity`, measured from the
    /// fling sample.
    pub open spec fn flung(
        self,
        primary: PrimaryView,
        now: u64,
        position: Point,
        modifiers: Modifiers,
        velocity: Point,
    ) -> TouchView {
        match fling_sample(primary.samples, now) {
            Some(sample) => if since(now, sample.at) == 0 || too_slow(velocity) {
                self
            } else {
                TouchView {
                    momentum: Some(Momentum { velocity, position, modifiers, last_tick: now }),
                    ..self
                }
            },
            None => self,
        }
    }

    /// The time that the next step of momentum covers.
    pub open spec fn coast_nanos(momentum: Momentum, now: u64) -> u64 {
        if since(now, momentum.last_tick) < MOMENTUM_STEP {
            since(now, momentum.last_tick) as u64
        } else {
            MOMENTUM_STEP
        }
    }

    /// A step of momentum, after which the velocity is `decayed`.
    pub open spec fn coasted(self, now: u64, decayed: Point) -> TouchView {
        match self.momentum {
            Some(momentum) => TouchView {
                momentum: if too_slow(decayed) {
                    None
                } else {
                    Some(Momentum { velocity: decayed, last_tick: now, ..momentum })
                },
                ..self
            },
            None => self,
        }
    }

    pub open spec fn coast_events(self, now: u64, decayed: Point) -> Seq<PlatformInput> {
        match self.momentum {
            Some(momentum) => seq![
                scroll_event(
                    momentum.position,
                    ScrollDelta::Coast {
                        velocity: momentum.velocity,
                        nanos: Self::coast_nanos(momentum, now),
                    },
                    momentum.modifiers,
                    if too_slow(decayed) {
                        TouchPhase::Ended
                    } else {
                        TouchPhase::Moved
                    },
                ),
            ],
            None => seq![],
        }
    }
}

/// Sends a scroll.
pub fn send_scroll(
    position: Point,
    delta: ScrollDelta,
    modifiers: Modifiers,
    touch_phase: TouchPhase,
    out: &mut Vec<PlatformInput>,
)
    ensures
        final(out)@ == old(out)@.push(scroll_event(position, delta, modifiers, touch_phase)),
{
    out.push(
        PlatformInput::ScrollWheel(ScrollWheelEvent { position, delta, modifiers, touch_phase }),
    );
}

/// Sends a release.
pub fn send_up(
    button: MouseButton,
    position: Point,
    modifiers: Modifiers,
    click_count: usize,
    out: &mut Vec<PlatformInput>,
)
    ensures
        final(out)@ == old(out)@.push(up_event(button, position, modifiers, click_count)),
{
    out.push(
        PlatformInput::MouseUp(
            MouseUpEvent {
                button,
                position,
                modifiers,
                click_count,
                pressure: scalar(ONE),
                tilt: None,
            },
        ),
    );
}

/// The time from `earlier` to `now`.
pub fn nanos_since(now: u64, earlier: u64) -> (nanos: u64)
    ensures
        nanos == since(now, earlier),
{
    if now >= earlier {
        now - earlier
    } else {
        0
    }
}

/// Adds a sample, and forgets the oldest beyond `SAMPLE_COUNT`.
fn remember(samples: &mut VecDeque<Sample>, sample: Sample)
    ensures
        final(samples)@ == recent(old(samples)@.push(sample)),
{
    samples.push_back(sample);
    let ghost all = samples@;
    while samples.len() > SAMPLE_COUNT
        invariant
            samples@.len() <= all.len(),
            samples@ == all.subrange(all.len() - samples@.len(), all.len() as int),
            all.len() > SAMPLE_COUNT ==> samples@.len() >= SAMPLE_COUNT,
            all.len() <= SAMPLE_COUNT ==> samples@.len() == all.len(),
        decreases samples@.len(),
    {
        samples.pop_front();
    }
}

fn slow(velocity: Point) -> (yes: bool)
    ensures
        yes == too_slow(velocity),
{
    velocity.x.abs().less(scalar(MOMENTUM_MIN_VELOCITY)) && velocity.y.abs().less(
        scalar(MOMENTUM_MIN_VELOCITY),
    )
}

impl Touch {
    /// No finger down, nothing moving.
    pub fn new() -> (touch: Touch)
        ensures
            touch@ == (TouchView {
                primary: None,
                momentum: None,
                last_tap: None,
                mouse_position: crate::geometry::origin(),
                modifiers: crate::input::no_modifiers(),
                capslock: Capslock { on: false },
            }),
    {
        Touch {
            primary: None,
            momentum: None,
            last_tap: None,
            mouse_position: crate::geometry::origin(),
            modifiers: crate::input::no_modifiers(),
            capslock: Capslock { on: false },
        }
    }

    /// Remembers the modifiers held, and reports them where they changed.
    pub fn update_modifiers(
        &mut self,
        modifiers: Modifiers,
        capslock: Capslock,
        out: &mut Vec<PlatformInput>,
    )
        ensures
            final(self)@ == old(self)@.with_modifiers(modifiers, capslock),
            final(out)@ == old(out)@ + old(self)@.modifiers_events(modifiers, capslock),
    {
        if self.modifiers == modifiers && self.capslock == capslock {
            return;
        }
        self.modifiers = modifiers;
        self.capslock = capslock;
        out.push(PlatformInput::ModifiersChanged(ModifiersChangedEvent { modifiers, capslock }));
    }

    /// A press begins; `tap_distance` is how far it is from the last tap.
    pub fn press(
        &mut self,
        now: u64,
        press: Press,
        tap_distance: Scalar,
        out: &mut Vec<PlatformInput>,
    )
        requires
            old(self)@.click_count(now, tap_distance) <= usize::MAX,
        ensures
            final(self)@ == old(self)@.pressed(now, press, tap_distance),
            final(out)@ == old(out)@ + old(self)@.press_events(now, press, tap_distance),
    {
        let click_count: usize = match self.last_tap {
            Some(tap) => if nanos_since(now, tap.at) < MULTI_TAP_INTERVAL && tap_distance.less(
                scalar(MULTI_TAP_DISTANCE),
            ) {
                tap.count + 1
            } else {
                1
            },
            None => 1,
        };
        self.momentum = None;
        self.last_tap = Some(Tap { at: now, position: press.position, count: click_count });
        self.mouse_position = press.position;
        let mut samples: VecDeque<Sample> = VecDeque::new();
        samples.push_back(Sample { at: now, position: press.position });
        self.primary = Some(
            PrimaryTouch {
                id: press.id,
                button: press.button,
                mode: press.mode,
                pointer: press.pointer,
                start: press.position,
                last: press.position,
                down_at: now,
                samples,
            },
        );
        out.push(
            PlatformInput::MouseDown(
                MouseDownEvent {
                    button: press.button,
                    position: press.position,
                    modifiers: self.modifiers,
                    click_count,
                    first_mouse: false,
                    pressure: press.pressure,
                    tilt: None,
                },
            ),
        );
    }

    /// Turns the press being dispatched into a drag, so the finger will not scroll.
    /// Only a press that has not moved yet can still be claimed.
    pub fn claim_touch_drag(&mut self)
        ensures
            final(self)@ == old(self)@.claimed(),
    {
        match &mut self.primary {
            Some(primary) => {
                if primary.mode == TouchMode::Undecided {
                    primary.mode = TouchMode::Drag;
                }
            },
            None => {},
        }
    }

    /// Releases a press that is not going to be a click.
    pub fn cancel_press(&self, button: MouseButton, mode: TouchMode, out: &mut Vec<PlatformInput>)
        ensures
            final(out)@ == old(out)@.push(cancel_event(self@, button, mode)),
    {
        let position = if mode == TouchMode::Drag {
            self.mouse_position
        } else {
            cancel_position()
        };
        out.push(
            PlatformInput::MouseUp(
                MouseUpEvent {
                    button,
                    position,
                    modifiers: self.modifiers,
                    click_count: 1,
                    pressure: scalar(ONE),
                    tilt: None,
                },
            ),
        );
    }

    /// The primary finger moves to `position`, now `travel` away from where it
    /// landed.
    pub fn move_primary(
        &mut self,
        now: u64,
        position: Point,
        pressure: Scalar,
        travel: Scalar,
        out: &mut Vec<PlatformInput>,
    )
        ensures
            final(self)@ == old(self)@.moved(now, position, travel),
            final(out)@ == old(out)@ + old(self)@.move_events(position, pressure, travel),
    {
        let still = travel.less(scalar(TOUCH_SLOP));
        let modifiers = self.modifiers;
        let (last, start, button, mode) = match &mut self.primary {
            Some(primary) => {
                remember(&mut primary.samples, Sample { at: now, position });
                let last = primary.last;
                let mode = primary.mode;
                primary.last = position;
                if !still {
                    match mode {
                        TouchMode::Undecided => {
                            primary.mode = TouchMode::Scroll;
                        },
                        TouchMode::LongPressed => {
                            primary.mode = TouchMode::Drag;
                        },
                        _ => {},
                    }
                }
                (last, primary.start, primary.button, mode)
            },
            None => {
                return;
            },
        };
        self.mouse_position = position;
        match mode {
            TouchMode::Undecided => {
                if still {
                    return;
                }
                self.cancel_press(button, TouchMode::Undecided, out);
                out.push(
                    PlatformInput::ScrollWheel(
                        ScrollWheelEvent {
                            position,
                            delta: ScrollDelta::Between { from: start, to: position },
                            modifiers,
                            touch_phase: TouchPhase::Started,
                        },
                    ),
                );
            },
            TouchMode::Scroll => {
                out.push(
                    PlatformInput::ScrollWheel(
                        ScrollWheelEvent {
                            position,
                            delta: ScrollDelta::Between { from: last, to: position },
                            modifiers,
                            touch_phase: TouchPhase::Moved,
                        },
                    ),
                );
            },
            TouchMode::LongPressed => {
                if still {
                    return;
                }
                out.push(
                    PlatformInput::MouseDown(
                        MouseDownEvent {
                            button,
                            position: start,
                            modifiers,
                            click_count: 1,
                            first_mouse: false,
                            pressure,
                            tilt: None,
                        },
                    ),
                );
                out.push(
                    PlatformInput::MouseMove(
                        MouseMoveEvent {
                            position,
                            pressed_button: Some(button),
                            modifiers,
                            pressure,
                            tilt: None,
                        },
                    ),
                );
            },
            TouchMode::Drag => {
                out.push(
                    PlatformInput::MouseMove(
                        MouseMoveEvent {
                            position,
                            pressed_button: Some(button),
                            modifiers,
                            pressure,
                            tilt: None,
                        },
                    ),
                );
            },
            TouchMode::Cancelled => {},
        }
    }

    /// Cancels the primary finger's press when a gesture takes over.
    pub fn take_over(&mut self, out: &mut Vec<PlatformInput>)
        ensures
            final(self)@ == old(self)@.taken_over(),
            final(out)@ == old(out)@ + old(self)@.takeover_events(),
    {
        self.momentum = None;
        let cancel = match &mut self.primary {
            Some(primary) => {
                let button = primary.button;
                let mode = primary.mode;
                primary.mode = TouchMode::Cancelled;
                match mode {
                    TouchMode::Undecided | TouchMode::Drag | TouchMode::LongPressed => Some(
                        (button, mode),
                    ),
                    _ => None,
                }
            },
            None => None,
        };
        if let Some((button, mode)) = cancel {
            self.cancel_press(button, mode, out);
        }
    }

    /// Momentum scrolling after a fling; `velocity` is measured from the fling
    /// sample of `primary` to `position`.
    pub fn start_momentum(
        &mut self,
        primary: &PrimaryTouch,
        now: u64,
        position: Point,
        modifiers: Modifiers,
        velocity: Point,
    )
        ensures
            final(self)@ == old(self)@.flung(primary@, now, position, modifiers, velocity),
    {
        match primary.fling(now) {
            Some(sample) => {
                if nanos_since(now, sample.at) == 0 || slow(velocity) {
                    return;
                }
                self.momentum = Some(Momentum { velocity, position, modifiers, last_tick: now });
            },
            None => {},
        }
    }

    /// What the next step of momentum covers: at which velocity, and for how long.
    pub fn coast(&self, now: u64) -> (step: Option<(Point, u64)>)
        ensures
            step == (match self@.momentum {
                Some(momentum) => Some((momentum.velocity, TouchView::coast_nanos(momentum, now))),
                None => None,
            }),
    {
        match self.momentum {
            Some(momentum) => {
                let elapsed: u64 = nanos_since(now, momentum.last_tick);
                let nanos: u64 = if elapsed < MOMENTUM_STEP {
                    elapsed
                } else {
                    MOMENTUM_STEP
                };
                Some((momentum.velocity, nanos))
            },
            None => None,
        }
    }

    /// One step of momentum; `decayed` is the velocity that remains after it.
    /// Returns whether the momentum has run out with this step.
    pub fn tick_momentum(&mut self, now: u64, decayed: Point, out: &mut Vec<PlatformInput>) -> (finished:
        bool)
        ensures
            final(self)@ == old(self)@.coasted(now, decayed),
            final(out)@ == old(out)@ + old(self)@.coast_events(now, decayed),
            finished == (old(self)@.momentum is Some && too_slow(decayed)),
    {
        let (velocity, nanos) = match self.coast(now) {
            Some(step) => step,
            None => {
                return false;
            },
        };
        let finished = slow(decayed);
        if let Some(momentum) = self.momentum {
            out.push(
                PlatformInput::ScrollWheel(
                    ScrollWheelEvent {
                        position: momentum.position,
                        delta: ScrollDelta::Coast { velocity, nanos },
                        modifiers: momentum.modifiers,
                        touch_phase: if finished {
                            TouchPhase::Ended
                        } else {
                            TouchPhase::Moved
                        },
                    },
                ),
            );
            self.momentum = if finished {
                None
            } else {
                Some(
                    Momentum {
                        velocity: decayed,
                        position: momentum.position,
                        modifiers: momentum.modifiers,
                        last_tick: now,
                    },
                )
            };
        }
        finished
    }
}

impl PrimaryTouch {
    /// The sample that tells the velocity of a fling that ends now.
    pub fn fling(&self, now: u64) -> (sample: Option<Sample>)
        ensures
            sample == fling_sample(self@.samples, now),
    {
        let mut index: usize = 0;
        assert(self.samples@.skip(0) =~= self.samples@);
        while index < self.samples.len()
            invariant
                index <= self.samples@.len(),
                fling_sample(self.samples@, now) == fling_sample(
                    self.samples@.skip(index as int),
                    now,
                ),
            decreases self.samples@.len() - index,
        {
            let sample = self.samples[index];
            if nanos_since(now, sample.at) <= FLING_WINDOW {
                return Some(sample);
            }
            assert(self.samples@.skip(index as int).drop_first() =~= self.samples@.skip(
                index + 1,
            ));
            index += 1;
        }
        None
    }
}

} // verus!
