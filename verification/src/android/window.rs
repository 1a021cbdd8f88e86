//! A window on Android: the activity's surface, and the touches on it.
//!
//! A finger becomes a mouse as on iOS. Here the window itself tracks two fingers:
//! together they scroll and pinch, both at once, until one of them lifts.

use crate::android::events;
use crate::android::events::{
    capslock_from_meta_state, is_modifier_key, keystroke_from_key_event, modifiers_from_meta_state,
};
use crate::float::{scalar, Scalar, ONE};
use crate::geometry::{origin, Point};
use crate::input::{
    KeyDownEvent, KeyUpEvent, KeystrokeView, Modifiers, MouseButton, MouseDownEvent,
    MouseExitEvent, MouseMoveEvent, PinchDelta, PinchEvent, PlatformInput, ScrollDelta,
    TouchPhase,
};
use crate::touch;
use crate::touch::{
    cancel_position, nanos_since, send_scroll, send_up, Press, PrimaryView, Touch, TouchMode,
    TouchView, TOUCH_SLOP,
};
use vstd::prelude::*;

verus! {

/// How long a still finger is held before it is a long press, in nanoseconds.
pub const LONG_PRESS: u64 = 500_000_000;

/// Button state bits.
pub const BUTTON_SECONDARY: u32 = 0x2;

pub const BUTTON_TERTIARY: u32 = 0x4;

pub const BUTTON_STYLUS_PRIMARY: u32 = 0x20;

pub const BUTTON_STYLUS_SECONDARY: u32 = 0x40;

/// What a pointer of a motion event is.
#[derive(Clone, Copy, Debug, PartialEq, Eq, Structural)]
pub enum ToolType {
    Unknown,
    Finger,
    Stylus,
    Mouse,
    Eraser,
    Palm,
}

#[derive(Clone, Copy, Debug, PartialEq, Eq, Structural)]
pub enum MotionAction {
    Down,
    Up,
    Move,
    Cancel,
    PointerDown,
    PointerUp,
    HoverEnter,
    HoverMove,
    HoverExit,
    Scroll,
    Other,
}

/// One pointer of a motion event, its position in points.
#[derive(Clone, Copy, Debug, PartialEq, Eq, Structural)]
pub struct Pointer {
    pub id: i32,
    pub tool: ToolType,
    pub position: Point,
    pub pressure: Scalar,
    /// The horizontal and vertical scroll axes, in lines.
    pub wheel: Point,
}

/// A motion event. `index` is the pointer that the action is about.
#[derive(Debug)]
pub struct MotionEvent {
    pub action: MotionAction,
    /// Whether the event comes from a mouse.
    pub mouse_source: bool,
    pub meta_state: u32,
    pub button_state: u32,
    pub index: usize,
    pub pointers: Vec<Pointer>,
}

/// What a motion event measures against the window's state.
#[derive(Debug)]
pub struct Measures {
    /// From the last tap to the pointer that the action is about.
    pub tap: Scalar,
    /// From where the primary pointer landed to each pointer of the event.
    pub travel: Vec<Scalar>,
    /// From the fling sample to the pointer that the action is about, per second.
    pub velocity: Point,
    /// The midpoint of the two fingers, and how far apart they are.
    pub centroid: Point,
    pub separation: Scalar,
}

/// A second finger down: the two scroll together and pinch.
#[derive(Clone, Copy, Debug, PartialEq, Eq, Structural)]
pub struct TwoFingerGesture {
    pub pointer_id: i64,
    pub last_centroid: Point,
    pub last_distance: Scalar,
}

/// The touches on an Android window.
#[derive(Debug)]
pub struct AndroidTouch {
    pub touch: Touch,
    pub two_finger: Option<TwoFingerGesture>,
}

#[verifier::ext_equal]
pub struct AndroidTouchView {
    pub touch: TouchView,
    pub two_finger: Option<TwoFingerGesture>,
}

impl View for AndroidTouch {
    type V = AndroidTouchView;

    open spec fn view(&self) -> AndroidTouchView {
        AndroidTouchView { touch: self.touch@, two_finger: self.two_finger }
    }
}

pub open spec fn is_pen(tool: ToolType) -> bool {
    tool == ToolType::Stylus || tool == ToolType::Eraser
}

/// The pressure of a pointer: its own for a pen, full for everything else.
pub open spec fn pressure_of(pointer: Pointer) -> Scalar {
    if is_pen(pointer.tool) {
        pointer.pressure.within_unit()
    } else {
        scalar(ONE)
    }
}

/// The position of the last pointer with this id.
pub open spec fn position_of(pointers: Seq<Pointer>, id: i64) -> Option<Point>
    decreases pointers.len(),
{
    if pointers.len() == 0 {
        None
    } else if pointers.last().id == id {
        Some(pointers.last().position)
    } else {
        position_of(pointers.drop_last(), id)
    }
}

/// The id of the first pointer that is not `id`.
pub open spec fn other_than(pointers: Seq<Pointer>, id: i64) -> Option<i64>
    decreases pointers.len(),
{
    if pointers.len() == 0 {
        None
    } else if pointers[0].id != id {
        Some(pointers[0].id as i64)
    } else {
        other_than(pointers.drop_first(), id)
    }
}

pub open spec fn pinch_event(
    position: Point,
    delta: PinchDelta,
    modifiers: Modifiers,
    phase: TouchPhase,
) -> PlatformInput {
    PlatformInput::Pinch(PinchEvent { position, delta, scale: scalar(ONE), modifiers, phase })
}

/// The move that takes the mouse off the window.
pub open spec fn lift_event(modifiers: Modifiers) -> PlatformInput {
    PlatformInput::MouseMove(
        MouseMoveEvent {
            position: cancel_position(),
            pressed_button: None,
            modifiers,
            pressure: scalar(0),
            tilt: None,
        },
    )
}

impl AndroidTouchView {
    /// A finger that has lifted hovers nothing: once no finger is down and no fling
    /// is running, the mouse is moved off the window.
    pub open spec fn lift_events(self) -> Seq<PlatformInput> {
        if self.touch.primary is Some || self.touch.momentum is Some {
            seq![]
        } else {
            seq![lift_event(self.touch.modifiers)]
        }
    }

    /// The positions of the primary and the second finger.
    pub open spec fn fingers(self, pointers: Seq<Pointer>) -> Option<(Point, Point)> {
        match self.touch.primary {
            Some(primary) => {
                let second_id = match self.two_finger {
                    Some(gesture) => Some(gesture.pointer_id),
                    None => other_than(pointers, primary.id),
                };
                match (second_id, position_of(pointers, primary.id)) {
                    (Some(second_id), Some(first)) => if second_id == primary.id {
                        None
                    } else {
                        match position_of(pointers, second_id) {
                            Some(second) => Some((first, second)),
                            None => None,
                        }
                    },
                    _ => None,
                }
            },
            None => None,
        }
    }

    pub open spec fn with_touch(self, touch: TouchView) -> AndroidTouchView {
        AndroidTouchView { touch, ..self }
    }

    /// A first pointer lands.
    pub open spec fn pressed(self, now: u64, press: Press, tap: Scalar) -> AndroidTouchView {
        AndroidTouchView { touch: self.touch.pressed(now, press, tap), two_finger: None }
    }

    /// Whether a second finger begins a gesture: not where one is under way (a third
    /// finger) or no first finger is down.
    pub open spec fn can_begin(self) -> bool {
        self.two_finger is None && self.touch.primary is Some
    }

    /// A second finger lands, with `centroid` and `separation` measured between the
    /// two.
    pub open spec fn begun(
        self,
        pointers: Seq<Pointer>,
        pointer_id: i64,
        centroid: Point,
        separation: Scalar,
    ) -> AndroidTouchView {
        if !self.can_begin() {
            self
        } else if self.fingers(pointers) is None {
            self.with_touch(self.touch.taken_over())
        } else {
            AndroidTouchView {
                touch: TouchView { mouse_position: centroid, ..self.touch.taken_over() },
                two_finger: Some(
                    TwoFingerGesture {
                        pointer_id,
                        last_centroid: centroid,
                        last_distance: separation.at_least_one(),
                    },
                ),
            }
        }
    }

    pub open spec fn begin_events(self, pointers: Seq<Pointer>, centroid: Point) -> Seq<PlatformInput> {
        if !self.can_begin() || self.fingers(pointers) is None {
            seq![]
        } else {
            self.touch.takeover_events() + seq![
                touch::still_scroll(centroid, self.touch.modifiers, TouchPhase::Started),
                pinch_event(
                    centroid,
                    PinchDelta::Unchanged,
                    self.touch.modifiers,
                    TouchPhase::Started,
                ),
            ]
        }
    }

    /// The two fingers move.
    pub open spec fn stretched(
        self,
        pointers: Seq<Pointer>,
        centroid: Point,
        separation: Scalar,
    ) -> AndroidTouchView {
        match self.two_finger {
            Some(gesture) => if self.fingers(pointers) is None {
                self
            } else {
                AndroidTouchView {
                    touch: TouchView { mouse_position: centroid, ..self.touch },
                    two_finger: Some(
                        TwoFingerGesture {
                            last_centroid: centroid,
                            last_distance: separation.at_least_one(),
                            ..gesture
                        },
                    ),
                }
            },
            None => self,
        }
    }

    pub open spec fn stretch_events(
        self,
        pointers: Seq<Pointer>,
        centroid: Point,
        separation: Scalar,
    ) -> Seq<PlatformInput> {
        match self.two_finger {
            Some(gesture) => if self.fingers(pointers) is None {
                seq![]
            } else {
                seq![
                    touch::scroll_event(
                        centroid,
                        ScrollDelta::Between { from: gesture.last_centroid, to: centroid },
                        self.touch.modifiers,
                        TouchPhase::Moved,
                    ),
                    pinch_event(
                        centroid,
                        if scalar(0).below(gesture.last_distance) {
                            PinchDelta::Ratio {
                                now: separation.at_least_one(),
                                before: gesture.last_distance,
                            }
                        } else {
                            PinchDelta::Unchanged
                        },
                        self.touch.modifiers,
                        TouchPhase::Moved,
                    ),
                ]
            },
            None => seq![],
        }
    }

    /// One of the two fingers lifted: the gesture ends, and whichever finger remains
    /// is ignored until it lifts too.
    pub open spec fn parted(self, pointer_id: i64, position: Point) -> AndroidTouchView {
        match self.two_finger {
            Some(gesture) => AndroidTouchView {
                touch: if gesture.pointer_id == pointer_id {
                    self.touch
                } else {
                    TouchView {
                        primary: match self.touch.primary {
                            Some(primary) => Some(
                                PrimaryView {
                                    id: gesture.pointer_id,
                                    mode: TouchMode::Cancelled,
                                    last: position,
                                    ..primary
                                },
                            ),
                            None => None,
                        },
                        ..self.touch
                    }
                },
                two_finger: None,
            },
            None => self,
        }
    }

    pub open spec fn part_events(self) -> Seq<PlatformInput> {
        match self.two_finger {
            Some(gesture) => seq![
                touch::still_scroll(gesture.last_centroid, self.touch.modifiers, TouchPhase::Ended),
                pinch_event(
                    gesture.last_centroid,
                    PinchDelta::Unchanged,
                    self.touch.modifiers,
                    TouchPhase::Ended,
                ),
            ],
            None => seq![],
        }
    }

    /// Whether the pointer that lifts is the primary one.
    pub open spec fn is_primary(self, pointer_id: i64) -> bool {
        match self.touch.primary {
            Some(primary) => primary.id == pointer_id,
            None => false,
        }
    }

    /// A finger that lifts far from where it landed with no move in between (a very
    /// fast swipe) has scrolled, not tapped.
    pub open spec fn is_swipe(primary: PrimaryView, travel: Scalar) -> bool {
        primary.mode == TouchMode::Undecided && !primary.pointer && scalar(TOUCH_SLOP).at_most(travel)
    }

    /// The primary pointer lifts at `position`, `travel` away from where it landed,
    /// with `velocity` since the fling sample.
    pub open spec fn lifted(
        self,
        now: u64,
        pointer_id: i64,
        position: Point,
        cancelled: bool,
        travel: Scalar,
        velocity: Point,
    ) -> AndroidTouchView {
        if !self.is_primary(pointer_id) {
            self
        } else {
            let primary = self.touch.primary->0;
            let up = TouchView { primary: None, mouse_position: position, ..self.touch };
            let forgotten = TouchView { last_tap: None, ..up };
            let flung = forgotten.flung(primary, now, position, self.touch.modifiers, velocity);
            self.with_touch(
                match primary.mode {
                    TouchMode::Undecided => if !cancelled && Self::is_swipe(primary, travel) {
                        flung
                    } else {
                        up
                    },
                    TouchMode::Drag => if primary.pointer {
                        up
                    } else {
                        forgotten
                    },
                    TouchMode::Scroll => if cancelled {
                        forgotten
                    } else {
                        flung
                    },
                    TouchMode::LongPressed | TouchMode::Cancelled => forgotten,
                },
            )
        }
    }

    /// What the lift itself sends, before the hover is cleared.
    pub open spec fn release_events(
        self,
        position: Point,
        cancelled: bool,
        travel: Scalar,
    ) -> Seq<PlatformInput> {
        let primary = self.touch.primary->0;
        let modifiers = self.touch.modifiers;
        let click_count = match self.touch.last_tap {
            Some(tap) => tap.count,
            None => 1,
        };
        match primary.mode {
            TouchMode::Undecided => if cancelled {
                seq![touch::cancel_event(self.touch, primary.button, TouchMode::Undecided)]
            } else if Self::is_swipe(primary, travel) {
                seq![
                    touch::cancel_event(self.touch, primary.button, TouchMode::Undecided),
                    touch::scroll_event(
                        position,
                        ScrollDelta::Between { from: primary.start, to: position },
                        modifiers,
                        TouchPhase::Started,
                    ),
                    touch::still_scroll(position, modifiers, TouchPhase::Ended),
                ]
            } else {
                seq![touch::up_event(primary.button, position, modifiers, click_count)]
            },
            TouchMode::Drag => seq![touch::up_event(primary.button, position, modifiers, click_count)],
            TouchMode::Scroll => seq![touch::still_scroll(position, modifiers, TouchPhase::Ended)],
            TouchMode::LongPressed | TouchMode::Cancelled => seq![],
        }
    }

    pub open spec fn lifted_events(
        self,
        now: u64,
        pointer_id: i64,
        position: Point,
        cancelled: bool,
        travel: Scalar,
        velocity: Point,
    ) -> Seq<PlatformInput> {
        if !self.is_primary(pointer_id) {
            seq![]
        } else {
            self.release_events(position, cancelled, travel) + (if self.touch.primary->0.pointer {
                seq![]
            } else {
                self.lifted(now, pointer_id, position, cancelled, travel, velocity).lift_events()
            })
        }
    }

    /// Whether the primary finger, `travel` away from where it landed, has been held
    /// still long enough.
    pub open spec fn is_long_press(self, now: u64, travel: Scalar) -> bool {
        match self.touch.primary {
            Some(primary) => primary.mode == TouchMode::Undecided && !primary.pointer && touch::since(
                now,
                primary.down_at,
            ) >= LONG_PRESS && !scalar(TOUCH_SLOP).at_most(travel),
            None => false,
        }
    }

    pub open spec fn held(self, now: u64, travel: Scalar) -> AndroidTouchView {
        if self.is_long_press(now, travel) {
            self.with_touch(
                TouchView {
                    primary: Some(
                        PrimaryView { mode: TouchMode::LongPressed, ..self.touch.primary->0 },
                    ),
                    ..self.touch
                },
            )
        } else {
            self
        }
    }

    pub open spec fn hold_events(self, now: u64, travel: Scalar) -> Seq<PlatformInput> {
        if self.is_long_press(now, travel) {
            let primary = self.touch.primary->0;
            seq![
                touch::cancel_event(self.touch, primary.button, TouchMode::Undecided),
                touch::down_event(MouseButton::Right, primary.last, self.touch.modifiers, 1, scalar(ONE)),
                touch::up_event(MouseButton::Right, primary.last, self.touch.modifiers, 1),
            ]
        } else {
            seq![]
        }
    }

    /// A step of momentum, and the hover cleared once it has run out.
    pub open spec fn coast_events(self, now: u64, decayed: Point) -> Seq<PlatformInput> {
        self.touch.coast_events(now, decayed) + (if self.touch.momentum is Some && touch::too_slow(
            decayed,
        ) {
            self.with_touch(self.touch.coasted(now, decayed)).lift_events()
        } else {
            seq![]
        })
    }
}

impl MotionEvent {
    /// The pointer that the action is about.
    pub open spec fn acting(self) -> Pointer {
        self.pointers@[self.index as int]
    }

    pub open spec fn is_mouse(self) -> bool {
        self.acting().tool == ToolType::Mouse || self.mouse_source
    }

    /// The button that a press presses.
    pub open spec fn button(self) -> MouseButton {
        if self.button_state & BUTTON_STYLUS_PRIMARY != 0 {
            MouseButton::Right
        } else if self.is_mouse() {
            if self.button_state & BUTTON_SECONDARY != 0 {
                MouseButton::Right
            } else if self.button_state & BUTTON_TERTIARY != 0 {
                MouseButton::Middle
            } else {
                MouseButton::Left
            }
        } else if self.button_state & BUTTON_STYLUS_SECONDARY != 0 {
            MouseButton::Right
        } else {
            MouseButton::Left
        }
    }

    /// The press that this event is: a mouse or a pen drags from the start, a finger
    /// is undecided.
    pub open spec fn press(self) -> Press {
        Press {
            id: self.acting().id as i64,
            position: self.acting().position,
            button: self.button(),
            mode: if self.is_mouse() || is_pen(self.acting().tool) {
                TouchMode::Drag
            } else {
                TouchMode::Undecided
            },
            pointer: self.is_mouse(),
            pressure: pressure_of(self.acting()),
        }
    }
}

impl AndroidTouchView {
    /// The primary pointer moves to each position that it has among the pointers.
    pub open spec fn moved_by(
        self,
        now: u64,
        pointers: Seq<Pointer>,
        travel: Seq<Scalar>,
        primary_id: i64,
    ) -> AndroidTouchView
        decreases pointers.len(),
    {
        if pointers.len() == 0 {
            self
        } else {
            let before = self.moved_by(now, pointers.drop_last(), travel, primary_id);
            if pointers.last().id == primary_id {
                before.with_touch(
                    before.touch.moved(now, pointers.last().position, travel[pointers.len() - 1]),
                )
            } else {
                before
            }
        }
    }

    pub open spec fn moved_by_events(
        self,
        now: u64,
        pointers: Seq<Pointer>,
        travel: Seq<Scalar>,
        primary_id: i64,
    ) -> Seq<PlatformInput>
        decreases pointers.len(),
    {
        if pointers.len() == 0 {
            seq![]
        } else {
            let before = self.moved_by(now, pointers.drop_last(), travel, primary_id);
            let sent = self.moved_by_events(now, pointers.drop_last(), travel, primary_id);
            if pointers.last().id == primary_id {
                sent + before.touch.move_events(
                    pointers.last().position,
                    pressure_of(pointers.last()),
                    travel[pointers.len() - 1],
                )
            } else {
                sent
            }
        }
    }

    /// What a motion event does, once the modifiers are up to date.
    pub open spec fn acted(self, now: u64, event: MotionEvent, measures: Measures) -> AndroidTouchView {
        let pointer = event.acting();
        let id = pointer.id as i64;
        let travel = measures.travel@[event.index as int];
        match event.action {
            MotionAction::Down => self.pressed(now, event.press(), measures.tap),
            MotionAction::PointerDown => if event.is_mouse() {
                self
            } else {
                self.begun(event.pointers@, id, measures.centroid, measures.separation)
            },
            MotionAction::Move => if self.two_finger is Some {
                self.stretched(event.pointers@, measures.centroid, measures.separation)
            } else {
                match self.touch.primary {
                    Some(primary) => self.moved_by(
                        now,
                        event.pointers@,
                        measures.travel@,
                        primary.id,
                    ),
                    None => self,
                }
            },
            MotionAction::PointerUp => self.parted(id, pointer.position),
            MotionAction::Up => self.lifted(
                now,
                id,
                pointer.position,
                false,
                travel,
                measures.velocity,
            ),
            MotionAction::Cancel => self.parted(id, pointer.position).lifted(
                now,
                id,
                pointer.position,
                true,
                travel,
                measures.velocity,
            ),
            MotionAction::HoverEnter | MotionAction::HoverMove => self.with_touch(
                TouchView { mouse_position: pointer.position, ..self.touch },
            ),
            MotionAction::Scroll => self.with_touch(
                TouchView { momentum: None, mouse_position: pointer.position, ..self.touch },
            ),
            MotionAction::HoverExit | MotionAction::Other => self,
        }
    }

    pub open spec fn action_events(
        self,
        now: u64,
        event: MotionEvent,
        measures: Measures,
    ) -> Seq<PlatformInput> {
        let pointer = event.acting();
        let id = pointer.id as i64;
        let position = pointer.position;
        let modifiers = self.touch.modifiers;
        let travel = measures.travel@[event.index as int];
        match event.action {
            MotionAction::Down => self.touch.press_events(now, event.press(), measures.tap),
            MotionAction::PointerDown => if event.is_mouse() {
                seq![]
            } else {
                self.begin_events(event.pointers@, measures.centroid)
            },
            MotionAction::Move => if self.two_finger is Some {
                self.stretch_events(event.pointers@, measures.centroid, measures.separation)
            } else {
                match self.touch.primary {
                    Some(primary) => self.moved_by_events(
                        now,
                        event.pointers@,
                        measures.travel@,
                        primary.id,
                    ),
                    None => seq![],
                }
            },
            MotionAction::PointerUp => self.part_events(),
            MotionAction::Up => self.lifted_events(
                now,
                id,
                position,
                false,
                travel,
                measures.velocity,
            ),
            MotionAction::Cancel => self.part_events() + self.parted(id, position).lifted_events(
                now,
                id,
                position,
                true,
                travel,
                measures.velocity,
            ),
            MotionAction::HoverEnter | MotionAction::HoverMove => seq![
                PlatformInput::MouseMove(
                    MouseMoveEvent {
                        position,
                        pressed_button: None,
                        modifiers,
                        pressure: pressure_of(pointer),
                        tilt: None,
                    },
                ),
            ],
            MotionAction::HoverExit => seq![
                PlatformInput::MouseExited(
                    MouseExitEvent { position, pressed_button: None, modifiers },
                ),
            ],
            MotionAction::Scroll => seq![
                touch::scroll_event(
                    position,
                    ScrollDelta::Lines(pointer.wheel),
                    modifiers,
                    TouchPhase::Moved,
                ),
            ],
            MotionAction::Other => seq![],
        }
    }

    /// The state with the modifiers of a meta state.
    pub open spec fn with_meta(self, meta: u32) -> AndroidTouchView {
        self.with_touch(
            self.touch.with_modifiers(events::meta_modifiers(meta), events::meta_capslock(meta)),
        )
    }

    pub open spec fn meta_events(self, meta: u32) -> Seq<PlatformInput> {
        self.touch.modifiers_events(events::meta_modifiers(meta), events::meta_capslock(meta))
    }
}

/// The position of the pointer with this id.
fn find_position(pointers: &Vec<Pointer>, id: i64) -> (position: Option<Point>)
    ensures
        position == position_of(pointers@, id),
{
    let mut index: usize = pointers.len();
    assert(pointers@.take(index as int) =~= pointers@);
    while index > 0
        invariant
            index <= pointers@.len(),
            position_of(pointers@, id) == position_of(pointers@.take(index as int), id),
        decreases index,
    {
        assert(pointers@.take(index as int).drop_last() =~= pointers@.take(index - 1));
        index -= 1;
        if pointers[index].id as i64 == id {
            return Some(pointers[index].position);
        }
    }
    None
}

fn find_other(pointers: &Vec<Pointer>, id: i64) -> (other: Option<i64>)
    ensures
        other == other_than(pointers@, id),
{
    let mut index: usize = 0;
    assert(pointers@.skip(0) =~= pointers@);
    while index < pointers.len()
        invariant
            index <= pointers@.len(),
            other_than(pointers@, id) == other_than(pointers@.skip(index as int), id),
        decreases pointers@.len() - index,
    {
        if pointers[index].id as i64 != id {
            return Some(pointers[index].id as i64);
        }
        assert(pointers@.skip(index as int).drop_first() =~= pointers@.skip(index + 1));
        index += 1;
    }
    None
}

fn pen(tool: ToolType) -> (yes: bool)
    ensures
        yes == is_pen(tool),
{
    tool == ToolType::Stylus || tool == ToolType::Eraser
}

fn pointer_pressure(pointer: &Pointer) -> (pressure: Scalar)
    ensures
        pressure == pressure_of(*pointer),
{
    if pen(pointer.tool) {
        pointer.pressure.clamp_unit()
    } else {
        scalar(ONE)
    }
}

fn send_pinch(
    position: Point,
    delta: PinchDelta,
    modifiers: Modifiers,
    phase: TouchPhase,
    out: &mut Vec<PlatformInput>,
)
    ensures
        final(out)@ == old(out)@.push(pinch_event(position, delta, modifiers, phase)),
{
    out.push(
        PlatformInput::Pinch(
            PinchEvent { position, delta, scale: scalar(ONE), modifiers, phase },
        ),
    );
}

impl AndroidTouch {
    pub fn new() -> (state: AndroidTouch)
        ensures
            state@.two_finger is None,
            state@.touch.primary is None,
            state@.touch.momentum is None,
            state@.touch.last_tap is None,
            state@.touch.mouse_position == origin(),
            state@.touch.modifiers == crate::input::no_modifiers(),
            !state@.touch.capslock.on,
    {
        AndroidTouch { touch: Touch::new(), two_finger: None }
    }

    /// Moves the mouse off the window once nothing touches it.
    pub fn lift_hover(&self, out: &mut Vec<PlatformInput>)
        ensures
            final(out)@ == old(out)@ + self@.lift_events(),
    {
        if self.touch.primary.is_some() || self.touch.momentum.is_some() {
            return;
        }
        out.push(
            PlatformInput::MouseMove(
                MouseMoveEvent {
                    position: cancel_position(),
                    pressed_button: None,
                    modifiers: self.touch.modifiers,
                    pressure: scalar(0),
                    tilt: None,
                },
            ),
        );
    }

    /// The positions of the primary and the second finger, for their midpoint and
    /// separation to be measured.
    pub fn two_finger_geometry(&self, pointers: &Vec<Pointer>) -> (fingers: Option<(Point, Point)>)
        ensures
            fingers == self@.fingers(pointers@),
    {
        let primary_id: i64 = match &self.touch.primary {
            Some(primary) => primary.id,
            None => {
                return None;
            },
        };
        let second: Option<i64> = match &self.two_finger {
            Some(gesture) => Some(gesture.pointer_id),
            None => find_other(pointers, primary_id),
        };
        let second_id: i64 = match second {
            Some(id) => id,
            None => {
                return None;
            },
        };
        let first = find_position(pointers, primary_id);
        if second_id == primary_id {
            return None;
        }
        let other = find_position(pointers, second_id);
        match (first, other) {
            (Some(first), Some(other)) => Some((first, other)),
            _ => None,
        }
    }

    /// A first pointer lands; `tap` is how far it is from the last tap.
    pub fn begin_primary(
        &mut self,
        now: u64,
        press: Press,
        tap: Scalar,
        out: &mut Vec<PlatformInput>,
    )
        requires
            old(self)@.touch.click_count(now, tap) <= usize::MAX,
        ensures
            final(self)@ == old(self)@.pressed(now, press, tap),
            final(out)@ == old(out)@ + old(self)@.touch.press_events(now, press, tap),
    {
        self.two_finger = None;
        self.touch.press(now, press, tap, out);
    }

    /// Two fingers: the press in progress is cancelled, and from here on the pair
    /// scrolls and pinches until one lifts.
    pub fn begin_two_finger(
        &mut self,
        pointers: &Vec<Pointer>,
        pointer_id: i64,
        centroid: Point,
        separation: Scalar,
        out: &mut Vec<PlatformInput>,
    )
        ensures
            final(self)@ == old(self)@.begun(pointers@, pointer_id, centroid, separation),
            final(out)@ == old(out)@ + old(self)@.begin_events(pointers@, centroid),
    {
        if self.two_finger.is_some() || self.touch.primary.is_none() {
            // A third finger, or a second with no first: ignored.
            return;
        }
        if self.two_finger_geometry(pointers).is_none() {
            let mut unsent: Vec<PlatformInput> = Vec::new();
            self.touch.take_over(&mut unsent);
            return;
        }
        self.touch.take_over(out);
        self.two_finger = Some(
            TwoFingerGesture {
                pointer_id,
                last_centroid: centroid,
                last_distance: separation.max_one(),
            },
        );
        self.touch.mouse_position = centroid;
        let modifiers = self.touch.modifiers;
        send_scroll(centroid, ScrollDelta::Pixels(origin()), modifiers, TouchPhase::Started, out);
        send_pinch(centroid, PinchDelta::Unchanged, modifiers, TouchPhase::Started, out);
    }

    /// The two fingers move.
    pub fn move_two_finger(
        &mut self,
        pointers: &Vec<Pointer>,
        centroid: Point,
        separation: Scalar,
        out: &mut Vec<PlatformInput>,
    )
        ensures
            final(self)@ == old(self)@.stretched(pointers@, centroid, separation),
            final(out)@ == old(out)@ + old(self)@.stretch_events(pointers@, centroid, separation),
    {
        let gesture = match self.two_finger {
            Some(gesture) => gesture,
            None => {
                return;
            },
        };
        if self.two_finger_geometry(pointers).is_none() {
            return;
        }
        let distance = separation.max_one();
        let delta = if scalar(0).less(gesture.last_distance) {
            PinchDelta::Ratio { now: distance, before: gesture.last_distance }
        } else {
            PinchDelta::Unchanged
        };
        self.two_finger = Some(
            TwoFingerGesture {
                pointer_id: gesture.pointer_id,
                last_centroid: centroid,
                last_distance: distance,
            },
        );
        self.touch.mouse_position = centroid;
        let modifiers = self.touch.modifiers;
        send_scroll(
            centroid,
            ScrollDelta::Between { from: gesture.last_centroid, to: centroid },
            modifiers,
            TouchPhase::Moved,
            out,
        );
        send_pinch(centroid, delta, modifiers, TouchPhase::Moved, out);
    }

    /// One of the two fingers lifted.
    pub fn end_two_finger(&mut self, pointer_id: i64, position: Point, out: &mut Vec<PlatformInput>)
        ensures
            final(self)@ == old(self)@.parted(pointer_id, position),
            final(out)@ == old(out)@ + old(self)@.part_events(),
    {
        let gesture = match self.two_finger {
            Some(gesture) => gesture,
            None => {
                return;
            },
        };
        self.two_finger = None;
        if gesture.pointer_id != pointer_id {
            // The primary lifted; the second finger carries on as a cancelled primary
            // so its own lift is accounted for.
            match &mut self.touch.primary {
                Some(primary) => {
                    primary.id = gesture.pointer_id;
                    primary.mode = TouchMode::Cancelled;
                    primary.last = position;
                },
                None => {},
            }
        }
        let modifiers = self.touch.modifiers;
        send_scroll(
            gesture.last_centroid,
            ScrollDelta::Pixels(origin()),
            modifiers,
            TouchPhase::Ended,
            out,
        );
        send_pinch(
            gesture.last_centroid,
            PinchDelta::Unchanged,
            modifiers,
            TouchPhase::Ended,
            out,
        );
    }

    /// A pointer lifts, or the system takes it away; `travel` is how far it is from
    /// where it landed, `velocity` how fast it moved since the fling sample.
    pub fn finish_touch(
        &mut self,
        now: u64,
        pointer_id: i64,
        position: Point,
        cancelled: bool,
        travel: Scalar,
        velocity: Point,
        out: &mut Vec<PlatformInput>,
    )
        ensures
            final(self)@ == old(self)@.lifted(now, pointer_id, position, cancelled, travel, velocity),
            final(out)@ == old(out)@ + old(self)@.lifted_events(
                now,
                pointer_id,
                position,
                cancelled,
                travel,
                velocity,
            ),
    {
        match &self.touch.primary {
            Some(primary) => {
                if primary.id != pointer_id {
                    return;
                }
            },
            None => {
                return;
            },
        }
        let primary = match self.touch.primary.take() {
            Some(primary) => primary,
            None => {
                return;
            },
        };
        let modifiers = self.touch.modifiers;
        self.touch.mouse_position = position;
        let click_count: usize = match self.touch.last_tap {
            Some(tap) => tap.count,
            None => 1,
        };
        let swiped = primary.mode == TouchMode::Undecided && !primary.pointer && scalar(
            TOUCH_SLOP,
        ).less_or_equal(travel);
        match primary.mode {
            TouchMode::Undecided => {
                if cancelled {
                    self.touch.cancel_press(primary.button, TouchMode::Undecided, out);
                } else if swiped {
                    self.touch.cancel_press(primary.button, TouchMode::Undecided, out);
                    send_scroll(
                        position,
                        ScrollDelta::Between { from: primary.start, to: position },
                        modifiers,
                        TouchPhase::Started,
                        out,
                    );
                    send_scroll(
                        position,
                        ScrollDelta::Pixels(origin()),
                        modifiers,
                        TouchPhase::Ended,
                        out,
                    );
                    self.touch.last_tap = None;
                    self.touch.start_momentum(&primary, now, position, modifiers, velocity);
                } else {
                    send_up(primary.button, position, modifiers, click_count, out);
                }
            },
            TouchMode::Drag => {
                send_up(primary.button, position, modifiers, click_count, out);
                if !primary.pointer {
                    // Stylus ups are not taps.
                    self.touch.last_tap = None;
                }
            },
            TouchMode::Scroll => {
                send_scroll(
                    position,
                    ScrollDelta::Pixels(origin()),
                    modifiers,
                    TouchPhase::Ended,
                    out,
                );
                self.touch.last_tap = None;
                if !cancelled {
                    self.touch.start_momentum(&primary, now, position, modifiers, velocity);
                }
            },
            TouchMode::LongPressed | TouchMode::Cancelled => {
                self.touch.last_tap = None;
            },
        }
        if !primary.pointer {
            self.lift_hover(out);
        }
    }

    /// A finger held still past the long-press time is a right click; `travel` is how
    /// far it is from where it landed.
    pub fn tick_long_press(&mut self, now: u64, travel: Scalar, out: &mut Vec<PlatformInput>)
        ensures
            final(self)@ == old(self)@.held(now, travel),
            final(out)@ == old(out)@ + old(self)@.hold_events(now, travel),
    {
        let (button, position) = match &mut self.touch.primary {
            Some(primary) => {
                if primary.mode != TouchMode::Undecided || primary.pointer || nanos_since(
                    now,
                    primary.down_at,
                ) < LONG_PRESS || scalar(TOUCH_SLOP).less_or_equal(travel) {
                    return;
                }
                primary.mode = TouchMode::LongPressed;
                (primary.button, primary.last)
            },
            None => {
                return;
            },
        };
        let modifiers = self.touch.modifiers;
        self.touch.cancel_press(button, TouchMode::Undecided, out);
        out.push(
            PlatformInput::MouseDown(
                MouseDownEvent {
                    button: MouseButton::Right,
                    position,
                    modifiers,
                    click_count: 1,
                    first_mouse: false,
                    pressure: scalar(ONE),
                    tilt: None,
                },
            ),
        );
        send_up(MouseButton::Right, position, modifiers, 1, out);
    }

    /// One step of momentum scrolling; `decayed` is the velocity that remains.
    pub fn tick_momentum(&mut self, now: u64, decayed: Point, out: &mut Vec<PlatformInput>)
        ensures
            final(self)@ == old(self)@.with_touch(old(self)@.touch.coasted(now, decayed)),
            final(out)@ == old(out)@ + old(self)@.coast_events(now, decayed),
    {
        let finished = self.touch.tick_momentum(now, decayed, out);
        if finished {
            self.lift_hover(out);
        }
    }

    /// Runs once a frame: the long-press timer and momentum scrolling.
    pub fn tick_touch_timers(
        &mut self,
        now: u64,
        travel: Scalar,
        decayed: Point,
        out: &mut Vec<PlatformInput>,
    )
        ensures
            final(self)@ == old(self)@.held(now, travel).with_touch(
                old(self)@.held(now, travel).touch.coasted(now, decayed),
            ),
            final(out)@ == old(out)@ + old(self)@.hold_events(now, travel) + old(self)@.held(
                now,
                travel,
            ).coast_events(now, decayed),
    {
        self.tick_long_press(now, travel, out);
        self.tick_momentum(now, decayed, out);
    }

    /// A move that may carry several pointers; only the primary one counts.
    fn move_pointers(
        &mut self,
        now: u64,
        pointers: &Vec<Pointer>,
        travel: &Vec<Scalar>,
        primary_id: i64,
        out: &mut Vec<PlatformInput>,
    )
        requires
            travel@.len() == pointers@.len(),
        ensures
            final(self)@ == old(self)@.moved_by(now, pointers@, travel@, primary_id),
            final(out)@ == old(out)@ + old(self)@.moved_by_events(
                now,
                pointers@,
                travel@,
                primary_id,
            ),
    {
        let mut index: usize = 0;
        while index < pointers.len()
            invariant
                index <= pointers@.len(),
                travel@.len() == pointers@.len(),
                self@ == old(self)@.moved_by(
                    now,
                    pointers@.take(index as int),
                    travel@,
                    primary_id,
                ),
                out@ == old(out)@ + old(self)@.moved_by_events(
                    now,
                    pointers@.take(index as int),
                    travel@,
                    primary_id,
                ),
            decreases pointers@.len() - index,
        {
            proof {
                assert(pointers@.take(index + 1).drop_last() =~= pointers@.take(index as int));
            }
            let pointer = pointers[index];
            if pointer.id as i64 == primary_id {
                let pressure = pointer_pressure(&pointer);
                self.touch.move_primary(now, pointer.position, pressure, travel[index], out);
            }
            index += 1;
        }
        proof {
            assert(pointers@.take(index as int) =~= pointers@);
        }
    }

    /// A motion event: what it does to the window's touches, and what the window
    /// reports for it.
    pub fn handle_motion(
        &mut self,
        now: u64,
        event: &MotionEvent,
        measures: &Measures,
        out: &mut Vec<PlatformInput>,
    )
        requires
            event.index < event.pointers@.len(),
            measures.travel@.len() == event.pointers@.len(),
            event.action == MotionAction::Down ==> old(self)@.touch.click_count(now, measures.tap)
                <= usize::MAX,
        ensures
            final(self)@ == old(self)@.with_meta(event.meta_state).acted(now, *event, *measures),
            final(out)@ == old(out)@ + old(self)@.meta_events(event.meta_state) + old(
                self,
            )@.with_meta(event.meta_state).action_events(now, *event, *measures),
    {
        self.touch.update_modifiers(
            modifiers_from_meta_state(event.meta_state),
            capslock_from_meta_state(event.meta_state),
            out,
        );
        let pointer = event.pointers[event.index];
        let id: i64 = pointer.id as i64;
        let position = pointer.position;
        let is_mouse = pointer.tool == ToolType::Mouse || event.mouse_source;
        let pressure = pointer_pressure(&pointer);
        let travel = measures.travel[event.index];
        let modifiers = self.touch.modifiers;
        match event.action {
            MotionAction::Down => {
                let buttons: u32 = event.button_state;
                let button = if is_mouse {
                    if buttons & BUTTON_SECONDARY != 0 || buttons & BUTTON_STYLUS_PRIMARY != 0 {
                        MouseButton::Right
                    } else if buttons & BUTTON_TERTIARY != 0 {
                        MouseButton::Middle
                    } else {
                        MouseButton::Left
                    }
                } else if buttons & BUTTON_STYLUS_PRIMARY != 0 || buttons & BUTTON_STYLUS_SECONDARY
                    != 0 {
                    MouseButton::Right
                } else {
                    MouseButton::Left
                };
                let mode = if is_mouse || pen(pointer.tool) {
                    TouchMode::Drag
                } else {
                    TouchMode::Undecided
                };
                self.begin_primary(
                    now,
                    Press { id, position, button, mode, pointer: is_mouse, pressure },
                    measures.tap,
                    out,
                );
            },
            MotionAction::PointerDown => {
                if is_mouse {
                    return;
                }
                self.begin_two_finger(
                    &event.pointers,
                    id,
                    measures.centroid,
                    measures.separation,
                    out,
                );
            },
            MotionAction::Move => {
                if self.two_finger.is_some() {
                    self.move_two_finger(
                        &event.pointers,
                        measures.centroid,
                        measures.separation,
                        out,
                    );
                    return;
                }
                let primary_id: i64 = match &self.touch.primary {
                    Some(primary) => primary.id,
                    None => {
                        return;
                    },
                };
                self.move_pointers(now, &event.pointers, &measures.travel, primary_id, out);
            },
            MotionAction::PointerUp => {
                self.end_two_finger(id, position, out);
            },
            MotionAction::Up => {
                self.finish_touch(now, id, position, false, travel, measures.velocity, out);
            },
            MotionAction::Cancel => {
                self.end_two_finger(id, position, out);
                self.finish_touch(now, id, position, true, travel, measures.velocity, out);
            },
            MotionAction::HoverEnter | MotionAction::HoverMove => {
                self.touch.mouse_position = position;
                out.push(
                    PlatformInput::MouseMove(
                        MouseMoveEvent {
                            position,
                            pressed_button: None,
                            modifiers,
                            pressure,
                            tilt: None,
                        },
                    ),
                );
            },
            MotionAction::HoverExit => {
                out.push(
                    PlatformInput::MouseExited(
                        MouseExitEvent { position, pressed_button: None, modifiers },
                    ),
                );
            },
            MotionAction::Scroll => {
                self.touch.momentum = None;
                self.touch.mouse_position = position;
                send_scroll(
                    position,
                    ScrollDelta::Lines(pointer.wheel),
                    modifiers,
                    TouchPhase::Moved,
                    out,
                );
            },
            MotionAction::Other => {},
        }
    }
}

#[derive(Clone, Copy, Debug, PartialEq, Eq, Structural)]
pub enum KeyAction {
    Down,
    Up,
    Other,
}

/// Whether an input event has been dealt with; what has not goes back to the system.
#[derive(Clone, Copy, Debug, PartialEq, Eq, Structural)]
pub enum InputStatus {
    Handled,
    Unhandled,
}

/// A key event. `typed` is the character that the device's map gives under the event's
/// meta state, `unshifted` the one it gives under none.
#[derive(Clone, Copy, Debug, PartialEq, Eq, Structural)]
pub struct KeyEvent {
    pub action: KeyAction,
    pub key_code: u32,
    pub meta_state: u32,
    pub repeat_count: i32,
    pub typed: Option<char>,
    pub unshifted: Option<char>,
}

/// What a key event asks for first.
#[derive(Debug, PartialEq, Eq)]
pub enum KeyStep {
    /// Nothing more: this is the answer.
    Done(InputStatus),
    /// The event goes to the window's input callback.
    Dispatch(PlatformInput),
}

/// What follows once the callback has had the event.
#[derive(Debug, PartialEq, Eq)]
pub enum KeyOutcome {
    Done(InputStatus),
    /// The text goes into the focused field, and the event is handled.
    Insert(String),
}

impl KeyEvent {
    pub open spec fn keystroke(self) -> Option<KeystrokeView> {
        events::keystroke_of(self.key_code, self.meta_state, self.typed, self.unshifted)
    }

    /// Whether `step` is what this event asks for first.
    pub open spec fn first_step(self, step: KeyStep) -> bool {
        if self.action == KeyAction::Other {
            step == KeyStep::Done(InputStatus::Unhandled)
        } else if events::is_modifier(self.key_code) {
            step == KeyStep::Done(InputStatus::Handled)
        } else if self.keystroke() is None {
            step == KeyStep::Done(InputStatus::Unhandled)
        } else if self.action == KeyAction::Down {
            step matches KeyStep::Dispatch(PlatformInput::KeyDown(down)) && down.keystroke@
                == self.keystroke()->0 && down.is_held == (self.repeat_count > 0)
        } else {
            step matches KeyStep::Dispatch(PlatformInput::KeyUp(up)) && up.keystroke@
                == self.keystroke()->0
        }
    }
}

impl AndroidTouch {
    /// A key event: the modifiers it carries, and what it asks for first.
    pub fn handle_key(&mut self, event: KeyEvent, out: &mut Vec<PlatformInput>) -> (step: KeyStep)
        ensures
            event.first_step(step),
            event.action == KeyAction::Other ==> final(self)@ == old(self)@ && final(out)@ == old(
                out,
            )@,
            event.action != KeyAction::Other ==> final(self)@ == old(self)@.with_meta(
                event.meta_state,
            ) && final(out)@ == old(out)@ + old(self)@.meta_events(event.meta_state),
    {
        if event.action == KeyAction::Other {
            return KeyStep::Done(InputStatus::Unhandled);
        }
        self.touch.update_modifiers(
            modifiers_from_meta_state(event.meta_state),
            capslock_from_meta_state(event.meta_state),
            out,
        );
        if is_modifier_key(event.key_code) {
            return KeyStep::Done(InputStatus::Handled);
        }
        match keystroke_from_key_event(
            event.key_code,
            event.meta_state,
            event.typed,
            event.unshifted,
        ) {
            Some(keystroke) => if event.action == KeyAction::Down {
                KeyStep::Dispatch(
                    PlatformInput::KeyDown(
                        KeyDownEvent { keystroke, is_held: event.repeat_count > 0 },
                    ),
                )
            } else {
                KeyStep::Dispatch(PlatformInput::KeyUp(KeyUpEvent { keystroke }))
            },
            None => KeyStep::Done(InputStatus::Unhandled),
        }
    }
}

/// What follows once the callback has had a key down: a printable key that nothing took
/// is text for the focused field.
pub fn finish_key_down(event: KeyDownEvent, handled: bool, has_text_focus: bool) -> (outcome:
    KeyOutcome)
    ensures
        handled ==> outcome == KeyOutcome::Done(InputStatus::Handled),
        !handled && (event.keystroke.key_char is None || !has_text_focus) ==> outcome
            == KeyOutcome::Done(InputStatus::Unhandled),
        !handled && event.keystroke.key_char is Some && has_text_focus ==> (outcome
            matches KeyOutcome::Insert(text) && text@ == event.keystroke.key_char->0@),
{
    if handled {
        return KeyOutcome::Done(InputStatus::Handled);
    }
    match event.keystroke.key_char {
        Some(text) => if has_text_focus {
            KeyOutcome::Insert(text)
        } else {
            KeyOutcome::Done(InputStatus::Unhandled)
        },
        None => KeyOutcome::Done(InputStatus::Unhandled),
    }
}

/// What follows once the callback has had a key up.
pub fn finish_key_up(handled: bool) -> (status: InputStatus)
    ensures
        status == if handled {
            InputStatus::Handled
        } else {
            InputStatus::Unhandled
        },
{
    if handled {
        InputStatus::Handled
    } else {
        InputStatus::Unhandled
    }
}

} // verus!
