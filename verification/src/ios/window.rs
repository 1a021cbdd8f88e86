//! A window on iOS: the touches, gestures and key presses on its view.
//!
//! A finger becomes a mouse: a tap is a left click, a drag past the slop scrolls with
//! momentum, a long press is a right click or the system edit menu, two fingers pinch and
//! pan, a pencil draws with pressure, and a pointer is a real mouse.

use crate::float::{scalar, Scalar, ONE};
use crate::geometry::{origin, Point};
use crate::input::{
    KeyDownEvent, KeyUpEvent, MouseButton, MouseDownEvent, MouseExitEvent, MouseMoveEvent, PinchDelta,
    PinchEvent, PlatformInput, ScrollDelta, TouchPhase,
};
use crate::ios::events;
use crate::ios::events::{
    capslock_from_flags, is_modifier_key, keystroke_from_ui_key, modifiers_from_flags, UiKey,
    UI_KEY_MODIFIER_ALTERNATE, UI_KEY_MODIFIER_COMMAND, UI_KEY_MODIFIER_CONTROL, UI_KEY_MODIFIER_SHIFT,
};
use crate::touch;
use crate::touch::{send_scroll, send_up, Press, PrimaryView, Touch, TouchMode, TouchView};
use vstd::prelude::*;

verus! {

/// Kinds of touches.
pub const UI_TOUCH_TYPE_PENCIL: isize = 2;

pub const UI_TOUCH_TYPE_INDIRECT_POINTER: isize = 3;

/// The secondary button in a button mask.
pub const UI_EVENT_BUTTON_MASK_SECONDARY: usize = 2;

/// States of a gesture recognizer.
pub const GESTURE_BEGAN: isize = 1;

pub const GESTURE_CHANGED: isize = 2;

pub const GESTURE_ENDED: isize = 3;

pub const GESTURE_CANCELLED: isize = 4;

/// One touch of an event, with what is measured against the window's state.
#[derive(Clone, Copy, Debug, PartialEq, Eq, Structural)]
pub struct UiTouch {
    pub id: i64,
    pub kind: isize,
    pub position: Point,
    /// The force over its maximum, where both are above zero.
    pub force: Option<Scalar>,
    /// From the last tap to this touch.
    pub tap: Scalar,
    /// From where the primary finger landed to this touch.
    pub travel: Scalar,
    /// From the fling sample to this touch, per second.
    pub velocity: Point,
}

impl UiTouch {
    /// A pencil's own pressure where it has any; full pressure for everything else.
    pub open spec fn pressure(self) -> Scalar {
        match self.force {
            Some(force) => if self.kind == UI_TOUCH_TYPE_PENCIL {
                force.within_unit()
            } else {
                scalar(ONE)
            },
            None => scalar(ONE),
        }
    }

    pub open spec fn is_pointer(self) -> bool {
        self.kind == UI_TOUCH_TYPE_INDIRECT_POINTER
    }

    /// The press that this touch is: a pointer or a pencil drags from the start, a finger
    /// is undecided.
    pub open spec fn press(self, button_mask: usize) -> Press {
        Press {
            id: self.id,
            position: self.position,
            button: if self.is_pointer() && button_mask & UI_EVENT_BUTTON_MASK_SECONDARY != 0 {
                MouseButton::Right
            } else {
                MouseButton::Left
            },
            mode: if self.is_pointer() || self.kind == UI_TOUCH_TYPE_PENCIL {
                TouchMode::Drag
            } else {
                TouchMode::Undecided
            },
            pointer: self.is_pointer(),
            pressure: self.pressure(),
        }
    }
}

/// The first touch with this id.
pub open spec fn touch_of(touches: Seq<UiTouch>, id: i64) -> Option<UiTouch>
    decreases touches.len(),
{
    if touches.len() == 0 {
        None
    } else if touches[0].id == id {
        Some(touches[0])
    } else {
        touch_of(touches.drop_first(), id)
    }
}

/// The phase that a recognizer's state stands for.
pub open spec fn gesture_phase(gesture_state: isize) -> Option<TouchPhase> {
    if gesture_state == GESTURE_BEGAN {
        Some(TouchPhase::Started)
    } else if gesture_state == GESTURE_CHANGED {
        Some(TouchPhase::Moved)
    } else if gesture_state == GESTURE_ENDED || gesture_state == GESTURE_CANCELLED {
        Some(TouchPhase::Ended)
    } else {
        None
    }
}

/// A key press, by its identity and the bit pattern of its double-precision timestamp.
#[derive(Clone, Copy, Debug, PartialEq, Eq, Structural)]
pub struct PressId {
    pub id: usize,
    pub timestamp: u64,
}

/// The magnitude of infinity in a double-precision bit pattern.
pub const INFINITE_DOUBLE: u64 = 0x7ff0_0000_0000_0000;

/// The bit that holds the sign of a double-precision bit pattern.
pub const DOUBLE_SIGN: u64 = 0x8000_0000_0000_0000;

/// Whether two double-precision bit patterns are the same number: both zeros are, and what
/// is not a number equals nothing.
pub open spec fn same_double(a: u64, b: u64) -> bool {
    let a_size = if a >= DOUBLE_SIGN {
        a - DOUBLE_SIGN
    } else {
        a as int
    };
    let b_size = if b >= DOUBLE_SIGN {
        b - DOUBLE_SIGN
    } else {
        b as int
    };
    a_size <= INFINITE_DOUBLE && b_size <= INFINITE_DOUBLE && (a == b || (a_size == 0 && b_size == 0))
}

impl PressId {
    pub open spec fn repeats(self, last: PressId) -> bool {
        self.id == last.id && same_double(self.timestamp, last.timestamp)
    }
}

/// The touches and presses on an iOS window.
#[derive(Debug)]
pub struct IosTouch {
    pub touch: Touch,
    /// The pinch scale reported at the previous gesture step.
    pub pinch_last_scale: Scalar,
    /// The last press seen. The system delivers a press a second time when a priority key
    /// command matches it, and the second copy must not become a second keystroke.
    pub last_press: PressId,
}

#[verifier::ext_equal]
pub struct IosTouchView {
    pub touch: TouchView,
    pub pinch_last_scale: Scalar,
    pub last_press: PressId,
}

impl View for IosTouch {
    type V = IosTouchView;

    open spec fn view(&self) -> IosTouchView {
        IosTouchView {
            touch: self.touch@,
            pinch_last_scale: self.pinch_last_scale,
            last_press: self.last_press,
        }
    }
}

impl IosTouchView {
    pub open spec fn with_touch(self, touch: TouchView) -> IosTouchView {
        IosTouchView { touch, ..self }
    }

    pub open spec fn with_flags(self, flags: usize) -> IosTouchView {
        self.with_touch(
            self.touch.with_modifiers(events::flag_modifiers(flags), events::flag_capslock(flags)),
        )
    }

    pub open spec fn flag_events(self, flags: usize) -> Seq<PlatformInput> {
        self.touch.modifiers_events(events::flag_modifiers(flags), events::flag_capslock(flags))
    }

    /// Touches begin: the first is the primary one, unless one is down already; the
    /// others are left to the gesture recognizers.
    pub open spec fn began(self, now: u64, touches: Seq<UiTouch>, button_mask: usize) -> IosTouchView {
        if self.touch.primary is Some || touches.len() == 0 {
            self
        } else {
            self.with_touch(
                self.touch.pressed(now, touches[0].press(button_mask), touches[0].tap),
            )
        }
    }

    pub open spec fn began_events(
        self,
        now: u64,
        touches: Seq<UiTouch>,
        button_mask: usize,
    ) -> Seq<PlatformInput> {
        if self.touch.primary is Some || touches.len() == 0 {
            seq![]
        } else {
            self.touch.press_events(now, touches[0].press(button_mask), touches[0].tap)
        }
    }

    /// The primary finger moves to each position that it has among the touches.
    pub open spec fn moved_by(self, now: u64, touches: Seq<UiTouch>) -> IosTouchView
        decreases touches.len(),
    {
        if touches.len() == 0 {
            self
        } else {
            let before = self.moved_by(now, touches.drop_last());
            let last = touches.last();
            if before.touch.primary matches Some(primary) && primary.id == last.id {
                before.with_touch(before.touch.moved(now, last.position, last.travel))
            } else {
                before
            }
        }
    }

    pub open spec fn moved_by_events(self, now: u64, touches: Seq<UiTouch>) -> Seq<PlatformInput>
        decreases touches.len(),
    {
        if touches.len() == 0 {
            seq![]
        } else {
            let before = self.moved_by(now, touches.drop_last());
            let sent = self.moved_by_events(now, touches.drop_last());
            let last = touches.last();
            if before.touch.primary matches Some(primary) && primary.id == last.id {
                sent + before.touch.move_events(last.position, last.pressure(), last.travel)
            } else {
                sent
            }
        }
    }

    /// The touch among these that lifts the primary finger.
    pub open spec fn lifting(self, touches: Seq<UiTouch>) -> Option<UiTouch> {
        match self.touch.primary {
            Some(primary) => touch_of(touches, primary.id),
            None => None,
        }
    }

    /// The primary finger lifts, or the system takes it away.
    pub open spec fn lifted(self, now: u64, touches: Seq<UiTouch>, cancelled: bool) -> IosTouchView {
        match self.lifting(touches) {
            Some(lift) => {
                let primary = self.touch.primary->0;
                let up = TouchView {
                    primary: None,
                    mouse_position: lift.position,
                    ..self.touch
                };
                let forgotten = TouchView { last_tap: None, ..up };
                self.with_touch(
                    match primary.mode {
                        TouchMode::Undecided => up,
                        TouchMode::Scroll => if cancelled {
                            forgotten
                        } else {
                            forgotten.flung(
                                primary,
                                now,
                                lift.position,
                                self.touch.modifiers,
                                lift.velocity,
                            )
                        },
                        TouchMode::Drag | TouchMode::LongPressed | TouchMode::Cancelled => forgotten,
                    },
                )
            },
            None => self,
        }
    }

    pub open spec fn lifted_events(self, touches: Seq<UiTouch>, cancelled: bool) -> Seq<PlatformInput> {
        match self.lifting(touches) {
            Some(lift) => {
                let primary = self.touch.primary->0;
                let modifiers = self.touch.modifiers;
                let click_count = match self.touch.last_tap {
                    Some(tap) => tap.count,
                    None => 1,
                };
                match primary.mode {
                    TouchMode::Undecided => if cancelled {
                        seq![touch::cancel_event(self.touch, primary.button, TouchMode::Undecided)]
                    } else {
                        seq![touch::up_event(primary.button, lift.position, modifiers, click_count)]
                    },
                    TouchMode::Drag => seq![
                        touch::up_event(primary.button, lift.position, modifiers, click_count),
                    ],
                    TouchMode::Scroll => seq![
                        touch::still_scroll(lift.position, modifiers, TouchPhase::Ended),
                    ],
                    TouchMode::LongPressed | TouchMode::Cancelled => seq![],
                }
            },
            None => seq![],
        }
    }

    /// The pinch recognizer reports a scale.
    pub open spec fn pinched(self, gesture_state: isize, scale: Scalar) -> IosTouchView {
        match gesture_phase(gesture_state) {
            Some(phase) => IosTouchView {
                touch: if phase is Started {
                    self.touch.taken_over()
                } else {
                    self.touch
                },
                pinch_last_scale: scale,
                ..self
            },
            None => self,
        }
    }

    pub open spec fn pinch_events(
        self,
        gesture_state: isize,
        scale: Scalar,
        position: Point,
    ) -> Seq<PlatformInput> {
        match gesture_phase(gesture_state) {
            Some(phase) => (if phase is Started {
                self.touch.takeover_events()
            } else {
                seq![]
            }) + seq![
                PlatformInput::Pinch(
                    PinchEvent {
                        position,
                        delta: if phase is Moved && scalar(0).below(self.pinch_last_scale) {
                            PinchDelta::Ratio { now: scale, before: self.pinch_last_scale }
                        } else {
                            PinchDelta::Unchanged
                        },
                        scale: scalar(ONE),
                        modifiers: self.touch.modifiers,
                        phase,
                    },
                ),
            ],
            None => seq![],
        }
    }

    /// Whether a long press has just been recognised on a finger that is still undecided.
    pub open spec fn is_long_press(self, gesture_state: isize) -> bool {
        gesture_state == GESTURE_BEGAN && (self.touch.primary matches Some(primary) && primary.mode
            == TouchMode::Undecided)
    }

    /// A long press: the edit menu takes the finger, or it is a right click.
    pub open spec fn long_pressed(self, gesture_state: isize, edit_menu_shown: bool) -> IosTouchView {
        if self.is_long_press(gesture_state) {
            self.with_touch(
                TouchView {
                    primary: Some(
                        PrimaryView {
                            mode: if edit_menu_shown {
                                TouchMode::Cancelled
                            } else {
                                TouchMode::LongPressed
                            },
                            ..self.touch.primary->0
                        },
                    ),
                    ..self.touch
                },
            )
        } else {
            self
        }
    }

    pub open spec fn long_press_events(
        self,
        gesture_state: isize,
        position: Point,
        edit_menu_shown: bool,
    ) -> Seq<PlatformInput> {
        if !self.is_long_press(gesture_state) {
            seq![]
        } else {
            let cancel = touch::cancel_event(
                self.touch,
                self.touch.primary->0.button,
                TouchMode::Undecided,
            );
            if edit_menu_shown {
                seq![cancel]
            } else {
                seq![
                    cancel,
                    touch::down_event(
                        MouseButton::Right,
                        position,
                        self.touch.modifiers,
                        1,
                        scalar(ONE),
                    ),
                    touch::up_event(MouseButton::Right, position, self.touch.modifiers, 1),
                ]
            }
        }
    }

    /// A pointer scrolls, or its wheel turns.
    pub open spec fn pointer_scrolled(self, gesture_state: isize, position: Point) -> IosTouchView {
        if gesture_phase(gesture_state) is Some {
            self.with_touch(TouchView { momentum: None, mouse_position: position, ..self.touch })
        } else {
            self
        }
    }

    pub open spec fn pointer_scroll_events(
        self,
        gesture_state: isize,
        position: Point,
        translation: Point,
    ) -> Seq<PlatformInput> {
        match gesture_phase(gesture_state) {
            Some(phase) => seq![
                touch::scroll_event(
                    position,
                    ScrollDelta::Pixels(translation),
                    self.touch.modifiers,
                    phase,
                ),
            ],
            None => seq![],
        }
    }

    /// Two fingers drag together.
    pub open spec fn panned(self, gesture_state: isize, position: Point) -> IosTouchView {
        match gesture_phase(gesture_state) {
            Some(phase) => self.with_touch(
                TouchView {
                    mouse_position: position,
                    ..if phase is Started {
                        self.touch.taken_over()
                    } else {
                        self.touch
                    }
                },
            ),
            None => self,
        }
    }

    pub open spec fn pan_events(
        self,
        gesture_state: isize,
        position: Point,
        translation: Point,
    ) -> Seq<PlatformInput> {
        (if gesture_state == GESTURE_BEGAN {
            self.touch.takeover_events()
        } else {
            seq![]
        }) + self.pointer_scroll_events(gesture_state, position, translation)
    }

    /// The button that a hovering pointer holds down.
    pub open spec fn dragging(self) -> Option<MouseButton> {
        match self.touch.primary {
            Some(primary) => if primary.mode == TouchMode::Drag {
                Some(primary.button)
            } else {
                None
            },
            None => None,
        }
    }

    pub open spec fn hover_events(self, gesture_state: isize, position: Point) -> Seq<PlatformInput> {
        let modifiers = self.touch.modifiers;
        match gesture_phase(gesture_state) {
            Some(TouchPhase::Ended) => seq![
                PlatformInput::MouseExited(
                    MouseExitEvent { position, pressed_button: self.dragging(), modifiers },
                ),
            ],
            Some(_) => if self.dragging() is Some {
                seq![]
            } else {
                seq![
                    PlatformInput::MouseMove(
                        MouseMoveEvent {
                            position,
                            pressed_button: None,
                            modifiers,
                            pressure: scalar(ONE),
                            tilt: None,
                        },
                    ),
                ]
            },
            None => seq![],
        }
    }
}

fn phase_of(gesture_state: isize) -> (phase: Option<TouchPhase>)
    ensures
        phase == gesture_phase(gesture_state),
{
    if gesture_state == GESTURE_BEGAN {
        Some(TouchPhase::Started)
    } else if gesture_state == GESTURE_CHANGED {
        Some(TouchPhase::Moved)
    } else if gesture_state == GESTURE_ENDED || gesture_state == GESTURE_CANCELLED {
        Some(TouchPhase::Ended)
    } else {
        None
    }
}

fn find_touch(touches: &Vec<UiTouch>, id: i64) -> (found: Option<UiTouch>)
    ensures
        found == touch_of(touches@, id),
{
    let mut index: usize = 0;
    assert(touches@.skip(0) =~= touches@);
    while index < touches.len()
        invariant
            index <= touches@.len(),
            touch_of(touches@, id) == touch_of(touches@.skip(index as int), id),
        decreases touches@.len() - index,
    {
        if touches[index].id == id {
            return Some(touches[index]);
        }
        assert(touches@.skip(index as int).drop_first() =~= touches@.skip(index + 1));
        index += 1;
    }
    None
}

/// The pressure of a touch.
pub fn touch_pressure(kind: isize, force: Option<Scalar>) -> (pressure: Scalar)
    ensures
        kind == UI_TOUCH_TYPE_PENCIL && force is Some ==> pressure == force->0.within_unit(),
        kind != UI_TOUCH_TYPE_PENCIL || force is None ==> pressure == scalar(ONE),
{
    match force {
        Some(force) => if kind == UI_TOUCH_TYPE_PENCIL {
            force.clamp_unit()
        } else {
            scalar(ONE)
        },
        None => scalar(ONE),
    }
}

impl IosTouch {
    pub fn new() -> (state: IosTouch)
        ensures
            state@.touch.primary is None,
            state@.touch.momentum is None,
            state@.touch.last_tap is None,
            state@.touch.mouse_position == origin(),
            state@.touch.modifiers == crate::input::no_modifiers(),
            !state@.touch.capslock.on,
            state@.pinch_last_scale == scalar(ONE),
            state@.last_press == (PressId { id: 0, timestamp: 0 }),
    {
        IosTouch {
            touch: Touch::new(),
            pinch_last_scale: scalar(ONE),
            last_press: PressId { id: 0, timestamp: 0 },
        }
    }

    /// Remembers the modifiers of an event, and reports them where they changed.
    pub fn update_modifiers(&mut self, flags: usize, out: &mut Vec<PlatformInput>)
        ensures
            final(self)@ == old(self)@.with_flags(flags),
            final(out)@ == old(out)@ + old(self)@.flag_events(flags),
    {
        self.touch.update_modifiers(modifiers_from_flags(flags), capslock_from_flags(flags), out);
    }

    /// Touches begin.
    pub fn touches_began(
        &mut self,
        now: u64,
        flags: usize,
        button_mask: usize,
        touches: &Vec<UiTouch>,
        out: &mut Vec<PlatformInput>,
    )
        requires
            touches@.len() > 0 ==> old(self)@.touch.click_count(now, touches@[0].tap) <= usize::MAX,
        ensures
            final(self)@ == old(self)@.with_flags(flags).began(now, touches@, button_mask),
            final(out)@ == old(out)@ + old(self)@.flag_events(flags) + old(self)@.with_flags(
                flags,
            ).began_events(now, touches@, button_mask),
    {
        self.update_modifiers(flags, out);
        if self.touch.primary.is_some() || touches.len() == 0 {
            return;
        }
        let landed = touches[0];
        let is_pointer = landed.kind == UI_TOUCH_TYPE_INDIRECT_POINTER;
        let button = if is_pointer && button_mask & UI_EVENT_BUTTON_MASK_SECONDARY != 0 {
            MouseButton::Right
        } else {
            MouseButton::Left
        };
        let mode = if is_pointer || landed.kind == UI_TOUCH_TYPE_PENCIL {
            TouchMode::Drag
        } else {
            TouchMode::Undecided
        };
        let pressure = touch_pressure(landed.kind, landed.force);
        let press = Press {
            id: landed.id,
            position: landed.position,
            button,
            mode,
            pointer: is_pointer,
            pressure,
        };
        self.touch.press(now, press, landed.tap, out);
    }

    /// Touches move.
    pub fn touches_moved(
        &mut self,
        now: u64,
        flags: usize,
        touches: &Vec<UiTouch>,
        out: &mut Vec<PlatformInput>,
    )
        ensures
            final(self)@ == old(self)@.with_flags(flags).moved_by(now, touches@),
            final(out)@ == old(out)@ + old(self)@.flag_events(flags) + old(self)@.with_flags(
                flags,
            ).moved_by_events(now, touches@),
    {
        self.update_modifiers(flags, out);
        let ghost before = self@;
        let ghost sent = out@;
        let mut index: usize = 0;
        while index < touches.len()
            invariant
                index <= touches@.len(),
                self@ == before.moved_by(now, touches@.take(index as int)),
                out@ == sent + before.moved_by_events(now, touches@.take(index as int)),
            decreases touches@.len() - index,
        {
            proof {
                assert(touches@.take(index + 1).drop_last() =~= touches@.take(index as int));
            }
            let touched = touches[index];
            let ours = match &self.touch.primary {
                Some(primary) => primary.id == touched.id,
                None => false,
            };
            if ours {
                let pressure = touch_pressure(touched.kind, touched.force);
                self.touch.move_primary(now, touched.position, pressure, touched.travel, out);
            }
            index += 1;
        }
        proof {
            assert(touches@.take(index as int) =~= touches@);
        }
    }

    /// Touches lift, or the system takes them away.
    pub fn finish_touch(
        &mut self,
        now: u64,
        touches: &Vec<UiTouch>,
        cancelled: bool,
        out: &mut Vec<PlatformInput>,
    )
        ensures
            final(self)@ == old(self)@.lifted(now, touches@, cancelled),
            final(out)@ == old(out)@ + old(self)@.lifted_events(touches@, cancelled),
    {
        let lift = match &self.touch.primary {
            Some(primary) => match find_touch(touches, primary.id) {
                Some(lift) => lift,
                None => {
                    return;
                },
            },
            None => {
                return;
            },
        };
        let primary = match self.touch.primary.take() {
            Some(primary) => primary,
            None => {
                return;
            },
        };
        let position = lift.position;
        let modifiers = self.touch.modifiers;
        self.touch.mouse_position = position;
        let click_count: usize = match self.touch.last_tap {
            Some(tap) => tap.count,
            None => 1,
        };
        match primary.mode {
            TouchMode::Undecided => {
                if cancelled {
                    self.touch.cancel_press(primary.button, TouchMode::Undecided, out);
                } else {
                    send_up(primary.button, position, modifiers, click_count, out);
                }
            },
            TouchMode::Drag => {
                send_up(primary.button, position, modifiers, click_count, out);
                // Pointer and pencil ups are not taps.
                self.touch.last_tap = None;
            },
            TouchMode::Scroll => {
                send_scroll(
            position,
            ScrollDelta::Pixels(origin()),
            modifiers,
            TouchPhase::Ended,
            out,
        );
                self.touch.last_tap = None;
                if !cancelled {
                    self.touch.start_momentum(&primary, now, position, modifiers, lift.velocity);
                }
            },
            TouchMode::LongPressed | TouchMode::Cancelled => {
                self.touch.last_tap = None;
            },
        }
    }

    pub fn touches_ended(
        &mut self,
        now: u64,
        flags: usize,
        touches: &Vec<UiTouch>,
        out: &mut Vec<PlatformInput>,
    )
        ensures
            final(self)@ == old(self)@.with_flags(flags).lifted(now, touches@, false),
            final(out)@ == old(out)@ + old(self)@.flag_events(flags) + old(self)@.with_flags(
                flags,
            ).lifted_events(touches@, false),
    {
        self.update_modifiers(flags, out);
        self.finish_touch(now, touches, false, out);
    }

    pub fn touches_cancelled(
        &mut self,
        now: u64,
        touches: &Vec<UiTouch>,
        out: &mut Vec<PlatformInput>,
    )
        ensures
            final(self)@ == old(self)@.lifted(now, touches@, true),
            final(out)@ == old(out)@ + old(self)@.lifted_events(touches@, true),
    {
        self.finish_touch(now, touches, true, out);
    }

    /// The pinch recognizer reports a scale.
    pub fn handle_pinch(
        &mut self,
        gesture_state: isize,
        scale: Scalar,
        position: Point,
        flags: usize,
        out: &mut Vec<PlatformInput>,
    )
        ensures
            final(self)@ == old(self)@.with_flags(flags).pinched(gesture_state, scale),
            final(out)@ == old(out)@ + old(self)@.flag_events(flags) + old(self)@.with_flags(
                flags,
            ).pinch_events(gesture_state, scale, position),
    {
        self.update_modifiers(flags, out);
        let phase = match phase_of(gesture_state) {
            Some(phase) => phase,
            None => {
                return;
            },
        };
        if phase == TouchPhase::Started {
            // The fingers are pinching, not pressing: cancel the press.
            self.touch.take_over(out);
        }
        let last = self.pinch_last_scale;
        let delta = if phase == TouchPhase::Moved && scalar(0).less(last) {
            PinchDelta::Ratio { now: scale, before: last }
        } else {
            PinchDelta::Unchanged
        };
        self.pinch_last_scale = scale;
        out.push(
            PlatformInput::Pinch(
                PinchEvent {
                    position,
                    delta,
                    scale: scalar(ONE),
                    modifiers: self.touch.modifiers,
                    phase,
                },
            ),
        );
    }

    /// Whether a long press should offer the edit menu: only on a finger that is still
    /// undecided, over a focused text field.
    pub fn long_press_offers_menu(&self, gesture_state: isize, has_text_focus: bool) -> (offers: bool)
        ensures
            offers == (self@.is_long_press(gesture_state) && has_text_focus),
    {
        let undecided = match &self.touch.primary {
            Some(primary) => primary.mode == TouchMode::Undecided,
            None => false,
        };
        gesture_state == GESTURE_BEGAN && undecided && has_text_focus
    }

    /// A long press, once it is known whether the edit menu is shown for it.
    pub fn handle_long_press(
        &mut self,
        gesture_state: isize,
        position: Point,
        edit_menu_shown: bool,
        out: &mut Vec<PlatformInput>,
    )
        ensures
            final(self)@ == old(self)@.long_pressed(gesture_state, edit_menu_shown),
            final(out)@ == old(out)@ + old(self)@.long_press_events(
                gesture_state,
                position,
                edit_menu_shown,
            ),
    {
        if gesture_state != GESTURE_BEGAN {
            return;
        }
        let button = match &mut self.touch.primary {
            Some(primary) => {
                if primary.mode != TouchMode::Undecided {
                    return;
                }
                primary.mode = if edit_menu_shown {
                    TouchMode::Cancelled
                } else {
                    TouchMode::LongPressed
                };
                primary.button
            },
            None => {
                return;
            },
        };
        self.touch.cancel_press(button, TouchMode::Undecided, out);
        if edit_menu_shown {
            return;
        }
        let modifiers = self.touch.modifiers;
        out.push(
            PlatformInput::MouseDown(
                MouseDownEvent {
                    button: MouseButton::Right,
                    position,
                    modifiers,
                    click_count: 1,
                    first_mouse: false,
                    pressure: scalar(ONE),
                    tilt: None,
                },
            ),
        );
        send_up(MouseButton::Right, position, modifiers, 1, out);
    }

    /// A pointer scrolls, or its wheel turns.
    pub fn handle_pointer_scroll(
        &mut self,
        gesture_state: isize,
        position: Point,
        translation: Point,
        out: &mut Vec<PlatformInput>,
    )
        ensures
            final(self)@ == old(self)@.pointer_scrolled(gesture_state, position),
            final(out)@ == old(out)@ + old(self)@.pointer_scroll_events(
                gesture_state,
                position,
                translation,
            ),
    {
        let touch_phase = match phase_of(gesture_state) {
            Some(phase) => phase,
            None => {
                return;
            },
        };
        self.touch.momentum = None;
        self.touch.mouse_position = position;
        send_scroll(
            position,
            ScrollDelta::Pixels(translation),
            self.touch.modifiers,
            touch_phase,
            out,
        );
    }

    /// Two fingers drag together.
    pub fn handle_two_finger_pan(
        &mut self,
        gesture_state: isize,
        position: Point,
        translation: Point,
        out: &mut Vec<PlatformInput>,
    )
        ensures
            final(self)@ == old(self)@.panned(gesture_state, position),
            final(out)@ == old(out)@ + old(self)@.pan_events(gesture_state, position, translation),
    {
        let touch_phase = match phase_of(gesture_state) {
            Some(phase) => phase,
            None => {
                return;
            },
        };
        if touch_phase == TouchPhase::Started {
            self.touch.take_over(out);
        }
        self.touch.mouse_position = position;
        send_scroll(
            position,
            ScrollDelta::Pixels(translation),
            self.touch.modifiers,
            touch_phase,
            out,
        );
    }

    /// A pointer hovers.
    pub fn handle_hover(
        &mut self,
        gesture_state: isize,
        position: Point,
        out: &mut Vec<PlatformInput>,
    )
        ensures
            final(self)@ == old(self)@.with_touch(
                (TouchView { mouse_position: position, ..old(self)@.touch }),
            ),
            final(out)@ == old(out)@ + old(self)@.hover_events(gesture_state, position),
    {
        let modifiers = self.touch.modifiers;
        let pressed_button = match &self.touch.primary {
            Some(primary) => if primary.mode == TouchMode::Drag {
                Some(primary.button)
            } else {
                None
            },
            None => None,
        };
        self.touch.mouse_position = position;
        match phase_of(gesture_state) {
            Some(TouchPhase::Started) | Some(TouchPhase::Moved) => {
                if pressed_button.is_some() {
                    // The touch handlers report drags.
                    return;
                }
                out.push(
                    PlatformInput::MouseMove(
                        MouseMoveEvent {
                            position,
                            pressed_button: None,
                            modifiers,
                            pressure: scalar(ONE),
                            tilt: None,
                        },
                    ),
                );
            },
            Some(TouchPhase::Ended) => {
                out.push(
                    PlatformInput::MouseExited(
                        MouseExitEvent { position, pressed_button, modifiers },
                    ),
                );
            },
            None => {},
        }
    }
}

/// A key press. `key` is `None` for a press that is no key.
#[derive(Clone, Debug, PartialEq, Eq)]
pub struct UiPress {
    pub press: PressId,
    pub key: Option<UiKey>,
}

/// What a press asks for.
#[derive(Debug, PartialEq, Eq)]
pub enum PressStep {
    /// It is left to the system.
    Unhandled,
    /// Nothing.
    Ignored,
    /// The event goes to the window's input callback; the press is left to the system
    /// where the callback does not handle it.
    Dispatch(PlatformInput),
}

/// The modifier that a modifier key stands for.
pub open spec fn released_flag(key_code: isize) -> usize {
    if key_code == 0xE0 || key_code == 0xE4 {
        UI_KEY_MODIFIER_CONTROL
    } else if key_code == 0xE1 || key_code == 0xE5 {
        UI_KEY_MODIFIER_SHIFT
    } else if key_code == 0xE2 || key_code == 0xE6 {
        UI_KEY_MODIFIER_ALTERNATE
    } else if key_code == 0xE3 || key_code == 0xE7 {
        UI_KEY_MODIFIER_COMMAND
    } else {
        0
    }
}

impl IosTouchView {
    /// The flags that hold after a key is released: a modifier's own flag is still among
    /// those of its release.
    pub open spec fn flags_after(key: UiKey) -> usize {
        if events::is_modifier(key.key_code) {
            key.flags & !released_flag(key.key_code)
        } else {
            key.flags
        }
    }

    /// Whether a press is seen for the first time.
    pub open spec fn is_new_key(self, press: UiPress) -> bool {
        press.key is Some && !press.press.repeats(self.last_press)
    }
}

impl IosTouch {
    /// A press begins. The second copy of one already seen is ignored.
    pub fn press_began(&mut self, press: &UiPress, out: &mut Vec<PlatformInput>) -> (step: PressStep)
        ensures
            press.key is None ==> step is Unhandled,
            press.key is Some && !old(self)@.is_new_key(*press) ==> step is Ignored,
            !old(self)@.is_new_key(*press) ==> final(self)@ == old(self)@ && final(out)@ == old(
                out,
            )@,
            old(self)@.is_new_key(*press) ==> {
                &&& final(self)@ == (IosTouchView {
                    last_press: press.press,
                    ..old(self)@.with_flags(press.key->0.flags)
                })
                &&& final(out)@ == old(out)@ + old(self)@.flag_events(press.key->0.flags)
                &&& match press.key->0.keystroke() {
                    Some(keystroke) => step matches PressStep::Dispatch(
                        PlatformInput::KeyDown(down),
                    ) && down.keystroke@ == keystroke && !down.is_held,
                    None => step is Ignored,
                }
            },
    {
        let key = match &press.key {
            Some(key) => key,
            None => {
                return PressStep::Unhandled;
            },
        };
        if press.press.id == self.last_press.id && doubles_equal(
            press.press.timestamp,
            self.last_press.timestamp,
        ) {
            return PressStep::Ignored;
        }
        self.last_press = press.press;
        self.update_modifiers(key.flags, out);
        match keystroke_from_ui_key(key) {
            Some(keystroke) => PressStep::Dispatch(
                PlatformInput::KeyDown(KeyDownEvent { keystroke, is_held: false }),
            ),
            None => PressStep::Ignored,
        }
    }

    /// A press ends, or is cancelled.
    pub fn press_ended(&mut self, press: &UiPress, out: &mut Vec<PlatformInput>) -> (step: PressStep)
        ensures
            press.key is None ==> step is Unhandled && final(self)@ == old(self)@ && final(out)@
                == old(out)@,
            press.key matches Some(key) ==> {
                &&& final(self)@ == old(self)@.with_flags(IosTouchView::flags_after(key))
                &&& final(out)@ == old(out)@ + old(self)@.flag_events(
                    IosTouchView::flags_after(key),
                )
                &&& match key.keystroke() {
                    Some(keystroke) => step matches PressStep::Dispatch(PlatformInput::KeyUp(up))
                        && up.keystroke@ == keystroke,
                    None => step is Ignored,
                }
            },
    {
        let key = match &press.key {
            Some(key) => key,
            None => {
                return PressStep::Unhandled;
            },
        };
        if is_modifier_key(key.key_code) {
            let released: usize = match key.key_code {
                0xE0 | 0xE4 => UI_KEY_MODIFIER_CONTROL,
                0xE1 | 0xE5 => UI_KEY_MODIFIER_SHIFT,
                0xE2 | 0xE6 => UI_KEY_MODIFIER_ALTERNATE,
                0xE3 | 0xE7 => UI_KEY_MODIFIER_COMMAND,
                _ => 0,
            };
            self.update_modifiers(key.flags & !released, out);
            return PressStep::Ignored;
        }
        self.update_modifiers(key.flags, out);
        match keystroke_from_ui_key(key) {
            Some(keystroke) => PressStep::Dispatch(
                PlatformInput::KeyUp(KeyUpEvent { keystroke }),
            ),
            None => PressStep::Ignored,
        }
    }
}

fn doubles_equal(a: u64, b: u64) -> (same: bool)
    ensures
        same == same_double(a, b),
{
    let a_size: u64 = if a >= DOUBLE_SIGN {
        a - DOUBLE_SIGN
    } else {
        a
    };
    let b_size: u64 = if b >= DOUBLE_SIGN {
        b - DOUBLE_SIGN
    } else {
        b
    };
    a_size <= INFINITE_DOUBLE && b_size <= INFINITE_DOUBLE && (a == b || (a_size == 0 && b_size == 0))
}

/// Whether a press is left to the system, once the callback has had its event.
pub fn press_unhandled(step: &PressStep, handled: bool) -> (unhandled: bool)
    ensures
        unhandled == (match *step {
            PressStep::Unhandled => true,
            PressStep::Ignored => false,
            PressStep::Dispatch(_) => !handled,
        }),
{
    match step {
        PressStep::Unhandled => true,
        PressStep::Ignored => false,
        PressStep::Dispatch(_) => !handled,
    }
}

} // verus!
