//! A window on a page: what it makes of the browser's pointer, wheel, gesture, key,
//! clipboard and composition events.

use crate::clipboard::{ClipboardEntry, ClipboardString};
use crate::float::{scalar, Scalar, ONE};
use crate::geometry::{origin, point, Point};
use crate::input::{
    no_modifiers, Capslock, KeyDownEvent, KeyUpEvent, Keystroke, KeystrokeView, Modifiers,
    ModifiersChangedEvent, MouseButton, MouseDownEvent, MouseExitEvent, MouseMoveEvent,
    MouseUpEvent, PinchDelta, PinchEvent, PlatformInput, ScrollDelta, ScrollWheelEvent, TouchPhase,
};
use crate::text::same_text;
use crate::touch;
use crate::touch::nanos_since;
use crate::web::keys;
use crate::web::keys::{is_modifier_key, keystroke_for, mouse_button, pressed_button};
use vstd::prelude::*;
use vstd::string::*;

verus! {

/// Presses of one button within this time, in nanoseconds, and `DOUBLE_CLICK_DISTANCE` of
/// each other count up.
pub const DOUBLE_CLICK_INTERVAL: u64 = 400_000_000;

/// 4 pixels.
pub const DOUBLE_CLICK_DISTANCE: u32 = 0x4080_0000;

/// How many lines a page is worth.
pub const SCROLL_LINES: u32 = 3;

/// A pinch made with the wheel ends this many milliseconds after its last event: the
/// browser says nothing of its end.
pub const PINCH_END_DELAY_MS: i32 = 150;

/// How many milliseconds a paste keystroke waits for the clipboard.
pub const PASTE_EVENT_DELAY_MS: i32 = 100;

/// How a wheel event counts: in pixels or in lines, else in pages.
pub const DELTA_PIXEL: u32 = 0;

pub const DELTA_LINE: u32 = 1;

/// How many pixels a line is worth to a pinch.
pub const PINCH_LINE: u32 = 16;

/// The key code of a key event that belongs to a composition.
pub const COMPOSING_KEY_CODE: u32 = 229;

/// The last press.
#[derive(Clone, Copy, Debug, PartialEq, Eq, Structural)]
pub struct Click {
    pub last_click: u64,
    pub last_position: Point,
    pub button: MouseButton,
    pub count: usize,
}

/// What is known of a pinch.
#[derive(Clone, Copy, Debug, PartialEq, Eq, Structural)]
pub struct PinchState {
    /// A pinch made with the wheel is under way.
    pub wheel_active: bool,
    /// The number of the last wheel event of a pinch: a timeout set for an earlier one
    /// does nothing.
    pub wheel_generation: u64,
    /// A pinch that the browser reports as such is under way; it takes precedence.
    pub gesture_active: bool,
    /// The browser reports the scale since the gesture began.
    pub gesture_previous_scale: Scalar,
}

/// The end of a pinch made with the wheel, for a timeout to deliver.
#[derive(Clone, Copy, Debug, PartialEq, Eq, Structural)]
pub struct WheelEnd {
    pub generation: u64,
    pub position: Point,
    pub modifiers: Modifiers,
}

/// A pointer event.
#[derive(Clone, Debug, PartialEq, Eq)]
pub struct PointerInput {
    pub button: i16,
    pub buttons: u16,
    pub pointer_id: i32,
    pub pointer_type: String,
    pub pressure: Scalar,
    pub position: Point,
    pub modifiers: Modifiers,
}

/// A wheel event.
#[derive(Clone, Copy, Debug, PartialEq, Eq, Structural)]
pub struct WheelInput {
    pub delta_x: Scalar,
    pub delta_y: Scalar,
    pub delta_mode: u32,
    pub position: Point,
    pub modifiers: Modifiers,
}

/// A key event.
#[derive(Clone, Debug, PartialEq, Eq)]
pub struct DomKey {
    pub key: String,
    pub code: String,
    pub key_code: u32,
    pub composing: bool,
    pub repeat: bool,
    pub modifiers: Modifiers,
    pub caps_lock: bool,
}

/// What the window does about an event, in order.
#[derive(Debug, PartialEq, Eq)]
pub enum WebAction {
    /// Hand an event to the input callback.
    Dispatch(PlatformInput),
    /// Hand an event to the input callback, and keep the browser from its own response
    /// exactly where the callback asks for that.
    DispatchAndFollow(PlatformInput),
    /// Keep the browser from its own response.
    PreventDefault,
    /// Hear of this pointer also outside the canvas.
    CapturePointer(i32),
    /// Focus the hidden input element.
    FocusInput,
    /// Move the hidden input element to the caret, where the candidates of a composition
    /// are to appear.
    PlaceInputAtCaret,
    /// Empty the hidden input element.
    ClearInput,
    /// Set a timeout for the end of a pinch.
    ScheduleWheelEnd(WheelEnd),
    /// Tell the application that the pointer is above the window, or no longer.
    ReportHover(bool),
    /// Tell the application that the window has the keyboard, or no longer.
    ReportActive(bool),
}

/// What a composition does to the focused text.
#[derive(Debug, PartialEq, Eq)]
pub enum CompositionStep {
    /// Replace the marked text, and mark the new one.
    Mark(String),
    /// Replace the marked text for good.
    Commit(String),
    /// Keep the text as it is and unmark it.
    Unmark,
}

/// What a key event asks for first.
#[derive(Debug, PartialEq, Eq)]
pub enum KeyStep {
    /// Nothing: a composition carries the text.
    Ignore,
    /// Tell the application that the modifiers changed.
    Report(ModifiersChangedEvent),
    /// Hold the keystroke back until the clipboard has been read, or a timeout ends.
    Hold,
    /// Hand the keystroke to the input callback.
    Dispatch(KeyDownEvent),
}

/// What the release of a key asks for.
#[derive(Debug, PartialEq, Eq)]
pub enum KeyUpStep {
    Ignore,
    Report(ModifiersChangedEvent),
    Dispatch(KeyUpEvent),
}

#[verifier::ext_equal]
pub enum KeyStepView {
    Ignore,
    Report(ModifiersChangedEvent),
    Hold,
    Dispatch { keystroke: KeystrokeView, is_held: bool },
}

impl View for KeyStep {
    type V = KeyStepView;

    open spec fn view(&self) -> KeyStepView {
        match *self {
            KeyStep::Ignore => KeyStepView::Ignore,
            KeyStep::Report(event) => KeyStepView::Report(event),
            KeyStep::Hold => KeyStepView::Hold,
            KeyStep::Dispatch(event) => KeyStepView::Dispatch {
                keystroke: event.keystroke@,
                is_held: event.is_held,
            },
        }
    }
}

impl View for KeyUpStep {
    type V = KeyStepView;

    open spec fn view(&self) -> KeyStepView {
        match *self {
            KeyUpStep::Ignore => KeyStepView::Ignore,
            KeyUpStep::Report(event) => KeyStepView::Report(event),
            KeyUpStep::Dispatch(event) => KeyStepView::Dispatch {
                keystroke: event.keystroke@,
                is_held: false,
            },
        }
    }
}

/// What the input callback says of an event.
#[derive(Clone, Copy, Debug, PartialEq, Eq, Structural)]
pub struct DispatchResult {
    /// Nothing took the event.
    pub propagate: bool,
    /// The browser's own response is unwanted.
    pub default_prevented: bool,
}

/// What follows once the callback has had a keystroke.
#[derive(Debug, PartialEq, Eq)]
pub struct KeyOutcome {
    pub prevent_default: bool,
    /// The text that goes into the focused field.
    pub insert: Option<String>,
}

/// The input state of a window.
#[derive(Debug, PartialEq, Eq)]
pub struct WebInput {
    pub mouse_position: Point,
    pub modifiers: Modifiers,
    pub capslock: Capslock,
    pub click: Option<Click>,
    pub pinch: PinchState,
    /// A paste keystroke that waits for the clipboard.
    pub pending_paste: Option<KeyDownEvent>,
    /// Between the start and the end of a composition the hidden input element is its
    /// scratch space.
    pub composing: bool,
    pub active: bool,
    pub hovered: bool,
}

#[verifier::ext_equal]
pub struct WebInputView {
    pub mouse_position: Point,
    pub modifiers: Modifiers,
    pub capslock: Capslock,
    pub click: Option<Click>,
    pub pinch: PinchState,
    pub pending_paste: Option<(KeystrokeView, bool)>,
    pub composing: bool,
    pub active: bool,
    pub hovered: bool,
}

/// What a key down event is, with its texts as characters.
pub open spec fn key_down_view(event: Option<KeyDownEvent>) -> Option<(KeystrokeView, bool)> {
    match event {
        Some(event) => Some((event.keystroke@, event.is_held)),
        None => None,
    }
}

impl View for WebInput {
    type V = WebInputView;

    open spec fn view(&self) -> WebInputView {
        WebInputView {
            mouse_position: self.mouse_position,
            modifiers: self.modifiers,
            capslock: self.capslock,
            click: self.click,
            pinch: self.pinch,
            pending_paste: key_down_view(self.pending_paste),
            composing: self.composing,
            active: self.active,
            hovered: self.hovered,
        }
    }
}

/// The modifiers of a DOM event; the DOM knows no function key.
#[verifier::allow_in_spec]
pub fn dom_modifiers(control: bool, alt: bool, shift: bool, meta: bool) -> Modifiers
    returns
        (Modifiers { control, alt, shift, platform: meta, function: false }),
{
    Modifiers { control, alt, shift, platform: meta, function: false }
}

/// The pressure of a pointer: that of a pen, and 1 for everything else, of which the DOM
/// reports one half.
pub open spec fn pressure_of(pointer_type: Seq<char>, pressure: Scalar) -> Scalar {
    if pointer_type == "pen"@ {
        pressure
    } else {
        scalar(ONE)
    }
}

pub fn pointer_pressure(pointer_type: &str, pressure: Scalar) -> (effective: Scalar)
    ensures
        effective == pressure_of(pointer_type@, pressure),
{
    if same_text(pointer_type, "pen") {
        pressure
    } else {
        scalar(ONE)
    }
}

pub open spec fn pinch_action(
    position: Point,
    modifiers: Modifiers,
    phase: TouchPhase,
    delta: PinchDelta,
) -> WebAction {
    WebAction::Dispatch(
        PlatformInput::Pinch(
            PinchEvent { position, delta, scale: scalar(ONE), modifiers, phase },
        ),
    )
}

fn send_pinch(
    position: Point,
    modifiers: Modifiers,
    phase: TouchPhase,
    delta: PinchDelta,
    out: &mut Vec<WebAction>,
)
    ensures
        final(out)@ == old(out)@.push(pinch_action(position, modifiers, phase, delta)),
{
    out.push(
        WebAction::Dispatch(
            PlatformInput::Pinch(
                PinchEvent { position, delta, scale: scalar(ONE), modifiers, phase },
            ),
        ),
    );
}

/// How far a wheel event scrolls. The DOM counts the other way.
pub open spec fn wheel_delta(event: WheelInput) -> ScrollDelta {
    let turned = Point { x: event.delta_x.negated(), y: event.delta_y.negated() };
    if event.delta_mode == DELTA_PIXEL {
        ScrollDelta::Pixels(turned)
    } else if event.delta_mode == DELTA_LINE {
        ScrollDelta::Lines(turned)
    } else {
        ScrollDelta::Pages(turned)
    }
}

/// By what factor a wheel event scales.
pub open spec fn wheel_factor(event: WheelInput) -> PinchDelta {
    PinchDelta::Wheel {
        turned: event.delta_y,
        pixels_per_unit: if event.delta_mode == DELTA_PIXEL {
            1
        } else {
            PINCH_LINE
        },
    }
}

impl DomKey {
    /// Whether the event belongs to a composition. The key that starts one does not say
    /// so itself, but for its key code; a dead key starts one of its own.
    pub open spec fn ignored(self) -> bool {
        self.composing || self.key_code == COMPOSING_KEY_CODE || self.key@ == "Dead"@
    }

    pub open spec fn change(self) -> ModifiersChangedEvent {
        ModifiersChangedEvent {
            modifiers: self.modifiers,
            capslock: Capslock { on: self.caps_lock },
        }
    }

    pub open spec fn keystroke(self) -> KeystrokeView {
        keys::keystroke_of(self.modifiers, self.key@, self.code@)
    }

    /// Whether the event is the first press of a keystroke that pastes.
    pub open spec fn pastes(self, keystroke: KeystrokeView) -> bool {
        (self.modifiers.platform || self.modifiers.control) && !self.modifiers.alt
            && keystroke.key == "v"@ && !self.repeat
    }

    /// What the event asks for where it is this keystroke.
    pub open spec fn step(self, keystroke: KeystrokeView) -> KeyStepView {
        if self.ignored() {
            KeyStepView::Ignore
        } else if keys::is_modifier(self.key@) {
            KeyStepView::Report(self.change())
        } else if self.pastes(keystroke) {
            KeyStepView::Hold
        } else {
            KeyStepView::Dispatch { keystroke, is_held: self.repeat }
        }
    }

    pub open spec fn up_step(self, keystroke: KeystrokeView) -> KeyStepView {
        if self.ignored() {
            KeyStepView::Ignore
        } else if keys::is_modifier(self.key@) {
            KeyStepView::Report(self.change())
        } else {
            KeyStepView::Dispatch { keystroke, is_held: false }
        }
    }

    fn is_ignored(&self) -> (yes: bool)
        ensures
            yes == self.ignored(),
    {
        self.composing || self.key_code == COMPOSING_KEY_CODE || same_text(
            self.key.as_str(),
            "Dead",
        )
    }
}

impl WebInputView {
    /// The count of a press at a distance of `apart` from the last one.
    pub open spec fn click_count(self, now: u64, button: MouseButton, apart: Point) -> int {
        match self.click {
            Some(click) => if click.button == button && touch::since(now, click.last_click)
                <= DOUBLE_CLICK_INTERVAL && apart.x.magnitude_of().at_most(
                scalar(DOUBLE_CLICK_DISTANCE),
            ) && apart.y.magnitude_of().at_most(scalar(DOUBLE_CLICK_DISTANCE)) {
                click.count + 1
            } else {
                1
            },
            None => 1,
        }
    }

    pub open spec fn pressed(self, now: u64, event: PointerInput, apart: Point) -> WebInputView {
        match keys::button_of(event.button) {
            Some(button) => WebInputView {
                mouse_position: event.position,
                modifiers: event.modifiers,
                click: Some(
                    Click {
                        last_click: now,
                        last_position: event.position,
                        button,
                        count: self.click_count(now, button, apart) as usize,
                    },
                ),
                ..self
            },
            None => self,
        }
    }

    pub open spec fn press_actions(self, now: u64, event: PointerInput, apart: Point) -> Seq<
        WebAction,
    > {
        match keys::button_of(event.button) {
            Some(button) => seq![
                WebAction::CapturePointer(event.pointer_id),
                WebAction::PreventDefault,
                WebAction::FocusInput,
                WebAction::Dispatch(
                    PlatformInput::MouseDown(
                        MouseDownEvent {
                            button,
                            position: event.position,
                            modifiers: event.modifiers,
                            click_count: self.click_count(now, button, apart) as usize,
                            first_mouse: !self.active,
                            pressure: pressure_of(event.pointer_type@, event.pressure),
                            tilt: None,
                        },
                    ),
                ),
            ],
            None => seq![],
        }
    }

    pub open spec fn release_actions(self, event: PointerInput) -> Seq<WebAction> {
        match keys::button_of(event.button) {
            Some(button) => seq![
                WebAction::DispatchAndFollow(
                    PlatformInput::MouseUp(
                        MouseUpEvent {
                            button,
                            position: event.position,
                            modifiers: event.modifiers,
                            click_count: match self.click {
                                Some(click) => click.count,
                                None => 1,
                            },
                            pressure: pressure_of(event.pointer_type@, event.pressure),
                            tilt: None,
                        },
                    ),
                ),
            ],
            None => seq![],
        }
    }

    /// Whether a wheel event pinches: control is held, and the browser reports no pinch
    /// of its own.
    pub open spec fn wheel_pinches(self, event: WheelInput) -> bool {
        event.modifiers.control && !self.pinch.gesture_active
    }

    pub open spec fn wheeled(self, event: WheelInput) -> WebInputView {
        if self.wheel_pinches(event) {
            WebInputView {
                pinch: PinchState {
                    wheel_active: true,
                    wheel_generation: (self.pinch.wheel_generation + 1) as u64,
                    ..self.pinch
                },
                ..self
            }
        } else {
            self
        }
    }

    pub open spec fn wheel_actions(self, event: WheelInput) -> Seq<WebAction> {
        if self.wheel_pinches(event) {
            (if self.pinch.wheel_active {
                seq![]
            } else {
                seq![
                    pinch_action(
                        event.position,
                        event.modifiers,
                        TouchPhase::Started,
                        PinchDelta::Unchanged,
                    ),
                ]
            }) + seq![
                pinch_action(
                    event.position,
                    event.modifiers,
                    TouchPhase::Moved,
                    wheel_factor(event),
                ),
                WebAction::ScheduleWheelEnd(
                    WheelEnd {
                        generation: (self.pinch.wheel_generation + 1) as u64,
                        position: event.position,
                        modifiers: event.modifiers,
                    },
                ),
                WebAction::PreventDefault,
            ]
        } else {
            seq![
                WebAction::Dispatch(
                    PlatformInput::ScrollWheel(
                        ScrollWheelEvent {
                            position: event.position,
                            delta: wheel_delta(event),
                            modifiers: event.modifiers,
                            touch_phase: TouchPhase::Moved,
                        },
                    ),
                ),
                WebAction::PreventDefault,
            ]
        }
    }

    /// Whether the end of a pinch is that of the one under way.
    pub open spec fn ends_wheel(self, end: WheelEnd) -> bool {
        self.pinch.wheel_active && self.pinch.wheel_generation == end.generation
    }

    pub open spec fn wheel_ended(self, end: WheelEnd) -> WebInputView {
        if self.ends_wheel(end) {
            WebInputView { pinch: PinchState { wheel_active: false, ..self.pinch }, ..self }
        } else {
            self
        }
    }

    pub open spec fn wheel_end_actions(self, end: WheelEnd) -> Seq<WebAction> {
        if self.ends_wheel(end) {
            seq![
                pinch_action(
                    end.position,
                    end.modifiers,
                    TouchPhase::Ended,
                    PinchDelta::Unchanged,
                ),
            ]
        } else {
            seq![]
        }
    }

    /// Where a gesture is, as far as it says so.
    pub open spec fn gesture_position(self, position: Option<Point>) -> Point {
        match position {
            Some(position) => position,
            None => self.mouse_position,
        }
    }

    pub open spec fn gesture_started(self) -> WebInputView {
        WebInputView {
            pinch: PinchState {
                gesture_active: true,
                gesture_previous_scale: scalar(ONE),
                ..self.pinch
            },
            ..self
        }
    }

    pub open spec fn gesture_start_actions(self, position: Option<Point>) -> Seq<WebAction> {
        seq![
            pinch_action(
                self.gesture_position(position),
                self.modifiers,
                TouchPhase::Started,
                PinchDelta::Unchanged,
            ),
            WebAction::PreventDefault,
        ]
    }

    /// Whether a change of a gesture counts: one is under way, and its scale so far can
    /// be divided by.
    pub open spec fn gesture_counts(self) -> bool {
        self.pinch.gesture_active && !self.pinch.gesture_previous_scale.at_most(scalar(0))
    }

    pub open spec fn gesture_changed(self, scale: Option<Scalar>) -> WebInputView {
        if self.gesture_counts() {
            WebInputView {
                pinch: PinchState {
                    gesture_previous_scale: gesture_scale(scale),
                    ..self.pinch
                },
                ..self
            }
        } else {
            self
        }
    }

    pub open spec fn gesture_change_actions(
        self,
        scale: Option<Scalar>,
        position: Option<Point>,
    ) -> Seq<WebAction> {
        if self.gesture_counts() {
            seq![
                pinch_action(
                    self.gesture_position(position),
                    self.modifiers,
                    TouchPhase::Moved,
                    PinchDelta::Ratio {
                        now: gesture_scale(scale),
                        before: self.pinch.gesture_previous_scale,
                    },
                ),
                WebAction::PreventDefault,
            ]
        } else {
            seq![]
        }
    }

    pub open spec fn gesture_ended(self) -> WebInputView {
        WebInputView { pinch: PinchState { gesture_active: false, ..self.pinch }, ..self }
    }

    pub open spec fn gesture_end_actions(self, position: Option<Point>) -> Seq<WebAction> {
        seq![
            pinch_action(
                self.gesture_position(position),
                self.modifiers,
                TouchPhase::Ended,
                PinchDelta::Unchanged,
            ),
            WebAction::PreventDefault,
        ]
    }

    pub open spec fn key_pressed(self, event: DomKey, keystroke: KeystrokeView) -> WebInputView {
        if event.ignored() {
            self
        } else if keys::is_modifier(event.key@) {
            WebInputView {
                modifiers: event.modifiers,
                capslock: Capslock { on: event.caps_lock },
                ..self
            }
        } else {
            WebInputView {
                modifiers: event.modifiers,
                pending_paste: if event.pastes(keystroke) {
                    Some((keystroke, false))
                } else {
                    self.pending_paste
                },
                ..self
            }
        }
    }

    pub open spec fn key_released(self, event: DomKey) -> WebInputView {
        if !event.ignored() && keys::is_modifier(event.key@) {
            WebInputView {
                modifiers: event.modifiers,
                capslock: Capslock { on: event.caps_lock },
                ..self
            }
        } else {
            self
        }
    }

    pub open spec fn paste_delivered(self) -> WebInputView {
        WebInputView { pending_paste: None, ..self }
    }
}

/// The scale that a gesture reports, 1 where it reports none.
pub open spec fn gesture_scale(scale: Option<Scalar>) -> Scalar {
    match scale {
        Some(scale) => scale,
        None => scalar(ONE),
    }
}

/// What the clipboard holds once a text has been pasted from outside: the text, where
/// there is one.
pub open spec fn refreshed(
    before: Option<Vec<ClipboardEntry>>,
    text: Option<String>,
    after: Option<Vec<ClipboardEntry>>,
) -> bool {
    match text {
        Some(text) if text@.len() > 0 => after matches Some(entries) && entries@.len() == 1 && (
        entries@[0] matches ClipboardEntry::Text(string) && string.text@ == text@
            && string.metadata is None),
        _ => after == before,
    }
}

impl WebInput {
    /// A window that has heard nothing yet. It becomes active when its hidden input
    /// element is focused.
    pub fn new() -> (input: WebInput)
        ensures
            input@ == (WebInputView {
                mouse_position: origin(),
                modifiers: no_modifiers(),
                capslock: Capslock { on: false },
                click: None,
                pinch: PinchState {
                    wheel_active: false,
                    wheel_generation: 0,
                    gesture_active: false,
                    gesture_previous_scale: scalar(0),
                },
                pending_paste: None,
                composing: false,
                active: false,
                hovered: false,
            }),
    {
        WebInput {
            mouse_position: origin(),
            modifiers: no_modifiers(),
            capslock: Capslock { on: false },
            click: None,
            pinch: PinchState {
                wheel_active: false,
                wheel_generation: 0,
                gesture_active: false,
                gesture_previous_scale: scalar(0),
            },
            pending_paste: None,
            composing: false,
            active: false,
            hovered: false,
        }
    }

    /// Counts a press, and remembers it. `apart` is the difference between the positions
    /// of the last press and this one.
    pub fn click_count(
        &mut self,
        now: u64,
        button: MouseButton,
        position: Point,
        apart: Point,
    ) -> (count: usize)
        requires
            old(self)@.click_count(now, button, apart) <= usize::MAX,
        ensures
            count == old(self)@.click_count(now, button, apart),
            final(self)@ == (WebInputView {
                click: Some(Click { last_click: now, last_position: position, button, count }),
                ..old(self)@
            }),
    {
        let limit = scalar(DOUBLE_CLICK_DISTANCE);
        let count: usize = match self.click {
            Some(click) => if click.button == button && nanos_since(now, click.last_click)
                <= DOUBLE_CLICK_INTERVAL && apart.x.abs().less_or_equal(limit)
                && apart.y.abs().less_or_equal(limit) {
                click.count + 1
            } else {
                1
            },
            None => 1,
        };
        self.click = Some(Click { last_click: now, last_position: position, button, count });
        count
    }

    /// A button of the pointer goes down.
    pub fn pointer_down(
        &mut self,
        now: u64,
        event: &PointerInput,
        apart: Point,
        out: &mut Vec<WebAction>,
    )
        requires
            keys::button_of(event.button) matches Some(button) ==> old(self)@.click_count(
                now,
                button,
                apart,
            ) <= usize::MAX,
        ensures
            final(self)@ == old(self)@.pressed(now, *event, apart),
            final(out)@ == old(out)@ + old(self)@.press_actions(now, *event, apart),
    {
        let button = match mouse_button(event.button) {
            Some(button) => button,
            None => {
                return;
            },
        };
        let first_mouse = !self.active;
        let click_count = self.click_count(now, button, event.position, apart);
        self.mouse_position = event.position;
        self.modifiers = event.modifiers;
        out.push(WebAction::CapturePointer(event.pointer_id));
        out.push(WebAction::PreventDefault);
        out.push(WebAction::FocusInput);
        let pressure = pointer_pressure(event.pointer_type.as_str(), event.pressure);
        out.push(
            WebAction::Dispatch(
                PlatformInput::MouseDown(
                    MouseDownEvent {
                        button,
                        position: event.position,
                        modifiers: event.modifiers,
                        click_count,
                        first_mouse,
                        pressure,
                        tilt: None,
                    },
                ),
            ),
        );
        assert(out@ =~= old(out)@ + old(self)@.press_actions(now, *event, apart));
    }

    /// A button of the pointer goes up.
    pub fn pointer_up(&self, event: &PointerInput, out: &mut Vec<WebAction>)
        ensures
            final(out)@ == old(out)@ + self@.release_actions(*event),
    {
        let button = match mouse_button(event.button) {
            Some(button) => button,
            None => {
                return;
            },
        };
        let click_count: usize = match self.click {
            Some(click) => click.count,
            None => 1,
        };
        let pressure = pointer_pressure(event.pointer_type.as_str(), event.pressure);
        out.push(
            WebAction::DispatchAndFollow(
                PlatformInput::MouseUp(
                    MouseUpEvent {
                        button,
                        position: event.position,
                        modifiers: event.modifiers,
                        click_count,
                        pressure,
                        tilt: None,
                    },
                ),
            ),
        );
    }

    /// The pointer moves.
    pub fn pointer_move(&mut self, event: &PointerInput, out: &mut Vec<WebAction>)
        ensures
            final(self)@ == (WebInputView { mouse_position: event.position, ..old(self)@ }),
            final(out)@ == old(out)@.push(
                WebAction::Dispatch(
                    PlatformInput::MouseMove(
                        MouseMoveEvent {
                            position: event.position,
                            pressed_button: keys::held_button(event.buttons),
                            modifiers: event.modifiers,
                            pressure: pressure_of(event.pointer_type@, event.pressure),
                            tilt: None,
                        },
                    ),
                ),
            ),
    {
        self.mouse_position = event.position;
        let pressure = pointer_pressure(event.pointer_type.as_str(), event.pressure);
        out.push(
            WebAction::Dispatch(
                PlatformInput::MouseMove(
                    MouseMoveEvent {
                        position: event.position,
                        pressed_button: pressed_button(event.buttons),
                        modifiers: event.modifiers,
                        pressure,
                        tilt: None,
                    },
                ),
            ),
        );
    }

    /// The pointer comes above the canvas.
    pub fn pointer_enter(&mut self, out: &mut Vec<WebAction>)
        ensures
            final(self)@ == (WebInputView { hovered: true, ..old(self)@ }),
            final(out)@ == old(out)@.push(WebAction::ReportHover(true)),
    {
        self.hovered = true;
        out.push(WebAction::ReportHover(true));
    }

    /// The pointer leaves the canvas.
    pub fn pointer_leave(&mut self, event: &PointerInput, out: &mut Vec<WebAction>)
        ensures
            final(self)@ == (WebInputView { hovered: false, ..old(self)@ }),
            final(out)@ == old(out)@ + seq![
                WebAction::ReportHover(false),
                WebAction::Dispatch(
                    PlatformInput::MouseExited(
                        MouseExitEvent {
                            position: event.position,
                            pressed_button: keys::held_button(event.buttons),
                            modifiers: event.modifiers,
                        },
                    ),
                ),
            ],
    {
        self.hovered = false;
        out.push(WebAction::ReportHover(false));
        out.push(
            WebAction::Dispatch(
                PlatformInput::MouseExited(
                    MouseExitEvent {
                        position: event.position,
                        pressed_button: pressed_button(event.buttons),
                        modifiers: event.modifiers,
                    },
                ),
            ),
        );
    }

    /// The wheel turns. Browsers also make such events, with control held, out of a pinch
    /// on a trackpad.
    pub fn wheel(&mut self, event: WheelInput, out: &mut Vec<WebAction>)
        requires
            old(self)@.wheel_pinches(event) ==> old(self)@.pinch.wheel_generation < u64::MAX,
        ensures
            final(self)@ == old(self)@.wheeled(event),
            final(out)@ == old(out)@ + old(self)@.wheel_actions(event),
    {
        let position = event.position;
        let modifiers = event.modifiers;
        if modifiers.control && !self.pinch.gesture_active {
            let generation: u64 = self.pinch.wheel_generation + 1;
            self.pinch.wheel_generation = generation;
            let started = !self.pinch.wheel_active;
            self.pinch.wheel_active = true;
            if started {
                send_pinch(position, modifiers, TouchPhase::Started, PinchDelta::Unchanged, out);
            }
            let pixels_per_unit: u32 = if event.delta_mode == DELTA_PIXEL {
                1
            } else {
                PINCH_LINE
            };
            send_pinch(
                position,
                modifiers,
                TouchPhase::Moved,
                PinchDelta::Wheel { turned: event.delta_y, pixels_per_unit },
                out,
            );
            out.push(WebAction::ScheduleWheelEnd(WheelEnd { generation, position, modifiers }));
            out.push(WebAction::PreventDefault);
            assert(out@ =~= old(out)@ + old(self)@.wheel_actions(event));
            return;
        }
        let turned = point(event.delta_x.negate(), event.delta_y.negate());
        let delta = if event.delta_mode == DELTA_PIXEL {
            ScrollDelta::Pixels(turned)
        } else if event.delta_mode == DELTA_LINE {
            ScrollDelta::Lines(turned)
        } else {
            ScrollDelta::Pages(turned)
        };
        out.push(
            WebAction::Dispatch(
                PlatformInput::ScrollWheel(
                    ScrollWheelEvent { position, delta, modifiers, touch_phase: TouchPhase::Moved },
                ),
            ),
        );
        out.push(WebAction::PreventDefault);
        assert(out@ =~= old(out)@ + old(self)@.wheel_actions(event));
    }

    /// The timeout of a wheel event of a pinch is over: only that of the last one ends
    /// the pinch.
    pub fn wheel_end(&mut self, end: WheelEnd, out: &mut Vec<WebAction>)
        ensures
            final(self)@ == old(self)@.wheel_ended(end),
            final(out)@ == old(out)@ + old(self)@.wheel_end_actions(end),
    {
        if !self.pinch.wheel_active || self.pinch.wheel_generation != end.generation {
            return;
        }
        self.pinch.wheel_active = false;
        send_pinch(
            end.position,
            end.modifiers,
            TouchPhase::Ended,
            PinchDelta::Unchanged,
            out,
        );
    }

    fn gesture_at(&self, position: Option<Point>) -> (at: Point)
        ensures
            at == self@.gesture_position(position),
    {
        match position {
            Some(position) => position,
            None => self.mouse_position,
        }
    }

    /// The browser reports the start of a pinch.
    pub fn gesture_start(&mut self, position: Option<Point>, out: &mut Vec<WebAction>)
        ensures
            final(self)@ == old(self)@.gesture_started(),
            final(out)@ == old(out)@ + old(self)@.gesture_start_actions(position),
    {
        self.pinch.gesture_active = true;
        self.pinch.gesture_previous_scale = scalar(ONE);
        let at = self.gesture_at(position);
        send_pinch(at, self.modifiers, TouchPhase::Started, PinchDelta::Unchanged, out);
        out.push(WebAction::PreventDefault);
        assert(out@ =~= old(out)@ + old(self)@.gesture_start_actions(position));
    }

    /// The browser reports the scale of a pinch since its start.
    pub fn gesture_change(
        &mut self,
        scale: Option<Scalar>,
        position: Option<Point>,
        out: &mut Vec<WebAction>,
    )
        ensures
            final(self)@ == old(self)@.gesture_changed(scale),
            final(out)@ == old(out)@ + old(self)@.gesture_change_actions(scale, position),
    {
        let before = self.pinch.gesture_previous_scale;
        if !self.pinch.gesture_active || before.less_or_equal(scalar(0)) {
            return;
        }
        let now = match scale {
            Some(scale) => scale,
            None => scalar(ONE),
        };
        self.pinch.gesture_previous_scale = now;
        let at = self.gesture_at(position);
        send_pinch(
            at,
            self.modifiers,
            TouchPhase::Moved,
            PinchDelta::Ratio { now, before },
            out,
        );
        out.push(WebAction::PreventDefault);
        assert(out@ =~= old(out)@ + old(self)@.gesture_change_actions(scale, position));
    }

    /// The browser reports the end of a pinch.
    pub fn gesture_end(&mut self, position: Option<Point>, out: &mut Vec<WebAction>)
        ensures
            final(self)@ == old(self)@.gesture_ended(),
            final(out)@ == old(out)@ + old(self)@.gesture_end_actions(position),
    {
        self.pinch.gesture_active = false;
        let at = self.gesture_at(position);
        send_pinch(at, self.modifiers, TouchPhase::Ended, PinchDelta::Unchanged, out);
        out.push(WebAction::PreventDefault);
        assert(out@ =~= old(out)@ + old(self)@.gesture_end_actions(position));
    }

    /// A key goes down.
    pub fn key_down(&mut self, event: &DomKey) -> (step: KeyStep)
        ensures
            step@ == event.step(event.keystroke()),
            final(self)@ == old(self)@.key_pressed(*event, event.keystroke()),
    {
        let keystroke = keystroke_for(event.modifiers, event.key.as_str(), event.code.as_str());
        self.keystroke_down(event, keystroke)
    }

    /// A key goes down that is this keystroke.
    pub fn keystroke_down(&mut self, event: &DomKey, keystroke: Keystroke) -> (step: KeyStep)
        ensures
            step@ == event.step(keystroke@),
            final(self)@ == old(self)@.key_pressed(*event, keystroke@),
    {
        if event.is_ignored() {
            return KeyStep::Ignore;
        }
        let modifiers = event.modifiers;
        self.modifiers = modifiers;
        if is_modifier_key(event.key.as_str()) {
            let capslock = Capslock { on: event.caps_lock };
            self.capslock = capslock;
            return KeyStep::Report(ModifiersChangedEvent { modifiers, capslock });
        }
        if (modifiers.platform || modifiers.control) && !modifiers.alt && same_text(
            keystroke.key.as_str(),
            "v",
        ) && !event.repeat {
            self.pending_paste = Some(KeyDownEvent { keystroke, is_held: false });
            return KeyStep::Hold;
        }
        KeyStep::Dispatch(KeyDownEvent { keystroke, is_held: event.repeat })
    }

    /// A key goes up.
    pub fn key_up(&mut self, event: &DomKey) -> (step: KeyUpStep)
        ensures
            step@ == event.up_step(event.keystroke()),
            final(self)@ == old(self)@.key_released(*event),
    {
        let keystroke = keystroke_for(event.modifiers, event.key.as_str(), event.code.as_str());
        self.keystroke_up(event, keystroke)
    }

    /// A key goes up that is this keystroke.
    pub fn keystroke_up(&mut self, event: &DomKey, keystroke: Keystroke) -> (step: KeyUpStep)
        ensures
            step@ == event.up_step(keystroke@),
            final(self)@ == old(self)@.key_released(*event),
    {
        if event.is_ignored() {
            return KeyUpStep::Ignore;
        }
        if is_modifier_key(event.key.as_str()) {
            let modifiers = event.modifiers;
            let capslock = Capslock { on: event.caps_lock };
            self.modifiers = modifiers;
            self.capslock = capslock;
            return KeyUpStep::Report(ModifiersChangedEvent { modifiers, capslock });
        }
        KeyUpStep::Dispatch(KeyUpEvent { keystroke })
    }

    /// The browser hands over the clipboard: its text becomes what the application reads,
    /// and the keystroke that waited for it goes to the application.
    pub fn paste(
        &mut self,
        text: Option<String>,
        clipboard: &mut Option<Vec<ClipboardEntry>>,
    ) -> (delivered: Option<KeyDownEvent>)
        ensures
            refreshed(*old(clipboard), text, *final(clipboard)),
            key_down_view(delivered) == old(self)@.pending_paste,
            final(self)@ == old(self)@.paste_delivered(),
    {
        if let Some(text) = text {
            if text.as_str().unicode_len() > 0 {
                let mut entries: Vec<ClipboardEntry> = Vec::new();
                entries.push(ClipboardEntry::Text(ClipboardString { text, metadata: None }));
                *clipboard = Some(entries);
            }
        }
        self.pending_paste.take()
    }

    /// The clipboard did not come: the keystroke that waited for it goes to the
    /// application all the same.
    pub fn paste_timeout(&mut self) -> (delivered: Option<KeyDownEvent>)
        ensures
            key_down_view(delivered) == old(self)@.pending_paste,
            final(self)@ == old(self)@.paste_delivered(),
    {
        self.pending_paste.take()
    }

    /// A composition starts.
    pub fn composition_start(&mut self, out: &mut Vec<WebAction>)
        ensures
            final(self)@ == (WebInputView { composing: true, ..old(self)@ }),
            final(out)@ == old(out)@.push(WebAction::PlaceInputAtCaret),
    {
        self.composing = true;
        out.push(WebAction::PlaceInputAtCaret);
    }

    /// A composition ends: what it composed replaces the marked text, and the hidden
    /// input element is emptied.
    pub fn composition_end(&mut self, text: Option<String>, out: &mut Vec<WebAction>) -> (step:
        CompositionStep)
        ensures
            final(self)@ == (WebInputView { composing: false, ..old(self)@ }),
            final(out)@ == old(out)@.push(WebAction::ClearInput),
            match text {
                Some(text) if text@.len() > 0 => step matches CompositionStep::Commit(committed)
                    && committed@ == text@,
                _ => step is Unmark,
            },
    {
        self.composing = false;
        out.push(WebAction::ClearInput);
        match text {
            Some(text) => if text.as_str().unicode_len() > 0 {
                CompositionStep::Commit(text)
            } else {
                CompositionStep::Unmark
            },
            None => CompositionStep::Unmark,
        }
    }

    /// Something was typed into the hidden input element. Outside a composition that is a
    /// duplicate, and must not pile up.
    pub fn input(&self, out: &mut Vec<WebAction>)
        ensures
            final(out)@ == if self@.composing {
                old(out)@
            } else {
                old(out)@.push(WebAction::ClearInput)
            },
    {
        if !self.composing {
            out.push(WebAction::ClearInput);
        }
    }

    /// The hidden input element gets the keyboard, or loses it.
    pub fn focus(&mut self, focused: bool, out: &mut Vec<WebAction>)
        ensures
            final(self)@ == (WebInputView { active: focused, ..old(self)@ }),
            final(out)@ == old(out)@.push(WebAction::ReportActive(focused)),
    {
        self.active = focused;
        out.push(WebAction::ReportActive(focused));
    }
}

/// What a composition has composed so far: it is shown as marked text, and the candidates
/// follow the caret.
pub fn composition_update(text: Option<String>, out: &mut Vec<WebAction>) -> (step:
    CompositionStep)
    ensures
        final(out)@ == old(out)@.push(WebAction::PlaceInputAtCaret),
        step matches CompositionStep::Mark(marked) && marked@ == match text {
            Some(text) => text@,
            None => seq![],
        },
{
    out.push(WebAction::PlaceInputAtCaret);
    match text {
        Some(text) => CompositionStep::Mark(text),
        None => CompositionStep::Mark(String::new()),
    }
}

/// The browser's context menu would cover the application's own; the right button comes
/// as a pointer event.
pub fn context_menu(out: &mut Vec<WebAction>)
    ensures
        final(out)@ == old(out)@.push(WebAction::PreventDefault),
{
    out.push(WebAction::PreventDefault);
}

/// Whether a keystroke types: no modifier beyond shift is held, or the layout transformed
/// the character.
pub open spec fn types(modifiers: Modifiers) -> bool {
    (!modifiers.control && !modifiers.alt && !modifiers.platform && !modifiers.function) || (
    modifiers.alt && !modifiers.platform)
}

/// What follows once the callback has had a keystroke: a character that nothing took is
/// text for the focused field. The browser's own response to the tab key would take the
/// keyboard away from the window.
pub fn finish_key_down(keystroke: &Keystroke, result: DispatchResult) -> (outcome: KeyOutcome)
    ensures
        outcome.prevent_default == (result.default_prevented || keystroke.key@ == "tab"@),
        match outcome.insert {
            Some(text) => result.propagate && types(keystroke.modifiers)
                && keystroke@.key_char == Some(text@),
            None => !(result.propagate && types(keystroke.modifiers)
                && keystroke.key_char is Some),
        },
{
    let prevent_default = result.default_prevented || same_text(keystroke.key.as_str(), "tab");
    let modifiers = keystroke.modifiers;
    let plain = !modifiers.control && !modifiers.alt && !modifiers.platform
        && !modifiers.function;
    let transformed = modifiers.alt && !modifiers.platform;
    let insert = match &keystroke.key_char {
        Some(text) => if result.propagate && (plain || transformed) {
            Some(text.as_str().to_owned())
        } else {
            None
        },
        None => None,
    };
    KeyOutcome { prevent_default, insert }
}

/// Puts a callback that was taken out for a call back in, unless another one was set
/// meanwhile.
pub fn replace_if_empty<T>(slot: &mut Option<T>, value: Option<T>)
    ensures
        *final(slot) == if *old(slot) is None {
            value
        } else {
            *old(slot)
        },
{
    if slot.is_none() {
        *slot = value;
    }
}

/// The number of the next window. Windows are numbered from 1.
pub fn next_handle_id(next: &mut u32) -> (id: u32)
    requires
        *old(next) < u32::MAX,
    ensures
        id == *old(next),
        *final(next) == *old(next) + 1,
{
    let id: u32 = *next;
    *next = id + 1;
    id
}

/// Which canvas a window draws on.
#[derive(Clone, Copy, Debug, PartialEq, Eq, Structural)]
pub enum CanvasChoice {
    /// The one that the page offers.
    Page,
    /// A new one that fills the page.
    New,
}

/// The canvas for a new window. `offered` is the canvas that the page offers, where there
/// is one, and whether an earlier window draws on it: every window has its own.
pub fn choose_canvas(offered: Option<bool>) -> (choice: CanvasChoice)
    ensures
        choice == if offered == Some(false) {
            CanvasChoice::Page
        } else {
            CanvasChoice::New
        },
{
    match offered {
        Some(claimed) => if claimed {
            CanvasChoice::New
        } else {
            CanvasChoice::Page
        },
        None => CanvasChoice::New,
    }
}

/// A tenth: no page is scaled below that.
pub const MIN_SCALE_FACTOR: u32 = 0x3dcc_cccd;

/// How many device pixels make a pixel: what the browser says, 1 where it does not say,
/// and never less than a tenth.
pub fn scale_factor(ratio: Option<Scalar>) -> (factor: Scalar)
    ensures
        factor == ({
            let known = match ratio {
                Some(ratio) => ratio,
                None => scalar(ONE),
            };
            if scalar(MIN_SCALE_FACTOR).below(known) {
                known
            } else {
                scalar(MIN_SCALE_FACTOR)
            }
        }),
        ratio is None ==> factor == scalar(0x3f80_0000),
        ratio matches Some(ratio) ==> factor == if scalar(0x3dcc_cccd).below(ratio) {
            ratio
        } else {
            scalar(0x3dcc_cccd)
        },
{
    let known = match ratio {
        Some(ratio) => ratio,
        None => scalar(ONE),
    };
    proof {
        crate::float::laws::law_patterns_are_ordered(0x3dcc_cccd, 0x3f80_0000);
    }
    if scalar(MIN_SCALE_FACTOR).less(known) {
        known
    } else {
        scalar(MIN_SCALE_FACTOR)
    }
}

/// The size that a canvas must be given before a frame is drawn, where it differs from
/// the one it has. `wanted` is the size of its box in device pixels.
pub fn canvas_resize(wanted: (u32, u32), current: (u32, u32)) -> (resized: Option<(u32, u32)>)
    ensures
        resized == if wanted == current {
            None
        } else {
            Some(wanted)
        },
{
    if wanted.0 != current.0 || wanted.1 != current.1 {
        Some(wanted)
    } else {
        None
    }
}

/// Where the caret of a selection is: at the end that moves.
pub fn caret(start: usize, end: usize, reversed: bool) -> (at: usize)
    ensures
        at == if reversed {
            start
        } else {
            end
        },
{
    if reversed {
        start
    } else {
        end
    }
}

} // verus!
