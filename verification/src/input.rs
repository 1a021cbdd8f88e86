//! What a platform window reports: the events every backend translates its
//! native input into.

use crate::float::Scalar;
use crate::geometry::Point;
use vstd::prelude::*;

verus! {

/// The modifier keys held during an event.
#[derive(Clone, Copy, Debug, PartialEq, Eq, Structural)]
pub struct Modifiers {
    pub control: bool,
    pub alt: bool,
    pub shift: bool,
    /// Command on Apple platforms, the Windows or Meta key elsewhere.
    pub platform: bool,
    pub function: bool,
}

#[derive(Clone, Copy, Debug, PartialEq, Eq, Structural)]
pub struct Capslock {
    pub on: bool,
}

/// No modifier held.
#[verifier::allow_in_spec]
pub fn no_modifiers() -> Modifiers
    returns
        (Modifiers { control: false, alt: false, shift: false, platform: false, function: false }),
{
    Modifiers { control: false, alt: false, shift: false, platform: false, function: false }
}

#[derive(Clone, Copy, Debug, PartialEq, Eq, Structural)]
pub enum NavigationDirection {
    Back,
    Forward,
}

#[derive(Clone, Copy, Debug, PartialEq, Eq, Structural)]
pub enum MouseButton {
    Left,
    Right,
    Middle,
    Navigate(NavigationDirection),
}

/// Where in a gesture an event stands.
#[derive(Clone, Copy, Debug, PartialEq, Eq, Structural)]
pub enum TouchPhase {
    Started,
    Moved,
    Ended,
}

/// The orientation of a pen, in degrees from the perpendicular, positive to the
/// right and downwards.
#[derive(Clone, Copy, Debug, PartialEq, Eq, Structural)]
pub struct Tilt {
    pub x: Scalar,
    pub y: Scalar,
}

/// How far a scroll event scrolls. The numbers are named by where they come
/// from, for the caller to evaluate.
#[derive(Clone, Copy, Debug, PartialEq, Eq, Structural)]
pub enum ScrollDelta {
    /// A distance in pixels.
    Pixels(Point),
    /// A distance in lines.
    Lines(Point),
    /// A distance in pages.
    Pages(Point),
    /// The distance in pixels from one point to the other.
    Between { from: Point, to: Point },
    /// The distance from one point to the other, in device pixels, of which
    /// `scale_factor` make a pixel.
    DeviceBetween { from: Point, to: Point, scale_factor: Scalar },
    /// The distance in pixels covered at a velocity (in pixels per second) in a
    /// time (in nanoseconds).
    Coast { velocity: Point, nanos: u64 },
}

/// By what factor a pinch event changes the scale.
#[derive(Clone, Copy, Debug, PartialEq, Eq, Structural)]
pub enum PinchDelta {
    /// A factor of 1: nothing changes.
    Unchanged,
    /// The quotient of a new measure and the one before it.
    Ratio { now: Scalar, before: Scalar },
    /// The factor that corresponds to a wheel turned by so many units, each worth so
    /// many pixels: e to the power of minus a hundredth of the pixels.
    Wheel { turned: Scalar, pixels_per_unit: u32 },
}

#[derive(Clone, Copy, Debug, PartialEq, Eq, Structural)]
pub struct MouseDownEvent {
    pub button: MouseButton,
    pub position: Point,
    pub modifiers: Modifiers,
    pub click_count: usize,
    /// Whether the press also brought the window to the front.
    pub first_mouse: bool,
    /// 0 to 1; 1 for whatever has no pressure.
    pub pressure: Scalar,
    /// `None` where the device reports no orientation to trust.
    pub tilt: Option<Tilt>,
}

#[derive(Clone, Copy, Debug, PartialEq, Eq, Structural)]
pub struct MouseUpEvent {
    pub button: MouseButton,
    pub position: Point,
    pub modifiers: Modifiers,
    pub click_count: usize,
    pub pressure: Scalar,
    pub tilt: Option<Tilt>,
}

#[derive(Clone, Copy, Debug, PartialEq, Eq, Structural)]
pub struct MouseMoveEvent {
    pub position: Point,
    pub pressed_button: Option<MouseButton>,
    pub modifiers: Modifiers,
    pub pressure: Scalar,
    pub tilt: Option<Tilt>,
}

#[derive(Clone, Copy, Debug, PartialEq, Eq, Structural)]
pub struct MouseExitEvent {
    pub position: Point,
    pub pressed_button: Option<MouseButton>,
    pub modifiers: Modifiers,
}

#[derive(Clone, Copy, Debug, PartialEq, Eq, Structural)]
pub struct ScrollWheelEvent {
    pub position: Point,
    pub delta: ScrollDelta,
    pub modifiers: Modifiers,
    pub touch_phase: TouchPhase,
}

/// A pinch, about the point between the fingers.
#[derive(Clone, Copy, Debug, PartialEq, Eq, Structural)]
pub struct PinchEvent {
    pub position: Point,
    /// The change since the previous event of the gesture.
    pub delta: PinchDelta,
    /// The change since the gesture began. A platform window sends 1; the
    /// receiver accumulates the deltas.
    pub scale: Scalar,
    pub modifiers: Modifiers,
    pub phase: TouchPhase,
}

#[derive(Clone, Copy, Debug, PartialEq, Eq, Structural)]
pub struct ModifiersChangedEvent {
    pub modifiers: Modifiers,
    pub capslock: Capslock,
}

/// A key with the modifiers held. `key` is the unshifted character or the name
/// of the key; `key_char` is the text it would type.
#[derive(Clone, Debug, PartialEq, Eq)]
pub struct Keystroke {
    pub modifiers: Modifiers,
    pub key: String,
    pub key_char: Option<String>,
}

/// What a keystroke is, with its texts as characters.
#[verifier::ext_equal]
pub struct KeystrokeView {
    pub modifiers: Modifiers,
    pub key: Seq<char>,
    pub key_char: Option<Seq<char>>,
}

/// The characters of an optional text.
pub open spec fn text_view(text: Option<String>) -> Option<Seq<char>> {
    match text {
        Some(text) => Some(text@),
        None => None,
    }
}

impl View for Keystroke {
    type V = KeystrokeView;

    open spec fn view(&self) -> KeystrokeView {
        KeystrokeView {
            modifiers: self.modifiers,
            key: self.key@,
            key_char: text_view(self.key_char),
        }
    }
}

pub open spec fn keystroke_view(keystroke: Option<Keystroke>) -> Option<KeystrokeView> {
    match keystroke {
        Some(keystroke) => Some(keystroke@),
        None => None,
    }
}

/// A name and the text it types, as characters.
pub open spec fn named_view(named: Option<(&'static str, Option<&'static str>)>) -> Option<
    (Seq<char>, Option<Seq<char>>),
> {
    match named {
        Some((name, Some(typed))) => Some((name@, Some(typed@))),
        Some((name, None)) => Some((name@, None)),
        None => None,
    }
}

#[derive(Clone, Debug, PartialEq, Eq)]
pub struct KeyDownEvent {
    pub keystroke: Keystroke,
    /// Whether the key repeats because it is being held.
    pub is_held: bool,
}

#[derive(Clone, Debug, PartialEq, Eq)]
pub struct KeyUpEvent {
    pub keystroke: Keystroke,
}

/// An event as a window's input callback receives it.
#[derive(Clone, Debug, PartialEq, Eq)]
pub enum PlatformInput {
    MouseDown(MouseDownEvent),
    MouseUp(MouseUpEvent),
    MouseMove(MouseMoveEvent),
    MouseExited(MouseExitEvent),
    ScrollWheel(ScrollWheelEvent),
    Pinch(PinchEvent),
    ModifiersChanged(ModifiersChangedEvent),
    KeyDown(KeyDownEvent),
    KeyUp(KeyUpEvent),
}

} // verus!
