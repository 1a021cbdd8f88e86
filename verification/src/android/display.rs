//! The device's screen. An activity sees one display: its size is that of the activity's
//! window or, before there is one, the screen size of the configuration.

use crate::window::DisplayId;
use crate::float::{scalar, Scalar};
use crate::geometry::{origin, Bounds, Size};
use vstd::prelude::*;

verus! {

/// The bytes of the text "gpui-android-scr".
pub open spec fn screen_uuid() -> Seq<u8> {
    seq![
        0x67u8, 0x70, 0x75, 0x69, 0x2d, 0x61, 0x6e, 0x64, 0x72, 0x6f, 0x69, 0x64, 0x2d, 0x73, 0x63, 0x72,
    ]
}

#[derive(Clone, Copy, Debug, PartialEq, Eq, Structural)]
pub struct AndroidDisplay {
    pub bounds: Bounds,
}

/// The screen size of a configuration, where both sides are there and above zero.
pub open spec fn configured_size(width: Option<Scalar>, height: Option<Scalar>) -> Option<Size> {
    match (width, height) {
        (Some(width), Some(height)) => if scalar(0).below(width) && scalar(0).below(height) {
            Some(Size { width, height })
        } else {
            None
        },
        _ => None,
    }
}

pub fn size_from_config(width: Option<Scalar>, height: Option<Scalar>) -> (size: Option<Size>)
    ensures
        size == configured_size(width, height),
{
    match (width, height) {
        (Some(width), Some(height)) => if scalar(0).less(width) && scalar(0).less(height) {
            Some(Size { width, height })
        } else {
            None
        },
        _ => None,
    }
}

impl AndroidDisplay {
    pub fn new(bounds: Bounds) -> (display: AndroidDisplay)
        ensures
            display.bounds == bounds,
    {
        AndroidDisplay { bounds }
    }

    /// The screen that the configuration reports, in points; `default_size` where it
    /// reports none.
    pub fn from_config(width: Option<Scalar>, height: Option<Scalar>, default_size: Size) -> (display:
        AndroidDisplay)
        ensures
            display.bounds.origin == origin(),
            display.bounds.size == (match configured_size(width, height) {
                Some(size) => size,
                None => default_size,
            }),
    {
        let size = match size_from_config(width, height) {
            Some(size) => size,
            None => default_size,
        };
        AndroidDisplay::new(Bounds { origin: origin(), size })
    }

    pub fn id(&self) -> (id: DisplayId)
        ensures
            id.0 == 0,
    {
        DisplayId(0)
    }

    /// The identity of the screen, stable across launches.
    pub fn uuid(&self) -> (id: [u8; 16])
        ensures
            id@ == screen_uuid(),
    {
        let id: [u8; 16] = [
            0x67, 0x70, 0x75, 0x69, 0x2d, 0x61, 0x6e, 0x64, 0x72, 0x6f, 0x69, 0x64, 0x2d, 0x73, 0x63, 0x72,
        ];
        assert(id@ =~= screen_uuid());
        id
    }
}

/// The display of a window that has a surface; the configuration's otherwise.
pub fn primary_display(surface_bounds: Option<Bounds>, configured: Option<AndroidDisplay>) -> (display:
    Option<AndroidDisplay>)
    ensures
        display == (match surface_bounds {
            Some(bounds) => Some(AndroidDisplay { bounds }),
            None => configured,
        }),
{
    match surface_bounds {
        Some(bounds) => Some(AndroidDisplay::new(bounds)),
        None => configured,
    }
}

} // verus!
