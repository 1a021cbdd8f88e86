//! The few value types that are passed to and from the system's frameworks.

use crate::window::WindowAppearance;
use std::ops::Range;
use vstd::prelude::*;

verus! {

/// Which sides of a layer follow its parent's size.
#[derive(Clone, Copy, Debug, PartialEq, Eq, Structural)]
pub struct AutoresizingMask(pub u32);

impl AutoresizingMask {
    /// The width follows.
    pub fn width_sizable() -> (mask: AutoresizingMask)
        ensures
            mask.0 == 2,
    {
        AutoresizingMask(2)
    }

    /// The height follows.
    pub fn height_sizable() -> (mask: AutoresizingMask)
        ensures
            mask.0 == 16,
    {
        AutoresizingMask(16)
    }
}

impl std::ops::BitOr for AutoresizingMask {
    type Output = AutoresizingMask;

    fn bitor(self, rhs: AutoresizingMask) -> (both: AutoresizingMask) {
        AutoresizingMask(self.0 | rhs.0)
    }
}

impl vstd::std_specs::ops::BitOrSpecImpl for AutoresizingMask {
    open spec fn obeys_bitor_spec() -> bool {
        true
    }

    open spec fn bitor_req(self, rhs: AutoresizingMask) -> bool {
        true
    }

    open spec fn bitor_spec(self, rhs: AutoresizingMask) -> AutoresizingMask {
        AutoresizingMask(self.0 | rhs.0)
    }
}

/// The location of a range that is nowhere.
pub const NS_NOT_FOUND: usize = usize::MAX / 2;

/// A range of text by location and length.
#[derive(Clone, Copy, Debug, PartialEq, Eq, Structural)]
pub struct NSRange {
    pub location: usize,
    pub length: usize,
}

impl NSRange {
    pub open spec fn is_somewhere(self) -> bool {
        self.location != NS_NOT_FOUND
    }

    /// Whether the range is somewhere.
    pub fn is_valid(&self) -> (valid: bool)
        ensures
            valid == self.is_somewhere(),
    {
        self.location != NS_NOT_FOUND
    }

    /// The range from its start to its end.
    pub fn to_range(self) -> (range: Option<Range<usize>>)
        requires
            self.is_somewhere() ==> self.location + self.length <= usize::MAX,
        ensures
            match range {
                Some(range) => self.is_somewhere() && range.start == self.location && range.end
                    == self.location + self.length,
                None => !self.is_somewhere(),
            },
    {
        if self.is_valid() {
            Some(self.location..self.location + self.length)
        } else {
            None
        }
    }
}

/// The range as location and length; nothing where it ends before it starts.
pub open spec fn ns_range(start: usize, end: usize) -> NSRange {
    NSRange {
        location: start,
        length: if start <= end {
            (end - start) as usize
        } else {
            0
        },
    }
}

impl From<Range<usize>> for NSRange {
    fn from(range: Range<usize>) -> (converted: NSRange) {
        NSRange {
            location: range.start,
            length: if range.start <= range.end {
                range.end - range.start
            } else {
                0
            },
        }
    }
}

impl vstd::std_specs::convert::FromSpecImpl<Range<usize>> for NSRange {
    open spec fn obeys_from_spec() -> bool {
        true
    }

    open spec fn from_spec(range: Range<usize>) -> NSRange {
        ns_range(range.start, range.end)
    }
}

/// A range that is converted and converted back is the same, unless it starts where
/// nothing is.
pub proof fn law_range_round_trip(start: usize, end: usize)
    requires
        start <= end,
        start != NS_NOT_FOUND,
    ensures
        ns_range(start, end).is_somewhere(),
        ns_range(start, end).location == start,
        ns_range(start, end).location + ns_range(start, end).length == end,
{
}

/// The interface style that is dark.
pub const UI_USER_INTERFACE_STYLE_DARK: isize = 2;

/// The appearance of an interface style.
pub fn appearance_from_style(style: isize) -> (appearance: WindowAppearance)
    ensures
        appearance == if style == UI_USER_INTERFACE_STYLE_DARK {
            WindowAppearance::Dark
        } else {
            WindowAppearance::Light
        },
        appearance == WindowAppearance::Dark <==> style == 2,
{
    if style == UI_USER_INTERFACE_STYLE_DARK {
        WindowAppearance::Dark
    } else {
        WindowAppearance::Light
    }
}

/// The keyboard's appearance in a window: 1 is dark, 2 is light.
pub fn keyboard_appearance(appearance: WindowAppearance) -> (keyboard: isize)
    ensures
        keyboard == (match appearance {
            WindowAppearance::Dark | WindowAppearance::VibrantDark => 1isize,
            WindowAppearance::Light | WindowAppearance::VibrantLight => 2,
        }),
{
    match appearance {
        WindowAppearance::Dark | WindowAppearance::VibrantDark => 1,
        WindowAppearance::Light | WindowAppearance::VibrantLight => 2,
    }
}

} // verus!
