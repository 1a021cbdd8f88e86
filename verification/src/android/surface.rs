//! A window's surface. The window exists from its opening on; the surface comes and goes
//! with the activity, and the renderer with it.

use crate::android::display;
use crate::android::display::size_from_config;
use crate::float::Scalar;
use crate::geometry::{no_edges, origin, Bounds, Edges, Size};
use crate::window::WindowAppearance;
use vstd::prelude::*;

verus! {

/// The density of a screen that the configuration says nothing of.
pub const DEFAULT_DENSITY: u32 = 160;

/// The density whose 160th part is the scale from points to pixels; never zero.
pub fn density(configured: Option<u32>) -> (density: u32)
    ensures
        density == (match configured {
            Some(configured) => if configured == 0 {
                1
            } else {
                configured
            },
            None => DEFAULT_DENSITY,
        }),
        configured is None ==> density == 160,
{
    match configured {
        Some(configured) => if configured == 0 {
            1
        } else {
            configured
        },
        None => DEFAULT_DENSITY,
    }
}

/// A side of the surface in pixels, never below one.
pub fn surface_side(pixels: i32) -> (side: i32)
    ensures
        side == if pixels < 1 {
            1
        } else {
            pixels as int
        },
{
    if pixels < 1 {
        1
    } else {
        pixels
    }
}

/// The dark-mode setting, from the configuration's night mode.
pub fn appearance_from_config(night: bool) -> (appearance: WindowAppearance)
    ensures
        appearance == if night {
            WindowAppearance::Dark
        } else {
            WindowAppearance::Light
        },
{
    if night {
        WindowAppearance::Dark
    } else {
        WindowAppearance::Light
    }
}

/// What a window knows of its surface.
#[derive(Clone, Copy, Debug, PartialEq, Eq, Structural)]
pub struct SurfaceState {
    pub has_native_window: bool,
    pub has_renderer: bool,
    /// The content size in points, and the scale that maps it to the surface's pixels.
    pub size: Size,
    pub scale_factor: Scalar,
    pub insets: Edges,
    pub appearance: WindowAppearance,
    pub active: bool,
    /// Whether the software keyboard has been asked for.
    pub keyboard_shown: bool,
}

pub open spec fn same_size(a: Size, b: Size) -> bool {
    a.width.same_value(b.width) && a.height.same_value(b.height)
}

pub open spec fn same_edges(a: Edges, b: Edges) -> bool {
    a.top.same_value(b.top) && a.right.same_value(b.right) && a.bottom.same_value(b.bottom)
        && a.left.same_value(b.left)
}

/// What reading the insets gave.
#[derive(Clone, Copy, Debug, PartialEq, Eq, Structural)]
pub enum InsetsReading {
    /// The edges covered by the system, in points.
    Edges(Edges),
    /// There are none to read.
    Nothing,
    Failed,
}

impl SurfaceState {
    /// A window that opens: the screen size of the configuration is the best guess at its
    /// size where there is one.
    pub fn open(
        requested: Size,
        screen_width: Option<Scalar>,
        screen_height: Option<Scalar>,
        scale_factor: Scalar,
        appearance: WindowAppearance,
    ) -> (state: SurfaceState)
        ensures
            state == (SurfaceState {
                has_native_window: false,
                has_renderer: false,
                size: match display::configured_size(screen_width, screen_height) {
                    Some(size) => size,
                    None => requested,
                },
                scale_factor,
                insets: no_edges(),
                appearance,
                active: false,
                keyboard_shown: false,
            }),
    {
        let size = match size_from_config(screen_width, screen_height) {
            Some(size) => size,
            None => requested,
        };
        SurfaceState {
            has_native_window: false,
            has_renderer: false,
            size,
            scale_factor,
            insets: no_edges(),
            appearance,
            active: false,
            keyboard_shown: false,
        }
    }

    pub fn has_surface(&self) -> (has: bool)
        ensures
            has == self.has_renderer,
    {
        self.has_renderer
    }

    pub fn bounds(&self) -> (bounds: Bounds)
        ensures
            bounds == (Bounds { origin: origin(), size: self.size }),
    {
        Bounds { origin: origin(), size: self.size }
    }

    /// Whether geometry that is read differs from what the window knows.
    pub open spec fn differs(self, surface_size: Size, scale_factor: Scalar) -> bool {
        !same_size(self.measured(surface_size), self.size) || !scale_factor.same_value(
            self.scale_factor,
        )
    }

    /// The size that is read: the surface's where there is one.
    pub open spec fn measured(self, surface_size: Size) -> Size {
        if self.has_native_window {
            surface_size
        } else {
            self.size
        }
    }

    /// Takes in the surface's size and the scale; tells whether either changed.
    pub fn read_geometry(&mut self, surface_size: Size, scale_factor: Scalar) -> (changed: bool)
        ensures
            changed == old(self).differs(surface_size, scale_factor),
            *final(self) == (SurfaceState {
                size: old(self).measured(surface_size),
                scale_factor,
                ..*old(self)
            }),
    {
        let size = if self.has_native_window {
            surface_size
        } else {
            self.size
        };
        let same = size.width.equal(self.size.width) && size.height.equal(self.size.height)
            && scale_factor.equal(self.scale_factor);
        self.size = size;
        self.scale_factor = scale_factor;
        !same
    }

    /// The window is given the activity's surface. Tells whether a renderer is there
    /// already, to be destroyed first.
    pub fn begin_attach(&mut self, surface_size: Size, scale_factor: Scalar) -> (destroys: bool)
        ensures
            destroys == old(self).has_renderer,
            *final(self) == (SurfaceState {
                has_native_window: true,
                has_renderer: false,
                size: surface_size,
                scale_factor,
                ..*old(self)
            }),
    {
        let destroys = self.detach();
        self.has_native_window = true;
        let _changed = self.read_geometry(surface_size, scale_factor);
        destroys
    }

    /// The renderer has been made, or could not be. Tells whether the window is to report
    /// its size and draw.
    pub fn finish_attach(&mut self, created: bool) -> (shown: bool)
        ensures
            shown == created,
            created ==> *final(self) == (SurfaceState { has_renderer: true, ..*old(self) }),
            !created ==> *final(self) == (SurfaceState { has_native_window: false, ..*old(self) }),
    {
        if created {
            self.has_renderer = true;
        } else {
            self.has_native_window = false;
        }
        created
    }

    /// The surface goes. Tells whether there is a renderer to destroy.
    pub fn detach(&mut self) -> (destroys: bool)
        ensures
            destroys == old(self).has_renderer,
            *final(self) == (SurfaceState {
                has_native_window: false,
                has_renderer: false,
                ..*old(self)
            }),
    {
        let destroys = self.has_renderer;
        self.has_renderer = false;
        self.has_native_window = false;
        destroys
    }

    /// The insets that a reading stands for.
    pub open spec fn read_insets(reading: InsetsReading) -> Option<Edges> {
        match reading {
            InsetsReading::Edges(edges) => Some(edges),
            InsetsReading::Nothing => Some(no_edges()),
            InsetsReading::Failed => None,
        }
    }

    /// Takes in the system's insets; tells whether the window is to lay out anew.
    pub fn poll_insets(&mut self, reading: InsetsReading) -> (changed: bool)
        ensures
            changed == (old(self).has_renderer && (Self::read_insets(reading) matches Some(edges)
                && !same_edges(old(self).insets, edges))),
            changed ==> *final(self) == (SurfaceState {
                insets: Self::read_insets(reading)->0,
                ..*old(self)
            }),
            !changed ==> *final(self) == *old(self),
    {
        if !self.has_renderer {
            return false;
        }
        let insets = match reading {
            InsetsReading::Edges(edges) => edges,
            InsetsReading::Nothing => no_edges(),
            InsetsReading::Failed => {
                return false;
            },
        };
        if self.insets.top.equal(insets.top) && self.insets.right.equal(insets.right)
            && self.insets.bottom.equal(insets.bottom) && self.insets.left.equal(insets.left) {
            return false;
        }
        self.insets = insets;
        true
    }

    /// Takes in the appearance; tells whether it changed.
    pub fn update_appearance(&mut self, appearance: WindowAppearance) -> (changed: bool)
        ensures
            changed == (appearance != old(self).appearance),
            *final(self) == (SurfaceState { appearance, ..*old(self) }),
    {
        if appearance == self.appearance {
            return false;
        }
        self.appearance = appearance;
        true
    }

    pub fn set_active(&mut self, active: bool)
        ensures
            *final(self) == (SurfaceState { active, ..*old(self) }),
    {
        self.active = active;
    }

    /// The software keyboard is up while a text element of the active window has focus.
    /// Tells whether to show or hide it, where that changed.
    pub fn sync_keyboard(&mut self, has_text_focus: bool) -> (request: Option<bool>)
        ensures
            final(self).keyboard_shown == (has_text_focus && old(self).active),
            *final(self) == (SurfaceState {
                keyboard_shown: has_text_focus && old(self).active,
                ..*old(self)
            }),
            request == if (has_text_focus && old(self).active) == old(self).keyboard_shown {
                None
            } else {
                Some(has_text_focus && old(self).active)
            },
    {
        let wants_keyboard = has_text_focus && self.active;
        if wants_keyboard == self.keyboard_shown {
            return None;
        }
        self.keyboard_shown = wants_keyboard;
        Some(wants_keyboard)
    }
}

} // verus!
