//! The page as a platform: windows, display, appearance and the mirror of the clipboard.

use crate::clipboard;
use crate::clipboard::{joined_text, ClipboardEntry};
use crate::float::{scalar, Scalar};
use crate::geometry::{origin, size, Bounds, Size};
use crate::web::window::{choose_canvas, next_handle_id, CanvasChoice};
use crate::window::{DisplayId, WindowAppearance, WindowKind};
use vstd::prelude::*;
use vstd::string::*;

verus! {

/// What a page cannot do.
#[derive(Clone, Copy, Debug, PartialEq, Eq, Structural)]
pub enum Unsupported {
    UrlSchemes,
    ApplicationPath,
    AuxiliaryExecutables,
    Credentials,
}

impl Unsupported {
    pub open spec fn says(self) -> Seq<char> {
        match self {
            Unsupported::UrlSchemes => "registering URL schemes is not supported on the web"@,
            Unsupported::ApplicationPath => "application paths do not exist on the web"@,
            Unsupported::AuxiliaryExecutables => "auxiliary executables do not exist on the web"@,
            Unsupported::Credentials => "credential storage is not supported on the web"@,
        }
    }

    /// The error that asking for it gives.
    pub fn message(self) -> (text: &'static str)
        ensures
            text@ == self.says(),
    {
        match self {
            Unsupported::UrlSchemes => "registering URL schemes is not supported on the web",
            Unsupported::ApplicationPath => "application paths do not exist on the web",
            Unsupported::AuxiliaryExecutables => "auxiliary executables do not exist on the web",
            Unsupported::Credentials => "credential storage is not supported on the web",
        }
    }
}

/// Where a new canvas lies on the page.
#[derive(Clone, Copy, Debug, PartialEq, Eq, Structural)]
pub enum CanvasPlacement {
    /// It fills the viewport.
    Viewport,
    /// It lies at the bounds that the window asked for.
    At(Bounds),
}

/// What a window is opened as.
#[derive(Clone, Copy, Debug, PartialEq, Eq, Structural)]
pub struct OpenedWindow {
    /// The number that the canvas carries, and the window's handle.
    pub handle_id: u32,
    pub canvas: CanvasChoice,
    pub placement: CanvasPlacement,
}

/// Where the canvas of a window lies: popups and floating windows are placed, every other
/// window fills the viewport.
#[verifier::allow_in_spec]
pub fn canvas_placement(kind: WindowKind, requested: Bounds) -> CanvasPlacement
    returns
        (match kind {
            WindowKind::Normal => CanvasPlacement::Viewport,
            WindowKind::Floating | WindowKind::PopUp => CanvasPlacement::At(requested),
        }),
{
    match kind {
        WindowKind::Normal => CanvasPlacement::Viewport,
        WindowKind::Floating | WindowKind::PopUp => CanvasPlacement::At(requested),
    }
}

/// The platform. The browser's clipboard cannot be read when the application asks, so
/// that reads are served from a mirror.
#[derive(Debug, PartialEq, Eq)]
pub struct WebPlatform {
    pub clipboard: Option<Vec<ClipboardEntry>>,
    /// The graphics device is there, and the application has been launched.
    pub running: bool,
    pub next_handle_id: u32,
}

impl WebPlatform {
    pub open spec fn written(self, entries: Vec<ClipboardEntry>) -> WebPlatform {
        WebPlatform { clipboard: Some(entries), ..self }
    }

    /// The platform after a window has been opened.
    pub open spec fn opened(self) -> WebPlatform {
        WebPlatform { next_handle_id: (self.next_handle_id + 1) as u32, ..self }
    }

    pub fn new() -> (platform: WebPlatform)
        ensures
            platform.clipboard is None,
            !platform.running,
            platform.next_handle_id == 1,
    {
        WebPlatform { clipboard: None, running: false, next_handle_id: 1 }
    }

    /// The graphics device has come: the application is launched, once. Tells whether to
    /// call its launch callback.
    pub fn device_ready(&mut self) -> (launch: bool)
        ensures
            launch == !old(self).running,
            *final(self) == (WebPlatform { running: true, ..*old(self) }),
    {
        let launch = !self.running;
        self.running = true;
        launch
    }

    /// Opens a window, which is possible from the launch on. `offered` is the canvas that
    /// the page offers, where there is one, and whether an earlier window draws on it.
    pub fn open_window(&mut self, kind: WindowKind, requested: Bounds, offered: Option<bool>) -> (opened:
        Option<OpenedWindow>)
        requires
            old(self).next_handle_id < u32::MAX,
        ensures
            match opened {
                Some(window) => old(self).running && window == (OpenedWindow {
                    handle_id: old(self).next_handle_id,
                    canvas: if offered == Some(false) {
                        CanvasChoice::Page
                    } else {
                        CanvasChoice::New
                    },
                    placement: canvas_placement(kind, requested),
                }) && *final(self) == old(self).opened(),
                None => !old(self).running && *final(self) == *old(self),
            },
    {
        if !self.running {
            return None;
        }
        let handle_id = next_handle_id(&mut self.next_handle_id);
        Some(
            OpenedWindow {
                handle_id,
                canvas: choose_canvas(offered),
                placement: canvas_placement(kind, requested),
            },
        )
    }

    /// Writes the clipboard. The text goes to the browser's clipboard too, as far as that
    /// allows it.
    pub fn write_to_clipboard(&mut self, entries: Vec<ClipboardEntry>) -> (text: String)
        ensures
            text@ == clipboard::texts(entries@),
            *final(self) == old(self).written(entries),
    {
        let text = joined_text(&entries);
        self.clipboard = Some(entries);
        text
    }

    /// Reads the clipboard, which holds what was last written or pasted.
    pub fn read_from_clipboard(&self) -> (entries: Option<&Vec<ClipboardEntry>>)
        ensures
            entries == match self.clipboard {
                Some(entries) => Some(&entries),
                None => None,
            },
    {
        match &self.clipboard {
            Some(entries) => Some(entries),
            None => None,
        }
    }
}

/// What an application writes to the clipboard it reads back, until it writes something
/// else: opening windows and launching leave it there.
pub proof fn law_clipboard_reads_back(platform: WebPlatform, entries: Vec<ClipboardEntry>)
    ensures
        platform.written(entries).clipboard == Some(entries),
        platform.written(entries).opened().clipboard == Some(entries),
        (WebPlatform { running: true, ..platform.written(entries) }).clipboard == Some(entries),
{
}

/// No two windows have the same number: each is above those of all windows before it.
pub proof fn law_handles_count_up(platform: WebPlatform, entries: Vec<ClipboardEntry>)
    requires
        platform.next_handle_id < u32::MAX,
    ensures
        platform.opened().next_handle_id > platform.next_handle_id,
        platform.written(entries).next_handle_id == platform.next_handle_id,
{
}

/// How windows look: dark where the page's user prefers that.
pub fn window_appearance(prefers_dark: bool) -> (appearance: WindowAppearance)
    ensures
        appearance == if prefers_dark {
            WindowAppearance::Dark
        } else {
            WindowAppearance::Light
        },
{
    if prefers_dark {
        WindowAppearance::Dark
    } else {
        WindowAppearance::Light
    }
}

/// The keyboard layout, which browsers do not tell.
pub fn keyboard_layout() -> (name: &'static str)
    ensures
        name@ == "unknown"@,
{
    "unknown"
}

/// The size of the viewport where the browser does not tell it: 1024 by 768.
pub const DEFAULT_WIDTH: u32 = 0x4480_0000;

pub const DEFAULT_HEIGHT: u32 = 0x4440_0000;

/// The bytes 67707569-7765-6221-b164-6973706c6179.
pub open spec fn display_uuid() -> Seq<u8> {
    seq![
        0x67u8, 0x70, 0x75, 0x69, 0x77, 0x65, 0x62, 0x21, 0xb1, 0x64, 0x69, 0x73, 0x70, 0x6c, 0x61, 0x79,
    ]
}

/// The viewport, as the one display.
#[derive(Clone, Copy, Debug, PartialEq, Eq, Structural)]
pub struct WebDisplay;

impl WebDisplay {
    pub fn id(&self) -> (id: DisplayId)
        ensures
            id.0 == 0,
    {
        DisplayId(0)
    }

    /// The identity of the display, which is the same on every page.
    pub fn uuid(&self) -> (id: [u8; 16])
        ensures
            id@ == display_uuid(),
    {
        let id: [u8; 16] = [
            0x67, 0x70, 0x75, 0x69, 0x77, 0x65, 0x62, 0x21, 0xb1, 0x64, 0x69, 0x73, 0x70, 0x6c, 0x61, 0x79,
        ];
        assert(id@ =~= display_uuid());
        id
    }

    /// The viewport's bounds, from what the browser tells of its sides.
    pub fn bounds(&self, width: Option<Scalar>, height: Option<Scalar>) -> (bounds: Bounds)
        ensures
            bounds == (Bounds {
                origin: origin(),
                size: Size {
                    width: match width {
                        Some(width) => width,
                        None => scalar(DEFAULT_WIDTH),
                    },
                    height: match height {
                        Some(height) => height,
                        None => scalar(DEFAULT_HEIGHT),
                    },
                },
            }),
            width is None ==> bounds.size.width == scalar(0x4480_0000),
            height is None ==> bounds.size.height == scalar(0x4440_0000),
    {
        let width = match width {
            Some(width) => width,
            None => scalar(DEFAULT_WIDTH),
        };
        let height = match height {
            Some(height) => height,
            None => scalar(DEFAULT_HEIGHT),
        };
        Bounds { origin: origin(), size: size(width, height) }
    }
}

/// What cannot be done on the web says why, each in its own words.
pub proof fn law_messages()
    ensures
        Unsupported::UrlSchemes.says() == "registering URL schemes is not supported on the web"@,
        Unsupported::ApplicationPath.says() == "application paths do not exist on the web"@,
        Unsupported::AuxiliaryExecutables.says()
            == "auxiliary executables do not exist on the web"@,
        Unsupported::Credentials.says() == "credential storage is not supported on the web"@,
{
}

/// A normal window fills the page, every other one lies where it asked to.
pub proof fn law_placements(requested: Bounds)
    ensures
        canvas_placement(WindowKind::Normal, requested) == CanvasPlacement::Viewport,
        canvas_placement(WindowKind::Floating, requested) == CanvasPlacement::At(requested),
        canvas_placement(WindowKind::PopUp, requested) == CanvasPlacement::At(requested),
{
}

/// Writing to the clipboard changes nothing else, and neither does opening a window change
/// more than the next handle.
pub proof fn law_small_steps(state: WebPlatform, entries: Vec<ClipboardEntry>)
    requires
        state.next_handle_id < u32::MAX,
    ensures
        state.written(entries).clipboard == Some(entries),
        state.written(entries).running == state.running,
        state.written(entries).next_handle_id == state.next_handle_id,
        state.opened().clipboard == state.clipboard,
        state.opened().running == state.running,
        state.opened().next_handle_id == state.next_handle_id + 1,
{
}

/// The display's identifier is the text "gpuiweb!" and "display" around one other byte.
pub proof fn law_display_identifier(index: int)
    requires
        0 <= index < 16,
    ensures
        display_uuid().len() == 16,
        index < 8 ==> display_uuid()[index] == "gpuiweb!"@[index] as u8,
        index == 8 ==> display_uuid()[index] == 0xb1,
        index > 8 ==> display_uuid()[index] == "display"@[index - 9] as u8,
{
    reveal_strlit("gpuiweb!");
    reveal_strlit("display");
}

} // verus!
