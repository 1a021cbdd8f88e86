//! The activity's lifecycle: what each event of the main loop asks of the windows, and when
//! frames are drawn.

use crate::float::{scalar, Scalar};
use crate::touch;
use crate::touch::nanos_since;
use vstd::prelude::*;

verus! {

/// How often the insets are read again while frames are being paced; the software keyboard
/// comes and goes without an event.
pub const INSETS_POLL_EVERY_FRAMES: u32 = 4;

/// The refresh rate of a display that tells none: 60.
pub const DEFAULT_REFRESH_RATE: u32 = 0x4270_0000;

/// The lowest refresh rate that is believed: 24.
pub const LOWEST_REFRESH_RATE: u32 = 0x41c0_0000;

/// An event of the main loop.
#[derive(Clone, Copy, Debug, PartialEq, Eq, Structural)]
pub enum MainEvent {
    InitWindow,
    TerminateWindow,
    WindowResized,
    ContentRectChanged,
    RedrawNeeded,
    GainedFocus,
    LostFocus,
    ConfigChanged,
    Pause,
    Resume,
    Destroy,
    InputAvailable,
    Other,
}

/// What an event asks for. A window is known by its number.
#[derive(Clone, Copy, Debug, PartialEq, Eq, Structural)]
pub enum Command {
    ReadFrameInterval,
    AttachSurface(u64),
    DetachSurface(u64),
    UpdateGeometry(u64),
    UpdateAppearance(u64),
    PollInsets(u64),
    RequestFrame(u64),
    SetActive(u64, bool),
    TickTouchTimers(u64),
    SyncKeyboard(u64),
    /// The application's callback for coming back runs.
    Reopen,
    /// The waiting input goes to the window, if there is one.
    ReadInput(Option<u64>),
}

/// The platform's state. The oldest open window owns the activity's surface.
#[derive(Debug)]
pub struct AndroidPlatform {
    /// Every open window, oldest first.
    pub windows: Vec<u64>,
    pub quit_requested: bool,
    /// Between a pause and a resume no frames are produced.
    pub paused: bool,
    pub frames: u32,
}

#[verifier::ext_equal]
pub struct PlatformView {
    pub windows: Seq<u64>,
    pub quit_requested: bool,
    pub paused: bool,
    pub frames: u32,
}

impl View for AndroidPlatform {
    type V = PlatformView;

    open spec fn view(&self) -> PlatformView {
        PlatformView {
            windows: self.windows@,
            quit_requested: self.quit_requested,
            paused: self.paused,
            frames: self.frames,
        }
    }
}

/// Every window lets go of its surface.
pub open spec fn detach_all(windows: Seq<u64>) -> Seq<Command> {
    windows.map_values(|window: u64| Command::DetachSurface(window))
}

/// Every window takes in its geometry and its appearance.
pub open spec fn refresh_all(windows: Seq<u64>) -> Seq<Command>
    decreases windows.len(),
{
    if windows.len() == 0 {
        seq![]
    } else {
        refresh_all(windows.drop_last()) + seq![
            Command::UpdateGeometry(windows.last()),
            Command::UpdateAppearance(windows.last()),
        ]
    }
}

impl PlatformView {
    pub open spec fn primary(self) -> Option<u64> {
        if self.windows.len() == 0 {
            None
        } else {
            Some(self.windows[0])
        }
    }

    pub open spec fn after(self, event: MainEvent) -> PlatformView {
        match event {
            MainEvent::Pause => PlatformView { paused: true, ..self },
            MainEvent::Resume => PlatformView { paused: false, ..self },
            MainEvent::Destroy => PlatformView { quit_requested: true, ..self },
            _ => self,
        }
    }

    /// What an event asks for; `has_native_window` says whether the activity has a surface.
    pub open spec fn commands(self, event: MainEvent, has_native_window: bool) -> Seq<Command> {
        match event {
            MainEvent::InitWindow => if !has_native_window {
                seq![]
            } else {
                match self.primary() {
                    Some(window) => seq![
                        Command::ReadFrameInterval,
                        Command::AttachSurface(window),
                        Command::PollInsets(window),
                    ],
                    None => seq![Command::ReadFrameInterval],
                }
            },
            MainEvent::TerminateWindow => detach_all(self.windows),
            MainEvent::WindowResized | MainEvent::ContentRectChanged => match self.primary() {
                Some(window) => seq![
                    Command::UpdateGeometry(window),
                    Command::PollInsets(window),
                ],
                None => seq![],
            },
            MainEvent::RedrawNeeded => match self.primary() {
                Some(window) => seq![
                    Command::UpdateGeometry(window),
                    Command::RequestFrame(window),
                ],
                None => seq![],
            },
            MainEvent::GainedFocus => match self.primary() {
                Some(window) => seq![Command::SetActive(window, true)],
                None => seq![],
            },
            MainEvent::LostFocus => match self.primary() {
                Some(window) => seq![Command::SetActive(window, false)],
                None => seq![],
            },
            MainEvent::ConfigChanged => refresh_all(self.windows),
            MainEvent::Resume => seq![Command::Reopen],
            MainEvent::InputAvailable => seq![Command::ReadInput(self.primary())],
            MainEvent::Pause | MainEvent::Destroy | MainEvent::Other => seq![],
        }
    }

    /// One paced frame.
    pub open spec fn frame_commands(self) -> Seq<Command> {
        match self.primary() {
            Some(window) => {
                let poll: Seq<Command> = if self.next_frame_number() % INSETS_POLL_EVERY_FRAMES == 0 {
                    seq![Command::PollInsets(window)]
                } else {
                    seq![]
                };
                seq![Command::TickTouchTimers(window)] + poll + seq![
                    Command::RequestFrame(window),
                    Command::SyncKeyboard(window),
                ]
            },
            None => seq![],
        }
    }

    /// The number of the next frame; the count starts over where it no longer fits.
    pub open spec fn next_frame_number(self) -> u32 {
        if self.frames == u32::MAX {
            0
        } else {
            (self.frames + 1) as u32
        }
    }
}

impl AndroidPlatform {
    pub fn new() -> (platform: AndroidPlatform)
        ensures
            platform@ == (PlatformView {
                windows: seq![],
                quit_requested: false,
                paused: false,
                frames: 0,
            }),
    {
        AndroidPlatform { windows: Vec::new(), quit_requested: false, paused: false, frames: 0 }
    }

    /// The window that owns the surface, if any.
    pub fn primary_window(&self) -> (window: Option<u64>)
        ensures
            window == self@.primary(),
    {
        if self.windows.len() == 0 {
            None
        } else {
            Some(self.windows[0])
        }
    }

    /// A window opens. Tells whether it owns the surface; another one is never shown.
    pub fn open_window(&mut self, window: u64) -> (is_primary: bool)
        ensures
            is_primary == (old(self)@.windows.len() == 0),
            final(self)@ == (PlatformView {
                windows: old(self)@.windows.push(window),
                ..old(self)@
            }),
    {
        let is_primary = self.windows.len() == 0;
        self.windows.push(window);
        is_primary
    }

    /// A window has closed.
    pub fn close_window(&mut self, window: u64)
        ensures
            final(self)@ == (PlatformView {
                windows: old(self)@.windows.filter(|open: u64| open != window),
                ..old(self)@
            }),
    {
        let mut kept: Vec<u64> = Vec::new();
        let mut index: usize = 0;
        let ghost keep = |open: u64| open != window;
        assert(self.windows@.take(0).filter(keep) =~= Seq::<u64>::empty()) by {
            reveal(Seq::filter);
        }
        while index < self.windows.len()
            invariant
                index <= self.windows@.len(),
                self@ == old(self)@,
                keep == (|open: u64| open != window),
                kept@ == self.windows@.take(index as int).filter(keep),
            decreases self.windows@.len() - index,
        {
            let open: u64 = self.windows[index];
            proof {
                let next = self.windows@.take(index + 1);
                assert(next.drop_last() =~= self.windows@.take(index as int));
                reveal(Seq::filter);
            }
            if open != window {
                kept.push(open);
            }
            index += 1;
        }
        assert(self.windows@.take(index as int) =~= self.windows@);
        self.windows = kept;
    }

    /// The window that is active: the primary one, where it is.
    pub fn active_window(&self, primary_is_active: bool) -> (window: Option<u64>)
        ensures
            window == if primary_is_active {
                self@.primary()
            } else {
                None
            },
    {
        if primary_is_active {
            self.primary_window()
        } else {
            None
        }
    }

    /// Whether frames are paced: there is a surface to draw to, and the activity is in the
    /// foreground.
    pub fn wants_frames(&self, primary_has_surface: bool) -> (wants: bool)
        ensures
            wants == (!self@.paused && self@.primary() is Some && primary_has_surface),
    {
        !self.paused && self.windows.len() > 0 && primary_has_surface
    }

    /// One paced frame: touch timers, the insets now and then, the frame callback and the
    /// keyboard.
    pub fn frame(&mut self) -> (commands: Vec<Command>)
        ensures
            commands@ == old(self)@.frame_commands(),
            final(self)@ == if old(self)@.primary() is Some {
                PlatformView { frames: old(self)@.next_frame_number(), ..old(self)@ }
            } else {
                old(self)@
            },
    {
        let mut commands: Vec<Command> = Vec::new();
        let window: u64 = match self.primary_window() {
            Some(window) => window,
            None => {
                return commands;
            },
        };
        self.frames = if self.frames == u32::MAX {
            0
        } else {
            self.frames + 1
        };
        commands.push(Command::TickTouchTimers(window));
        if self.frames % INSETS_POLL_EVERY_FRAMES == 0 {
            commands.push(Command::PollInsets(window));
        }
        commands.push(Command::RequestFrame(window));
        commands.push(Command::SyncKeyboard(window));
        commands
    }

    /// An event of the main loop.
    pub fn handle_main_event(&mut self, event: MainEvent, has_native_window: bool) -> (commands: Vec<
        Command,
    >)
        ensures
            commands@ == old(self)@.commands(event, has_native_window),
            final(self)@ == old(self)@.after(event),
    {
        let mut commands: Vec<Command> = Vec::new();
        match event {
            MainEvent::InitWindow => {
                if has_native_window {
                    commands.push(Command::ReadFrameInterval);
                    if let Some(window) = self.primary_window() {
                        commands.push(Command::AttachSurface(window));
                        commands.push(Command::PollInsets(window));
                    }
                }
            },
            MainEvent::TerminateWindow => {
                // The surface is gone once this returns; every window lets go of it now.
                let mut index: usize = 0;
                while index < self.windows.len()
                    invariant
                        index <= self.windows@.len(),
                        self@ == old(self)@,
                        commands@ == detach_all(self.windows@.take(index as int)),
                    decreases self.windows@.len() - index,
                {
                    commands.push(Command::DetachSurface(self.windows[index]));
                    index += 1;
                    assert(commands@ =~= detach_all(self.windows@.take(index as int)));
                }
                assert(self.windows@.take(index as int) =~= self.windows@);
            },
            MainEvent::WindowResized | MainEvent::ContentRectChanged => {
                if let Some(window) = self.primary_window() {
                    commands.push(Command::UpdateGeometry(window));
                    commands.push(Command::PollInsets(window));
                }
            },
            MainEvent::RedrawNeeded => {
                if let Some(window) = self.primary_window() {
                    commands.push(Command::UpdateGeometry(window));
                    commands.push(Command::RequestFrame(window));
                }
            },
            MainEvent::GainedFocus => {
                if let Some(window) = self.primary_window() {
                    commands.push(Command::SetActive(window, true));
                }
            },
            MainEvent::LostFocus => {
                if let Some(window) = self.primary_window() {
                    commands.push(Command::SetActive(window, false));
                }
            },
            MainEvent::ConfigChanged => {
                let mut index: usize = 0;
                while index < self.windows.len()
                    invariant
                        index <= self.windows@.len(),
                        self@ == old(self)@,
                        commands@ == refresh_all(self.windows@.take(index as int)),
                    decreases self.windows@.len() - index,
                {
                    assert(self.windows@.take(index + 1).drop_last() =~= self.windows@.take(
                        index as int,
                    ));
                    commands.push(Command::UpdateGeometry(self.windows[index]));
                    commands.push(Command::UpdateAppearance(self.windows[index]));
                    index += 1;
                }
                assert(self.windows@.take(index as int) =~= self.windows@);
            },
            MainEvent::Pause => {
                self.paused = true;
            },
            MainEvent::Resume => {
                self.paused = false;
                commands.push(Command::Reopen);
            },
            MainEvent::Destroy => {
                self.quit_requested = true;
            },
            MainEvent::InputAvailable => {
                commands.push(Command::ReadInput(self.primary_window()));
            },
            MainEvent::Other => {},
        }
        commands
    }

    /// The application quits; the loop ends once the activity is destroyed.
    pub fn quit(&mut self)
        ensures
            final(self)@ == (PlatformView { quit_requested: true, ..old(self)@ }),
    {
        self.quit_requested = true;
    }
}

/// How long the loop waits for events: until the next frame is due, or for as long as it
/// takes.
pub fn poll_timeout(wants_frames: bool, next_frame: u64, now: u64) -> (timeout: Option<u64>)
    ensures
        timeout == if wants_frames {
            Some(touch::since(next_frame, now) as u64)
        } else {
            None
        },
{
    if wants_frames {
        Some(nanos_since(next_frame, now))
    } else {
        None
    }
}

/// When the frame after the one that is due now is due; `None` where none is due.
pub fn pace_frame(wants_frames: bool, next_frame: u64, now: u64, interval: u64) -> (following: Option<
    u64,
>)
    requires
        now + interval <= u64::MAX,
    ensures
        following == if wants_frames && now >= next_frame {
            Some((now + interval) as u64)
        } else {
            None
        },
{
    if wants_frames && now >= next_frame {
        Some(now + interval)
    } else {
        None
    }
}

/// The refresh rate that frames are paced at: the display's, where it tells a credible one.
pub open spec fn credible_rate(rate: Option<Scalar>) -> Scalar {
    match rate {
        Some(rate) => if rate.is_finite() && scalar(LOWEST_REFRESH_RATE).at_most(rate) {
            rate
        } else {
            scalar(DEFAULT_REFRESH_RATE)
        },
        None => scalar(DEFAULT_REFRESH_RATE),
    }
}

pub fn refresh_rate(rate: Option<Scalar>) -> (effective: Scalar)
    ensures
        effective == credible_rate(rate),
{
    match rate {
        Some(rate) => if rate.finite() && scalar(LOWEST_REFRESH_RATE).less_or_equal(rate) {
            rate
        } else {
            scalar(DEFAULT_REFRESH_RATE)
        },
        None => scalar(DEFAULT_REFRESH_RATE),
    }
}

/// No frame is drawn between a pause and the resume that follows it, whatever else happens
/// in between.
pub proof fn law_paused_draws_nothing(state: PlatformView, event: MainEvent)
    requires
        state.paused,
        event != MainEvent::Resume,
    ensures
        state.after(event).paused,
{
}

/// When the surface goes, every open window is told to let go of it.
pub proof fn law_surface_goes_from_all(state: PlatformView, has_native_window: bool, window: u64)
    requires
        state.windows.contains(window),
    ensures
        state.commands(MainEvent::TerminateWindow, has_native_window).contains(
            Command::DetachSurface(window),
        ),
{
    let index = choose|i: int| 0 <= i < state.windows.len() && state.windows[i] == window;
    assert(detach_all(state.windows)[index] == Command::DetachSurface(window));
}

/// The oldest window keeps the surface whatever opens after it.
pub proof fn law_oldest_window_is_primary(state: PlatformView, window: u64)
    requires
        state.windows.len() > 0,
    ensures
        (PlatformView { windows: state.windows.push(window), ..state }).primary() == state.primary(),
{
}

} // verus!
