use gpui_platform::android::credentials::{
    credentials_file, decode_credentials, encode_credentials, file_name, frame_ciphertext,
    split_ciphertext, CredentialsError,
};
use gpui_platform::android::dispatcher::{thread_count, TimerAfter, TimerQueue, TimerWait};
use gpui_platform::android::display::{primary_display, size_from_config, AndroidDisplay};
use gpui_platform::android::java::{
    cipher, clipboard_text, insets_mask, key, key_character, string_of, KeyStep,
};
use gpui_platform::android::platform::{
    pace_frame, poll_timeout, refresh_rate, AndroidPlatform, Command, MainEvent,
};
use gpui_platform::android::surface::{
    appearance_from_config, density, surface_side, InsetsReading, SurfaceState,
};
use gpui_platform::clipboard::{ClipboardEntry, ClipboardString, ImageFormat};
use gpui_platform::float::{scalar, Scalar};
use gpui_platform::geometry::{no_edges, origin, size, Bounds, Edges, Size};
use gpui_platform::window::WindowAppearance;

fn f(value: f32) -> Scalar {
    scalar(value.to_bits())
}

fn sized(width: f32, height: f32) -> Size {
    size(f(width), f(height))
}

fn timer(deadline: u64, runnable: u64) -> TimerAfter {
    TimerAfter { deadline, runnable }
}

#[test]
fn credentials_come_back_as_they_were() {
    let plaintext = encode_credentials("jürgen", &[1, 2, 3]);
    assert_eq!(&plaintext[..4], &[0, 0, 0, 7]);
    assert_eq!(
        decode_credentials(&plaintext),
        Ok(("jürgen".to_string(), vec![1, 2, 3]))
    );
    assert_eq!(
        decode_credentials(&encode_credentials("", &[])),
        Ok((String::new(), Vec::new()))
    );
    let data = frame_ciphertext(&[9; 12], &[7, 7]);
    assert_eq!(data[0], 12);
    assert_eq!(split_ciphertext(&data), Ok((vec![9; 12], vec![7, 7])));
}

#[test]
fn broken_credentials_are_told_apart() {
    assert_eq!(decode_credentials(&[0, 0, 0]), Err(CredentialsError::Corrupt));
    assert_eq!(decode_credentials(&[0, 0, 0, 2, 65]), Err(CredentialsError::Corrupt));
    assert_eq!(decode_credentials(&[255, 255, 255, 255, 65]), Err(CredentialsError::Corrupt));
    assert_eq!(decode_credentials(&[0, 0, 0, 1, 0xff]), Err(CredentialsError::NotText));
    assert_eq!(split_ciphertext(&[]), Err(CredentialsError::Empty));
    assert_eq!(split_ciphertext(&[3, 1, 2]), Err(CredentialsError::Truncated));
    assert_eq!(split_ciphertext(&[0]), Ok((Vec::new(), Vec::new())));
}

#[test]
fn credentials_are_filed_under_the_hash_of_their_url() {
    let url = "https://example.com";
    let hash = seahash::hash(url.as_bytes());
    assert_eq!(credentials_file(url), format!("{hash:016x}"));
    assert_ne!(credentials_file(url), credentials_file("https://example.org"));
    assert_eq!(file_name(0xab), "00000000000000ab");
}

#[test]
fn timers_fire_in_turn() {
    let mut queue = TimerQueue::new();
    assert_eq!(queue.wait(5), TimerWait::Timer);
    for (deadline, runnable) in [(30, 1), (10, 2), (20, 3), (10, 4)] {
        queue.push(timer(deadline, runnable));
    }
    assert_eq!(queue.wait(4), TimerWait::TimerOr(6));
    assert_eq!(queue.wait(50), TimerWait::TimerOr(0));
    assert_eq!(queue.pop_due(9), None);
    assert_eq!(queue.take_due(20), vec![timer(10, 2), timer(10, 4), timer(20, 3)]);
    assert_eq!(queue.take_due(29), vec![]);
    assert_eq!(queue.pop_due(30), Some(timer(30, 1)));
    assert_eq!(queue.pop_due(u64::MAX), None);
}

#[test]
fn there_are_at_least_two_threads() {
    assert_eq!(thread_count(None), 2);
    assert_eq!(thread_count(Some(1)), 2);
    assert_eq!(thread_count(Some(8)), 8);
}

#[test]
fn the_screen_is_what_the_configuration_says() {
    assert_eq!(size_from_config(Some(f(360.0)), Some(f(640.0))), Some(sized(360.0, 640.0)));
    assert_eq!(size_from_config(Some(f(0.0)), Some(f(640.0))), None);
    assert_eq!(size_from_config(Some(f(360.0)), Some(f(-1.0))), None);
    assert_eq!(size_from_config(None, Some(f(640.0))), None);
    let display = AndroidDisplay::from_config(None, None, sized(800.0, 600.0));
    assert_eq!(display.bounds, Bounds { origin: origin(), size: sized(800.0, 600.0) });
    assert_eq!(display.id().0, 0);
    assert_eq!(&display.uuid(), b"gpui-android-scr");
    let bounds = Bounds { origin: origin(), size: sized(1.0, 2.0) };
    let own = AndroidDisplay::new(bounds);
    assert_eq!(primary_display(Some(bounds), Some(display)), Some(own));
    assert_eq!(primary_display(None, Some(display)), Some(display));
    assert_eq!(primary_display(None, None), None);
}

#[test]
fn a_surface_comes_and_goes() {
    let mut state =
        SurfaceState::open(sized(800.0, 600.0), None, None, f(2.0), WindowAppearance::Light);
    assert_eq!(state.size, sized(800.0, 600.0));
    assert!(!state.has_surface());
    assert!(!state.begin_attach(sized(360.0, 640.0), f(3.0)));
    assert!(state.finish_attach(true));
    assert!(state.has_surface());
    assert_eq!(state.bounds().size, sized(360.0, 640.0));
    assert!(!state.read_geometry(sized(360.0, 640.0), f(3.0)));
    assert!(state.read_geometry(sized(640.0, 360.0), f(3.0)));
    assert!(state.read_geometry(sized(640.0, 360.0), f(2.0)));
    assert!(state.begin_attach(sized(1.0, 1.0), f(2.0)));
    assert!(!state.finish_attach(false));
    assert!(!state.has_native_window);
    assert!(!state.detach());
    assert!(!state.read_geometry(sized(9.0, 9.0), f(2.0)));
    assert_eq!(state.size, sized(1.0, 1.0));
}

#[test]
fn insets_are_read_while_there_is_a_surface() {
    let mut state = SurfaceState::open(
        sized(800.0, 600.0),
        Some(f(100.0)),
        Some(f(200.0)),
        f(2.0),
        WindowAppearance::Light,
    );
    assert_eq!(state.size, sized(100.0, 200.0));
    let edges = Edges { top: f(24.0), ..no_edges() };
    assert!(!state.poll_insets(InsetsReading::Edges(edges)));
    state.begin_attach(sized(100.0, 200.0), f(2.0));
    state.finish_attach(true);
    assert!(state.poll_insets(InsetsReading::Edges(edges)));
    assert!(!state.poll_insets(InsetsReading::Edges(edges)));
    assert!(!state.poll_insets(InsetsReading::Failed));
    assert_eq!(state.insets, edges);
    assert!(state.poll_insets(InsetsReading::Nothing));
    assert_eq!(state.insets, no_edges());
}

#[test]
fn the_keyboard_follows_the_focus_of_the_active_window() {
    let mut state =
        SurfaceState::open(sized(1.0, 1.0), None, None, f(1.0), WindowAppearance::Light);
    assert_eq!(state.sync_keyboard(true), None);
    state.set_active(true);
    assert_eq!(state.sync_keyboard(true), Some(true));
    assert_eq!(state.sync_keyboard(true), None);
    state.set_active(false);
    assert_eq!(state.sync_keyboard(true), Some(false));
    assert!(state.update_appearance(WindowAppearance::Dark));
    assert!(!state.update_appearance(WindowAppearance::Dark));
}

#[test]
fn configurations_have_defaults() {
    assert_eq!(density(None), 160);
    assert_eq!(density(Some(0)), 1);
    assert_eq!(density(Some(420)), 420);
    assert_eq!(surface_side(0), 1);
    assert_eq!(surface_side(1080), 1080);
    assert_eq!(appearance_from_config(true), WindowAppearance::Dark);
    assert_eq!(appearance_from_config(false), WindowAppearance::Light);
    assert_eq!(refresh_rate(Some(f(120.0))), f(120.0));
    assert_eq!(refresh_rate(Some(f(0.5))), f(60.0));
    assert_eq!(refresh_rate(Some(f(f32::NAN))), f(60.0));
    assert_eq!(refresh_rate(None), f(60.0));
}

#[test]
fn the_oldest_window_owns_the_surface() {
    let mut platform = AndroidPlatform::new();
    assert_eq!(platform.primary_window(), None);
    assert!(platform.open_window(7));
    assert!(!platform.open_window(8));
    assert_eq!(platform.primary_window(), Some(7));
    assert_eq!(platform.active_window(true), Some(7));
    assert_eq!(platform.active_window(false), None);
    platform.close_window(7);
    assert_eq!(platform.primary_window(), Some(8));
}

#[test]
fn the_activity_tells_the_windows() {
    let mut platform = AndroidPlatform::new();
    assert_eq!(
        platform.handle_main_event(MainEvent::InitWindow, true),
        vec![Command::ReadFrameInterval]
    );
    assert_eq!(platform.handle_main_event(MainEvent::GainedFocus, true), vec![]);
    platform.open_window(7);
    platform.open_window(8);
    let mut tell = |event: MainEvent| platform.handle_main_event(event, true);
    assert_eq!(
        tell(MainEvent::InitWindow),
        vec![Command::ReadFrameInterval, Command::AttachSurface(7), Command::PollInsets(7)]
    );
    assert_eq!(
        tell(MainEvent::TerminateWindow),
        vec![Command::DetachSurface(7), Command::DetachSurface(8)]
    );
    let resized = vec![Command::UpdateGeometry(7), Command::PollInsets(7)];
    assert_eq!(tell(MainEvent::WindowResized), resized);
    assert_eq!(tell(MainEvent::ContentRectChanged), resized);
    assert_eq!(
        tell(MainEvent::RedrawNeeded),
        vec![Command::UpdateGeometry(7), Command::RequestFrame(7)]
    );
    assert_eq!(tell(MainEvent::GainedFocus), vec![Command::SetActive(7, true)]);
    assert_eq!(tell(MainEvent::LostFocus), vec![Command::SetActive(7, false)]);
    assert_eq!(
        tell(MainEvent::ConfigChanged),
        vec![
            Command::UpdateGeometry(7),
            Command::UpdateAppearance(7),
            Command::UpdateGeometry(8),
            Command::UpdateAppearance(8),
        ]
    );
    assert_eq!(tell(MainEvent::Resume), vec![Command::Reopen]);
    assert_eq!(tell(MainEvent::InputAvailable), vec![Command::ReadInput(Some(7))]);
    assert_eq!(tell(MainEvent::Other), vec![]);
    assert_eq!(tell(MainEvent::Destroy), vec![]);
    assert!(platform.quit_requested);
    assert_eq!(platform.handle_main_event(MainEvent::InitWindow, false), vec![]);
}

#[test]
fn a_paused_activity_draws_nothing() {
    let mut platform = AndroidPlatform::new();
    assert!(!platform.wants_frames(true));
    platform.open_window(1);
    assert!(platform.wants_frames(true));
    assert!(!platform.wants_frames(false));
    platform.handle_main_event(MainEvent::Pause, true);
    for event in [MainEvent::InitWindow, MainEvent::GainedFocus, MainEvent::RedrawNeeded] {
        platform.handle_main_event(event, true);
        assert!(!platform.wants_frames(true));
    }
    platform.handle_main_event(MainEvent::Resume, true);
    assert!(platform.wants_frames(true));
    assert!(!platform.quit_requested);
    platform.quit();
    assert!(platform.quit_requested);
}

#[test]
fn frames_are_paced_and_poll_the_insets_now_and_then() {
    let mut platform = AndroidPlatform::new();
    assert_eq!(platform.frame(), vec![]);
    platform.open_window(4);
    let mut polls = 0;
    for _ in 0..60 {
        let commands = platform.frame();
        assert_eq!(commands[0], Command::TickTouchTimers(4));
        assert_eq!(commands[commands.len() - 2], Command::RequestFrame(4));
        assert_eq!(commands[commands.len() - 1], Command::SyncKeyboard(4));
        if commands.contains(&Command::PollInsets(4)) {
            polls += 1;
        }
    }
    assert!(polls > 0 && polls < 60);
    platform.frames = u32::MAX;
    platform.frame();
    assert_eq!(platform.frames, 0);
    assert_eq!(poll_timeout(true, 50, 20), Some(30));
    assert_eq!(poll_timeout(true, 50, 60), Some(0));
    assert_eq!(poll_timeout(false, 50, 20), None);
    assert_eq!(pace_frame(true, 50, 60, 16), Some(76));
    assert_eq!(pace_frame(true, 50, 49, 16), None);
    assert_eq!(pace_frame(false, 50, 60, 16), None);
}

#[test]
fn the_java_side_is_asked_for_keys_and_characters() {
    assert_eq!(string_of(None), "");
    assert_eq!(string_of(Some("x".to_string())), "x");
    assert_eq!(insets_mask(29), None);
    assert_eq!(insets_mask(30), Some(0x8f));
    assert_eq!(key_character(0), None);
    assert_eq!(key_character(97), Some('a'));
    assert_eq!(key_character(i32::MIN + 0x60), Some('`'));
    assert_eq!(key_character(0xd800), None);
    assert_eq!(key_character(0x11_0000), None);
    assert_eq!(key(true), KeyStep::Use);
    let parameters = match key(false) {
        KeyStep::Generate(parameters) => parameters,
        KeyStep::Use => panic!("there is no key to use"),
    };
    assert_eq!(parameters.alias, "gpui.credentials");
    assert_eq!((parameters.purposes, parameters.bits), (3, 256));
    assert_eq!(cipher(&parameters), "AES/GCM/NoPadding");
    let entries = vec![
        ClipboardEntry::Image { format: ImageFormat::Bmp, bytes: vec![] },
        ClipboardEntry::Text(ClipboardString { text: "t".to_string(), metadata: None }),
    ];
    assert_eq!(clipboard_text(&entries), "t");
}
