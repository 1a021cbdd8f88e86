use gpui_platform::clipboard::{ClipboardEntry, ClipboardString, ImageFormat};
use gpui_platform::float::{scalar, Scalar};
use gpui_platform::geometry::{origin, size, Bounds};
use gpui_platform::web::platform::{
    keyboard_layout, window_appearance, CanvasPlacement, OpenedWindow, Unsupported, WebDisplay,
    WebPlatform,
};
use gpui_platform::web::window::CanvasChoice;
use gpui_platform::window::{WindowAppearance, WindowKind};
use uuid::Uuid;

fn f(value: f32) -> Scalar {
    scalar(value.to_bits())
}

fn bounds() -> Bounds {
    Bounds { origin: origin(), size: size(f(30.0), f(40.0)) }
}

#[test]
fn windows_open_from_the_launch_on() {
    let mut platform = WebPlatform::new();
    assert_eq!(platform.open_window(WindowKind::Normal, bounds(), None), None);
    assert!(platform.device_ready());
    assert!(!platform.device_ready());
    assert_eq!(
        platform.open_window(WindowKind::Normal, bounds(), Some(false)),
        Some(OpenedWindow {
            handle_id: 1,
            canvas: CanvasChoice::Page,
            placement: CanvasPlacement::Viewport,
        })
    );
    assert_eq!(
        platform.open_window(WindowKind::PopUp, bounds(), Some(true)),
        Some(OpenedWindow {
            handle_id: 2,
            canvas: CanvasChoice::New,
            placement: CanvasPlacement::At(bounds()),
        })
    );
}

#[test]
fn the_clipboard_reads_back_what_was_written() {
    let mut platform = WebPlatform::new();
    assert_eq!(platform.read_from_clipboard(), None);
    let entries = || {
        vec![
            ClipboardEntry::Text(ClipboardString { text: "one".to_string(), metadata: None }),
            ClipboardEntry::Image { format: ImageFormat::Gif, bytes: vec![7] },
        ]
    };
    assert_eq!(platform.write_to_clipboard(entries()), "one");
    platform.device_ready();
    platform.open_window(WindowKind::Floating, bounds(), None);
    assert_eq!(platform.read_from_clipboard(), Some(&entries()));
}

#[test]
fn what_a_page_cannot_do_says_so() {
    assert_eq!(
        Unsupported::UrlSchemes.message(),
        "registering URL schemes is not supported on the web"
    );
    assert_eq!(
        Unsupported::ApplicationPath.message(),
        "application paths do not exist on the web"
    );
    assert_eq!(
        Unsupported::AuxiliaryExecutables.message(),
        "auxiliary executables do not exist on the web"
    );
    assert_eq!(
        Unsupported::Credentials.message(),
        "credential storage is not supported on the web"
    );
}

#[test]
fn the_viewport_is_the_display() {
    let display = WebDisplay;
    assert_eq!(display.id().0, 0);
    assert_eq!(
        Uuid::from_bytes(display.uuid()),
        Uuid::from_u128(0x67707569_7765_6221_b164_6973706c6179)
    );
    assert_eq!(display.bounds(Some(f(640.0)), None).size, size(f(640.0), f(768.0)));
    assert_eq!(display.bounds(None, Some(f(480.0))).size, size(f(1024.0), f(480.0)));
    assert_eq!(display.bounds(None, None).origin, origin());
}

#[test]
fn a_page_is_light_or_dark() {
    assert_eq!(window_appearance(true), WindowAppearance::Dark);
    assert_eq!(window_appearance(false), WindowAppearance::Light);
    assert_eq!(keyboard_layout(), "unknown");
}
