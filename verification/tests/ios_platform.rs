use gpui_platform::clipboard::{ClipboardEntry, ClipboardString, ImageFormat};
use gpui_platform::float::{scalar, Scalar};
use gpui_platform::geometry::{no_edges, origin, size, Bounds, Edges};
use gpui_platform::input::{no_modifiers, Keystroke, Modifiers};
use gpui_platform::ios::classes::{
    class_fields, class_methods, class_names, class_protocols, BackendClass, Handler,
};
use gpui_platform::ios::edit::standard_edit_selectors;
use gpui_platform::ios::events::{KeyInput, UI_KEY_MODIFIER_COMMAND};
use gpui_platform::ios::foundation::{
    appearance_from_style, keyboard_appearance, AutoresizingMask, NSRange,
};
use gpui_platform::ios::keychain::{
    after_add, after_delete, after_read, after_update, KeychainError, WriteStep,
};
use gpui_platform::ios::menu::{
    build_menu, build_menu_children, can_perform_os_action, command_action, context_menu,
    flatten_context_menu, handle_os_action, key_equivalent, os_action, perform_shortcut,
    set_dock_menu, validate_action, Binding, Keymap, Menu, MenuBarStep, MenuElement, MenuItem,
    MenuSelector, OsAction, PreparedItem,
};
use gpui_platform::ios::pasteboard::{
    hash_is_of, image_format_uti, image_formats, read_image, read_text, write_to_clipboard,
    PasteboardWrite,
};
use gpui_platform::ios::platform::{
    active_window, alert_style, chosen_path, document_name, keyboard_layout, ordered_windows,
    picker_types, presenting_window, resizes, safe_area_insets, screen_scale, set_menus,
    update_appearance, update_keyboard_overlap, update_keyboard_wanted, window_placement, IosDisplay, PendingAnswer,
    PresentingWindow, SceneWindow, SceneWindows,
};
use gpui_platform::window::{WindowAppearance, WindowKind};

fn f(value: f32) -> Scalar {
    scalar(value.to_bits())
}

fn bounds(width: f32) -> Bounds {
    Bounds { origin: origin(), size: size(f(width), f(10.0)) }
}

fn action(name: &str, action: u64, os_action: Option<OsAction>) -> MenuItem {
    MenuItem::Action { name: name.to_string(), action, os_action }
}

fn menu(name: &str, items: Vec<MenuItem>) -> Menu {
    Menu { name: name.to_string(), items }
}

fn binding(action: u64, applies: bool, key: &str) -> Binding {
    Binding {
        action,
        applies,
        keystrokes: vec![Keystroke {
            modifiers: Modifiers { platform: true, ..no_modifiers() },
            key: key.to_string(),
            key_char: None,
        }],
    }
}

fn text(text: &str, metadata: Option<&str>) -> ClipboardEntry {
    ClipboardEntry::Text(ClipboardString {
        text: text.to_string(),
        metadata: metadata.map(str::to_string),
    })
}

fn file_menus() -> Vec<Menu> {
    vec![
        menu("App", vec![action("About", 10, None), MenuItem::Separator, action("Quit", 11, None)]),
        menu(
            "Edit",
            vec![
                action("Copy", 12, Some(OsAction::Copy)),
                MenuItem::Submenu(menu("More", vec![action("Undo", 13, Some(OsAction::Undo))])),
            ],
        ),
    ]
}

#[test]
fn menus_are_numbered_through() {
    let keymap = Keymap { bindings: vec![binding(11, true, "q")] };
    let main = set_menus(&file_menus(), &keymap);
    assert_eq!(main.actions, vec![10, 11, 12, 13]);
    assert_eq!(main.os_actions, vec![(OsAction::Copy, 2), (OsAction::Undo, 3)]);
    assert_eq!(main.menus[1].name, "Edit");
    match &main.menus[0].items[2] {
        PreparedItem::Action { name, index, key, .. } => {
            assert_eq!((name.as_str(), *index), ("Quit", 1));
            let key = key.as_ref().unwrap();
            assert!(matches!(&key.input, KeyInput::Text(input) if input == "q"));
            assert_eq!(key.flags, UI_KEY_MODIFIER_COMMAND);
        }
        _ => panic!("the third item is an action"),
    }
    assert_eq!(os_action(&main.os_actions, &main.actions, OsAction::Undo), Some(13));
    assert_eq!(os_action(&main.os_actions, &main.actions, OsAction::Paste), None);
    assert_eq!(command_action(&main.actions, Some(1)), Some(11));
    assert_eq!(command_action(&main.actions, Some(4)), None);
    assert_eq!(command_action(&main.actions, None), None);
}

#[test]
fn an_edit_action_needs_an_available_action() {
    assert!(validate_action(None) && validate_action(Some(true)) && !validate_action(Some(false)));
    assert!(can_perform_os_action(Some(4), None));
    assert!(!can_perform_os_action(Some(4), Some(false)));
    assert!(!can_perform_os_action(None, None));
    assert_eq!(handle_os_action(Some(1), Some(2)), Some(1));
    assert_eq!(handle_os_action(None, Some(2)), Some(2));
    assert_eq!(handle_os_action(None, None), None);
}

#[test]
fn an_appearance_changes_once() {
    let mut known = WindowAppearance::Light;
    assert!(update_appearance(&mut known, WindowAppearance::Dark));
    assert!(!update_appearance(&mut known, WindowAppearance::Dark));
    assert_eq!(known, WindowAppearance::Dark);
}

#[test]
fn a_binding_that_applies_is_preferred() {
    let keymap = Keymap {
        bindings: vec![binding(1, false, "a"), binding(2, true, "b"), binding(1, true, "c")],
    };
    let key = |action: u64| key_equivalent(&keymap, action).map(|keys| keys[0].key.clone());
    assert_eq!(key(1), Some("c".to_string()));
    assert_eq!(key(2), Some("b".to_string()));
    assert_eq!(key(3), None);
}

#[test]
fn separators_make_groups() {
    let main = set_menus(&file_menus(), &Keymap { bindings: vec![] });
    let children = build_menu_children(&main.menus[0].items, "p");
    let identifiers: Vec<&str> = children
        .iter()
        .map(|child| match child {
            MenuElement::Menu { identifier, inline, .. } => {
                assert!(*inline);
                identifier.as_str()
            }
            MenuElement::Command { .. } => panic!("commands stand in groups"),
        })
        .collect();
    assert_eq!(identifiers, vec!["p.group0", "p.group1"]);
}

#[test]
fn the_first_menu_joins_that_of_the_application() {
    let mut menus = file_menus();
    menus.push(menu("Window", vec![action("Zoom", 14, None)]));
    let main = set_menus(&menus, &Keymap { bindings: vec![] });
    let steps = build_menu(&main.menus);
    assert_eq!(steps.len(), 4);
    assert!(matches!(
        &steps[0],
        MenuBarStep::InsertFirst(MenuElement::Menu { identifier, .. })
            if identifier == "gpui.menu.0.group1"
    ));
    assert!(matches!(
        &steps[2],
        MenuBarStep::InsertAfter { menu: MenuElement::Menu { title, .. }, after: None }
            if title == "Edit"
    ));
    assert!(matches!(
        &steps[3],
        MenuBarStep::InsertAfter { after: Some(after), .. } if after == "gpui.menu.1"
    ));
    match &steps[2] {
        MenuBarStep::InsertAfter { menu: MenuElement::Menu { children, .. }, .. } => {
            match &children[0] {
                MenuElement::Menu { children, .. } => {
                    assert!(matches!(
                        &children[0],
                        MenuElement::Command { selector: MenuSelector::Copy, index: 2, .. }
                    ));
                    assert!(matches!(
                        &children[1],
                        MenuElement::Menu { identifier, inline: false, .. }
                            if identifier == "gpui.menu.1.0.1"
                    ));
                }
                _ => panic!("a menu holds groups"),
            }
        }
        _ => panic!("the second menu stands on its own"),
    }
}

#[test]
fn a_context_menu_is_flat() {
    let items = vec![
        action("Cut", 1, None),
        MenuItem::Separator,
        MenuItem::Submenu(menu("Go", vec![action("Up", 2, None), MenuItem::SystemMenu])),
    ];
    let shown = context_menu(&items).unwrap();
    assert_eq!(
        shown.entries,
        vec![("Cut".to_string(), 0), ("Go \u{25b8} Up".to_string(), 1)]
    );
    assert_eq!(shown.actions, vec![1, 2]);
    assert!(context_menu(&vec![MenuItem::Separator]).is_none());
    let mut actions = vec![9];
    let mut entries = Vec::new();
    flatten_context_menu(&items, "> ", &mut actions, &mut entries);
    assert_eq!(actions, vec![9, 1, 2]);
    assert_eq!(entries[0], ("> Cut".to_string(), 1));
}

#[test]
fn a_quick_action_finds_its_action() {
    let (shortcuts, actions) = set_dock_menu(&vec![
        action("New", 5, None),
        MenuItem::Separator,
        MenuItem::Submenu(menu("Sub", vec![action("Hidden", 6, None)])),
        action("Open", 7, None),
    ]);
    let kinds: Vec<&str> = shortcuts.iter().map(|shortcut| shortcut.kind.as_str()).collect();
    assert_eq!(kinds, vec!["gpui.dock.0", "gpui.dock.1"]);
    assert_eq!(shortcuts[1].title, "Open");
    assert_eq!(perform_shortcut("gpui.dock.1", &actions), Some(7));
    assert_eq!(perform_shortcut("gpui.dock.2", &actions), None);
    assert_eq!(perform_shortcut("gpui.dock.x", &actions), None);
    assert_eq!(perform_shortcut("other.0", &actions), None);
}

#[test]
fn windows_wait_for_their_scene() {
    let mut windows = SceneWindows::new();
    assert!(!windows.attach_window(3));
    assert!(!windows.attach_window(1));
    assert_eq!(windows.scene_connected(), vec![3, 1]);
    assert!(windows.attach_window(2));
    assert_eq!(windows.scene_connected(), vec![]);
}

#[test]
fn a_popup_keeps_its_bounds() {
    let (screen, asked) = (bounds(300.0), bounds(20.0));
    assert_eq!(window_placement(WindowKind::Normal, screen, asked), (screen, 0));
    assert_eq!(window_placement(WindowKind::Floating, screen, asked), (screen, 1));
    assert_eq!(window_placement(WindowKind::PopUp, screen, asked), (asked, 1000));
    assert!(resizes(WindowKind::PopUp));
    assert!(!resizes(WindowKind::Normal) && !resizes(WindowKind::Floating));
}

#[test]
fn the_keyboard_covers_the_bottom() {
    let insets = Edges { top: f(47.0), bottom: f(34.0), ..no_edges() };
    assert_eq!(safe_area_insets(insets, f(0.0)), insets);
    assert_eq!(safe_area_insets(insets, f(300.0)), Edges { bottom: f(300.0), ..insets });
    let mut overlap = f(0.0);
    assert!(update_keyboard_overlap(&mut overlap, f(300.0)));
    assert!(!update_keyboard_overlap(&mut overlap, f(300.0)));
    let mut wanted = false;
    assert_eq!(update_keyboard_wanted(&mut wanted, true), Some(true));
    assert_eq!(update_keyboard_wanted(&mut wanted, true), None);
    assert_eq!(update_keyboard_wanted(&mut wanted, false), Some(false));
}

#[test]
fn windows_are_ordered_front_to_back() {
    let window = |handle: u64, is_key: bool| SceneWindow { handle, is_key };
    let windows = vec![window(1, false), window(2, true), window(3, true)];
    assert_eq!(active_window(&windows), Some(2));
    assert_eq!(active_window(&vec![window(1, false)]), None);
    assert_eq!(ordered_windows(&windows), vec![3, 2, 1]);
    let able = |has_controller: bool, is_key: bool| PresentingWindow { has_controller, is_key };
    assert_eq!(
        presenting_window(&vec![able(false, true), able(true, false), able(true, true)]),
        Some(2)
    );
    assert_eq!(presenting_window(&vec![able(false, true), able(true, false)]), Some(1));
    assert_eq!(presenting_window(&vec![able(false, true)]), None);
}

#[test]
fn documents_and_alerts() {
    assert_eq!(picker_types(true, true), vec!["public.item", "public.folder"]);
    assert_eq!(picker_types(false, true), vec!["public.folder"]);
    assert_eq!(picker_types(false, false), Vec::<&str>::new());
    assert_eq!(document_name(None), "Untitled");
    assert_eq!(document_name(Some("a.txt".to_string())), "a.txt");
    assert_eq!(
        chosen_path(Some(vec!["/a".to_string(), "/b".to_string()])),
        Some("/a".to_string())
    );
    assert_eq!(chosen_path(Some(vec![])), None);
    assert_eq!(chosen_path(None), None);
    assert_eq!(alert_style(true), 1);
    assert_eq!(alert_style(false), 0);
    let mut pending = PendingAnswer::new();
    assert_eq!(pending.answer(2), Some(2));
    assert_eq!(pending.answer(0), None);
}

#[test]
fn the_device_has_one_screen() {
    assert_eq!(IosDisplay.id().0, 0);
    assert_eq!(&IosDisplay.uuid(), b"gpui-ios-screen0");
    assert_eq!(IosDisplay.bounds(None, size(f(1.0), f(2.0))).size, size(f(1.0), f(2.0)));
    assert_eq!(IosDisplay.bounds(Some(bounds(5.0)), size(f(1.0), f(2.0))), bounds(5.0));
    assert_eq!(screen_scale(None), f(2.0));
    assert_eq!(screen_scale(Some(f(3.0))), f(3.0));
    assert_eq!(keyboard_layout(Some("de-DE".to_string())), "de-DE");
    assert_eq!(keyboard_layout(Some(String::new())), "unknown");
    assert_eq!(keyboard_layout(None), "unknown");
}

#[test]
fn masks_and_ranges_of_the_system() {
    let both = AutoresizingMask::width_sizable() | AutoresizingMask::height_sizable();
    assert_eq!(both, AutoresizingMask(0b1_0010));
    let range = NSRange { location: 3, length: 4 };
    assert!(range.is_valid());
    assert_eq!(range.to_range(), Some(3..7));
    assert_eq!(NSRange { location: isize::MAX as usize, length: 0 }.to_range(), None);
    let back = NSRange::from(3..7);
    assert_eq!((back.location, back.length), (3, 4));
    assert_eq!(appearance_from_style(2), WindowAppearance::Dark);
    assert_eq!(appearance_from_style(1), WindowAppearance::Light);
    assert_eq!(appearance_from_style(0), WindowAppearance::Light);
    assert_ne!(
        keyboard_appearance(WindowAppearance::Dark),
        keyboard_appearance(WindowAppearance::Light)
    );
}

#[test]
fn the_pasteboard_keeps_metadata_of_its_own_text() {
    let write = write_to_clipboard(vec![text("t", Some("meta"))], 77);
    let (hash, metadata) = match write {
        PasteboardWrite::Text { text, metadata: Some(metadata) } => {
            assert_eq!(text, "t");
            (metadata.hash, metadata.metadata)
        }
        _ => panic!("a text is written as a text"),
    };
    assert!(hash_is_of(&Some(hash.clone()), 77));
    assert!(!hash_is_of(&Some(hash.clone()), 78));
    assert!(!hash_is_of(&None, 77));
    let read = read_text("t".to_string(), Some(hash.clone()), 77, Some(metadata.into_bytes()));
    assert_eq!(read.metadata.as_deref(), Some("meta"));
    let foreign = read_text("u".to_string(), Some(hash), 78, Some(b"meta".to_vec()));
    assert_eq!((foreign.text.as_str(), foreign.metadata), ("u", None));
}

#[test]
fn the_pasteboard_takes_images_and_several_entries() {
    assert!(matches!(write_to_clipboard(vec![], 0), PasteboardWrite::Clear));
    let image = ClipboardEntry::Image { format: ImageFormat::Jpeg, bytes: vec![1, 2] };
    assert!(matches!(
        write_to_clipboard(vec![image], 0),
        PasteboardWrite::Image { identifier: "public.jpeg", bytes } if bytes == vec![1, 2]
    ));
    assert!(matches!(
        write_to_clipboard(vec![text("a", None), text("b", Some("m"))], 0),
        PasteboardWrite::Text { text, metadata: None } if text == "ab"
    ));
    for format in image_formats() {
        let entry = read_image(format, Some(vec![3]));
        assert_eq!(entry, Some(ClipboardEntry::Image { format, bytes: vec![3] }));
        assert_eq!(read_image(format, None), None);
        assert!(!image_format_uti(format).is_empty());
    }
}

#[test]
fn the_keychain_answers_in_numbers() {
    const NOT_FOUND: i32 = -25300;
    const NO_ENTITLEMENT: i32 = -34018;
    assert_eq!(after_update(0), WriteStep::Done(Ok(())));
    assert_eq!(after_update(NOT_FOUND), WriteStep::Add);
    assert_eq!(
        after_update(NO_ENTITLEMENT),
        WriteStep::Done(Err(KeychainError::UpdatingWithoutEntitlement))
    );
    assert_eq!(after_update(-50), WriteStep::Done(Err(KeychainError::Updating(-50))));
    assert_eq!(after_add(0), Ok(()));
    assert_eq!(after_add(NO_ENTITLEMENT), Err(KeychainError::CreatingWithoutEntitlement));
    assert_eq!(after_add(-1), Err(KeychainError::Creating(-1)));
    assert_eq!(after_read(0), Ok(true));
    assert_eq!(after_read(NOT_FOUND), Ok(false));
    assert_eq!(after_read(-1), Err(KeychainError::Reading(-1)));
    assert_eq!(after_delete(0), Ok(()));
    assert_eq!(after_delete(-1), Err(KeychainError::Deleting(-1)));
}

#[test]
fn classes_answer_each_message_once() {
    let classes = [
        (BackendClass::Window, 15),
        (BackendClass::View, 66),
        (BackendClass::TextPosition, 0),
        (BackendClass::TextRange, 3),
        (BackendClass::ApplicationDelegate, 15),
        (BackendClass::SceneDelegate, 3),
        (BackendClass::DocumentPickerDelegate, 2),
    ];
    for (class, count) in classes {
        let methods = class_methods(class);
        assert_eq!(methods.len(), count, "{class:?}");
        let mut selectors: Vec<&str> = methods.iter().map(|method| method.selector).collect();
        selectors.sort();
        selectors.dedup();
        assert_eq!(selectors.len(), count);
    }
    for selector in standard_edit_selectors() {
        for class in [BackendClass::Window, BackendClass::View] {
            assert!(class_methods(class).iter().any(|method| {
                method.selector == selector && method.handler == Handler::PerformEditAction
            }));
        }
    }
}

#[test]
fn classes_have_names_fields_and_protocols() {
    assert_eq!(class_names(BackendClass::View), ("GPUIView", "UIView"));
    assert_eq!(class_fields(BackendClass::TextRange), vec!["gpuiStart", "gpuiEnd"]);
    assert_eq!(
        class_protocols(BackendClass::View),
        vec!["UITextInput", "UIGestureRecognizerDelegate"]
    );
    assert_eq!(class_protocols(BackendClass::Window), Vec::<&str>::new());
    assert_eq!(class_fields(BackendClass::SceneDelegate), Vec::<&str>::new());
}
