use gpui_platform::float::{scalar, Scalar};
use gpui_platform::geometry::{origin, point, Point};
use gpui_platform::input::{
    no_modifiers, Capslock, KeyDownEvent, KeyUpEvent, Keystroke, Modifiers, ModifiersChangedEvent,
    MouseButton, MouseDownEvent, MouseExitEvent, MouseMoveEvent, MouseUpEvent, PinchDelta,
    PinchEvent, PlatformInput, ScrollDelta, ScrollWheelEvent, TouchPhase,
};
use gpui_platform::ios::edit::{
    can_perform_action, delegate_can_perform_action, edit_menu_available, handle_reserved_shortcut,
    keystroke_for_edit_selector, os_action_for_selector, perform_edit_action,
    reserved_key_commands, standard_edit_selectors, EditStep,
};
use gpui_platform::ios::events::{
    capslock_from_flags, event_modifier_flags, is_modifier_key, key_to_ui_key_input,
    keystroke_from_ui_key, modifiers_from_flags, named_key, KeyInput, SystemKey, UiKey,
    UI_KEY_MODIFIER_ALPHA_SHIFT, UI_KEY_MODIFIER_ALTERNATE, UI_KEY_MODIFIER_COMMAND,
    UI_KEY_MODIFIER_CONTROL, UI_KEY_MODIFIER_SHIFT,
};
use gpui_platform::ios::menu::OsAction;
use gpui_platform::ios::text_input::{
    backspace_event, backward_deletion, character_range_by_extending, closest_position_within,
    compare_position, document_anchor, document_end, document_probe, finish_backspace,
    finish_insert, insert_text,
    offset_from_position, position_for_point, position_from_position,
    position_from_position_in_direction, position_offset, position_within_range, range_bounds,
    range_is_empty, text_range_from_position, InsertStep, TextRange,
};
use gpui_platform::ios::window::{
    press_unhandled, touch_pressure, IosTouch, PressId, PressStep, UiPress, UiTouch,
    GESTURE_BEGAN, GESTURE_CANCELLED, GESTURE_CHANGED, GESTURE_ENDED,
};
use gpui_platform::touch::TouchMode;

const MILLI: u64 = 1_000_000;

const PENCIL: isize = 2;

const POINTER: isize = 3;

fn f(value: f32) -> Scalar {
    scalar(value.to_bits())
}

fn at(x: f32, y: f32) -> Point {
    point(f(x), f(y))
}

fn outside() -> Point {
    at(-100_000.0, -100_000.0)
}

fn touch(id: i64, x: f32, travel: f32) -> UiTouch {
    UiTouch {
        id,
        kind: 0,
        position: at(x, 0.0),
        force: None,
        tap: f(0.0),
        travel: f(travel),
        velocity: origin(),
    }
}

fn down(button: MouseButton, position: Point, click_count: usize, pressure: f32) -> PlatformInput {
    PlatformInput::MouseDown(MouseDownEvent {
        button,
        position,
        modifiers: no_modifiers(),
        click_count,
        first_mouse: false,
        pressure: f(pressure),
        tilt: None,
    })
}

fn up(button: MouseButton, position: Point, click_count: usize) -> PlatformInput {
    PlatformInput::MouseUp(MouseUpEvent {
        button,
        position,
        modifiers: no_modifiers(),
        click_count,
        pressure: f(1.0),
        tilt: None,
    })
}

fn moved(position: Point, pressed_button: Option<MouseButton>, pressure: f32) -> PlatformInput {
    PlatformInput::MouseMove(MouseMoveEvent {
        position,
        pressed_button,
        modifiers: no_modifiers(),
        pressure: f(pressure),
        tilt: None,
    })
}

fn scroll(position: Point, delta: ScrollDelta, touch_phase: TouchPhase) -> PlatformInput {
    PlatformInput::ScrollWheel(ScrollWheelEvent {
        position,
        delta,
        modifiers: no_modifiers(),
        touch_phase,
    })
}

fn pinch(position: Point, delta: PinchDelta, phase: TouchPhase) -> PlatformInput {
    PlatformInput::Pinch(PinchEvent {
        position,
        delta,
        scale: f(1.0),
        modifiers: no_modifiers(),
        phase,
    })
}

fn pressed(state: &mut IosTouch, touch: UiTouch) -> Vec<PlatformInput> {
    let mut out = Vec::new();
    state.touches_began(0, 0, 0, &vec![touch], &mut out);
    out
}

fn ui_key(key_code: isize, flags: usize, characters: &str, unmodified: &str) -> UiKey {
    UiKey {
        key_code,
        flags,
        characters: characters.to_string(),
        unmodified: unmodified.to_string(),
    }
}

fn keystroke(modifiers: Modifiers, key: &str, key_char: Option<&str>) -> Keystroke {
    Keystroke { modifiers, key: key.to_string(), key_char: key_char.map(str::to_string) }
}

fn command(shift: bool) -> Modifiers {
    Modifiers { platform: true, shift, ..no_modifiers() }
}

#[test]
fn a_tap_on_glass_is_a_click() {
    let mut state = IosTouch::new();
    assert_eq!(
        pressed(&mut state, touch(1, 5.0, 0.0)),
        vec![down(MouseButton::Left, at(5.0, 0.0), 1, 1.0)]
    );
    let mut out = Vec::new();
    state.touches_began(MILLI, 0, 0, &vec![touch(2, 9.0, 0.0)], &mut out);
    assert_eq!(out, vec![]);
    state.touches_ended(2 * MILLI, 0, &vec![touch(2, 9.0, 0.0)], &mut out);
    assert_eq!(out, vec![]);
    state.touches_ended(3 * MILLI, 0, &vec![touch(1, 5.0, 0.0)], &mut out);
    assert_eq!(out, vec![up(MouseButton::Left, at(5.0, 0.0), 1)]);
}

#[test]
fn a_drag_on_glass_scrolls() {
    let mut state = IosTouch::new();
    pressed(&mut state, touch(1, 0.0, 0.0));
    let mut out = Vec::new();
    state.touches_moved(MILLI, 0, &vec![touch(1, 7.0, 7.0)], &mut out);
    assert_eq!(out, vec![]);
    state.touches_moved(2 * MILLI, 0, &vec![touch(1, 9.0, 9.0)], &mut out);
    state.touches_moved(3 * MILLI, 0, &vec![touch(1, 15.0, 15.0)], &mut out);
    let lift = UiTouch { velocity: at(400.0, 0.0), ..touch(1, 15.0, 15.0) };
    state.touches_ended(4 * MILLI, 0, &vec![lift], &mut out);
    assert_eq!(
        out,
        vec![
            up(MouseButton::Left, outside(), 1),
            scroll(
                at(9.0, 0.0),
                ScrollDelta::Between { from: origin(), to: at(9.0, 0.0) },
                TouchPhase::Started
            ),
            scroll(
                at(15.0, 0.0),
                ScrollDelta::Between { from: at(9.0, 0.0), to: at(15.0, 0.0) },
                TouchPhase::Moved
            ),
            scroll(at(15.0, 0.0), ScrollDelta::Pixels(origin()), TouchPhase::Ended),
        ]
    );
    assert_eq!(state.touch.momentum.map(|momentum| momentum.velocity), Some(at(400.0, 0.0)));
}

#[test]
fn a_pencil_draws_with_its_force() {
    let mut state = IosTouch::new();
    let pencil = |x: f32, force: f32| UiTouch {
        kind: PENCIL,
        force: Some(f(force)),
        ..touch(1, x, x)
    };
    assert_eq!(
        pressed(&mut state, pencil(0.0, 0.4)),
        vec![down(MouseButton::Left, origin(), 1, 0.4)]
    );
    let mut out = Vec::new();
    state.touches_moved(MILLI, 0, &vec![pencil(60.0, 2.0)], &mut out);
    assert_eq!(out, vec![moved(at(60.0, 0.0), Some(MouseButton::Left), 1.0)]);
    assert_eq!(touch_pressure(PENCIL, None), f(1.0));
    assert_eq!(touch_pressure(0, Some(f(0.4))), f(1.0));
    assert_eq!(touch_pressure(PENCIL, Some(f(-1.0))), f(0.0));
}

#[test]
fn the_second_button_of_a_pointer_is_the_right_one() {
    let mut state = IosTouch::new();
    let mut out = Vec::new();
    let pointer = UiTouch { kind: POINTER, ..touch(1, 3.0, 0.0) };
    state.touches_began(0, 0, 2, &vec![pointer], &mut out);
    state.touches_ended(MILLI, 0, &vec![pointer], &mut out);
    assert_eq!(
        out,
        vec![
            down(MouseButton::Right, at(3.0, 0.0), 1, 1.0),
            up(MouseButton::Right, at(3.0, 0.0), 1),
        ]
    );
}

#[test]
fn a_touch_that_is_taken_away_clicks_nothing() {
    let mut state = IosTouch::new();
    pressed(&mut state, touch(1, 3.0, 0.0));
    let mut out = Vec::new();
    state.touches_cancelled(MILLI, &vec![touch(1, 3.0, 0.0)], &mut out);
    assert_eq!(out, vec![up(MouseButton::Left, outside(), 1)]);
    assert!(state.touch.primary.is_none());
}

#[test]
fn a_pinch_takes_the_finger_over_once() {
    let mut state = IosTouch::new();
    pressed(&mut state, touch(1, 3.0, 0.0));
    let mut out = Vec::new();
    let here = at(8.0, 8.0);
    state.handle_pinch(GESTURE_BEGAN, f(1.0), here, 0, &mut out);
    state.handle_two_finger_pan(GESTURE_BEGAN, here, origin(), &mut out);
    state.handle_pinch(GESTURE_CHANGED, f(1.5), here, 0, &mut out);
    state.handle_pinch(GESTURE_CHANGED, f(3.0), here, 0, &mut out);
    state.handle_pinch(GESTURE_ENDED, f(3.0), here, 0, &mut out);
    state.handle_pinch(7, f(3.0), here, 0, &mut out);
    assert_eq!(
        out,
        vec![
            up(MouseButton::Left, outside(), 1),
            pinch(here, PinchDelta::Unchanged, TouchPhase::Started),
            scroll(here, ScrollDelta::Pixels(origin()), TouchPhase::Started),
            pinch(here, PinchDelta::Ratio { now: f(1.5), before: f(1.0) }, TouchPhase::Moved),
            pinch(here, PinchDelta::Ratio { now: f(3.0), before: f(1.5) }, TouchPhase::Moved),
            pinch(here, PinchDelta::Unchanged, TouchPhase::Ended),
        ]
    );
    assert_eq!(state.touch.primary.as_ref().map(|primary| primary.mode), Some(TouchMode::Cancelled));
    out.clear();
    state.touches_ended(MILLI, 0, &vec![touch(1, 3.0, 0.0)], &mut out);
    assert_eq!(out, vec![]);
}

#[test]
fn a_long_press_is_a_right_click_or_the_edit_menu() {
    let mut state = IosTouch::new();
    pressed(&mut state, touch(1, 3.0, 0.0));
    assert!(state.long_press_offers_menu(GESTURE_BEGAN, true));
    assert!(!state.long_press_offers_menu(GESTURE_BEGAN, false));
    assert!(!state.long_press_offers_menu(GESTURE_CHANGED, true));
    let mut out = Vec::new();
    state.handle_long_press(GESTURE_BEGAN, at(3.0, 0.0), false, &mut out);
    assert_eq!(
        out,
        vec![
            up(MouseButton::Left, outside(), 1),
            down(MouseButton::Right, at(3.0, 0.0), 1, 1.0),
            up(MouseButton::Right, at(3.0, 0.0), 1),
        ]
    );
    let mut state = IosTouch::new();
    pressed(&mut state, touch(1, 3.0, 0.0));
    out.clear();
    state.handle_long_press(GESTURE_BEGAN, at(3.0, 0.0), true, &mut out);
    assert_eq!(out, vec![up(MouseButton::Left, outside(), 1)]);
    assert!(!state.long_press_offers_menu(GESTURE_BEGAN, true));
}

#[test]
fn a_pointer_scrolls_and_hovers() {
    let mut state = IosTouch::new();
    let mut out = Vec::new();
    state.handle_pointer_scroll(GESTURE_CHANGED, at(1.0, 1.0), at(0.0, -5.0), &mut out);
    state.handle_hover(GESTURE_CHANGED, at(2.0, 2.0), &mut out);
    state.handle_hover(GESTURE_CANCELLED, at(2.0, 2.0), &mut out);
    assert_eq!(
        out,
        vec![
            scroll(at(1.0, 1.0), ScrollDelta::Pixels(at(0.0, -5.0)), TouchPhase::Moved),
            moved(at(2.0, 2.0), None, 1.0),
            PlatformInput::MouseExited(MouseExitEvent {
                position: at(2.0, 2.0),
                pressed_button: None,
                modifiers: no_modifiers(),
            }),
        ]
    );
}

#[test]
fn flags_are_modifiers() {
    assert_eq!(modifiers_from_flags(0), no_modifiers());
    assert!(modifiers_from_flags(UI_KEY_MODIFIER_SHIFT).shift);
    assert!(modifiers_from_flags(UI_KEY_MODIFIER_CONTROL).control);
    assert!(modifiers_from_flags(UI_KEY_MODIFIER_ALTERNATE).alt);
    assert!(modifiers_from_flags(UI_KEY_MODIFIER_COMMAND).platform);
    assert!(capslock_from_flags(UI_KEY_MODIFIER_ALPHA_SHIFT).on);
    assert_eq!(event_modifier_flags(None), 0);
    assert_eq!(event_modifier_flags(Some(7)), 7);
    assert!(is_modifier_key(0xE0) && is_modifier_key(0xE7) && !is_modifier_key(0xE8));
}

#[test]
fn hardware_keys_are_keystrokes() {
    let shift = Modifiers { shift: true, ..no_modifiers() };
    assert_eq!(
        keystroke_from_ui_key(&ui_key(4, UI_KEY_MODIFIER_SHIFT, "A", "a")),
        Some(keystroke(shift, "a", Some("A")))
    );
    assert_eq!(
        keystroke_from_ui_key(&ui_key(0x1E, UI_KEY_MODIFIER_SHIFT, "!", "1")),
        Some(keystroke(no_modifiers(), "!", Some("!")))
    );
    assert_eq!(
        keystroke_from_ui_key(&ui_key(0x28, UI_KEY_MODIFIER_COMMAND, "\r", "\r")),
        Some(keystroke(command(false), "enter", None))
    );
    assert_eq!(keystroke_from_ui_key(&ui_key(0xE1, 0, "", "")), None);
    assert_eq!(keystroke_from_ui_key(&ui_key(0x99, 0, "", "")), None);
    assert_eq!(named_key(0x2B), Some(("tab", Some("\t"))));
    assert_eq!(named_key(0x73), Some(("f24", None)));
    assert_eq!(named_key(4), None);
}

#[test]
fn key_equivalents_name_system_keys() {
    assert!(matches!(key_to_ui_key_input("up"), KeyInput::System(SystemKey::UpArrow)));
    assert!(matches!(key_to_ui_key_input("escape"), KeyInput::System(SystemKey::Escape)));
    assert!(matches!(key_to_ui_key_input("s"), KeyInput::Text(text) if text == "s"));
}

#[test]
fn a_press_is_seen_once() {
    let mut state = IosTouch::new();
    let mut out = Vec::new();
    let press = UiPress {
        press: PressId { id: 9, timestamp: 1.5f64.to_bits() },
        key: Some(ui_key(4, 0, "a", "a")),
    };
    let stroke = keystroke(no_modifiers(), "a", Some("a"));
    let step = state.press_began(&press, &mut out);
    assert_eq!(
        step,
        PressStep::Dispatch(PlatformInput::KeyDown(KeyDownEvent {
            keystroke: stroke.clone(),
            is_held: false,
        }))
    );
    assert!(press_unhandled(&step, false));
    assert!(!press_unhandled(&step, true));
    assert_eq!(state.press_began(&press, &mut out), PressStep::Ignored);
    assert_eq!(
        state.press_ended(&press, &mut out),
        PressStep::Dispatch(PlatformInput::KeyUp(KeyUpEvent { keystroke: stroke }))
    );
    let later = UiPress {
        press: PressId { id: 9, timestamp: 2.5f64.to_bits() },
        key: press.key.clone(),
    };
    assert!(matches!(state.press_began(&later, &mut out), PressStep::Dispatch(_)));
    let bare = UiPress { press: later.press, key: None };
    let step = state.press_began(&bare, &mut out);
    assert_eq!(step, PressStep::Unhandled);
    assert!(press_unhandled(&step, true));
    assert!(!press_unhandled(&PressStep::Ignored, false));
    assert_eq!(out, vec![]);
}

#[test]
fn a_released_modifier_is_off() {
    let mut state = IosTouch::new();
    let mut out = Vec::new();
    let press = UiPress {
        press: PressId { id: 1, timestamp: 1 },
        key: Some(ui_key(0xE1, UI_KEY_MODIFIER_SHIFT, "", "")),
    };
    assert_eq!(state.press_began(&press, &mut out), PressStep::Ignored);
    assert_eq!(state.press_ended(&press, &mut out), PressStep::Ignored);
    let change = |shift: bool| {
        PlatformInput::ModifiersChanged(ModifiersChangedEvent {
            modifiers: Modifiers { shift, ..no_modifiers() },
            capslock: Capslock { on: false },
        })
    };
    assert_eq!(out, vec![change(true), change(false)]);
}

#[test]
fn edit_actions_have_selectors_and_keys() {
    let names = standard_edit_selectors();
    assert_eq!(names, vec!["cut:", "copy:", "paste:", "selectAll:", "undo:", "redo:"]);
    for name in names {
        assert!(os_action_for_selector(name).is_some());
        assert!(can_perform_action(name));
        assert!(delegate_can_perform_action(name, true));
        assert!(!delegate_can_perform_action(name, false));
    }
    assert!(!can_perform_action("delete:"));
    assert!(delegate_can_perform_action("handleGPUIMenuItem:", false));
    assert_eq!(os_action_for_selector("redo:"), Some(OsAction::Redo));
    assert_eq!(keystroke_for_edit_selector("redo:"), Some(keystroke(command(true), "z", None)));
    assert_eq!(keystroke_for_edit_selector("select:"), None);
    assert_eq!(perform_edit_action("copy:", true), EditStep::Perform(OsAction::Copy));
    assert_eq!(
        perform_edit_action("copy:", false),
        EditStep::Dispatch(KeyDownEvent {
            keystroke: keystroke(command(false), "c", None),
            is_held: false,
        })
    );
    assert_eq!(perform_edit_action("other:", true), EditStep::Ignore);
    assert!(edit_menu_available(false, false, false, true));
    assert!(!edit_menu_available(false, false, false, false));
}

#[test]
fn reserved_shortcuts_are_claimed_back() {
    let commands = reserved_key_commands();
    assert_eq!(commands.len(), 6);
    let shifted = UI_KEY_MODIFIER_COMMAND | UI_KEY_MODIFIER_SHIFT;
    assert!(commands.contains(&("z", shifted)));
    assert_eq!(
        handle_reserved_shortcut("z".to_string(), shifted),
        KeyDownEvent { keystroke: keystroke(command(true), "z", None), is_held: false }
    );
}

#[test]
fn positions_and_ranges_stay_in_the_document() {
    assert_eq!(position_offset(-3), 0);
    assert_eq!(range_bounds(2, 7), TextRange { start: 2, end: 7 });
    assert!(range_is_empty(4, 4) && !range_is_empty(4, 5));
    assert_eq!(text_range_from_position(9, 4), TextRange { start: 4, end: 9 });
    assert_eq!(position_from_position(5, -5, 10), Some(0));
    assert_eq!(position_from_position(5, -6, 10), None);
    assert_eq!(position_from_position(5, 5, 10), Some(10));
    assert_eq!(position_from_position(5, 6, 10), None);
    assert_eq!(position_from_position(15, 0, 10), Some(15));
    assert_eq!(position_from_position_in_direction(5, 0, 2, 10), Some(7));
    assert_eq!(position_from_position_in_direction(5, 1, 2, 10), Some(3));
    assert_eq!(position_from_position_in_direction(5, 2, 2, 10), Some(3));
    assert_eq!(position_from_position_in_direction(5, 3, 2, 10), Some(7));
    assert_eq!(compare_position(Some(1), Some(2)), -1);
    assert_eq!(compare_position(Some(2), Some(1)), 1);
    assert_eq!(compare_position(None, Some(1)), 0);
    assert_eq!(offset_from_position(Some(7), Some(3)), -4);
    assert_eq!(offset_from_position(None, Some(3)), 0);
    let range = TextRange { start: 2, end: 6 };
    assert_eq!(position_within_range(range, 0), 6);
    assert_eq!(position_within_range(range, 1), 2);
    assert_eq!(character_range_by_extending(5, 0, 5), TextRange { start: 5, end: 5 });
    assert_eq!(character_range_by_extending(4, 3, 5), TextRange { start: 4, end: 5 });
    assert_eq!(character_range_by_extending(0, 1, 5), TextRange { start: 0, end: 0 });
    assert_eq!(closest_position_within(1, Some(range)), 2);
    assert_eq!(closest_position_within(9, Some(range)), 6);
    assert_eq!(closest_position_within(9, None), 9);
    assert_eq!(position_for_point(Some(3), Some(1)), 3);
    assert_eq!(position_for_point(None, Some(1)), 1);
    assert_eq!(position_for_point(None, None), 0);
}

#[test]
fn the_document_ends_where_the_probe_does() {
    assert_eq!(document_anchor(Some(3), Some(8)), 8);
    assert_eq!(document_anchor(None, None), 0);
    assert_eq!(document_probe(5).start, 5);
    assert_eq!(document_end(5, None), 5);
    assert_eq!(document_end(5, Some("a😀ü")), 9);
}

#[test]
fn the_system_keyboard_offers_keys_first() {
    let enter = KeyDownEvent {
        keystroke: keystroke(no_modifiers(), "enter", Some("\n")),
        is_held: false,
    };
    for text in ["\n", "\r"] {
        assert_eq!(
            insert_text(text.to_string(), no_modifiers()),
            InsertStep::Offer { event: enter.clone(), text: "\n".to_string() }
        );
    }
    assert_eq!(
        insert_text("\t".to_string(), no_modifiers()),
        InsertStep::Offer {
            event: KeyDownEvent {
                keystroke: keystroke(no_modifiers(), "tab", Some("\t")),
                is_held: false,
            },
            text: "\t".to_string(),
        }
    );
    assert_eq!(
        insert_text("ab".to_string(), no_modifiers()),
        InsertStep::Insert("ab".to_string())
    );
    assert_eq!(
        backspace_event(no_modifiers()).keystroke,
        keystroke(no_modifiers(), "backspace", None)
    );
    assert_eq!(
        backward_deletion(TextRange { start: 3, end: 3 }),
        TextRange { start: 2, end: 3 }
    );
    assert_eq!(
        backward_deletion(TextRange { start: 0, end: 0 }),
        TextRange { start: 0, end: 0 }
    );
    assert_eq!(
        backward_deletion(TextRange { start: 3, end: 5 }),
        TextRange { start: 3, end: 5 }
    );
}

#[test]
fn what_nothing_took_is_typed() {
    assert_eq!(finish_insert("\n".to_string(), true), None);
    assert_eq!(finish_insert("\n".to_string(), false), Some("\n".to_string()));
    let caret = TextRange { start: 3, end: 3 };
    assert_eq!(finish_backspace(Some(caret), true), None);
    assert_eq!(finish_backspace(Some(caret), false), Some(TextRange { start: 2, end: 3 }));
    assert_eq!(finish_backspace(None, false), None);
}
