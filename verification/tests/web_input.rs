use gpui_platform::clipboard::{ClipboardEntry, ClipboardString};
use gpui_platform::float::{scalar, Scalar};
use gpui_platform::geometry::{origin, point, Point};
use gpui_platform::input::{
    no_modifiers, Capslock, KeyDownEvent, KeyUpEvent, Keystroke, Modifiers, ModifiersChangedEvent,
    MouseButton, MouseDownEvent, MouseExitEvent, MouseMoveEvent, MouseUpEvent,
    NavigationDirection, PinchDelta, PinchEvent, PlatformInput, ScrollDelta, ScrollWheelEvent,
    TouchPhase,
};
use gpui_platform::web::keys::{
    is_modifier_key, keystroke_for, keystroke_from, mouse_button, pressed_button,
    unmodified_key_from_code,
};
use gpui_platform::web::window::{
    canvas_resize, caret, choose_canvas, composition_update, context_menu, dom_modifiers,
    finish_key_down, next_handle_id, pointer_pressure, replace_if_empty, scale_factor,
    CanvasChoice, CompositionStep, DispatchResult, DomKey, KeyOutcome, KeyStep, KeyUpStep,
    PointerInput, WebAction, WebInput, WheelEnd, WheelInput,
};

const MILLI: u64 = 1_000_000;

fn f(value: f32) -> Scalar {
    scalar(value.to_bits())
}

fn at(x: f32, y: f32) -> Point {
    point(f(x), f(y))
}

fn pointer(button: i16, x: f32, y: f32) -> PointerInput {
    PointerInput {
        button,
        buttons: 0,
        pointer_id: 5,
        pointer_type: "mouse".to_string(),
        pressure: f(0.5),
        position: at(x, y),
        modifiers: no_modifiers(),
    }
}

fn down(button: MouseButton, x: f32, y: f32, click_count: usize, first_mouse: bool) -> WebAction {
    WebAction::Dispatch(PlatformInput::MouseDown(MouseDownEvent {
        button,
        position: at(x, y),
        modifiers: no_modifiers(),
        click_count,
        first_mouse,
        pressure: f(1.0),
        tilt: None,
    }))
}

fn up(button: MouseButton, x: f32, y: f32, click_count: usize) -> WebAction {
    WebAction::DispatchAndFollow(PlatformInput::MouseUp(MouseUpEvent {
        button,
        position: at(x, y),
        modifiers: no_modifiers(),
        click_count,
        pressure: f(1.0),
        tilt: None,
    }))
}

fn control() -> Modifiers {
    dom_modifiers(true, false, false, false)
}

fn wheel(modifiers: Modifiers, delta_x: f32, delta_y: f32, delta_mode: u32) -> WheelInput {
    WheelInput { delta_x: f(delta_x), delta_y: f(delta_y), delta_mode, position: at(1.0, 2.0), modifiers }
}

fn pinch(phase: TouchPhase, delta: PinchDelta, position: Point, modifiers: Modifiers) -> WebAction {
    WebAction::Dispatch(PlatformInput::Pinch(PinchEvent {
        position,
        delta,
        scale: f(1.0),
        modifiers,
        phase,
    }))
}

fn dom_key(key: &str, code: &str, modifiers: Modifiers) -> DomKey {
    DomKey {
        key: key.to_string(),
        code: code.to_string(),
        key_code: 65,
        composing: false,
        repeat: false,
        modifiers,
        caps_lock: false,
    }
}

fn keystroke(modifiers: Modifiers, key: &str, key_char: Option<&str>) -> Keystroke {
    Keystroke { modifiers, key: key.to_string(), key_char: key_char.map(str::to_string) }
}

fn text_entries(text: &str) -> Vec<ClipboardEntry> {
    vec![ClipboardEntry::Text(ClipboardString { text: text.to_string(), metadata: None })]
}

#[test]
fn dom_buttons_have_names() {
    assert_eq!(mouse_button(0), Some(MouseButton::Left));
    assert_eq!(mouse_button(1), Some(MouseButton::Middle));
    assert_eq!(mouse_button(2), Some(MouseButton::Right));
    assert_eq!(mouse_button(3), Some(MouseButton::Navigate(NavigationDirection::Back)));
    assert_eq!(mouse_button(4), Some(MouseButton::Navigate(NavigationDirection::Forward)));
    assert_eq!(mouse_button(5), None);
    assert_eq!(mouse_button(-1), None);
}

#[test]
fn the_left_button_comes_first() {
    assert_eq!(pressed_button(0), None);
    assert_eq!(pressed_button(7), Some(MouseButton::Left));
    assert_eq!(pressed_button(6), Some(MouseButton::Right));
    assert_eq!(pressed_button(4), Some(MouseButton::Middle));
    assert_eq!(pressed_button(24), Some(MouseButton::Navigate(NavigationDirection::Back)));
    assert_eq!(pressed_button(16), Some(MouseButton::Navigate(NavigationDirection::Forward)));
    assert_eq!(pressed_button(32), None);
}

#[test]
fn a_press_takes_the_keyboard_and_the_pointer() {
    let mut input = WebInput::new();
    let mut out = Vec::new();
    input.pointer_down(0, &pointer(0, 3.0, 4.0), origin(), &mut out);
    assert_eq!(
        out,
        vec![
            WebAction::CapturePointer(5),
            WebAction::PreventDefault,
            WebAction::FocusInput,
            down(MouseButton::Left, 3.0, 4.0, 1, true),
        ]
    );
    assert_eq!(input.mouse_position, at(3.0, 4.0));
    out.clear();
    input.pointer_down(0, &pointer(9, 3.0, 4.0), origin(), &mut out);
    input.pointer_up(&pointer(9, 3.0, 4.0), &mut out);
    assert_eq!(out, vec![]);
}

#[test]
fn clicks_count_up_in_one_place() {
    let mut input = WebInput::new();
    let mut out = Vec::new();
    input.focus(true, &mut out);
    out.clear();
    input.pointer_down(0, &pointer(0, 0.0, 0.0), origin(), &mut out);
    input.pointer_up(&pointer(0, 1.0, 0.0), &mut out);
    input.pointer_down(400 * MILLI, &pointer(0, 4.0, -4.0), at(-4.0, 4.0), &mut out);
    input.pointer_up(&pointer(0, 4.0, -4.0), &mut out);
    assert_eq!(out[3], down(MouseButton::Left, 0.0, 0.0, 1, false));
    assert_eq!(out[4], up(MouseButton::Left, 1.0, 0.0, 1));
    assert_eq!(out[8], down(MouseButton::Left, 4.0, -4.0, 2, false));
    assert_eq!(out[9], up(MouseButton::Left, 4.0, -4.0, 2));
}

#[test]
fn clicks_start_over_elsewhere_later_or_with_another_button() {
    let press = |now: u64, button: i16, apart: Point| {
        let mut input = WebInput::new();
        let mut out = Vec::new();
        input.pointer_down(0, &pointer(0, 0.0, 0.0), origin(), &mut out);
        input.pointer_down(now, &pointer(button, 0.0, 0.0), apart, &mut out);
        input.click.map(|click| click.count)
    };
    assert_eq!(press(MILLI, 0, origin()), Some(2));
    assert_eq!(press(401 * MILLI, 0, origin()), Some(1));
    assert_eq!(press(MILLI, 2, origin()), Some(1));
    assert_eq!(press(MILLI, 0, at(4.5, 0.0)), Some(1));
    assert_eq!(press(MILLI, 0, at(0.0, -4.5)), Some(1));
}

#[test]
fn a_release_without_a_press_is_one_click() {
    let mut out = Vec::new();
    WebInput::new().pointer_up(&pointer(2, 0.0, 0.0), &mut out);
    assert_eq!(out, vec![up(MouseButton::Right, 0.0, 0.0, 1)]);
}

#[test]
fn only_a_pen_has_pressure_of_its_own() {
    assert_eq!(pointer_pressure("pen", f(0.25)), f(0.25));
    assert_eq!(pointer_pressure("mouse", f(0.5)), f(1.0));
    assert_eq!(pointer_pressure("touch", f(0.25)), f(1.0));
}

#[test]
fn moves_and_hovering_are_reported() {
    let mut input = WebInput::new();
    let mut out = Vec::new();
    let mut event = pointer(-1, 6.0, 7.0);
    event.buttons = 2;
    event.pointer_type = "pen".to_string();
    input.pointer_enter(&mut out);
    assert!(input.hovered);
    input.pointer_move(&event, &mut out);
    input.pointer_leave(&event, &mut out);
    assert!(!input.hovered);
    assert_eq!(
        out,
        vec![
            WebAction::ReportHover(true),
            WebAction::Dispatch(PlatformInput::MouseMove(MouseMoveEvent {
                position: at(6.0, 7.0),
                pressed_button: Some(MouseButton::Right),
                modifiers: no_modifiers(),
                pressure: f(0.5),
                tilt: None,
            })),
            WebAction::ReportHover(false),
            WebAction::Dispatch(PlatformInput::MouseExited(MouseExitEvent {
                position: at(6.0, 7.0),
                pressed_button: Some(MouseButton::Right),
                modifiers: no_modifiers(),
            })),
        ]
    );
}

#[test]
fn the_wheel_scrolls_the_other_way() {
    let scrolled = |mode: u32| {
        let mut out = Vec::new();
        WebInput::new().wheel(wheel(no_modifiers(), 1.0, -2.0, mode), &mut out);
        assert_eq!(out[1], WebAction::PreventDefault);
        out.swap_remove(0)
    };
    let expected = |delta: ScrollDelta| {
        WebAction::Dispatch(PlatformInput::ScrollWheel(ScrollWheelEvent {
            position: at(1.0, 2.0),
            delta,
            modifiers: no_modifiers(),
            touch_phase: TouchPhase::Moved,
        }))
    };
    assert_eq!(scrolled(0), expected(ScrollDelta::Pixels(at(-1.0, 2.0))));
    assert_eq!(scrolled(1), expected(ScrollDelta::Lines(at(-1.0, 2.0))));
    assert_eq!(scrolled(2), expected(ScrollDelta::Pages(at(-1.0, 2.0))));
}

#[test]
fn control_and_the_wheel_pinch_until_the_last_timeout() {
    let mut input = WebInput::new();
    let mut out = Vec::new();
    input.wheel(wheel(control(), 0.0, -10.0, 0), &mut out);
    input.wheel(wheel(control(), 0.0, 2.0, 1), &mut out);
    let first = WheelEnd { generation: 1, position: at(1.0, 2.0), modifiers: control() };
    let second = WheelEnd { generation: 2, ..first };
    assert_eq!(
        out,
        vec![
            pinch(TouchPhase::Started, PinchDelta::Unchanged, at(1.0, 2.0), control()),
            pinch(
                TouchPhase::Moved,
                PinchDelta::Wheel { turned: f(-10.0), pixels_per_unit: 1 },
                at(1.0, 2.0),
                control()
            ),
            WebAction::ScheduleWheelEnd(first),
            WebAction::PreventDefault,
            pinch(
                TouchPhase::Moved,
                PinchDelta::Wheel { turned: f(2.0), pixels_per_unit: 16 },
                at(1.0, 2.0),
                control()
            ),
            WebAction::ScheduleWheelEnd(second),
            WebAction::PreventDefault,
        ]
    );
    out.clear();
    input.wheel_end(first, &mut out);
    assert_eq!(out, vec![]);
    assert!(input.pinch.wheel_active);
    input.wheel_end(second, &mut out);
    assert_eq!(
        out,
        vec![pinch(TouchPhase::Ended, PinchDelta::Unchanged, at(1.0, 2.0), control())]
    );
    out.clear();
    input.wheel_end(second, &mut out);
    assert_eq!(out, vec![]);
}

#[test]
fn a_gesture_of_the_browser_takes_precedence() {
    let mut input = WebInput::new();
    let mut out = Vec::new();
    input.gesture_start(None, &mut out);
    input.gesture_change(Some(f(1.5)), Some(at(9.0, 9.0)), &mut out);
    input.gesture_change(Some(f(3.0)), None, &mut out);
    input.gesture_end(None, &mut out);
    assert_eq!(
        out,
        vec![
            pinch(TouchPhase::Started, PinchDelta::Unchanged, origin(), no_modifiers()),
            WebAction::PreventDefault,
            pinch(
                TouchPhase::Moved,
                PinchDelta::Ratio { now: f(1.5), before: f(1.0) },
                at(9.0, 9.0),
                no_modifiers()
            ),
            WebAction::PreventDefault,
            pinch(
                TouchPhase::Moved,
                PinchDelta::Ratio { now: f(3.0), before: f(1.5) },
                origin(),
                no_modifiers()
            ),
            WebAction::PreventDefault,
            pinch(TouchPhase::Ended, PinchDelta::Unchanged, origin(), no_modifiers()),
            WebAction::PreventDefault,
        ]
    );
    out.clear();
    input.gesture_start(None, &mut out);
    out.clear();
    input.wheel(wheel(control(), 0.0, 1.0, 0), &mut out);
    assert_eq!(
        out[0],
        WebAction::Dispatch(PlatformInput::ScrollWheel(ScrollWheelEvent {
            position: at(1.0, 2.0),
            delta: ScrollDelta::Pixels(at(-0.0, -1.0)),
            modifiers: control(),
            touch_phase: TouchPhase::Moved,
        }))
    );
}

#[test]
fn a_gesture_without_a_scale_to_divide_by_is_dropped() {
    let mut input = WebInput::new();
    let mut out = Vec::new();
    input.gesture_change(Some(f(2.0)), None, &mut out);
    assert_eq!(out, vec![]);
    input.gesture_start(None, &mut out);
    input.gesture_change(Some(f(0.0)), None, &mut out);
    out.clear();
    input.gesture_change(Some(f(2.0)), None, &mut out);
    assert_eq!(out, vec![]);
    assert_eq!(input.pinch.gesture_previous_scale, f(0.0));
}

#[test]
fn dom_keys_get_the_names_of_the_other_backends() {
    let named = [
        (" ", "space"),
        ("Enter", "enter"),
        ("Tab", "tab"),
        ("Escape", "escape"),
        ("Backspace", "backspace"),
        ("Delete", "delete"),
        ("ArrowLeft", "left"),
        ("ArrowRight", "right"),
        ("ArrowUp", "up"),
        ("ArrowDown", "down"),
        ("PageUp", "pageup"),
        ("PageDown", "pagedown"),
        ("Home", "home"),
        ("End", "end"),
        ("Insert", "insert"),
        ("ContextMenu", "menu"),
        ("F12", "f12"),
        ("PrintScreen", "printscreen"),
        ("Ä", "ä"),
    ];
    for (key, name) in named {
        assert_eq!(keystroke_for(no_modifiers(), key, "").key, name);
    }
}

#[test]
fn keys_type_their_character_or_nothing() {
    let shift = dom_modifiers(false, false, true, false);
    assert_eq!(keystroke_for(no_modifiers(), "a", "KeyA"), keystroke(no_modifiers(), "a", Some("a")));
    assert_eq!(keystroke_for(shift, "A", "KeyA"), keystroke(shift, "a", Some("A")));
    assert_eq!(keystroke_for(shift, "É", "KeyE"), keystroke(shift, "é", Some("É")));
    assert_eq!(keystroke_for(no_modifiers(), "Enter", "Enter").key_char.as_deref(), Some("\n"));
    assert_eq!(keystroke_for(no_modifiers(), "Tab", "Tab").key_char.as_deref(), Some("\t"));
    assert_eq!(keystroke_for(no_modifiers(), " ", "Space").key_char.as_deref(), Some(" "));
    assert_eq!(keystroke_for(no_modifiers(), "F5", "F5").key_char, None);
    assert_eq!(keystroke_for(no_modifiers(), "AudioVolumeUp", "").key_char, None);
    assert_eq!(keystroke_for(control(), "c", "KeyC"), keystroke(control(), "c", None));
    let command = dom_modifiers(false, false, false, true);
    assert_eq!(keystroke_for(command, "c", "KeyC"), keystroke(command, "c", None));
}

#[test]
fn a_layout_transforms_characters_under_alt() {
    let alt = dom_modifiers(false, true, false, false);
    assert_eq!(keystroke_for(alt, "å", "KeyA"), keystroke(alt, "a", Some("å")));
    let alt_gr = dom_modifiers(true, true, false, false);
    assert_eq!(keystroke_for(alt_gr, "€", "Digit2"), keystroke(alt_gr, "2", Some("€")));
    assert_eq!(keystroke_for(alt, "a", "KeyA"), keystroke(alt, "a", None));
    assert_eq!(keystroke_for(alt, "ArrowLeft", "ArrowLeft"), keystroke(alt, "left", None));
    assert_eq!(keystroke_for(alt, "ß", "Minus"), keystroke(alt, "ß", None));
    let command = dom_modifiers(false, true, false, true);
    assert_eq!(keystroke_for(command, "å", "KeyA"), keystroke(command, "å", None));
    assert_eq!(
        keystroke_from(alt, "å", "KeyA", "x".to_string(), "X".to_string()),
        keystroke(alt, "a", Some("å"))
    );
}

#[test]
fn codes_of_letters_and_digits_are_known() {
    assert_eq!(unmodified_key_from_code("KeyQ").as_deref(), Some("q"));
    assert_eq!(unmodified_key_from_code("Digit7").as_deref(), Some("7"));
    for code in ["Keyq", "Key", "KeyQQ", "KeyÄ", "Digit", "DigitA", "Digit10", "Numpad7", ""] {
        assert_eq!(unmodified_key_from_code(code), None);
    }
}

#[test]
fn modifier_keys_report_the_modifiers() {
    for key in ["Shift", "Control", "Alt", "Meta", "CapsLock"] {
        assert!(is_modifier_key(key));
    }
    assert!(!is_modifier_key("shift"));
    let mut input = WebInput::new();
    let mut event = dom_key("Shift", "ShiftLeft", dom_modifiers(false, false, true, false));
    event.caps_lock = true;
    let change = ModifiersChangedEvent {
        modifiers: event.modifiers,
        capslock: Capslock { on: true },
    };
    assert_eq!(input.key_down(&event), KeyStep::Report(change));
    assert_eq!(input.modifiers, event.modifiers);
    assert!(input.capslock.on);
    event.caps_lock = false;
    event.modifiers = no_modifiers();
    assert_eq!(
        input.key_up(&event),
        KeyUpStep::Report(ModifiersChangedEvent {
            modifiers: no_modifiers(),
            capslock: Capslock { on: false },
        })
    );
    assert_eq!(input.modifiers, no_modifiers());
}

#[test]
fn composition_swallows_keys() {
    let mut input = WebInput::new();
    let mut event = dom_key("a", "KeyA", control());
    event.composing = true;
    assert_eq!(input.key_down(&event), KeyStep::Ignore);
    assert_eq!(input.key_up(&event), KeyUpStep::Ignore);
    event.composing = false;
    event.key_code = 229;
    assert_eq!(input.key_down(&event), KeyStep::Ignore);
    assert_eq!(input.key_down(&dom_key("Dead", "Quote", control())), KeyStep::Ignore);
    assert_eq!(input, WebInput::new());
}

#[test]
fn keys_go_down_and_up() {
    let mut input = WebInput::new();
    let mut event = dom_key("a", "KeyA", no_modifiers());
    event.repeat = true;
    let stroke = keystroke(no_modifiers(), "a", Some("a"));
    assert_eq!(
        input.key_down(&event),
        KeyStep::Dispatch(KeyDownEvent { keystroke: stroke.clone(), is_held: true })
    );
    assert_eq!(input.key_up(&event), KeyUpStep::Dispatch(KeyUpEvent { keystroke: stroke }));
}

#[test]
fn a_paste_waits_for_the_clipboard() {
    let mut input = WebInput::new();
    let mut clipboard = Some(text_entries("old"));
    assert_eq!(input.key_down(&dom_key("v", "KeyV", control())), KeyStep::Hold);
    let held = KeyDownEvent { keystroke: keystroke(control(), "v", None), is_held: false };
    assert_eq!(input.paste(Some("new".to_string()), &mut clipboard), Some(held.clone()));
    assert_eq!(clipboard, Some(text_entries("new")));
    assert_eq!(input.paste_timeout(), None);

    assert_eq!(input.key_down(&dom_key("V", "KeyV", control())), KeyStep::Hold);
    assert_eq!(input.paste_timeout(), Some(held));
    assert_eq!(input.paste(Some(String::new()), &mut clipboard), None);
    assert_eq!(input.paste(None, &mut clipboard), None);
    assert_eq!(clipboard, Some(text_entries("new")));
}

#[test]
fn only_a_fresh_paste_waits() {
    let mut input = WebInput::new();
    let mut repeated = dom_key("v", "KeyV", control());
    repeated.repeat = true;
    assert!(matches!(input.key_down(&repeated), KeyStep::Dispatch(_)));
    let alt = dom_modifiers(true, true, false, false);
    assert!(matches!(input.key_down(&dom_key("v", "KeyV", alt)), KeyStep::Dispatch(_)));
    assert!(matches!(input.key_down(&dom_key("v", "KeyV", no_modifiers())), KeyStep::Dispatch(_)));
    assert_eq!(input.pending_paste, None);
    assert_eq!(
        input.key_down(&dom_key("v", "KeyV", dom_modifiers(false, false, false, true))),
        KeyStep::Hold
    );
}

#[test]
fn a_character_that_nothing_took_is_text() {
    let unhandled = DispatchResult { propagate: true, default_prevented: false };
    let handled = DispatchResult { propagate: false, default_prevented: true };
    let typed = keystroke(no_modifiers(), "a", Some("a"));
    assert_eq!(
        finish_key_down(&typed, unhandled),
        KeyOutcome { prevent_default: false, insert: Some("a".to_string()) }
    );
    assert_eq!(
        finish_key_down(&typed, handled),
        KeyOutcome { prevent_default: true, insert: None }
    );
    let tab = keystroke(no_modifiers(), "tab", Some("\t"));
    assert!(finish_key_down(&tab, unhandled).prevent_default);
    let alt = dom_modifiers(true, true, false, false);
    assert_eq!(
        finish_key_down(&keystroke(alt, "2", Some("€")), unhandled).insert.as_deref(),
        Some("€")
    );
    assert_eq!(finish_key_down(&keystroke(control(), "a", Some("a")), unhandled).insert, None);
    assert_eq!(finish_key_down(&keystroke(no_modifiers(), "f5", None), unhandled).insert, None);
}

#[test]
fn a_composition_marks_and_commits() {
    let mut input = WebInput::new();
    let mut out = Vec::new();
    input.composition_start(&mut out);
    assert_eq!(
        composition_update(Some("に".to_string()), &mut out),
        CompositionStep::Mark("に".to_string())
    );
    assert_eq!(composition_update(None, &mut out), CompositionStep::Mark(String::new()));
    input.input(&mut out);
    assert_eq!(out, vec![
        WebAction::PlaceInputAtCaret,
        WebAction::PlaceInputAtCaret,
        WebAction::PlaceInputAtCaret,
    ]);
    out.clear();
    assert_eq!(
        input.composition_end(Some("日".to_string()), &mut out),
        CompositionStep::Commit("日".to_string())
    );
    assert_eq!(input.composition_end(Some(String::new()), &mut out), CompositionStep::Unmark);
    assert_eq!(input.composition_end(None, &mut out), CompositionStep::Unmark);
    input.input(&mut out);
    assert_eq!(out.len(), 4);
    assert!(out.iter().all(|action| *action == WebAction::ClearInput));
}

#[test]
fn focus_and_the_context_menu() {
    let mut input = WebInput::new();
    let mut out = Vec::new();
    input.focus(true, &mut out);
    assert!(input.active);
    input.focus(false, &mut out);
    assert!(!input.active);
    context_menu(&mut out);
    assert_eq!(
        out,
        vec![
            WebAction::ReportActive(true),
            WebAction::ReportActive(false),
            WebAction::PreventDefault,
        ]
    );
}

#[test]
fn a_callback_set_meanwhile_stays() {
    let mut slot = None;
    replace_if_empty(&mut slot, Some(1));
    assert_eq!(slot, Some(1));
    replace_if_empty(&mut slot, Some(2));
    assert_eq!(slot, Some(1));
    replace_if_empty(&mut slot, None);
    assert_eq!(slot, Some(1));
}

#[test]
fn windows_are_numbered_and_have_a_canvas_each() {
    let mut next = 1;
    assert_eq!([next_handle_id(&mut next), next_handle_id(&mut next)], [1, 2]);
    assert_eq!(choose_canvas(Some(false)), CanvasChoice::Page);
    assert_eq!(choose_canvas(Some(true)), CanvasChoice::New);
    assert_eq!(choose_canvas(None), CanvasChoice::New);
}

#[test]
fn a_page_is_scaled_and_its_canvas_resized() {
    assert_eq!(scale_factor(Some(f(2.5))), f(2.5));
    assert_eq!(scale_factor(Some(f(0.0))), f(0.1));
    assert_eq!(scale_factor(Some(f(f32::NAN))), f(0.1));
    assert_eq!(scale_factor(None), f(1.0));
    assert_eq!(canvas_resize((800, 600), (800, 600)), None);
    assert_eq!(canvas_resize((800, 601), (800, 600)), Some((800, 601)));
    assert_eq!(canvas_resize((801, 600), (800, 600)), Some((801, 600)));
    assert_eq!(caret(2, 5, false), 5);
    assert_eq!(caret(2, 5, true), 2);
}
