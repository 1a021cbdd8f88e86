//! Keys and buttons as the DOM names them.

use crate::input;
use crate::input::{Keystroke, KeystrokeView, Modifiers, MouseButton, NavigationDirection};
use crate::text;
use crate::text::{after_prefix, char_text, same_text, to_lowercase, to_uppercase};
use vstd::prelude::*;
use vstd::string::*;

verus! {

/// The button that a pointer event is about.
pub open spec fn button_of(button: i16) -> Option<MouseButton> {
    match button {
        0 => Some(MouseButton::Left),
        1 => Some(MouseButton::Middle),
        2 => Some(MouseButton::Right),
        3 => Some(MouseButton::Navigate(NavigationDirection::Back)),
        4 => Some(MouseButton::Navigate(NavigationDirection::Forward)),
        _ => None,
    }
}

pub fn mouse_button(button: i16) -> (named: Option<MouseButton>)
    ensures
        named == button_of(button),
{
    match button {
        0 => Some(MouseButton::Left),
        1 => Some(MouseButton::Middle),
        2 => Some(MouseButton::Right),
        3 => Some(MouseButton::Navigate(NavigationDirection::Back)),
        4 => Some(MouseButton::Navigate(NavigationDirection::Forward)),
        _ => None,
    }
}

/// The button held down, the left one first, from a set of bits.
pub open spec fn held_button(buttons: u16) -> Option<MouseButton> {
    if buttons & 1 != 0 {
        Some(MouseButton::Left)
    } else if buttons & 2 != 0 {
        Some(MouseButton::Right)
    } else if buttons & 4 != 0 {
        Some(MouseButton::Middle)
    } else if buttons & 8 != 0 {
        Some(MouseButton::Navigate(NavigationDirection::Back))
    } else if buttons & 16 != 0 {
        Some(MouseButton::Navigate(NavigationDirection::Forward))
    } else {
        None
    }
}

pub fn pressed_button(buttons: u16) -> (held: Option<MouseButton>)
    ensures
        held == held_button(buttons),
{
    if buttons & 1 != 0 {
        Some(MouseButton::Left)
    } else if buttons & 2 != 0 {
        Some(MouseButton::Right)
    } else if buttons & 4 != 0 {
        Some(MouseButton::Middle)
    } else if buttons & 8 != 0 {
        Some(MouseButton::Navigate(NavigationDirection::Back))
    } else if buttons & 16 != 0 {
        Some(MouseButton::Navigate(NavigationDirection::Forward))
    } else {
        None
    }
}

/// Keys that only change the modifiers.
pub open spec fn is_modifier(key: Seq<char>) -> bool {
    key == "Shift"@ || key == "Control"@ || key == "Alt"@ || key == "Meta"@ || key == "CapsLock"@
}

pub fn is_modifier_key(key: &str) -> (yes: bool)
    ensures
        yes == is_modifier(key@),
{
    same_text(key, "Shift") || same_text(key, "Control") || same_text(key, "Alt") || same_text(
        key,
        "Meta",
    ) || same_text(key, "CapsLock")
}

/// What an unmodified press of a physical key would produce, for the codes where that can
/// be known: the letters and the digits.
pub open spec fn unmodified(code: Seq<char>) -> Option<char> {
    if code.len() == 4 && text::begins_with(code, "Key"@) && text::is_uppercase(code[3]) {
        Some(text::ascii_lower(code[3]))
    } else if code.len() == 6 && text::begins_with(code, "Digit"@) && text::is_digit(code[5]) {
        Some(code[5])
    } else {
        None
    }
}

pub fn unmodified_key_from_code(code: &str) -> (key: Option<String>)
    ensures
        input::text_view(key) == match unmodified(code@) {
            Some(c) => Some(seq![c]),
            None => None,
        },
{
    proof {
        reveal_strlit("Key");
        reveal_strlit("Digit");
    }
    if let Some(letter) = after_prefix(code, "Key") {
        if letter.unicode_len() == 1 {
            let c = letter.get_char(0);
            assert(c == code@[3]);
            if 'A' <= c && c <= 'Z' {
                let lower = to_lowercase(letter);
                proof {
                    assert(letter@ =~= seq![c]);
                    assert(lower@ =~= seq![text::ascii_lower(c)]);
                }
                return Some(lower);
            }
        }
        assert(code@[0] == code@.take(3)[0]);
    }
    if let Some(digit) = after_prefix(code, "Digit") {
        if digit.unicode_len() == 1 {
            let c = digit.get_char(0);
            assert(c == code@[5]);
            assert(code@[0] == code@.take(5)[0]);
            if '0' <= c && c <= '9' {
                return Some(char_text(c));
            }
        }
    }
    None
}

/// The name of a key that the DOM names otherwise.
pub open spec fn renamed(key: Seq<char>) -> Option<Seq<char>> {
    if key == " "@ {
        Some("space"@)
    } else if key == "ArrowLeft"@ {
        Some("left"@)
    } else if key == "ArrowRight"@ {
        Some("right"@)
    } else if key == "ArrowUp"@ {
        Some("up"@)
    } else if key == "ArrowDown"@ {
        Some("down"@)
    } else if key == "ContextMenu"@ {
        Some("menu"@)
    } else if key == "Enter"@ {
        Some("enter"@)
    } else if key == "Tab"@ {
        Some("tab"@)
    } else if key == "Escape"@ {
        Some("escape"@)
    } else if key == "Backspace"@ {
        Some("backspace"@)
    } else if key == "Delete"@ {
        Some("delete"@)
    } else if key == "PageUp"@ {
        Some("pageup"@)
    } else if key == "PageDown"@ {
        Some("pagedown"@)
    } else if key == "Home"@ {
        Some("home"@)
    } else if key == "End"@ {
        Some("end"@)
    } else if key == "Insert"@ {
        Some("insert"@)
    } else {
        None
    }
}

fn renamed_key(key: &str) -> (name: Option<&'static str>)
    ensures
        match name {
            Some(name) => renamed(key@) == Some(name@),
            None => renamed(key@) is None,
        },
{
    if same_text(key, " ") {
        Some("space")
    } else if same_text(key, "ArrowLeft") {
        Some("left")
    } else if same_text(key, "ArrowRight") {
        Some("right")
    } else if same_text(key, "ArrowUp") {
        Some("up")
    } else if same_text(key, "ArrowDown") {
        Some("down")
    } else if same_text(key, "ContextMenu") {
        Some("menu")
    } else if same_text(key, "Enter") {
        Some("enter")
    } else if same_text(key, "Tab") {
        Some("tab")
    } else if same_text(key, "Escape") {
        Some("escape")
    } else if same_text(key, "Backspace") {
        Some("backspace")
    } else if same_text(key, "Delete") {
        Some("delete")
    } else if same_text(key, "PageUp") {
        Some("pageup")
    } else if same_text(key, "PageDown") {
        Some("pagedown")
    } else if same_text(key, "Home") {
        Some("home")
    } else if same_text(key, "End") {
        Some("end")
    } else if same_text(key, "Insert") {
        Some("insert")
    } else {
        None
    }
}

/// The name of a key: the one that the other backends use, else the key's text in lower
/// case.
pub open spec fn name_of(key: Seq<char>, lower: Seq<char>) -> Seq<char> {
    match renamed(key) {
        Some(name) => name,
        None => lower,
    }
}

/// The text that a key types when nothing transforms it: nothing where a modifier beyond
/// shift makes it a chord, and nothing for a key that is only a name.
pub open spec fn typed(
    modifiers: Modifiers,
    key: Seq<char>,
    lower: Seq<char>,
    upper: Seq<char>,
) -> Option<Seq<char>> {
    if modifiers.control || modifiers.alt || modifiers.platform || modifiers.function {
        None
    } else if key == " "@ {
        Some(" "@)
    } else if key == "Tab"@ {
        Some("\t"@)
    } else if key == "Enter"@ {
        Some("\n"@)
    } else if key.len() != 1 {
        None
    } else if modifiers.shift {
        Some(upper)
    } else {
        Some(lower)
    }
}

/// The keystroke of a key event, given the key's text in lower case and that again in
/// upper case. Where the layout transforms the character that a physical key types under
/// alt, `key` is the untransformed one, so that a binding on it matches, and `key_char`
/// what the layout made of it.
pub open spec fn keystroke_given(
    modifiers: Modifiers,
    key: Seq<char>,
    code: Seq<char>,
    lower: Seq<char>,
    upper: Seq<char>,
) -> KeystrokeView {
    let name = name_of(key, lower);
    if modifiers.alt && !modifiers.platform && key.len() == 1 && unmodified(code) is Some && seq![
        unmodified(code)->0,
    ] != name {
        KeystrokeView { modifiers, key: seq![unmodified(code)->0], key_char: Some(key) }
    } else {
        KeystrokeView { modifiers, key: name, key_char: typed(modifiers, key, lower, upper) }
    }
}

/// The keystroke of a key event.
pub open spec fn keystroke_of(
    modifiers: Modifiers,
    key: Seq<char>,
    code: Seq<char>,
) -> KeystrokeView {
    let lower = text::lowercased(key);
    keystroke_given(modifiers, key, code, lower, text::uppercased(lower))
}

/// A text of ASCII characters in lower case.
pub open spec fn ascii_lowercased(text: Seq<char>) -> Seq<char> {
    text.map_values(|c: char| text::ascii_lower(c))
}

/// A text of ASCII characters in upper case.
pub open spec fn ascii_uppercased(text: Seq<char>) -> Seq<char> {
    text.map_values(|c: char| text::ascii_upper(c))
}

fn typed_text(modifiers: Modifiers, key: &str, lower: &str, upper: String) -> (text: Option<
    String,
>)
    ensures
        input::text_view(text) == typed(modifiers, key@, lower@, upper@),
{
    if modifiers.control || modifiers.alt || modifiers.platform || modifiers.function {
        None
    } else if same_text(key, " ") {
        Some(" ".to_owned())
    } else if same_text(key, "Tab") {
        Some("\t".to_owned())
    } else if same_text(key, "Enter") {
        Some("\n".to_owned())
    } else if key.unicode_len() != 1 {
        None
    } else if modifiers.shift {
        Some(upper)
    } else {
        Some(lower.to_owned())
    }
}

/// The keystroke of a DOM key, given its text in lower case and that again in upper case.
pub fn keystroke_from(
    modifiers: Modifiers,
    key: &str,
    code: &str,
    lower: String,
    upper: String,
) -> (keystroke: Keystroke)
    ensures
        keystroke@ == keystroke_given(modifiers, key@, code@, lower@, upper@),
{
    let key_char = typed_text(modifiers, key, lower.as_str(), upper);
    let name = match renamed_key(key) {
        Some(name) => name.to_owned(),
        None => lower,
    };
    if modifiers.alt && !modifiers.platform && key.unicode_len() == 1 {
        if let Some(unmodified) = unmodified_key_from_code(code) {
            if !same_text(unmodified.as_str(), name.as_str()) {
                return Keystroke { modifiers, key: unmodified, key_char: Some(key.to_owned()) };
            }
        }
    }
    Keystroke { modifiers, key: name, key_char }
}

/// Translates a DOM key, with the code of the physical key, into a keystroke.
pub fn keystroke_for(modifiers: Modifiers, key: &str, code: &str) -> (keystroke: Keystroke)
    ensures
        keystroke@ == keystroke_of(modifiers, key@, code@),
        text::is_ascii(key@) ==> keystroke@ == keystroke_given(
            modifiers,
            key@,
            code@,
            ascii_lowercased(key@),
            ascii_uppercased(ascii_lowercased(key@)),
        ),
{
    let lower = to_lowercase(key);
    let upper = to_uppercase(lower.as_str());
    keystroke_from(modifiers, key, code, lower, upper)
}

} // verus!
