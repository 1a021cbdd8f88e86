//! Hardware keyboard and modifier handling.
//!
//! A key is reported with the HID usage of the physical key and the characters it produced
//! with and without modifiers. `key` is then the unshifted character (or the name of the
//! key), `key_char` what would be typed.

use crate::input;
use crate::input::{Capslock, Keystroke, KeystrokeView, Modifiers};
use crate::text;
use crate::text::same_text;
use vstd::prelude::*;

verus! {

/// Modifier flags.
pub const UI_KEY_MODIFIER_ALPHA_SHIFT: usize = 0x1_0000;

pub const UI_KEY_MODIFIER_SHIFT: usize = 0x2_0000;

pub const UI_KEY_MODIFIER_CONTROL: usize = 0x4_0000;

pub const UI_KEY_MODIFIER_ALTERNATE: usize = 0x8_0000;

pub const UI_KEY_MODIFIER_COMMAND: usize = 0x10_0000;

pub open spec fn flag_modifiers(flags: usize) -> Modifiers {
    Modifiers {
        control: flags & UI_KEY_MODIFIER_CONTROL != 0,
        alt: flags & UI_KEY_MODIFIER_ALTERNATE != 0,
        shift: flags & UI_KEY_MODIFIER_SHIFT != 0,
        platform: flags & UI_KEY_MODIFIER_COMMAND != 0,
        function: false,
    }
}

pub open spec fn flag_capslock(flags: usize) -> Capslock {
    Capslock { on: flags & UI_KEY_MODIFIER_ALPHA_SHIFT != 0 }
}

/// Translates a set of modifier flags.
pub fn modifiers_from_flags(flags: usize) -> (modifiers: Modifiers)
    ensures
        modifiers == flag_modifiers(flags),
{
    Modifiers {
        control: flags & UI_KEY_MODIFIER_CONTROL != 0,
        alt: flags & UI_KEY_MODIFIER_ALTERNATE != 0,
        shift: flags & UI_KEY_MODIFIER_SHIFT != 0,
        platform: flags & UI_KEY_MODIFIER_COMMAND != 0,
        function: false,
    }
}

pub fn capslock_from_flags(flags: usize) -> (capslock: Capslock)
    ensures
        capslock == flag_capslock(flags),
{
    Capslock { on: flags & UI_KEY_MODIFIER_ALPHA_SHIFT != 0 }
}

/// The modifier flags of an event, none where there is no event.
pub fn event_modifier_flags(flags: Option<usize>) -> (effective: usize)
    ensures
        effective == (match flags {
            Some(flags) => flags,
            None => 0,
        }),
{
    match flags {
        Some(flags) => flags,
        None => 0,
    }
}

/// Whether the HID usage is a modifier key on its own.
pub open spec fn is_modifier(key_code: isize) -> bool {
    0xE0 <= key_code <= 0xE7
}

pub fn is_modifier_key(key_code: isize) -> (yes: bool)
    ensures
        yes == is_modifier(key_code),
{
    0xE0 <= key_code && key_code <= 0xE7
}

/// The name of a key that is reported by HID usage rather than by a printable character,
/// and the text it types, if any.
pub open spec fn key_name(key_code: isize) -> Option<(Seq<char>, Option<Seq<char>>)> {
    match key_code {
        0x28 | 0x58 => Some(("enter"@, Some("\n"@))),
        0x29 => Some(("escape"@, None)),
        0x2A => Some(("backspace"@, None)),
        0x2B => Some(("tab"@, Some("\t"@))),
        0x2C => Some(("space"@, Some(" "@))),
        0x49 => Some(("insert"@, None)),
        0x4A => Some(("home"@, None)),
        0x4B => Some(("pageup"@, None)),
        0x4C => Some(("delete"@, None)),
        0x4D => Some(("end"@, None)),
        0x4E => Some(("pagedown"@, None)),
        0x4F => Some(("right"@, None)),
        0x50 => Some(("left"@, None)),
        0x51 => Some(("down"@, None)),
        0x52 => Some(("up"@, None)),
        0x3A => Some(("f1"@, None)),
        0x3B => Some(("f2"@, None)),
        0x3C => Some(("f3"@, None)),
        0x3D => Some(("f4"@, None)),
        0x3E => Some(("f5"@, None)),
        0x3F => Some(("f6"@, None)),
        0x40 => Some(("f7"@, None)),
        0x41 => Some(("f8"@, None)),
        0x42 => Some(("f9"@, None)),
        0x43 => Some(("f10"@, None)),
        0x44 => Some(("f11"@, None)),
        0x45 => Some(("f12"@, None)),
        0x68 => Some(("f13"@, None)),
        0x69 => Some(("f14"@, None)),
        0x6A => Some(("f15"@, None)),
        0x6B => Some(("f16"@, None)),
        0x6C => Some(("f17"@, None)),
        0x6D => Some(("f18"@, None)),
        0x6E => Some(("f19"@, None)),
        0x6F => Some(("f20"@, None)),
        0x70 => Some(("f21"@, None)),
        0x71 => Some(("f22"@, None)),
        0x72 => Some(("f23"@, None)),
        0x73 => Some(("f24"@, None)),
        _ => None,
    }
}

pub fn named_key(key_code: isize) -> (named: Option<(&'static str, Option<&'static str>)>)
    ensures
        input::named_view(named) == key_name(key_code),
        key_code == 0x28 || key_code == 0x58 ==> input::named_view(named) == Some(("enter"@, Some("\n"@))),
        key_code == 0x29 ==> input::named_view(named) == Some(("escape"@, None::<Seq<char>>)),
        key_code == 0x2A ==> input::named_view(named) == Some(("backspace"@, None::<Seq<char>>)),
        key_code == 0x2B ==> input::named_view(named) == Some(("tab"@, Some("\t"@))),
        key_code == 0x2C ==> input::named_view(named) == Some(("space"@, Some(" "@))),
        key_code == 0x49 ==> input::named_view(named) == Some(("insert"@, None::<Seq<char>>)),
        key_code == 0x4A ==> input::named_view(named) == Some(("home"@, None::<Seq<char>>)),
        key_code == 0x4B ==> input::named_view(named) == Some(("pageup"@, None::<Seq<char>>)),
        key_code == 0x4C ==> input::named_view(named) == Some(("delete"@, None::<Seq<char>>)),
        key_code == 0x4D ==> input::named_view(named) == Some(("end"@, None::<Seq<char>>)),
        key_code == 0x4E ==> input::named_view(named) == Some(("pagedown"@, None::<Seq<char>>)),
        key_code == 0x4F ==> input::named_view(named) == Some(("right"@, None::<Seq<char>>)),
        key_code == 0x50 ==> input::named_view(named) == Some(("left"@, None::<Seq<char>>)),
        key_code == 0x51 ==> input::named_view(named) == Some(("down"@, None::<Seq<char>>)),
        key_code == 0x52 ==> input::named_view(named) == Some(("up"@, None::<Seq<char>>)),
        key_code == 0x3A ==> input::named_view(named) == Some(("f1"@, None::<Seq<char>>)),
        key_code == 0x3B ==> input::named_view(named) == Some(("f2"@, None::<Seq<char>>)),
        key_code == 0x3C ==> input::named_view(named) == Some(("f3"@, None::<Seq<char>>)),
        key_code == 0x3D ==> input::named_view(named) == Some(("f4"@, None::<Seq<char>>)),
        key_code == 0x3E ==> input::named_view(named) == Some(("f5"@, None::<Seq<char>>)),
        key_code == 0x3F ==> input::named_view(named) == Some(("f6"@, None::<Seq<char>>)),
        key_code == 0x40 ==> input::named_view(named) == Some(("f7"@, None::<Seq<char>>)),
        key_code == 0x41 ==> input::named_view(named) == Some(("f8"@, None::<Seq<char>>)),
        key_code == 0x42 ==> input::named_view(named) == Some(("f9"@, None::<Seq<char>>)),
        key_code == 0x43 ==> input::named_view(named) == Some(("f10"@, None::<Seq<char>>)),
        key_code == 0x44 ==> input::named_view(named) == Some(("f11"@, None::<Seq<char>>)),
        key_code == 0x45 ==> input::named_view(named) == Some(("f12"@, None::<Seq<char>>)),
        key_code == 0x68 ==> input::named_view(named) == Some(("f13"@, None::<Seq<char>>)),
        key_code == 0x69 ==> input::named_view(named) == Some(("f14"@, None::<Seq<char>>)),
        key_code == 0x6A ==> input::named_view(named) == Some(("f15"@, None::<Seq<char>>)),
        key_code == 0x6B ==> input::named_view(named) == Some(("f16"@, None::<Seq<char>>)),
        key_code == 0x6C ==> input::named_view(named) == Some(("f17"@, None::<Seq<char>>)),
        key_code == 0x6D ==> input::named_view(named) == Some(("f18"@, None::<Seq<char>>)),
        key_code == 0x6E ==> input::named_view(named) == Some(("f19"@, None::<Seq<char>>)),
        key_code == 0x6F ==> input::named_view(named) == Some(("f20"@, None::<Seq<char>>)),
        key_code == 0x70 ==> input::named_view(named) == Some(("f21"@, None::<Seq<char>>)),
        key_code == 0x71 ==> input::named_view(named) == Some(("f22"@, None::<Seq<char>>)),
        key_code == 0x72 ==> input::named_view(named) == Some(("f23"@, None::<Seq<char>>)),
        key_code == 0x73 ==> input::named_view(named) == Some(("f24"@, None::<Seq<char>>)),
{
    match key_code {
        0x28 | 0x58 => Some(("enter", Some("\n"))),
        0x29 => Some(("escape", None)),
        0x2A => Some(("backspace", None)),
        0x2B => Some(("tab", Some("\t"))),
        0x2C => Some(("space", Some(" "))),
        0x49 => Some(("insert", None)),
        0x4A => Some(("home", None)),
        0x4B => Some(("pageup", None)),
        0x4C => Some(("delete", None)),
        0x4D => Some(("end", None)),
        0x4E => Some(("pagedown", None)),
        0x4F => Some(("right", None)),
        0x50 => Some(("left", None)),
        0x51 => Some(("down", None)),
        0x52 => Some(("up", None)),
        0x3A => Some(("f1", None)),
        0x3B => Some(("f2", None)),
        0x3C => Some(("f3", None)),
        0x3D => Some(("f4", None)),
        0x3E => Some(("f5", None)),
        0x3F => Some(("f6", None)),
        0x40 => Some(("f7", None)),
        0x41 => Some(("f8", None)),
        0x42 => Some(("f9", None)),
        0x43 => Some(("f10", None)),
        0x44 => Some(("f11", None)),
        0x45 => Some(("f12", None)),
        0x68 => Some(("f13", None)),
        0x69 => Some(("f14", None)),
        0x6A => Some(("f15", None)),
        0x6B => Some(("f16", None)),
        0x6C => Some(("f17", None)),
        0x6D => Some(("f18", None)),
        0x6E => Some(("f19", None)),
        0x6F => Some(("f20", None)),
        0x70 => Some(("f21", None)),
        0x71 => Some(("f22", None)),
        0x72 => Some(("f23", None)),
        0x73 => Some(("f24", None)),
        _ => None,
    }
}

/// A key as the system reports it.
#[derive(Clone, Debug, PartialEq, Eq)]
pub struct UiKey {
    pub key_code: isize,
    pub flags: usize,
    /// What the key produced.
    pub characters: String,
    /// What it would have produced without modifiers.
    pub unmodified: String,
}

impl UiKey {
    /// The keystroke of the key, or `None` for a bare modifier press or a key that
    /// produces nothing with a name.
    ///
    /// `key` is the unshifted character for letters, so that a binding on shift-a
    /// matches, and the shifted one for symbols, so that a binding on "!" does.
    pub open spec fn keystroke(self) -> Option<KeystrokeView> {
        let modifiers = flag_modifiers(self.flags);
        let types = !modifiers.control && !modifiers.platform;
        let characters = self.characters@;
        let base = if self.unmodified@.len() == 0 {
            characters
        } else {
            self.unmodified@
        };
        let symbol = modifiers.shift && !text::all_lowercase(base) && characters.len() != 0;
        let key = if symbol {
            characters
        } else {
            base
        };
        if is_modifier(self.key_code) {
            None
        } else if key_name(self.key_code) is Some {
            let (name, typed) = key_name(self.key_code)->0;
            Some(
                KeystrokeView {
                    modifiers,
                    key: name,
                    key_char: if types {
                        typed
                    } else {
                        None
                    },
                },
            )
        } else if key.len() == 0 {
            None
        } else {
            Some(
                KeystrokeView {
                    modifiers: Modifiers { shift: modifiers.shift && !symbol, ..modifiers },
                    key,
                    key_char: if types && characters.len() != 0 {
                        Some(characters)
                    } else {
                        None
                    },
                },
            )
        }
    }
}

/// Builds the keystroke of a key.
pub fn keystroke_from_ui_key(key: &UiKey) -> (keystroke: Option<Keystroke>)
    ensures
        input::keystroke_view(keystroke) == key.keystroke(),
        key.key_code == 0x28 || key.key_code == 0x58 ==> (keystroke matches Some(pressed) && pressed.key@ == "enter"@),
        key.key_code == 0x29 ==> (keystroke matches Some(pressed) && pressed.key@ == "escape"@),
        key.key_code == 0x2A ==> (keystroke matches Some(pressed) && pressed.key@ == "backspace"@),
        key.key_code == 0x2B ==> (keystroke matches Some(pressed) && pressed.key@ == "tab"@),
        key.key_code == 0x2C ==> (keystroke matches Some(pressed) && pressed.key@ == "space"@),
        key.key_code == 0x49 ==> (keystroke matches Some(pressed) && pressed.key@ == "insert"@),
        key.key_code == 0x4A ==> (keystroke matches Some(pressed) && pressed.key@ == "home"@),
        key.key_code == 0x4B ==> (keystroke matches Some(pressed) && pressed.key@ == "pageup"@),
        key.key_code == 0x4C ==> (keystroke matches Some(pressed) && pressed.key@ == "delete"@),
        key.key_code == 0x4D ==> (keystroke matches Some(pressed) && pressed.key@ == "end"@),
        key.key_code == 0x4E ==> (keystroke matches Some(pressed) && pressed.key@ == "pagedown"@),
        key.key_code == 0x4F ==> (keystroke matches Some(pressed) && pressed.key@ == "right"@),
        key.key_code == 0x50 ==> (keystroke matches Some(pressed) && pressed.key@ == "left"@),
        key.key_code == 0x51 ==> (keystroke matches Some(pressed) && pressed.key@ == "down"@),
        key.key_code == 0x52 ==> (keystroke matches Some(pressed) && pressed.key@ == "up"@),
        key.key_code == 0x3A ==> (keystroke matches Some(pressed) && pressed.key@ == "f1"@),
        key.key_code == 0x3B ==> (keystroke matches Some(pressed) && pressed.key@ == "f2"@),
        key.key_code == 0x3C ==> (keystroke matches Some(pressed) && pressed.key@ == "f3"@),
        key.key_code == 0x3D ==> (keystroke matches Some(pressed) && pressed.key@ == "f4"@),
        key.key_code == 0x3E ==> (keystroke matches Some(pressed) && pressed.key@ == "f5"@),
        key.key_code == 0x3F ==> (keystroke matches Some(pressed) && pressed.key@ == "f6"@),
        key.key_code == 0x40 ==> (keystroke matches Some(pressed) && pressed.key@ == "f7"@),
        key.key_code == 0x41 ==> (keystroke matches Some(pressed) && pressed.key@ == "f8"@),
        key.key_code == 0x42 ==> (keystroke matches Some(pressed) && pressed.key@ == "f9"@),
        key.key_code == 0x43 ==> (keystroke matches Some(pressed) && pressed.key@ == "f10"@),
        key.key_code == 0x44 ==> (keystroke matches Some(pressed) && pressed.key@ == "f11"@),
        key.key_code == 0x45 ==> (keystroke matches Some(pressed) && pressed.key@ == "f12"@),
        key.key_code == 0x68 ==> (keystroke matches Some(pressed) && pressed.key@ == "f13"@),
        key.key_code == 0x69 ==> (keystroke matches Some(pressed) && pressed.key@ == "f14"@),
        key.key_code == 0x6A ==> (keystroke matches Some(pressed) && pressed.key@ == "f15"@),
        key.key_code == 0x6B ==> (keystroke matches Some(pressed) && pressed.key@ == "f16"@),
        key.key_code == 0x6C ==> (keystroke matches Some(pressed) && pressed.key@ == "f17"@),
        key.key_code == 0x6D ==> (keystroke matches Some(pressed) && pressed.key@ == "f18"@),
        key.key_code == 0x6E ==> (keystroke matches Some(pressed) && pressed.key@ == "f19"@),
        key.key_code == 0x6F ==> (keystroke matches Some(pressed) && pressed.key@ == "f20"@),
        key.key_code == 0x70 ==> (keystroke matches Some(pressed) && pressed.key@ == "f21"@),
        key.key_code == 0x71 ==> (keystroke matches Some(pressed) && pressed.key@ == "f22"@),
        key.key_code == 0x72 ==> (keystroke matches Some(pressed) && pressed.key@ == "f23"@),
        key.key_code == 0x73 ==> (keystroke matches Some(pressed) && pressed.key@ == "f24"@),
{
    if is_modifier_key(key.key_code) {
        return None;
    }
    let mut modifiers = modifiers_from_flags(key.flags);
    let types = !modifiers.control && !modifiers.platform;
    if let Some((name, typed)) = named_key(key.key_code) {
        let key_char = match typed {
            Some(typed) if types => Some(typed.to_owned()),
            _ => None,
        };
        return Some(Keystroke { modifiers, key: name.to_owned(), key_char });
    }
    let characters = key.characters.as_str();
    let base = if key.unmodified.as_str().is_empty() {
        characters
    } else {
        key.unmodified.as_str()
    };
    let name = if modifiers.shift && !text::only_lowercase(base) && !characters.is_empty() {
        modifiers.shift = false;
        characters
    } else {
        base
    };
    if name.is_empty() {
        return None;
    }
    let key_char = if types && !characters.is_empty() {
        Some(characters.to_owned())
    } else {
        None
    };
    Some(Keystroke { modifiers, key: name.to_owned(), key_char })
}

/// The keys that a key command names by a constant of the system.
#[derive(Clone, Copy, Debug, PartialEq, Eq, Structural)]
pub enum SystemKey {
    UpArrow,
    DownArrow,
    LeftArrow,
    RightArrow,
    Escape,
    PageUp,
    PageDown,
    Home,
    End,
    Delete,
    F1,
    F2,
    F3,
    F4,
    F5,
    F6,
    F7,
    F8,
    F9,
    F10,
    F11,
    F12,
}

/// The input of a key command.
#[derive(Clone, Debug, PartialEq, Eq)]
pub enum KeyInput {
    System(SystemKey),
    Text(String),
}

pub open spec fn system_key(key: Seq<char>) -> Option<SystemKey> {
    if key == "up"@ {
        Some(SystemKey::UpArrow)
    } else if key == "down"@ {
        Some(SystemKey::DownArrow)
    } else if key == "left"@ {
        Some(SystemKey::LeftArrow)
    } else if key == "right"@ {
        Some(SystemKey::RightArrow)
    } else if key == "escape"@ {
        Some(SystemKey::Escape)
    } else if key == "pageup"@ {
        Some(SystemKey::PageUp)
    } else if key == "pagedown"@ {
        Some(SystemKey::PageDown)
    } else if key == "home"@ {
        Some(SystemKey::Home)
    } else if key == "end"@ {
        Some(SystemKey::End)
    } else if key == "delete"@ {
        Some(SystemKey::Delete)
    } else if key == "f1"@ {
        Some(SystemKey::F1)
    } else if key == "f2"@ {
        Some(SystemKey::F2)
    } else if key == "f3"@ {
        Some(SystemKey::F3)
    } else if key == "f4"@ {
        Some(SystemKey::F4)
    } else if key == "f5"@ {
        Some(SystemKey::F5)
    } else if key == "f6"@ {
        Some(SystemKey::F6)
    } else if key == "f7"@ {
        Some(SystemKey::F7)
    } else if key == "f8"@ {
        Some(SystemKey::F8)
    } else if key == "f9"@ {
        Some(SystemKey::F9)
    } else if key == "f10"@ {
        Some(SystemKey::F10)
    } else if key == "f11"@ {
        Some(SystemKey::F11)
    } else if key == "f12"@ {
        Some(SystemKey::F12)
    } else {
        None
    }
}

pub open spec fn key_text(key: Seq<char>) -> Seq<char> {
    if key == "enter"@ {
        "\r"@
    } else if key == "tab"@ {
        "\t"@
    } else if key == "space"@ {
        " "@
    } else if key == "backspace"@ {
        "\u{8}"@
    } else {
        key
    }
}

/// The input of a key command for the name of a key.
pub fn key_to_ui_key_input(key: &str) -> (input: KeyInput)
    ensures
        match system_key(key@) {
            Some(named) => input == KeyInput::System(named),
            None => input matches KeyInput::Text(typed) && typed@ == key_text(key@),
        },
{
    if same_text(key, "up") {
        return KeyInput::System(SystemKey::UpArrow);
    }
    if same_text(key, "down") {
        return KeyInput::System(SystemKey::DownArrow);
    }
    if same_text(key, "left") {
        return KeyInput::System(SystemKey::LeftArrow);
    }
    if same_text(key, "right") {
        return KeyInput::System(SystemKey::RightArrow);
    }
    if same_text(key, "escape") {
        return KeyInput::System(SystemKey::Escape);
    }
    if same_text(key, "pageup") {
        return KeyInput::System(SystemKey::PageUp);
    }
    if same_text(key, "pagedown") {
        return KeyInput::System(SystemKey::PageDown);
    }
    if same_text(key, "home") {
        return KeyInput::System(SystemKey::Home);
    }
    if same_text(key, "end") {
        return KeyInput::System(SystemKey::End);
    }
    if same_text(key, "delete") {
        return KeyInput::System(SystemKey::Delete);
    }
    if same_text(key, "f1") {
        return KeyInput::System(SystemKey::F1);
    }
    if same_text(key, "f2") {
        return KeyInput::System(SystemKey::F2);
    }
    if same_text(key, "f3") {
        return KeyInput::System(SystemKey::F3);
    }
    if same_text(key, "f4") {
        return KeyInput::System(SystemKey::F4);
    }
    if same_text(key, "f5") {
        return KeyInput::System(SystemKey::F5);
    }
    if same_text(key, "f6") {
        return KeyInput::System(SystemKey::F6);
    }
    if same_text(key, "f7") {
        return KeyInput::System(SystemKey::F7);
    }
    if same_text(key, "f8") {
        return KeyInput::System(SystemKey::F8);
    }
    if same_text(key, "f9") {
        return KeyInput::System(SystemKey::F9);
    }
    if same_text(key, "f10") {
        return KeyInput::System(SystemKey::F10);
    }
    if same_text(key, "f11") {
        return KeyInput::System(SystemKey::F11);
    }
    if same_text(key, "f12") {
        return KeyInput::System(SystemKey::F12);
    }
    if same_text(key, "enter") {
        return KeyInput::Text("\r".to_owned());
    }
    if same_text(key, "tab") {
        return KeyInput::Text("\t".to_owned());
    }
    if same_text(key, "space") {
        return KeyInput::Text(" ".to_owned());
    }
    if same_text(key, "backspace") {
        return KeyInput::Text("\u{8}".to_owned());
    }
    KeyInput::Text(key.to_owned())
}

} // verus!
