//! Keyboard events. Android reports a key code and a meta state; the characters a
//! key produces come from the input device's character map.

use crate::input;
use crate::input::{Capslock, Keystroke, KeystrokeView, Modifiers};
use crate::text;
use vstd::prelude::*;

verus! {

/// Meta state bits.
pub const META_SHIFT_ON: u32 = 0x1;

pub const META_ALT_ON: u32 = 0x2;

pub const META_FUNCTION_ON: u32 = 0x8;

pub const META_CTRL_ON: u32 = 0x1000;

pub const META_META_ON: u32 = 0x1_0000;

pub const META_CAPS_LOCK_ON: u32 = 0x10_0000;

pub open spec fn meta_modifiers(meta: u32) -> Modifiers {
    Modifiers {
        control: meta & META_CTRL_ON != 0,
        alt: meta & META_ALT_ON != 0,
        shift: meta & META_SHIFT_ON != 0,
        platform: meta & META_META_ON != 0,
        function: meta & META_FUNCTION_ON != 0,
    }
}

pub open spec fn meta_capslock(meta: u32) -> Capslock {
    Capslock { on: meta & META_CAPS_LOCK_ON != 0 }
}

/// Translates a meta state's modifier bits.
pub fn modifiers_from_meta_state(meta: u32) -> (modifiers: Modifiers)
    ensures
        modifiers == meta_modifiers(meta),
{
    Modifiers {
        control: meta & META_CTRL_ON != 0,
        alt: meta & META_ALT_ON != 0,
        shift: meta & META_SHIFT_ON != 0,
        platform: meta & META_META_ON != 0,
        function: meta & META_FUNCTION_ON != 0,
    }
}

pub fn capslock_from_meta_state(meta: u32) -> (capslock: Capslock)
    ensures
        capslock == meta_capslock(meta),
{
    Capslock { on: meta & META_CAPS_LOCK_ON != 0 }
}

/// Whether the key is a modifier on its own, which changes the meta state but is not a
/// keystroke: shift, control, alt, meta on either side, caps lock, function and symbol.
pub open spec fn is_modifier(key_code: u32) -> bool {
    57 <= key_code <= 60 || key_code == 63 || key_code == 113 || key_code == 114 || key_code == 115
        || key_code == 117 || key_code == 118 || key_code == 119
}

pub fn is_modifier_key(key_code: u32) -> (yes: bool)
    ensures
        yes == is_modifier(key_code),
{
    matches!(key_code, 57 | 58 | 59 | 60 | 63 | 113 | 114 | 115 | 117 | 118 | 119)
}

/// The name of a key that Android reports by code rather than by a printable character,
/// and the text it types, if any. The back button is escape: left unhandled it still
/// finishes the activity.
pub open spec fn key_name(key_code: u32) -> Option<(Seq<char>, Option<Seq<char>>)> {
    match key_code {
        66 | 160 => Some(("enter"@, Some("\n"@))),
        111 | 4 => Some(("escape"@, None)),
        67 => Some(("backspace"@, None)),
        112 => Some(("delete"@, None)),
        61 => Some(("tab"@, Some("\t"@))),
        62 => Some(("space"@, Some(" "@))),
        124 => Some(("insert"@, None)),
        122 => Some(("home"@, None)),
        123 => Some(("end"@, None)),
        92 => Some(("pageup"@, None)),
        93 => Some(("pagedown"@, None)),
        19 => Some(("up"@, None)),
        20 => Some(("down"@, None)),
        21 => Some(("left"@, None)),
        22 => Some(("right"@, None)),
        131 => Some(("f1"@, None)),
        132 => Some(("f2"@, None)),
        133 => Some(("f3"@, None)),
        134 => Some(("f4"@, None)),
        135 => Some(("f5"@, None)),
        136 => Some(("f6"@, None)),
        137 => Some(("f7"@, None)),
        138 => Some(("f8"@, None)),
        139 => Some(("f9"@, None)),
        140 => Some(("f10"@, None)),
        141 => Some(("f11"@, None)),
        142 => Some(("f12"@, None)),
        _ => None,
    }
}

pub fn named_key(key_code: u32) -> (named: Option<(&'static str, Option<&'static str>)>)
    ensures
        input::named_view(named) == key_name(key_code),
        key_code == 66 || key_code == 160 ==> input::named_view(named) == Some(("enter"@, Some("\n"@))),
        key_code == 111 || key_code == 4 ==> input::named_view(named) == Some(("escape"@, None::<Seq<char>>)),
        key_code == 67 ==> input::named_view(named) == Some(("backspace"@, None::<Seq<char>>)),
        key_code == 112 ==> input::named_view(named) == Some(("delete"@, None::<Seq<char>>)),
        key_code == 61 ==> input::named_view(named) == Some(("tab"@, Some("\t"@))),
        key_code == 62 ==> input::named_view(named) == Some(("space"@, Some(" "@))),
        key_code == 124 ==> input::named_view(named) == Some(("insert"@, None::<Seq<char>>)),
        key_code == 122 ==> input::named_view(named) == Some(("home"@, None::<Seq<char>>)),
        key_code == 123 ==> input::named_view(named) == Some(("end"@, None::<Seq<char>>)),
        key_code == 92 ==> input::named_view(named) == Some(("pageup"@, None::<Seq<char>>)),
        key_code == 93 ==> input::named_view(named) == Some(("pagedown"@, None::<Seq<char>>)),
        key_code == 19 ==> input::named_view(named) == Some(("up"@, None::<Seq<char>>)),
        key_code == 20 ==> input::named_view(named) == Some(("down"@, None::<Seq<char>>)),
        key_code == 21 ==> input::named_view(named) == Some(("left"@, None::<Seq<char>>)),
        key_code == 22 ==> input::named_view(named) == Some(("right"@, None::<Seq<char>>)),
        key_code == 131 ==> input::named_view(named) == Some(("f1"@, None::<Seq<char>>)),
        key_code == 132 ==> input::named_view(named) == Some(("f2"@, None::<Seq<char>>)),
        key_code == 133 ==> input::named_view(named) == Some(("f3"@, None::<Seq<char>>)),
        key_code == 134 ==> input::named_view(named) == Some(("f4"@, None::<Seq<char>>)),
        key_code == 135 ==> input::named_view(named) == Some(("f5"@, None::<Seq<char>>)),
        key_code == 136 ==> input::named_view(named) == Some(("f6"@, None::<Seq<char>>)),
        key_code == 137 ==> input::named_view(named) == Some(("f7"@, None::<Seq<char>>)),
        key_code == 138 ==> input::named_view(named) == Some(("f8"@, None::<Seq<char>>)),
        key_code == 139 ==> input::named_view(named) == Some(("f9"@, None::<Seq<char>>)),
        key_code == 140 ==> input::named_view(named) == Some(("f10"@, None::<Seq<char>>)),
        key_code == 141 ==> input::named_view(named) == Some(("f11"@, None::<Seq<char>>)),
        key_code == 142 ==> input::named_view(named) == Some(("f12"@, None::<Seq<char>>)),
{
    match key_code {
        66 | 160 => Some(("enter", Some("\n"))),
        111 | 4 => Some(("escape", None)),
        67 => Some(("backspace", None)),
        112 => Some(("delete", None)),
        61 => Some(("tab", Some("\t"))),
        62 => Some(("space", Some(" "))),
        124 => Some(("insert", None)),
        122 => Some(("home", None)),
        123 => Some(("end", None)),
        92 => Some(("pageup", None)),
        93 => Some(("pagedown", None)),
        19 => Some(("up", None)),
        20 => Some(("down", None)),
        21 => Some(("left", None)),
        22 => Some(("right", None)),
        131 => Some(("f1", None)),
        132 => Some(("f2", None)),
        133 => Some(("f3", None)),
        134 => Some(("f4", None)),
        135 => Some(("f5", None)),
        136 => Some(("f6", None)),
        137 => Some(("f7", None)),
        138 => Some(("f8", None)),
        139 => Some(("f9", None)),
        140 => Some(("f10", None)),
        141 => Some(("f11", None)),
        142 => Some(("f12", None)),
        _ => None,
    }
}

/// The keystroke of a key event, or `None` for a bare modifier or a key that produces
/// nothing with a name (media keys, volume). `typed` is the character that the device's
/// map gives under the event's meta state, `unshifted` the one it gives under none.
///
/// `key` is the unshifted character for letters, so that a binding on shift-a matches,
/// and the shifted one for symbols, so that a binding on "!" does.
pub open spec fn keystroke_of(
    key_code: u32,
    meta: u32,
    typed: Option<char>,
    unshifted: Option<char>,
) -> Option<KeystrokeView> {
    let modifiers = meta_modifiers(meta);
    let types = !modifiers.control && !modifiers.platform;
    let base = if unshifted is Some {
        unshifted
    } else {
        typed
    };
    if is_modifier(key_code) {
        None
    } else if key_name(key_code) is Some {
        let (name, text) = key_name(key_code)->0;
        Some(
            KeystrokeView {
                modifiers,
                key: name,
                key_char: if types {
                    text
                } else {
                    None
                },
            },
        )
    } else if base is None {
        None
    } else {
        let symbol = modifiers.shift && !text::is_lowercase(base->0) && typed is Some && typed
            != base;
        Some(
            KeystrokeView {
                modifiers: Modifiers { shift: modifiers.shift && !symbol, ..modifiers },
                key: seq![
                    if symbol {
                        typed->0
                    } else {
                        base->0
                    },
                ],
                key_char: if types && typed is Some && !text::is_control(typed->0) {
                    Some(seq![typed->0])
                } else {
                    None
                },
            },
        )
    }
}

pub fn keystroke_from_key_event(
    key_code: u32,
    meta: u32,
    typed: Option<char>,
    unshifted: Option<char>,
) -> (keystroke: Option<Keystroke>)
    ensures
        input::keystroke_view(keystroke) == keystroke_of(key_code, meta, typed, unshifted),
        key_code == 66 || key_code == 160 ==> (keystroke matches Some(pressed) && pressed.key@ == "enter"@),
        key_code == 111 || key_code == 4 ==> (keystroke matches Some(pressed) && pressed.key@ == "escape"@),
        key_code == 67 ==> (keystroke matches Some(pressed) && pressed.key@ == "backspace"@),
        key_code == 112 ==> (keystroke matches Some(pressed) && pressed.key@ == "delete"@),
        key_code == 61 ==> (keystroke matches Some(pressed) && pressed.key@ == "tab"@),
        key_code == 62 ==> (keystroke matches Some(pressed) && pressed.key@ == "space"@),
        key_code == 124 ==> (keystroke matches Some(pressed) && pressed.key@ == "insert"@),
        key_code == 122 ==> (keystroke matches Some(pressed) && pressed.key@ == "home"@),
        key_code == 123 ==> (keystroke matches Some(pressed) && pressed.key@ == "end"@),
        key_code == 92 ==> (keystroke matches Some(pressed) && pressed.key@ == "pageup"@),
        key_code == 93 ==> (keystroke matches Some(pressed) && pressed.key@ == "pagedown"@),
        key_code == 19 ==> (keystroke matches Some(pressed) && pressed.key@ == "up"@),
        key_code == 20 ==> (keystroke matches Some(pressed) && pressed.key@ == "down"@),
        key_code == 21 ==> (keystroke matches Some(pressed) && pressed.key@ == "left"@),
        key_code == 22 ==> (keystroke matches Some(pressed) && pressed.key@ == "right"@),
        key_code == 131 ==> (keystroke matches Some(pressed) && pressed.key@ == "f1"@),
        key_code == 132 ==> (keystroke matches Some(pressed) && pressed.key@ == "f2"@),
        key_code == 133 ==> (keystroke matches Some(pressed) && pressed.key@ == "f3"@),
        key_code == 134 ==> (keystroke matches Some(pressed) && pressed.key@ == "f4"@),
        key_code == 135 ==> (keystroke matches Some(pressed) && pressed.key@ == "f5"@),
        key_code == 136 ==> (keystroke matches Some(pressed) && pressed.key@ == "f6"@),
        key_code == 137 ==> (keystroke matches Some(pressed) && pressed.key@ == "f7"@),
        key_code == 138 ==> (keystroke matches Some(pressed) && pressed.key@ == "f8"@),
        key_code == 139 ==> (keystroke matches Some(pressed) && pressed.key@ == "f9"@),
        key_code == 140 ==> (keystroke matches Some(pressed) && pressed.key@ == "f10"@),
        key_code == 141 ==> (keystroke matches Some(pressed) && pressed.key@ == "f11"@),
        key_code == 142 ==> (keystroke matches Some(pressed) && pressed.key@ == "f12"@),
{
    if is_modifier_key(key_code) {
        return None;
    }
    let mut modifiers = modifiers_from_meta_state(meta);
    let types = !modifiers.control && !modifiers.platform;
    if let Some((name, text)) = named_key(key_code) {
        let key_char = match text {
            Some(text) if types => Some(text.to_owned()),
            _ => None,
        };
        return Some(Keystroke { modifiers, key: name.to_owned(), key_char });
    }
    let base = match (unshifted, typed) {
        (Some(base), _) => base,
        (None, Some(base)) => base,
        (None, None) => {
            return None;
        },
    };
    let mut key = base;
    if modifiers.shift && !text::lowercase(base) {
        if let Some(c) = typed {
            if c != base {
                modifiers.shift = false;
                key = c;
            }
        }
    }
    let key_char = match typed {
        Some(c) => if types && !text::control(c) {
            Some(text::char_text(c))
        } else {
            None
        },
        None => None,
    };
    Some(Keystroke { modifiers, key: text::char_text(key), key_char })
}

} // verus!
