//! What the keys of an Android keyboard are, code by code.

use crate::android::events;
use crate::input::{Capslock, KeystrokeView, Modifiers};
use vstd::prelude::*;

verus! {

/// The modifiers of a meta state are its bits: shift 0x1, alt 0x2, function 0x8, control
/// 0x1000, meta 0x10000; caps lock is 0x100000.
pub proof fn law_meta_bits(meta: u32)
    ensures
        events::meta_modifiers(meta) == (Modifiers {
            control: meta & 0x1000 != 0,
            alt: meta & 0x2 != 0,
            shift: meta & 0x1 != 0,
            platform: meta & 0x1_0000 != 0,
            function: meta & 0x8 != 0,
        }),
        events::meta_capslock(meta) == (Capslock { on: meta & 0x10_0000 != 0 }),
{
}

/// A key code gives a keystroke of this name and text, whatever characters the keyboard's
/// map has for it: with the modifiers held, and without the text where control or meta
/// makes it a chord.
pub open spec fn gives(
    key_code: u32,
    name: Seq<char>,
    text: Option<Seq<char>>,
    meta: u32,
    typed: Option<char>,
    unshifted: Option<char>,
) -> bool {
    events::keystroke_of(key_code, meta, typed, unshifted) == Some(
        KeystrokeView {
            modifiers: Modifiers {
                control: meta & 0x1000 != 0,
                alt: meta & 0x2 != 0,
                shift: meta & 0x1 != 0,
                platform: meta & 0x1_0000 != 0,
                function: meta & 0x8 != 0,
            },
            key: name,
            key_char: if meta & 0x1000 != 0 || meta & 0x1_0000 != 0 {
                None
            } else {
                text
            },
        },
    )
}

/// Every key that has a name, by its code.
pub proof fn law_named_keys(meta: u32, typed: Option<char>, unshifted: Option<char>)
    ensures
        gives(66, "enter"@, Some("\n"@), meta, typed, unshifted),
        gives(160, "enter"@, Some("\n"@), meta, typed, unshifted),
        gives(111, "escape"@, None, meta, typed, unshifted),
        gives(4, "escape"@, None, meta, typed, unshifted),
        gives(67, "backspace"@, None, meta, typed, unshifted),
        gives(112, "delete"@, None, meta, typed, unshifted),
        gives(61, "tab"@, Some("\t"@), meta, typed, unshifted),
        gives(62, "space"@, Some(" "@), meta, typed, unshifted),
        gives(124, "insert"@, None, meta, typed, unshifted),
        gives(122, "home"@, None, meta, typed, unshifted),
        gives(123, "end"@, None, meta, typed, unshifted),
        gives(92, "pageup"@, None, meta, typed, unshifted),
        gives(93, "pagedown"@, None, meta, typed, unshifted),
        gives(19, "up"@, None, meta, typed, unshifted),
        gives(20, "down"@, None, meta, typed, unshifted),
        gives(21, "left"@, None, meta, typed, unshifted),
        gives(22, "right"@, None, meta, typed, unshifted),
        gives(131, "f1"@, None, meta, typed, unshifted),
        gives(132, "f2"@, None, meta, typed, unshifted),
        gives(133, "f3"@, None, meta, typed, unshifted),
        gives(134, "f4"@, None, meta, typed, unshifted),
        gives(135, "f5"@, None, meta, typed, unshifted),
        gives(136, "f6"@, None, meta, typed, unshifted),
        gives(137, "f7"@, None, meta, typed, unshifted),
        gives(138, "f8"@, None, meta, typed, unshifted),
        gives(139, "f9"@, None, meta, typed, unshifted),
        gives(140, "f10"@, None, meta, typed, unshifted),
        gives(141, "f11"@, None, meta, typed, unshifted),
        gives(142, "f12"@, None, meta, typed, unshifted),
{
}

/// The modifier keys on their own are no keystrokes: the two alts, shifts, controls and
/// metas, sym, caps lock and function.
pub proof fn law_modifier_keys(
    key_code: u32,
    meta: u32,
    typed: Option<char>,
    unshifted: Option<char>,
)
    ensures
        events::is_modifier(key_code) <==> key_code == 57 || key_code == 58 || key_code == 59
            || key_code == 60 || key_code == 63 || key_code == 113 || key_code == 114 || key_code
            == 115 || key_code == 117 || key_code == 118 || key_code == 119,
        events::is_modifier(key_code) ==> events::keystroke_of(key_code, meta, typed, unshifted)
            is None,
{
}

/// Whether a code has a name or is a modifier.
pub open spec fn is_special(key_code: u32) -> bool {
    key_code == 4
        || key_code == 19
        || key_code == 20
        || key_code == 21
        || key_code == 22
        || key_code == 57
        || key_code == 58
        || key_code == 59
        || key_code == 60
        || key_code == 61
        || key_code == 62
        || key_code == 63
        || key_code == 66
        || key_code == 67
        || key_code == 92
        || key_code == 93
        || key_code == 111
        || key_code == 112
        || key_code == 113
        || key_code == 114
        || key_code == 115
        || key_code == 117
        || key_code == 118
        || key_code == 119
        || key_code == 122
        || key_code == 123
        || key_code == 124
        || key_code == 131
        || key_code == 132
        || key_code == 133
        || key_code == 134
        || key_code == 135
        || key_code == 136
        || key_code == 137
        || key_code == 138
        || key_code == 139
        || key_code == 140
        || key_code == 141
        || key_code == 142
        || key_code == 160
}

/// Every other key is known by what it types. Its name is the character without
/// modifiers, or the typed one where there is none. With shift, a symbol that shift
/// changes has the typed character for its name and takes the shift up; a lower-case
/// letter keeps its name and the shift. The text is what was typed, unless control or meta
/// make it a chord or it is a control character.
pub proof fn law_typing_keys(
    key_code: u32,
    meta: u32,
    typed: Option<char>,
    unshifted: Option<char>,
)
    requires
        !is_special(key_code),
    ensures
        ({
            let keystroke = events::keystroke_of(key_code, meta, typed, unshifted);
            let shift = meta & 0x1 != 0;
            let chord = meta & 0x1000 != 0 || meta & 0x1_0000 != 0;
            let modifiers = Modifiers {
                control: meta & 0x1000 != 0,
                alt: meta & 0x2 != 0,
                shift,
                platform: meta & 0x1_0000 != 0,
                function: meta & 0x8 != 0,
            };
            &&& typed is None && unshifted is None ==> keystroke is None
            &&& (typed matches Some(c) ==> {
                let text = if chord || c <= '\u{1f}' || ('\u{7f}' <= c && c <= '\u{9f}') {
                    None
                } else {
                    Some(seq![c])
                };
                &&& unshifted is None || unshifted == typed ==> keystroke == Some(
                    KeystrokeView { modifiers, key: seq![c], key_char: text },
                )
                &&& (unshifted matches Some(base) ==> base != c ==> {
                    &&& shift && !('a' <= base && base <= 'z') ==> keystroke == Some(
                        KeystrokeView {
                            modifiers: Modifiers { shift: false, ..modifiers },
                            key: seq![c],
                            key_char: text,
                        },
                    )
                    &&& !shift || ('a' <= base && base <= 'z') ==> keystroke == Some(
                        KeystrokeView { modifiers, key: seq![base], key_char: text },
                    )
                })
            })
            &&& (unshifted matches Some(base) ==> typed is None ==> keystroke == Some(
                KeystrokeView { modifiers, key: seq![base], key_char: None },
            ))
        }),
{
}

} // verus!
