//! What the keys of a hardware keyboard are, usage by usage.

use crate::input::{Capslock, KeystrokeView, Modifiers};
use crate::ios::events;
use crate::ios::events::{SystemKey, UiKey};
use crate::text;
use vstd::prelude::*;

verus! {

/// The modifiers of a set of flags are its bits: caps lock 0x10000, shift 0x20000, control
/// 0x40000, alt 0x80000, command 0x100000.
pub proof fn law_flag_bits(flags: usize)
    ensures
        events::flag_modifiers(flags) == (Modifiers {
            control: flags & 0x4_0000 != 0,
            alt: flags & 0x8_0000 != 0,
            shift: flags & 0x2_0000 != 0,
            platform: flags & 0x10_0000 != 0,
            function: false,
        }),
        events::flag_capslock(flags) == (Capslock { on: flags & 0x1_0000 != 0 }),
{
}

/// A key gives a keystroke of this name and text, whatever characters it comes with: with
/// the modifiers held, and without the text where control or command makes it a chord.
pub open spec fn gives(key: UiKey, name: Seq<char>, text: Option<Seq<char>>) -> bool {
    key.keystroke() == Some(
        KeystrokeView {
            modifiers: Modifiers {
                control: key.flags & 0x4_0000 != 0,
                alt: key.flags & 0x8_0000 != 0,
                shift: key.flags & 0x2_0000 != 0,
                platform: key.flags & 0x10_0000 != 0,
                function: false,
            },
            key: name,
            key_char: if key.flags & 0x4_0000 != 0 || key.flags & 0x10_0000 != 0 {
                None
            } else {
                text
            },
        },
    )
}

/// Every key that has a name, by its usage.
pub proof fn law_named_keys(key: UiKey)
    ensures
        key.key_code == 0x28 ==> gives(key, "enter"@, Some("\n"@)),
        key.key_code == 0x58 ==> gives(key, "enter"@, Some("\n"@)),
        key.key_code == 0x29 ==> gives(key, "escape"@, None),
        key.key_code == 0x2A ==> gives(key, "backspace"@, None),
        key.key_code == 0x2B ==> gives(key, "tab"@, Some("\t"@)),
        key.key_code == 0x2C ==> gives(key, "space"@, Some(" "@)),
        key.key_code == 0x49 ==> gives(key, "insert"@, None),
        key.key_code == 0x4A ==> gives(key, "home"@, None),
        key.key_code == 0x4B ==> gives(key, "pageup"@, None),
        key.key_code == 0x4C ==> gives(key, "delete"@, None),
        key.key_code == 0x4D ==> gives(key, "end"@, None),
        key.key_code == 0x4E ==> gives(key, "pagedown"@, None),
        key.key_code == 0x4F ==> gives(key, "right"@, None),
        key.key_code == 0x50 ==> gives(key, "left"@, None),
        key.key_code == 0x51 ==> gives(key, "down"@, None),
        key.key_code == 0x52 ==> gives(key, "up"@, None),
        key.key_code == 0x3A ==> gives(key, "f1"@, None),
        key.key_code == 0x3B ==> gives(key, "f2"@, None),
        key.key_code == 0x3C ==> gives(key, "f3"@, None),
        key.key_code == 0x3D ==> gives(key, "f4"@, None),
        key.key_code == 0x3E ==> gives(key, "f5"@, None),
        key.key_code == 0x3F ==> gives(key, "f6"@, None),
        key.key_code == 0x40 ==> gives(key, "f7"@, None),
        key.key_code == 0x41 ==> gives(key, "f8"@, None),
        key.key_code == 0x42 ==> gives(key, "f9"@, None),
        key.key_code == 0x43 ==> gives(key, "f10"@, None),
        key.key_code == 0x44 ==> gives(key, "f11"@, None),
        key.key_code == 0x45 ==> gives(key, "f12"@, None),
        key.key_code == 0x68 ==> gives(key, "f13"@, None),
        key.key_code == 0x69 ==> gives(key, "f14"@, None),
        key.key_code == 0x6A ==> gives(key, "f15"@, None),
        key.key_code == 0x6B ==> gives(key, "f16"@, None),
        key.key_code == 0x6C ==> gives(key, "f17"@, None),
        key.key_code == 0x6D ==> gives(key, "f18"@, None),
        key.key_code == 0x6E ==> gives(key, "f19"@, None),
        key.key_code == 0x6F ==> gives(key, "f20"@, None),
        key.key_code == 0x70 ==> gives(key, "f21"@, None),
        key.key_code == 0x71 ==> gives(key, "f22"@, None),
        key.key_code == 0x72 ==> gives(key, "f23"@, None),
        key.key_code == 0x73 ==> gives(key, "f24"@, None),
{
}

/// The eight modifier keys on their own are no keystrokes.
pub proof fn law_modifier_keys(key: UiKey)
    ensures
        events::is_modifier(key.key_code) <==> 224 <= key.key_code <= 231,
        224 <= key.key_code <= 231 ==> key.keystroke() is None,
{
}

/// Every other key is known by its characters. Its name is what it produces without
/// modifiers, or what it produced where that is empty. With shift, anything but lower-case
/// letters takes its name from what was produced and takes the shift up. The text is what
/// was produced, unless control or command make it a chord.
pub proof fn law_typing_keys(key: UiKey)
    requires
        !(0x28 <= key.key_code <= 0x2C),
        !(0x3A <= key.key_code <= 0x45),
        !(0x49 <= key.key_code <= 0x52),
        key.key_code != 0x58,
        !(0x68 <= key.key_code <= 0x73),
        !(0xE0 <= key.key_code <= 0xE7),
    ensures
        ({
            let modifiers = Modifiers {
                control: key.flags & 0x4_0000 != 0,
                alt: key.flags & 0x8_0000 != 0,
                shift: key.flags & 0x2_0000 != 0,
                platform: key.flags & 0x10_0000 != 0,
                function: false,
            };
            let chord = modifiers.control || modifiers.platform;
            let produced = key.characters@;
            let plain = key.unmodified@;
            let text = if chord || produced.len() == 0 {
                None
            } else {
                Some(produced)
            };
            let letters = forall|i: int|
                0 <= i < plain.len() ==> 'a' <= #[trigger] plain[i] && plain[i] <= 'z';
            let shifted = forall|i: int|
                0 <= i < produced.len() ==> 'a' <= #[trigger] produced[i] && produced[i] <= 'z';
            &&& produced.len() == 0 && plain.len() == 0 ==> key.keystroke() is None
            &&& produced.len() == 0 && plain.len() > 0 ==> key.keystroke() == Some(
                KeystrokeView { modifiers, key: plain, key_char: None },
            )
            &&& plain.len() > 0 && produced.len() > 0 && (!modifiers.shift || letters)
                ==> key.keystroke() == Some(
                KeystrokeView { modifiers, key: plain, key_char: text },
            )
            &&& plain.len() > 0 && produced.len() > 0 && modifiers.shift && !letters
                ==> key.keystroke() == Some(
                KeystrokeView {
                    modifiers: Modifiers { shift: false, ..modifiers },
                    key: produced,
                    key_char: text,
                },
            )
            &&& plain.len() == 0 && produced.len() > 0 ==> key.keystroke() == Some(
                KeystrokeView {
                    modifiers: Modifiers { shift: modifiers.shift && shifted, ..modifiers },
                    key: produced,
                    key_char: text,
                },
            )
        }),
{
    lemma_letters(key.characters@);
    lemma_letters(key.unmodified@);
}

/// Text is of lower-case letters where each of its characters is one.
proof fn lemma_letters(plain: Seq<char>)
    ensures
        text::all_lowercase(plain) <==> forall|i: int|
            0 <= i < plain.len() ==> 'a' <= #[trigger] plain[i] && plain[i] <= 'z',
{
    if text::all_lowercase(plain) {
        assert forall|i: int| 0 <= i < plain.len() implies 'a' <= #[trigger] plain[i] && plain[i]
            <= 'z' by {
            assert(text::is_lowercase(plain[i]));
        }
    }
}

/// The keys that a key command names by a constant of the system.
pub proof fn law_system_keys()
    ensures
        events::system_key("up"@) == Some(SystemKey::UpArrow),
        events::system_key("down"@) == Some(SystemKey::DownArrow),
        events::system_key("left"@) == Some(SystemKey::LeftArrow),
        events::system_key("right"@) == Some(SystemKey::RightArrow),
        events::system_key("escape"@) == Some(SystemKey::Escape),
        events::system_key("pageup"@) == Some(SystemKey::PageUp),
        events::system_key("pagedown"@) == Some(SystemKey::PageDown),
        events::system_key("home"@) == Some(SystemKey::Home),
        events::system_key("end"@) == Some(SystemKey::End),
        events::system_key("delete"@) == Some(SystemKey::Delete),
        events::system_key("f1"@) == Some(SystemKey::F1),
        events::system_key("f2"@) == Some(SystemKey::F2),
        events::system_key("f3"@) == Some(SystemKey::F3),
        events::system_key("f4"@) == Some(SystemKey::F4),
        events::system_key("f5"@) == Some(SystemKey::F5),
        events::system_key("f6"@) == Some(SystemKey::F6),
        events::system_key("f7"@) == Some(SystemKey::F7),
        events::system_key("f8"@) == Some(SystemKey::F8),
        events::system_key("f9"@) == Some(SystemKey::F9),
        events::system_key("f10"@) == Some(SystemKey::F10),
        events::system_key("f11"@) == Some(SystemKey::F11),
        events::system_key("f12"@) == Some(SystemKey::F12),
{
    reveal_strlit("up");
    reveal_strlit("down");
    reveal_strlit("left");
    reveal_strlit("right");
    reveal_strlit("escape");
    reveal_strlit("pageup");
    reveal_strlit("pagedown");
    reveal_strlit("home");
    reveal_strlit("end");
    reveal_strlit("delete");
    reveal_strlit("f1");
    reveal_strlit("f2");
    reveal_strlit("f3");
    reveal_strlit("f4");
    reveal_strlit("f5");
    reveal_strlit("f6");
    reveal_strlit("f7");
    reveal_strlit("f8");
    reveal_strlit("f9");
    reveal_strlit("f10");
    reveal_strlit("f11");
    reveal_strlit("f12");
    assert("up"@.len() == 2);
    assert("down"@.len() == 4);
    assert("left"@.len() == 4);
    assert("right"@.len() == 5);
    assert("escape"@.len() == 6);
    assert("pageup"@.len() == 6);
    assert("pagedown"@.len() == 8);
    assert("home"@.len() == 4);
    assert("end"@.len() == 3);
    assert("delete"@.len() == 6);
    assert("f1"@.len() == 2);
    assert("f2"@.len() == 2);
    assert("f3"@.len() == 2);
    assert("f4"@.len() == 2);
    assert("f5"@.len() == 2);
    assert("f6"@.len() == 2);
    assert("f7"@.len() == 2);
    assert("f8"@.len() == 2);
    assert("f9"@.len() == 2);
    assert("f10"@.len() == 3);
    assert("f11"@.len() == 3);
    assert("f12"@.len() == 3);
    assert("up"@[0] != "f1"@[0]);
    assert("up"@[0] != "f2"@[0]);
    assert("up"@[0] != "f3"@[0]);
    assert("up"@[0] != "f4"@[0]);
    assert("up"@[0] != "f5"@[0]);
    assert("up"@[0] != "f6"@[0]);
    assert("up"@[0] != "f7"@[0]);
    assert("up"@[0] != "f8"@[0]);
    assert("up"@[0] != "f9"@[0]);
    assert("down"@[0] != "left"@[0]);
    assert("down"@[0] != "home"@[0]);
    assert("left"@[0] != "home"@[0]);
    assert("escape"@[0] != "pageup"@[0]);
    assert("escape"@[0] != "delete"@[0]);
    assert("pageup"@[0] != "delete"@[0]);
    assert("end"@[0] != "f10"@[0]);
    assert("end"@[0] != "f11"@[0]);
    assert("end"@[0] != "f12"@[0]);
    assert("f1"@[1] != "f2"@[1]);
    assert("f1"@[1] != "f3"@[1]);
    assert("f1"@[1] != "f4"@[1]);
    assert("f1"@[1] != "f5"@[1]);
    assert("f1"@[1] != "f6"@[1]);
    assert("f1"@[1] != "f7"@[1]);
    assert("f1"@[1] != "f8"@[1]);
    assert("f1"@[1] != "f9"@[1]);
    assert("f2"@[1] != "f3"@[1]);
    assert("f2"@[1] != "f4"@[1]);
    assert("f2"@[1] != "f5"@[1]);
    assert("f2"@[1] != "f6"@[1]);
    assert("f2"@[1] != "f7"@[1]);
    assert("f2"@[1] != "f8"@[1]);
    assert("f2"@[1] != "f9"@[1]);
    assert("f3"@[1] != "f4"@[1]);
    assert("f3"@[1] != "f5"@[1]);
    assert("f3"@[1] != "f6"@[1]);
    assert("f3"@[1] != "f7"@[1]);
    assert("f3"@[1] != "f8"@[1]);
    assert("f3"@[1] != "f9"@[1]);
    assert("f4"@[1] != "f5"@[1]);
    assert("f4"@[1] != "f6"@[1]);
    assert("f4"@[1] != "f7"@[1]);
    assert("f4"@[1] != "f8"@[1]);
    assert("f4"@[1] != "f9"@[1]);
    assert("f5"@[1] != "f6"@[1]);
    assert("f5"@[1] != "f7"@[1]);
    assert("f5"@[1] != "f8"@[1]);
    assert("f5"@[1] != "f9"@[1]);
    assert("f6"@[1] != "f7"@[1]);
    assert("f6"@[1] != "f8"@[1]);
    assert("f6"@[1] != "f9"@[1]);
    assert("f7"@[1] != "f8"@[1]);
    assert("f7"@[1] != "f9"@[1]);
    assert("f8"@[1] != "f9"@[1]);
    assert("f10"@[2] != "f11"@[2]);
    assert("f10"@[2] != "f12"@[2]);
    assert("f11"@[2] != "f12"@[2]);
}

/// Every other key is named by its text: enter, tab, space and backspace by the control
/// characters they stand for, and what is typed by itself.
pub proof fn law_text_keys(key: Seq<char>)
    ensures
        events::key_text("enter"@) == "\r"@,
        events::key_text("tab"@) == "\t"@,
        events::key_text("space"@) == " "@,
        events::key_text("backspace"@) == "\u{8}"@,
        key != "enter"@ && key != "tab"@ && key != "space"@ && key != "backspace"@
            ==> events::key_text(key) == key,
        key != "up"@ && key != "down"@
            && key != "left"@ && key != "right"@ && key != "escape"@
            && key != "pageup"@ && key != "pagedown"@ && key != "home"@
            && key != "end"@ && key != "delete"@ && key != "f1"@
            && key != "f2"@ && key != "f3"@ && key != "f4"@
            && key != "f5"@ && key != "f6"@ && key != "f7"@
            && key != "f8"@ && key != "f9"@ && key != "f10"@
            && key != "f11"@ && key != "f12"@
            ==> events::system_key(key) is None,
{
    reveal_strlit("enter");
    reveal_strlit("tab");
    reveal_strlit("space");
    reveal_strlit("backspace");
    assert("enter"@.len() == 5);
    assert("tab"@.len() == 3);
    assert("space"@.len() == 5);
    assert("backspace"@.len() == 9);
    assert("enter"@[0] != "space"@[0]);
}

} // verus!
