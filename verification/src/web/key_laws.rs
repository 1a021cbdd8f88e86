//! What the keys of a browser are, name by name.

use crate::input::{KeystrokeView, Modifiers};
use crate::text;
use crate::web::keys;
use vstd::prelude::*;

verus! {

/// A key that the DOM names gives a keystroke of this name and text, with the modifiers
/// held, and without the text where one beyond shift makes it a chord.
pub open spec fn gives(
    key: Seq<char>,
    name: Seq<char>,
    text: Option<Seq<char>>,
    modifiers: Modifiers,
    code: Seq<char>,
    lower: Seq<char>,
    upper: Seq<char>,
) -> bool {
    keys::keystroke_given(modifiers, key, code, lower, upper) == KeystrokeView {
        modifiers,
        key: name,
        key_char: if modifiers.control || modifiers.alt || modifiers.platform
            || modifiers.function {
            None
        } else {
            text
        },
    }
}

/// Every key that the DOM names, by its name.
pub proof fn law_named_keys(
    modifiers: Modifiers,
    code: Seq<char>,
    lower: Seq<char>,
    upper: Seq<char>,
)
    ensures
        gives("ArrowLeft"@, "left"@, None, modifiers, code, lower, upper),
        gives("ArrowRight"@, "right"@, None, modifiers, code, lower, upper),
        gives("ArrowUp"@, "up"@, None, modifiers, code, lower, upper),
        gives("ArrowDown"@, "down"@, None, modifiers, code, lower, upper),
        gives("ContextMenu"@, "menu"@, None, modifiers, code, lower, upper),
        gives("Enter"@, "enter"@, Some("\n"@), modifiers, code, lower, upper),
        gives("Tab"@, "tab"@, Some("\t"@), modifiers, code, lower, upper),
        gives("Escape"@, "escape"@, None, modifiers, code, lower, upper),
        gives("Backspace"@, "backspace"@, None, modifiers, code, lower, upper),
        gives("Delete"@, "delete"@, None, modifiers, code, lower, upper),
        gives("PageUp"@, "pageup"@, None, modifiers, code, lower, upper),
        gives("PageDown"@, "pagedown"@, None, modifiers, code, lower, upper),
        gives("Home"@, "home"@, None, modifiers, code, lower, upper),
        gives("End"@, "end"@, None, modifiers, code, lower, upper),
        gives("Insert"@, "insert"@, None, modifiers, code, lower, upper),
{
    reveal_strlit(" ");
    reveal_strlit("ArrowLeft");
    reveal_strlit("ArrowRight");
    reveal_strlit("ArrowUp");
    reveal_strlit("ArrowDown");
    reveal_strlit("ContextMenu");
    reveal_strlit("Enter");
    reveal_strlit("Tab");
    reveal_strlit("Escape");
    reveal_strlit("Backspace");
    reveal_strlit("Delete");
    reveal_strlit("PageUp");
    reveal_strlit("PageDown");
    reveal_strlit("Home");
    reveal_strlit("End");
    reveal_strlit("Insert");
    assert(" "@.len() == 1);
    assert("ArrowLeft"@.len() == 9);
    assert("ArrowRight"@.len() == 10);
    assert("ArrowUp"@.len() == 7);
    assert("ArrowDown"@.len() == 9);
    assert("ContextMenu"@.len() == 11);
    assert("Enter"@.len() == 5);
    assert("Tab"@.len() == 3);
    assert("Escape"@.len() == 6);
    assert("Backspace"@.len() == 9);
    assert("Delete"@.len() == 6);
    assert("PageUp"@.len() == 6);
    assert("PageDown"@.len() == 8);
    assert("Home"@.len() == 4);
    assert("End"@.len() == 3);
    assert("Insert"@.len() == 6);
    assert("ArrowLeft"@[5] != "ArrowDown"@[5]);
    assert("ArrowLeft"@[0] != "Backspace"@[0]);
    assert("ArrowDown"@[0] != "Backspace"@[0]);
    assert("Tab"@[0] != "End"@[0]);
    assert("Escape"@[0] != "Delete"@[0]);
    assert("Escape"@[0] != "PageUp"@[0]);
    assert("Escape"@[0] != "Insert"@[0]);
    assert("Delete"@[0] != "PageUp"@[0]);
    assert("Delete"@[0] != "Insert"@[0]);
    assert("PageUp"@[0] != "Insert"@[0]);
}

/// The space bar has a name, and types a space where no modifier beyond shift is held.
pub proof fn law_space_bar(
    modifiers: Modifiers,
    code: Seq<char>,
    lower: Seq<char>,
    upper: Seq<char>,
)
    requires
        !modifiers.alt || modifiers.platform || code == "Space"@,
    ensures
        gives(" "@, "space"@, Some(" "@), modifiers, code, lower, upper),
{
    reveal_strlit(" ");
    reveal_strlit("Space");
    reveal_strlit("Key");
    reveal_strlit("Digit");
}

/// Whether the DOM's name of a key is one that the other backends write otherwise.
pub open spec fn has_another_name(key: Seq<char>) -> bool {
    key == " "@
        || key == "ArrowLeft"@
        || key == "ArrowRight"@
        || key == "ArrowUp"@
        || key == "ArrowDown"@
        || key == "ContextMenu"@
        || key == "Enter"@
        || key == "Tab"@
        || key == "Escape"@
        || key == "Backspace"@
        || key == "Delete"@
        || key == "PageUp"@
        || key == "PageDown"@
        || key == "Home"@
        || key == "End"@
        || key == "Insert"@
}

/// Every other key is named by its text in lower case. It types that text where it is a
/// single character and no modifier beyond shift is held, in upper case with shift. A key
/// that is only a name types nothing.
pub proof fn law_other_keys(
    modifiers: Modifiers,
    key: Seq<char>,
    code: Seq<char>,
    lower: Seq<char>,
    upper: Seq<char>,
)
    requires
        !has_another_name(key),
        !modifiers.alt || modifiers.platform || key.len() != 1,
    ensures
        gives(
            key,
            lower,
            if key.len() != 1 {
                None
            } else if modifiers.shift {
                Some(upper)
            } else {
                Some(lower)
            },
            modifiers,
            code,
            lower,
            upper,
        ),
{
}

/// Under alt, without command, a character of a physical key whose plain character is
/// known and differs has the plain one for its name, and types what the layout made of
/// it. Where it does not differ, or none is known, it is named like any other and types
/// nothing.
pub proof fn law_alt_keeps_the_plain_name(
    modifiers: Modifiers,
    key: Seq<char>,
    code: Seq<char>,
    lower: Seq<char>,
    upper: Seq<char>,
)
    requires
        modifiers.alt,
        !modifiers.platform,
        key.len() == 1,
    ensures
        keys::unmodified(code) matches Some(plain) ==> seq![plain] != (if key == " "@ {
            "space"@
        } else {
            lower
        })
            ==> keys::keystroke_given(modifiers, key, code, lower, upper) == (KeystrokeView {
            modifiers,
            key: seq![plain],
            key_char: Some(key),
        }),
        keys::unmodified(code) matches Some(plain) ==> seq![plain] == lower && key != " "@
            ==> keys::keystroke_given(modifiers, key, code, lower, upper) == (KeystrokeView {
            modifiers,
            key: lower,
            key_char: None,
        }),
        keys::unmodified(code) is None ==> keys::keystroke_given(
            modifiers,
            key,
            code,
            lower,
            upper,
        ) == (KeystrokeView {
            modifiers,
            key: if key == " "@ {
                "space"@
            } else {
                lower
            },
            key_char: None,
        }),
{
    reveal_strlit(" ");
    reveal_strlit("ArrowLeft");
    reveal_strlit("ArrowRight");
    reveal_strlit("ArrowUp");
    reveal_strlit("ArrowDown");
    reveal_strlit("ContextMenu");
    reveal_strlit("Enter");
    reveal_strlit("Tab");
    reveal_strlit("Escape");
    reveal_strlit("Backspace");
    reveal_strlit("Delete");
    reveal_strlit("PageUp");
    reveal_strlit("PageDown");
    reveal_strlit("Home");
    reveal_strlit("End");
    reveal_strlit("Insert");
    assert(" "@.len() == 1);
    assert("ArrowLeft"@.len() == 9);
    assert("ArrowRight"@.len() == 10);
    assert("ArrowUp"@.len() == 7);
    assert("ArrowDown"@.len() == 9);
    assert("ContextMenu"@.len() == 11);
    assert("Enter"@.len() == 5);
    assert("Tab"@.len() == 3);
    assert("Escape"@.len() == 6);
    assert("Backspace"@.len() == 9);
    assert("Delete"@.len() == 6);
    assert("PageUp"@.len() == 6);
    assert("PageDown"@.len() == 8);
    assert("Home"@.len() == 4);
    assert("End"@.len() == 3);
    assert("Insert"@.len() == 6);
    assert("ArrowLeft"@[5] != "ArrowDown"@[5]);
    assert("ArrowLeft"@[0] != "Backspace"@[0]);
    assert("ArrowDown"@[0] != "Backspace"@[0]);
    assert("Tab"@[0] != "End"@[0]);
    assert("Escape"@[0] != "Delete"@[0]);
    assert("Escape"@[0] != "PageUp"@[0]);
    assert("Escape"@[0] != "Insert"@[0]);
    assert("Delete"@[0] != "PageUp"@[0]);
    assert("Delete"@[0] != "Insert"@[0]);
    assert("PageUp"@[0] != "Insert"@[0]);
}

/// The letters and digits of the physical keyboard: the code "KeyA" stands for an "a",
/// and "Digit7" for a "7".
pub proof fn law_plain_characters(letter: char, number: char)
    requires
        'A' <= letter && letter <= 'Z',
        '0' <= number && number <= '9',
    ensures
        keys::unmodified("Key"@.push(letter)) is Some,
        keys::unmodified("Key"@.push(letter))->0 as u32 == letter as u32 + 32,
        keys::unmodified("Digit"@.push(number)) == Some(number),
{
    reveal_strlit("Key");
    reveal_strlit("Digit");
    assert("Key"@.push(letter).take(3) =~= "Key"@);
    assert("Digit"@.push(number).take(5) =~= "Digit"@);
}

/// No other code has a plain character.
pub proof fn law_other_codes_are_unknown(code: Seq<char>)
    requires
        keys::unmodified(code) is Some,
    ensures
        exists|last: char|
            #![trigger "Key"@.push(last)]
            (code == "Key"@.push(last) && 'A' <= last && last <= 'Z') || (code == "Digit"@.push(
                last,
            ) && '0' <= last && last <= '9'),
{
    reveal_strlit("Key");
    reveal_strlit("Digit");
    let last = code[code.len() - 1];
    if code.len() == 4 {
        assert(code =~= code.take(3).push(last));
        assert(code == "Key"@.push(last));
    } else {
        assert(code =~= code.take(5).push(last));
        let unused = "Key"@.push(last);
    }
}

/// A key is named by its own text in lower case, and shift types that again in upper case.
pub proof fn law_case(modifiers: Modifiers, key: Seq<char>, code: Seq<char>)
    ensures
        keys::keystroke_of(modifiers, key, code) == keys::keystroke_given(
            modifiers,
            key,
            code,
            text::lowercased(key),
            text::uppercased(text::lowercased(key)),
        ),
{
}

/// The lower case of an ASCII letter is 32 above its upper case, and everything else is
/// its own.
pub proof fn law_ascii_case(text: Seq<char>, index: int)
    requires
        0 <= index < text.len(),
    ensures
        ({
            let c = text[index];
            let lower = keys::ascii_lowercased(text)[index];
            let upper = keys::ascii_uppercased(text)[index];
            &&& keys::ascii_lowercased(text).len() == text.len()
            &&& keys::ascii_uppercased(text).len() == text.len()
            &&& 'A' <= c && c <= 'Z' ==> lower as u32 == c as u32 + 32 && upper == c
            &&& 'a' <= c && c <= 'z' ==> upper as u32 == c as u32 - 32 && lower == c
            &&& !('A' <= c && c <= 'Z') && !('a' <= c && c <= 'z') ==> lower == c && upper == c
        }),
{
}

/// The modifier keys, by name.
pub proof fn law_modifier_keys(key: Seq<char>)
    ensures
        keys::is_modifier("Shift"@),
        keys::is_modifier("Control"@),
        keys::is_modifier("Alt"@),
        keys::is_modifier("Meta"@),
        keys::is_modifier("CapsLock"@),
        key != "Shift"@ && key != "Control"@ && key != "Alt"@ && key != "Meta"@ && key
            != "CapsLock"@ ==> !keys::is_modifier(key),
{
}

} // verus!
