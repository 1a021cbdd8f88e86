//! What the edit actions, scenes, pasteboard and texts of the system come to.

use crate::clipboard;
use crate::clipboard::{ClipboardEntry, ImageFormat};
use crate::input::{KeystrokeView, Modifiers};
use crate::ios::edit;
use crate::ios::foundation;
use crate::ios::foundation::NSRange;
use crate::ios::menu;
use crate::ios::menu::{Keymap, Menu, OsAction, PreparedMenu};
use crate::ios::pasteboard;
use crate::ios::platform;
use crate::ios::platform::{PresentingWindow, SceneView, SceneWindow};
use crate::ios::text_input;
use vstd::prelude::*;

verus! {

/// A selector of the system stands for an edit action, and for the shortcut that an
/// application would know it by: a letter with command, and with shift for redo.
pub open spec fn edits(selector: Seq<char>, action: OsAction, key: Seq<char>, shift: bool) -> bool {
    &&& edit::action_of(selector) == Some(action)
    &&& edit::selector_name(action) == selector
    &&& edit::edit_keystroke(selector) == Some(
        KeystrokeView {
            modifiers: Modifiers {
                control: false,
                alt: false,
                shift,
                platform: true,
                function: false,
            },
            key,
            key_char: None,
        },
    )
}

/// The six edit actions, by selector; no other selector is one.
pub proof fn law_edit_actions(selector: Seq<char>)
    ensures
        edits("cut:"@, OsAction::Cut, "x"@, false),
        edits("copy:"@, OsAction::Copy, "c"@, false),
        edits("paste:"@, OsAction::Paste, "v"@, false),
        edits("selectAll:"@, OsAction::SelectAll, "a"@, false),
        edits("undo:"@, OsAction::Undo, "z"@, false),
        edits("redo:"@, OsAction::Redo, "z"@, true),
        selector != "cut:"@ && selector != "copy:"@
            && selector != "paste:"@ && selector != "selectAll:"@ && selector != "undo:"@
            && selector != "redo:"@
            ==> edit::action_of(selector) is None && edit::edit_keystroke(selector) is None,
        edit::selectors() == seq!["cut:"@, "copy:"@, "paste:"@, "selectAll:"@, "undo:"@, "redo:"@],
{
    reveal_strlit("cut:");
    reveal_strlit("copy:");
    reveal_strlit("paste:");
    reveal_strlit("selectAll:");
    reveal_strlit("undo:");
    reveal_strlit("redo:");
    assert("cut:"@.len() == 4);
    assert("copy:"@.len() == 5);
    assert("paste:"@.len() == 6);
    assert("selectAll:"@.len() == 10);
    assert("undo:"@.len() == 5);
    assert("redo:"@.len() == 5);
    assert("copy:"@[0] != "undo:"@[0]);
    assert("copy:"@[0] != "redo:"@[0]);
    assert("undo:"@[0] != "redo:"@[0]);
}

/// The shortcuts that the system reserves and the application claims back: command with Z,
/// X, C, V and A, and command and shift with Z.
pub proof fn law_reserved_shortcuts()
    ensures
        edit::reserved() == seq![
            ("z"@, 0x10_0000usize),
            ("z"@, 0x12_0000usize),
            ("x"@, 0x10_0000usize),
            ("c"@, 0x10_0000usize),
            ("v"@, 0x10_0000usize),
            ("a"@, 0x10_0000usize),
        ],
{
    assert(0x10_0000usize | 0x2_0000usize == 0x12_0000usize) by (bit_vector);
}

/// A window opened before the scene connects waits at the end of the queue; one opened
/// afterwards does not.
pub proof fn law_windows_wait_for_the_scene(state: SceneView, window: u64)
    ensures
        !state.connected ==> state.attached(window) == (SceneView {
            connected: false,
            pending: state.pending.push(window),
        }),
        state.connected ==> state.attached(window) == state,
{
}

/// The active window is the first that has the keyboard.
pub proof fn law_active_window(windows: Seq<SceneWindow>, index: int)
    requires
        0 <= index < windows.len(),
        windows[index].is_key,
        forall|k: int| 0 <= k < index ==> !(#[trigger] windows[k]).is_key,
    ensures
        platform::key_window(windows) == Some(windows[index].handle),
    decreases windows.len(),
{
    if index > 0 {
        let rest = windows.drop_first();
        assert(!windows[0].is_key);
        assert(rest[index - 1] == windows[index]);
        assert forall|k: int| 0 <= k < index - 1 implies !(#[trigger] rest[k]).is_key by {
            assert(rest[k] == windows[k + 1]);
        }
        law_active_window(rest, index - 1);
    }
}

/// There is none where no window has it.
pub proof fn law_no_active_window(windows: Seq<SceneWindow>)
    requires
        forall|k: int| 0 <= k < windows.len() ==> !(#[trigger] windows[k]).is_key,
    ensures
        platform::key_window(windows) is None,
    decreases windows.len(),
{
    if windows.len() > 0 {
        let rest = windows.drop_first();
        assert(!windows[0].is_key);
        assert forall|k: int| 0 <= k < rest.len() implies !(#[trigger] rest[k]).is_key by {
            assert(rest[k] == windows[k + 1]);
        }
        law_no_active_window(rest);
    }
}

/// What presents is the first window with a controller from a place on, and, where the
/// keyboard is asked for, the first of those that have it.
pub proof fn law_presenter(windows: Seq<PresentingWindow>, from: int, key: bool)
    requires
        0 <= from <= windows.len(),
    ensures
        match platform::presenter(windows, from, key) {
            Some(index) => from <= index < windows.len() && windows[index].has_controller && (key
                ==> windows[index].is_key) && forall|k: int|
                from <= k < index ==> !(#[trigger] windows[k]).has_controller || (key
                    && !windows[k].is_key),
            None => forall|k: int|
                from <= k < windows.len() ==> !(#[trigger] windows[k]).has_controller || (key
                    && !windows[k].is_key),
        },
    decreases windows.len() - from,
{
    if from < windows.len() {
        law_presenter(windows, from + 1, key);
    }
}

/// The screen's identifier is the text "gpui-ios-screen0", byte by byte.
pub proof fn law_screen_identifier(index: int)
    requires
        0 <= index < 16,
    ensures
        platform::screen_uuid().len() == 16,
        "gpui-ios-screen0"@.len() == 16,
        platform::screen_uuid()[index] == "gpui-ios-screen0"@[index] as u8,
{
    reveal_strlit("gpui-ios-screen0");
}

/// The actions of several menus are those of each, one after the other.
pub proof fn law_actions_of_menus(first: Seq<Menu>, second: Seq<Menu>, menu: Menu)
    ensures
        platform::all_actions(Seq::<Menu>::empty()).len() == 0,
        platform::all_actions(seq![menu]) == menu::menu_actions(menu.items@),
        platform::all_actions(first + second) == platform::all_actions(first)
            + platform::all_actions(second),
    decreases second.len(),
{
    reveal_with_fuel(platform::all_actions, 2);
    assert(seq![menu].drop_last() =~= Seq::<Menu>::empty());
    if second.len() == 0 {
        assert(first + second =~= first);
    } else {
        law_actions_of_menus(first, second.drop_last(), menu);
        assert((first + second).drop_last() =~= first + second.drop_last());
        assert(platform::all_actions(first + second) =~= platform::all_actions(first)
            + platform::all_actions(second));
    }
}

/// A prepared menu has the name of the described one, and its items as they are prepared.
pub proof fn law_prepared_menus(prepared: PreparedMenu, described: Menu, keymap: Keymap, base: nat)
    requires
        platform::is_prepared(prepared, described, keymap, base),
    ensures
        prepared.name@ == described.name@,
        menu::prepared_view(prepared.items@) == menu::prepare(described.items@, keymap, base),
{
}

/// A range is where it starts and how long it is, and one that ends before it starts is
/// empty. The location that is none is the largest signed number.
pub proof fn law_ranges(start: usize, end: usize, range: NSRange)
    ensures
        foundation::ns_range(start, end).location == start,
        start <= end ==> foundation::ns_range(start, end).length == end - start,
        end < start ==> foundation::ns_range(start, end).length == 0,
        range.is_somewhere() <==> range.location != isize::MAX as usize,
{
}

/// The directions of the text: right and down go forwards, left and up backwards, and
/// anything else stays.
pub proof fn law_directions(direction: isize, offset: isize)
    ensures
        text_input::directed(0, offset) == offset,
        text_input::directed(3, offset) == offset,
        text_input::directed(1, offset) == -offset,
        text_input::directed(2, offset) == -offset,
        direction < 0 || 3 < direction ==> text_input::directed(direction, offset) == 0,
{
}

/// A stored offset below zero counts as zero.
pub proof fn law_offsets(value: isize)
    ensures
        value >= 0 ==> text_input::not_negative(value) == value,
        value < 0 ==> text_input::not_negative(value) == 0,
{
}

/// A text is as long as its parts together: a character beyond the basic plane counts two
/// units, every other one.
pub proof fn law_text_units(first: Seq<char>, second: Seq<char>, c: char)
    ensures
        text_input::utf16_count(Seq::<char>::empty()) == 0,
        text_input::utf16_count(seq![c]) == if c as u32 >= 0x1_0000 {
            2nat
        } else {
            1
        },
        text_input::utf16_count(first + second) == text_input::utf16_count(first)
            + text_input::utf16_count(second),
    decreases second.len(),
{
    reveal_with_fuel(text_input::utf16_count, 2);
    assert(seq![c].drop_last() =~= Seq::<char>::empty());
    if second.len() == 0 {
        assert(first + second =~= first);
    } else {
        law_text_units(first, second.drop_last(), c);
        assert((first + second).drop_last() =~= first + second.drop_last());
    }
}

/// The types of images on the pasteboard.
pub proof fn law_image_types()
    ensures
        pasteboard::uti(ImageFormat::Png) == "public.png"@,
        pasteboard::uti(ImageFormat::Jpeg) == "public.jpeg"@,
        pasteboard::uti(ImageFormat::Gif) == "com.compuserve.gif"@,
        pasteboard::uti(ImageFormat::Webp) == "org.webmproject.webp"@,
        pasteboard::uti(ImageFormat::Bmp) == "com.microsoft.bmp"@,
        pasteboard::uti(ImageFormat::Svg) == "public.svg-image"@,
        pasteboard::uti(ImageFormat::Tiff) == "public.tiff"@,
        pasteboard::formats() == seq![
            ImageFormat::Png,
            ImageFormat::Jpeg,
            ImageFormat::Webp,
            ImageFormat::Gif,
            ImageFormat::Svg,
            ImageFormat::Bmp,
            ImageFormat::Tiff,
        ],
{
}

/// A text's metadata is kept where it carries a hash of eight bytes that is the text's
/// own, and reads as text.
pub proof fn law_metadata_is_checked(hash: Vec<u8>, text_hash: u64, metadata: Vec<u8>)
    ensures
        pasteboard::kept_metadata(None, text_hash, Some(metadata)) is None,
        pasteboard::kept_metadata(Some(hash), text_hash, None) is None,
        pasteboard::kept_metadata(Some(hash), text_hash, Some(metadata)) is Some <==> hash@.len()
            == 8 && crate::bytes::big_endian(hash@) == text_hash && vstd::utf8::valid_utf8(
            metadata@,
        ),
        pasteboard::kept_metadata(Some(hash), text_hash, Some(metadata)) is Some
            ==> pasteboard::kept_metadata(Some(hash), text_hash, Some(metadata)) == Some(
            vstd::utf8::decode_utf8(metadata@),
        ),
{
}

/// The text of a clipboard is the text of its entries one after the other; images have
/// none.
pub proof fn law_texts_concatenate(
    first: Seq<ClipboardEntry>,
    second: Seq<ClipboardEntry>,
    entry: ClipboardEntry,
)
    ensures
        clipboard::texts(Seq::<ClipboardEntry>::empty()) == Seq::<char>::empty(),
        clipboard::texts(seq![entry]) == match entry {
            ClipboardEntry::Text(string) => string.text@,
            ClipboardEntry::Image { format, bytes } => seq![],
        },
        clipboard::texts(first + second) == clipboard::texts(first) + clipboard::texts(second),
    decreases second.len(),
{
    reveal_with_fuel(clipboard::texts, 2);
    assert(seq![entry].drop_last() =~= Seq::<ClipboardEntry>::empty());
    if second.len() == 0 {
        assert(first + second =~= first);
    } else {
        law_texts_concatenate(first, second.drop_last(), entry);
        assert((first + second).drop_last() =~= first + second.drop_last());
        assert(clipboard::texts(first + second) =~= clipboard::texts(first) + clipboard::texts(
            second,
        ));
    }
}

} // verus!
