//! The standard edit actions. The system drives them itself: from its edit menu, and from
//! the shortcuts it reserves for them, which never arrive as presses. Each is answered with
//! the application's registered action where there is one, and otherwise as the keystroke
//! that a desktop would have delivered.

use crate::input;
use crate::input::{KeyDownEvent, Keystroke, KeystrokeView, Modifiers};
use crate::ios::events;
use crate::ios::events::{modifiers_from_flags, UI_KEY_MODIFIER_COMMAND, UI_KEY_MODIFIER_SHIFT};
use crate::ios::menu::OsAction;
use crate::text::same_text;
use vstd::prelude::*;

verus! {

/// The selector of an edit action.
pub open spec fn selector_name(action: OsAction) -> Seq<char> {
    match action {
        OsAction::Cut => "cut:"@,
        OsAction::Copy => "copy:"@,
        OsAction::Paste => "paste:"@,
        OsAction::SelectAll => "selectAll:"@,
        OsAction::Undo => "undo:"@,
        OsAction::Redo => "redo:"@,
    }
}

/// The edit action of a selector.
pub open spec fn action_of(selector: Seq<char>) -> Option<OsAction> {
    if selector == "cut:"@ {
        Some(OsAction::Cut)
    } else if selector == "copy:"@ {
        Some(OsAction::Copy)
    } else if selector == "paste:"@ {
        Some(OsAction::Paste)
    } else if selector == "selectAll:"@ {
        Some(OsAction::SelectAll)
    } else if selector == "undo:"@ {
        Some(OsAction::Undo)
    } else if selector == "redo:"@ {
        Some(OsAction::Redo)
    } else {
        None
    }
}

/// The selectors of the standard edit actions.
pub open spec fn selectors() -> Seq<Seq<char>> {
    seq![
        selector_name(OsAction::Cut),
        selector_name(OsAction::Copy),
        selector_name(OsAction::Paste),
        selector_name(OsAction::SelectAll),
        selector_name(OsAction::Undo),
        selector_name(OsAction::Redo),
    ]
}

pub fn standard_edit_selectors() -> (selectors: Vec<&'static str>)
    ensures
        selectors@.map_values(|selector: &'static str| selector@) == self::selectors(),
{
    let mut selectors: Vec<&'static str> = Vec::new();
    selectors.push("cut:");
    selectors.push("copy:");
    selectors.push("paste:");
    selectors.push("selectAll:");
    selectors.push("undo:");
    selectors.push("redo:");
    assert(selectors@.map_values(|selector: &'static str| selector@) =~= self::selectors());
    selectors
}

pub fn os_action_for_selector(selector: &str) -> (action: Option<OsAction>)
    ensures
        action == action_of(selector@),
{
    if same_text(selector, "cut:") {
        Some(OsAction::Cut)
    } else if same_text(selector, "copy:") {
        Some(OsAction::Copy)
    } else if same_text(selector, "paste:") {
        Some(OsAction::Paste)
    } else if same_text(selector, "selectAll:") {
        Some(OsAction::SelectAll)
    } else if same_text(selector, "undo:") {
        Some(OsAction::Undo)
    } else if same_text(selector, "redo:") {
        Some(OsAction::Redo)
    } else {
        None
    }
}

/// Whether a window answers a selector: it answers the standard edit actions.
pub fn can_perform_action(selector: &str) -> (can: bool)
    ensures
        can == (action_of(selector@) is Some),
{
    os_action_for_selector(selector).is_some()
}

/// Whether the application answers a selector: its own menu items always, an edit action
/// where the application has it and it is available.
pub fn delegate_can_perform_action(selector: &str, available: bool) -> (can: bool)
    ensures
        can == (selector@ == "handleGPUIMenuItem:"@ || (action_of(selector@) is Some && available)),
{
    if same_text(selector, "handleGPUIMenuItem:") {
        return true;
    }
    os_action_for_selector(selector).is_some() && available
}

/// The key of an edit action, pressed with command, and whether shift is held too.
pub open spec fn edit_key(action: OsAction) -> (Seq<char>, bool) {
    match action {
        OsAction::Cut => ("x"@, false),
        OsAction::Copy => ("c"@, false),
        OsAction::Paste => ("v"@, false),
        OsAction::SelectAll => ("a"@, false),
        OsAction::Undo => ("z"@, false),
        OsAction::Redo => ("z"@, true),
    }
}

pub open spec fn command_modifiers(shift: bool) -> Modifiers {
    Modifiers { control: false, alt: false, shift, platform: true, function: false }
}

pub open spec fn edit_keystroke(selector: Seq<char>) -> Option<KeystrokeView> {
    match action_of(selector) {
        Some(action) => Some(
            KeystrokeView {
                modifiers: command_modifiers(edit_key(action).1),
                key: edit_key(action).0,
                key_char: None,
            },
        ),
        None => None,
    }
}

pub fn keystroke_for_edit_selector(selector: &str) -> (keystroke: Option<Keystroke>)
    ensures
        input::keystroke_view(keystroke) == edit_keystroke(selector@),
{
    let (key, shift) = match os_action_for_selector(selector) {
        Some(OsAction::Cut) => ("x", false),
        Some(OsAction::Copy) => ("c", false),
        Some(OsAction::Paste) => ("v", false),
        Some(OsAction::SelectAll) => ("a", false),
        Some(OsAction::Undo) => ("z", false),
        Some(OsAction::Redo) => ("z", true),
        None => {
            return None;
        },
    };
    Some(
        Keystroke {
            modifiers: Modifiers { control: false, alt: false, shift, platform: true, function: false },
            key: key.to_owned(),
            key_char: None,
        },
    )
}

/// What a window does for an edit action.
#[derive(Debug, PartialEq, Eq)]
pub enum EditStep {
    /// The application's registered action is performed.
    Perform(OsAction),
    /// The event goes to the window's input callback.
    Dispatch(KeyDownEvent),
    Ignore,
}

/// Performs an edit action; `registered` says whether the application has an action for it.
pub fn perform_edit_action(selector: &str, registered: bool) -> (step: EditStep)
    ensures
        match action_of(selector@) {
            Some(action) => if registered {
                step == EditStep::Perform(action)
            } else {
                step matches EditStep::Dispatch(event) && !event.is_held && event.keystroke@
                    == edit_keystroke(selector@)->0
            },
            None => step is Ignore,
        },
{
    match os_action_for_selector(selector) {
        Some(action) => if registered {
            return EditStep::Perform(action);
        },
        None => {},
    }
    match keystroke_for_edit_selector(selector) {
        Some(keystroke) => EditStep::Dispatch(KeyDownEvent { keystroke, is_held: false }),
        None => EditStep::Ignore,
    }
}

/// The shortcuts that are claimed back from the system, as keys and modifier flags.
pub open spec fn reserved() -> Seq<(Seq<char>, usize)> {
    let command = UI_KEY_MODIFIER_COMMAND;
    let with_shift = UI_KEY_MODIFIER_COMMAND | UI_KEY_MODIFIER_SHIFT;
    seq![
        ("z"@, command),
        ("z"@, with_shift),
        ("x"@, command),
        ("c"@, command),
        ("v"@, command),
        ("a"@, command),
    ]
}

pub fn reserved_key_commands() -> (commands: Vec<(&'static str, usize)>)
    ensures
        commands@.map_values(|command: (&'static str, usize)| (command.0@, command.1)) == reserved(),
{
    let command: usize = UI_KEY_MODIFIER_COMMAND;
    let with_shift: usize = UI_KEY_MODIFIER_COMMAND | UI_KEY_MODIFIER_SHIFT;
    let mut commands: Vec<(&'static str, usize)> = Vec::new();
    commands.push(("z", command));
    commands.push(("z", with_shift));
    commands.push(("x", command));
    commands.push(("c", command));
    commands.push(("v", command));
    commands.push(("a", command));
    assert(commands@.map_values(|command: (&'static str, usize)| (command.0@, command.1))
        =~= reserved());
    commands
}

/// A claimed shortcut is replayed as the keystroke it is.
pub fn handle_reserved_shortcut(key: String, flags: usize) -> (event: KeyDownEvent)
    ensures
        !event.is_held,
        event.keystroke@ == (KeystrokeView {
            modifiers: events::flag_modifiers(flags),
            key: key@,
            key_char: None,
        }),
{
    KeyDownEvent {
        keystroke: Keystroke { modifiers: modifiers_from_flags(flags), key, key_char: None },
        is_held: false,
    }
}

/// Whether the edit menu has anything to offer: one of its four actions is available.
pub fn edit_menu_available(cut: bool, copy: bool, paste: bool, select_all: bool) -> (available: bool)
    ensures
        available == (cut || copy || paste || select_all),
{
    cut || copy || paste || select_all
}

/// Each edit action is found by its own selector.
pub proof fn law_selectors_are_distinct(action: OsAction)
    ensures
        action_of(selector_name(action)) == Some(action),
{
    reveal_strlit("cut:");
    reveal_strlit("copy:");
    reveal_strlit("paste:");
    reveal_strlit("selectAll:");
    reveal_strlit("undo:");
    reveal_strlit("redo:");
    assert("cut:"@.len() == 4);
    assert("copy:"@.len() == 5 && "undo:"@.len() == 5 && "redo:"@.len() == 5);
    assert("paste:"@.len() == 6);
    assert("selectAll:"@.len() == 10);
    assert("undo:"@[0] != "copy:"@[0]);
    assert("undo:"@[0] != "redo:"@[0]);
    assert("copy:"@[0] != "redo:"@[0]);
}

/// Every shortcut that the system reserves for an edit action is claimed back, with the
/// modifiers of the keystroke that stands for the action.
pub proof fn law_every_edit_key_is_claimed(action: OsAction)
    ensures
        exists|i: int|
            0 <= i < reserved().len() && (#[trigger] reserved()[i]).0 == edit_key(action).0
                && events::flag_modifiers(reserved()[i].1) == command_modifiers(edit_key(action).1),
{
    assert(0x10_0000usize & 0x10_0000usize != 0 && 0x10_0000usize & 0x4_0000usize == 0
        && 0x10_0000usize & 0x8_0000usize == 0 && 0x10_0000usize & 0x2_0000usize == 0) by (bit_vector);
    assert((0x10_0000usize | 0x2_0000usize) & 0x10_0000usize != 0 && (0x10_0000usize | 0x2_0000usize)
        & 0x4_0000usize == 0 && (0x10_0000usize | 0x2_0000usize) & 0x8_0000usize == 0 && (
    0x10_0000usize | 0x2_0000usize) & 0x2_0000usize != 0) by (bit_vector);
    let i: int = match action {
        OsAction::Undo => 0,
        OsAction::Redo => 1,
        OsAction::Cut => 2,
        OsAction::Copy => 3,
        OsAction::Paste => 4,
        OsAction::SelectAll => 5,
    };
    assert(reserved()[i].0 == edit_key(action).0);
}

} // verus!
