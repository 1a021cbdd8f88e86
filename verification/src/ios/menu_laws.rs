//! What holds of every menu.

use crate::input::Keystroke;
use crate::ios::events;
use crate::ios::menu;
use crate::ios::menu::{
    Binding, ElementView, KeyInputView, Keymap, MenuBarStepView, MenuItem, OsAction, PreparedMenu,
    PreparedView,
};
use crate::text;
use vstd::prelude::*;

verus! {

/// The numbers that an item's actions carry.
pub open spec fn item_indices(item: PreparedView) -> Seq<nat>
    decreases item,
{
    match item {
        PreparedView::Action { name, index, os_action, key } => seq![index],
        PreparedView::Submenu { name, items } => prepared_indices(items),
        PreparedView::Separator => seq![],
    }
}

/// The numbers that the actions of a prepared menu carry, in the order in which they
/// stand.
pub open spec fn prepared_indices(items: Seq<PreparedView>) -> Seq<nat>
    decreases items,
{
    if items.len() == 0 {
        seq![]
    } else {
        prepared_indices(items.drop_last()) + item_indices(items.last())
    }
}

pub open spec fn count_from(base: nat, count: nat) -> Seq<nat> {
    Seq::new(count, |i: int| (base + i) as nat)
}

/// The actions of a menu are numbered one after the other in the order in which they
/// stand, so the number that a command carries finds its own action again.
pub proof fn law_actions_are_numbered(items: Seq<MenuItem>, keymap: Keymap, base: nat)
    ensures
        prepared_indices(menu::prepare(items, keymap, base)) == count_from(
            base,
            menu::menu_actions(items).len(),
        ),
    decreases items,
{
    if items.len() > 0 {
        let last = items.last();
        let seen = menu::menu_actions(items.drop_last());
        let before = menu::prepare(items.drop_last(), keymap, base);
        let next = base + seen.len();
        law_actions_are_numbered(items.drop_last(), keymap, base);
        let item = menu::prepare_item(last, keymap, next);
        match last {
            MenuItem::Submenu(inner) => {
                law_actions_are_numbered(inner.items@, keymap, next);
                assert(item_indices(item->0) == count_from(
                    next,
                    menu::item_actions(last).len(),
                ));
            },
            MenuItem::Action { name, action, os_action } => {
                assert(item_indices(item->0) =~= count_from(next, 1));
            },
            MenuItem::Separator => {
                assert(item_indices(item->0) =~= count_from(next, 0));
            },
            MenuItem::SystemMenu => {},
        }
        if item is Some {
            assert(before.push(item->0).drop_last() =~= before);
        }
        assert(count_from(base, seen.len()) + count_from(next, menu::item_actions(last).len())
            =~= count_from(base, menu::menu_actions(items).len()));
        assert(count_from(next, 0) =~= Seq::<nat>::empty());
        assert(prepared_indices(before) + Seq::<nat>::empty() =~= prepared_indices(before));
    } else {
        assert(count_from(base, 0) =~= Seq::<nat>::empty());
    }
}

/// The rows of a context menu are numbered the same way: row after row, action after
/// action.
pub proof fn law_rows_are_numbered(items: Seq<MenuItem>, prefix: Seq<char>, base: nat)
    ensures
        menu::menu_rows(items, prefix, base).len() == menu::menu_actions(items).len(),
        forall|i: int|
            0 <= i < menu::menu_rows(items, prefix, base).len() ==> (#[trigger] menu::menu_rows(
                items,
                prefix,
                base,
            )[i]).1 == base + i,
    decreases items,
{
    if items.len() > 0 {
        let last = items.last();
        let seen = menu::menu_actions(items.drop_last());
        law_rows_are_numbered(items.drop_last(), prefix, base);
        if let MenuItem::Submenu(inner) = last {
            law_rows_are_numbered(
                inner.items@,
                prefix + inner.name@ + " \u{25b8} "@,
                base + seen.len(),
            );
        }
        let before = menu::menu_rows(items.drop_last(), prefix, base);
        let rows = menu::item_rows(last, prefix, base + seen.len());
        assert(rows.len() == menu::item_actions(last).len());
        assert(menu::menu_rows(items, prefix, base) =~= before + rows);
        assert forall|i: int| 0 <= i < rows.len() implies (#[trigger] rows[i]).1 == base + seen.len()
            + i by {}
    }
}

/// The type of a quick action finds its own action again.
pub proof fn law_shortcut_finds_its_action(items: Seq<MenuItem>, actions: Seq<u64>, index: int)
    requires
        actions.len() == menu::shortcuts(items).len(),
        actions.len() <= usize::MAX,
        0 <= index < actions.len(),
        forall|i: int|
            0 <= i < actions.len() ==> #[trigger] actions[i] == menu::shortcuts(items)[i].2,
    ensures
        menu::shortcut_action(menu::shortcuts(items)[index].0, actions) == Some(
            menu::shortcuts(items)[index].2,
        ),
{
    lemma_shortcut_type(items, index);
    let kind = menu::shortcuts(items)[index].0;
    let prefix = "gpui.dock."@;
    assert(kind.take(prefix.len() as int) =~= prefix);
    assert(kind.skip(prefix.len() as int) =~= text::decimal(index as nat));
    text::law_decimal_parses_back(index as nat, usize::MAX as nat);
}

proof fn lemma_shortcut_type(items: Seq<MenuItem>, index: int)
    requires
        0 <= index < menu::shortcuts(items).len(),
    ensures
        menu::shortcuts(items)[index].0 == menu::shortcut_type(index as nat),
    decreases items.len(),
{
    if index < menu::shortcuts(items.drop_last()).len() {
        lemma_shortcut_type(items.drop_last(), index);
    }
}

/// The action registered for an edit action is one that was declared to stand for it.
pub proof fn law_registered_action_is_declared(
    actions: Seq<(u64, Option<OsAction>)>,
    os_action: OsAction,
)
    requires
        actions.len() <= usize::MAX,
    ensures
        match menu::registered(menu::os_indices(actions, 0), os_action) {
            Some(index) => index < actions.len() && actions[index as int].1 == Some(os_action),
            None => forall|i: int|
                0 <= i < actions.len() ==> (#[trigger] actions[i]).1 != Some(os_action),
        },
{
    lemma_os_indices(actions);
    let entries = menu::os_indices(actions, 0);
    lemma_registered(entries, os_action);
    if menu::registered(entries, os_action) is None {
        assert forall|i: int| 0 <= i < actions.len() implies (#[trigger] actions[i]).1 != Some(
            os_action,
        ) by {
            if actions[i].1 == Some(os_action) {
                lemma_os_indices_complete(actions, i);
                let k = choose|k: int|
                    0 <= k < entries.len() && entries[k] == (os_action, i as usize);
                assert(entries[k].0 == os_action);
            }
        }
    }
}

proof fn lemma_registered(entries: Seq<(OsAction, usize)>, os_action: OsAction)
    ensures
        match menu::registered(entries, os_action) {
            Some(index) => entries.contains((os_action, index)),
            None => forall|k: int| 0 <= k < entries.len() ==> (#[trigger] entries[k]).0 != os_action,
        },
    decreases entries.len(),
{
    if entries.len() > 0 {
        if entries[0].0 == os_action {
            assert(entries[0] == (os_action, entries[0].1));
        } else {
            let rest = entries.drop_first();
            lemma_registered(rest, os_action);
            match menu::registered(rest, os_action) {
                Some(index) => {
                    let k = choose|k: int| 0 <= k < rest.len() && rest[k] == (os_action, index);
                    assert(entries[k + 1] == (os_action, index));
                },
                None => {
                    assert forall|k: int| 0 <= k < entries.len() implies (#[trigger] entries[k]).0
                        != os_action by {
                        if k > 0 {
                            assert(rest[k - 1] == entries[k]);
                        }
                    }
                },
            }
        }
    }
}

proof fn lemma_os_indices(actions: Seq<(u64, Option<OsAction>)>)
    requires
        actions.len() <= usize::MAX,
    ensures
        forall|k: int|
            0 <= k < menu::os_indices(actions, 0).len() ==> {
                let entry = #[trigger] menu::os_indices(actions, 0)[k];
                entry.1 < actions.len() && actions[entry.1 as int].1 == Some(entry.0)
            },
    decreases actions.len(),
{
    if actions.len() > 0 {
        let before = menu::os_indices(actions.drop_last(), 0);
        lemma_os_indices(actions.drop_last());
        let all = menu::os_indices(actions, 0);
        assert forall|k: int| 0 <= k < all.len() implies (#[trigger] all[k]).1 < actions.len()
            && actions[all[k].1 as int].1 == Some(all[k].0) by {
            if k < before.len() {
                assert(all[k] == before[k]);
                assert(actions.drop_last()[before[k].1 as int] == actions[before[k].1 as int]);
            }
        }
    }
}

proof fn lemma_os_indices_complete(actions: Seq<(u64, Option<OsAction>)>, i: int)
    requires
        actions.len() <= usize::MAX,
        0 <= i < actions.len(),
        actions[i].1 is Some,
    ensures
        menu::os_indices(actions, 0).contains((actions[i].1->0, i as usize)),
    decreases actions.len(),
{
    let all = menu::os_indices(actions, 0);
    let before = menu::os_indices(actions.drop_last(), 0);
    if i == actions.len() - 1 {
        assert(all[all.len() - 1] == (actions[i].1->0, i as usize));
    } else {
        lemma_os_indices_complete(actions.drop_last(), i);
        let k = choose|k: int|
            0 <= k < before.len() && before[k] == (actions[i].1->0, i as usize);
        assert(all[k] == before[k]);
    }
}

/// What the application menu gains from the steps, from its start on.
pub open spec fn application_items(steps: Seq<MenuBarStepView>) -> Seq<ElementView>
    decreases steps.len(),
{
    if steps.len() == 0 {
        seq![]
    } else {
        let before = application_items(steps.drop_last());
        match steps.last() {
            MenuBarStepView::InsertFirst(element) => seq![element] + before,
            MenuBarStepView::InsertAfter { menu, after } => before,
        }
    }
}

/// The elements of the first menu stand at the start of the application menu, in their
/// own order.
pub proof fn law_first_menu_joins_application(menus: Seq<PreparedMenu>)
    requires
        menus.len() > 0,
    ensures
        application_items(menu::bar_steps(menus)) == menu::built(
            menu::prepared_view(menus[0].items@),
            menu::menu_identifier(0),
        ),
    decreases menus.len(),
{
    if menus.len() == 1 {
        lemma_insert_all(
            menu::built(menu::prepared_view(menus[0].items@), menu::menu_identifier(0)),
        );
    } else {
        law_first_menu_joins_application(menus.drop_last());
        let steps = menu::bar_steps(menus);
        assert(steps.drop_last() =~= menu::bar_steps(menus.drop_last()));
    }
}

proof fn lemma_insert_all(elements: Seq<ElementView>)
    ensures
        application_items(
            elements.reverse().map_values(
                |element: ElementView| MenuBarStepView::InsertFirst(element),
            ),
        ) == elements,
    decreases elements.len(),
{
    let first = |element: ElementView| MenuBarStepView::InsertFirst(element);
    let steps = elements.reverse().map_values(first);
    if elements.len() == 0 {
        assert(steps =~= Seq::<MenuBarStepView>::empty());
    } else {
        let rest = elements.drop_first();
        lemma_insert_all(rest);
        assert(steps.drop_last() =~= rest.reverse().map_values(first));
        assert(seq![elements[0]] + rest =~= elements);
    }
}

proof fn lemma_bar_length(menus: Seq<PreparedMenu>)
    requires
        menus.len() > 0,
    ensures
        menu::bar_steps(menus).len() >= menus.len() - 1,
    decreases menus.len(),
{
    if menus.len() > 1 {
        lemma_bar_length(menus.drop_last());
    }
}

/// Every other menu stands after the one before it, and no two have one identifier.
pub proof fn law_menus_stand_in_order(menus: Seq<PreparedMenu>, index: int, other: int)
    requires
        1 <= index < menus.len(),
        1 <= other < menus.len(),
    ensures
        menu::menu_identifier(index as nat) == menu::menu_identifier(other as nat) ==> index == other,
        ({
            let steps = menu::bar_steps(menus);
            let step = steps[steps.len() - menus.len() + index];
            step matches MenuBarStepView::InsertAfter { menu: inserted, after } && (inserted
                matches ElementView::Menu { title, identifier, inline, children } && identifier
                == menu::menu_identifier(index as nat) && title == menus[index].name@ && after
                == if index == 1 {
                None
            } else {
                Some(menu::menu_identifier((index - 1) as nat))
            })
        }),
    decreases menus.len(),
{
    if menu::menu_identifier(index as nat) == menu::menu_identifier(other as nat) {
        let prefix = "gpui.menu."@;
        assert(menu::menu_identifier(index as nat).skip(prefix.len() as int) =~= text::decimal(
            index as nat,
        ));
        assert(menu::menu_identifier(other as nat).skip(prefix.len() as int) =~= text::decimal(
            other as nat,
        ));
        text::law_decimal_is_injective(index as nat, other as nat);
    }
    lemma_bar_length(menus.drop_last());
    if index < menus.len() - 1 {
        law_menus_stand_in_order(menus.drop_last(), index, 1);
        let steps = menu::bar_steps(menus);
        assert(steps.drop_last() =~= menu::bar_steps(menus.drop_last()));
    }
}

/// The flags of a key command, read bit by bit, are the modifiers of the keystroke that is
/// bound: command, control, alt and shift each have their own bit, and no other bit is
/// set.
pub proof fn law_flags_are_the_modifiers(keystroke: Keystroke)
    ensures
        ({
            let flags = menu::flags_of(keystroke);
            &&& flags & 0x10_0000 != 0 <==> keystroke.modifiers.platform
            &&& flags & 0x4_0000 != 0 <==> keystroke.modifiers.control
            &&& flags & 0x8_0000 != 0 <==> keystroke.modifiers.alt
            &&& flags & 0x2_0000 != 0 <==> keystroke.modifiers.shift
            &&& flags & !(0x1e_0000usize) == 0
        }),
{
    let p = if keystroke.modifiers.platform {
        0x10_0000usize
    } else {
        0
    };
    let c = if keystroke.modifiers.control {
        0x4_0000usize
    } else {
        0
    };
    let a = if keystroke.modifiers.alt {
        0x8_0000usize
    } else {
        0
    };
    let s = if keystroke.modifiers.shift {
        0x2_0000usize
    } else {
        0
    };
    assert({
        let flags = p | c | a | s;
        &&& flags & 0x10_0000 == p
        &&& flags & 0x4_0000 == c
        &&& flags & 0x8_0000 == a
        &&& flags & 0x2_0000 == s
        &&& flags & !(0x1e_0000usize) == 0
    }) by (bit_vector)
        requires
            p == 0 || p == 0x10_0000,
            c == 0 || c == 0x4_0000,
            a == 0 || a == 0x8_0000,
            s == 0 || s == 0x2_0000,
    ;
}

/// The flags, read back as the keyboard reports them, are the command, control, alt and
/// shift of the keystroke, so keystrokes that differ in one of the four have different
/// flags.
pub proof fn law_flags_read_back(keystroke: Keystroke, other: Keystroke)
    ensures
        ({
            let read = events::flag_modifiers(menu::flags_of(keystroke));
            let held = keystroke.modifiers;
            let those = other.modifiers;
            &&& read.platform == held.platform
            &&& read.control == held.control
            &&& read.alt == held.alt
            &&& read.shift == held.shift
            &&& menu::flags_of(keystroke) == menu::flags_of(other) <==> held.platform
                == those.platform && held.control == those.control && held.alt == those.alt
                && held.shift == those.shift
        }),
{
    law_flags_are_the_modifiers(keystroke);
    law_flags_are_the_modifiers(other);
}

proof fn lemma_first_binding(bindings: Seq<Binding>, action: u64, applying: bool, index: int)
    requires
        0 <= index < bindings.len(),
        bindings[index].action == action,
        applying ==> bindings[index].applies,
        forall|k: int|
            0 <= k < index ==> (#[trigger] bindings[k]).action != action || (applying
                && !bindings[k].applies),
    ensures
        menu::first_binding(bindings, action, applying) == Some(bindings[index]),
    decreases bindings.len(),
{
    if index > 0 {
        let rest = bindings.drop_first();
        assert(bindings[0].action != action || (applying && !bindings[0].applies));
        assert(rest[index - 1] == bindings[index]);
        assert forall|k: int| 0 <= k < index - 1 implies (#[trigger] rest[k]).action != action || (
        applying && !rest[k].applies) by {
            assert(rest[k] == bindings[k + 1]);
        }
        lemma_first_binding(rest, action, applying, index - 1);
    }
}

proof fn lemma_no_binding(bindings: Seq<Binding>, action: u64, applying: bool)
    requires
        forall|k: int|
            0 <= k < bindings.len() ==> (#[trigger] bindings[k]).action != action || (applying
                && !bindings[k].applies),
    ensures
        menu::first_binding(bindings, action, applying) is None,
    decreases bindings.len(),
{
    if bindings.len() > 0 {
        let rest = bindings.drop_first();
        assert(bindings[0].action != action || (applying && !bindings[0].applies));
        assert forall|k: int| 0 <= k < rest.len() implies (#[trigger] rest[k]).action != action || (
        applying && !rest[k].applies) by {
            assert(rest[k] == bindings[k + 1]);
        }
        lemma_no_binding(rest, action, applying);
    }
}

/// The binding shown for an action is the first of its bindings that applies. Where none
/// applies it is the first of them all, and where it has none there is none to show.
pub proof fn law_first_applying_binding_is_shown(keymap: Keymap, action: u64, index: int)
    requires
        -1 <= index < keymap.bindings@.len(),
    ensures
        index >= 0 && keymap.bindings@[index].action == action && keymap.bindings@[index].applies
            && (forall|k: int|
            0 <= k < index ==> (#[trigger] keymap.bindings@[k]).action != action
                || !keymap.bindings@[k].applies) ==> keymap.shown(action) == Some(
            keymap.bindings@[index],
        ),
        index >= 0 && keymap.bindings@[index].action == action && (forall|k: int|
            0 <= k < keymap.bindings@.len() ==> (#[trigger] keymap.bindings@[k]).action != action
                || !keymap.bindings@[k].applies) && (forall|k: int|
            0 <= k < index ==> (#[trigger] keymap.bindings@[k]).action != action) ==> keymap.shown(
            action,
        ) == Some(keymap.bindings@[index]),
        (forall|k: int|
            0 <= k < keymap.bindings@.len() ==> (#[trigger] keymap.bindings@[k]).action != action)
            ==> keymap.shown(action) is None,
{
    let all = keymap.bindings@;
    if index >= 0 && all[index].action == action && all[index].applies && (forall|k: int|
        0 <= k < index ==> (#[trigger] all[k]).action != action || !all[k].applies) {
        lemma_first_binding(all, action, true, index);
    }
    if forall|k: int|
        0 <= k < all.len() ==> (#[trigger] all[k]).action != action || !all[k].applies {
        lemma_no_binding(all, action, true);
        if index >= 0 && all[index].action == action && (forall|k: int|
            0 <= k < index ==> (#[trigger] all[k]).action != action) {
            lemma_first_binding(all, action, false, index);
        }
    }
    if forall|k: int| 0 <= k < all.len() ==> (#[trigger] all[k]).action != action {
        lemma_no_binding(all, action, true);
        lemma_no_binding(all, action, false);
    }
}

/// Where the first applying binding of an action is a single keystroke, the item has a key
/// command: its flags are that keystroke's modifiers, and it listens for that keystroke's
/// key, which is one of the system's own or its text. A longer binding makes none.
pub proof fn law_key_command_is_the_binding(keymap: Keymap, action: u64, index: int)
    requires
        0 <= index < keymap.bindings@.len(),
        keymap.bindings@[index].action == action,
        keymap.bindings@[index].applies,
        forall|k: int|
            0 <= k < index ==> (#[trigger] keymap.bindings@[k]).action != action
                || !keymap.bindings@[k].applies,
    ensures
        ({
            let keystrokes = keymap.bindings@[index].keystrokes@;
            let keystroke = keystrokes[0];
            let command = menu::command_of(keymap, action);
            let flags = command->0.flags;
            &&& command is Some <==> keystrokes.len() == 1
            &&& command is Some ==> {
                &&& flags & 0x10_0000 != 0 <==> keystroke.modifiers.platform
                &&& flags & 0x4_0000 != 0 <==> keystroke.modifiers.control
                &&& flags & 0x8_0000 != 0 <==> keystroke.modifiers.alt
                &&& flags & 0x2_0000 != 0 <==> keystroke.modifiers.shift
                &&& flags & !(0x1e_0000usize) == 0
                &&& command->0.input == match events::system_key(keystroke.key@) {
                    Some(key) => KeyInputView::System(key),
                    None => KeyInputView::Text(events::key_text(keystroke.key@)),
                }
            }
        }),
{
    law_first_applying_binding_is_shown(keymap, action, index);
    law_flags_are_the_modifiers(keymap.bindings@[index].keystrokes@[0]);
}

} // verus!
