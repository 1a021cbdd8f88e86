//! What becomes of each item of a menu.

use crate::ios::menu;
use crate::ios::menu::{
    ElementView, Groups, KeyInputView, Keymap, MenuBarStepView, MenuElement, MenuItem,
    MenuSelector, OsAction, PreparedItem, PreparedMenu, PreparedView,
};
use crate::text;
use vstd::prelude::*;

verus! {

/// The actions of a menu are those of its items one after the other: an action is one, a
/// submenu has those of its own items, and nothing else has any.
pub proof fn law_actions_concatenate(first: Seq<MenuItem>, second: Seq<MenuItem>, item: MenuItem)
    ensures
        menu::menu_actions(Seq::<MenuItem>::empty()) == Seq::<(u64, Option<OsAction>)>::empty(),
        menu::menu_actions(first + second) == menu::menu_actions(first) + menu::menu_actions(
            second,
        ),
        menu::menu_actions(seq![item]) == match item {
            MenuItem::Action { name, action, os_action } => seq![(action, os_action)],
            MenuItem::Submenu(inner) => menu::menu_actions(inner.items@),
            MenuItem::Separator => seq![],
            MenuItem::SystemMenu => seq![],
        },
    decreases second.len(),
{
    let one = seq![item];
    reveal_with_fuel(menu::menu_actions, 3);
    reveal_with_fuel(menu::item_actions, 3);
    assert(one.drop_last() =~= Seq::<MenuItem>::empty());
    assert(menu::menu_actions(one) =~= menu::item_actions(item));
    if second.len() == 0 {
        assert(first + second =~= first);
    } else {
        law_actions_concatenate(first, second.drop_last(), item);
        assert((first + second).drop_last() =~= first + second.drop_last());
        assert(menu::menu_actions(first + second) =~= menu::menu_actions(first)
            + menu::menu_actions(second));
    }
}

/// A menu is prepared item by item, and the numbers of a later part go on where those of
/// the earlier part ended.
pub proof fn law_preparing_concatenates(
    first: Seq<MenuItem>,
    second: Seq<MenuItem>,
    keymap: Keymap,
    base: nat,
)
    ensures
        menu::prepare(Seq::<MenuItem>::empty(), keymap, base) == Seq::<PreparedView>::empty(),
        menu::prepare(first + second, keymap, base) == menu::prepare(first, keymap, base)
            + menu::prepare(second, keymap, base + menu::menu_actions(first).len()),
    decreases second.len(),
{
    if second.len() == 0 {
        assert(first + second =~= first);
    } else {
        law_preparing_concatenates(first, second.drop_last(), keymap, base);
        law_actions_concatenate(first, second.drop_last(), second.last());
        assert((first + second).drop_last() =~= first + second.drop_last());
        assert((first + second).last() == second.last());
        assert(menu::prepare(first + second, keymap, base) =~= menu::prepare(first, keymap, base)
            + menu::prepare(second, keymap, base + menu::menu_actions(first).len()));
    }
}

/// A single item is prepared as what it is: a separator, an action with its own name,
/// number, edit action and key command, or a submenu with its own name and items. A menu
/// of the system's own is left out.
pub proof fn law_prepared_items(item: MenuItem, keymap: Keymap, base: nat)
    ensures
        menu::prepare(seq![item], keymap, base) == match item {
            MenuItem::Separator => seq![PreparedView::Separator],
            MenuItem::Action { name, action, os_action } => seq![
                PreparedView::Action {
                    name: name@,
                    index: base,
                    os_action,
                    key: menu::command_of(keymap, action),
                },
            ],
            MenuItem::Submenu(inner) => seq![
                PreparedView::Submenu {
                    name: inner.name@,
                    items: menu::prepare(inner.items@, keymap, base),
                },
            ],
            MenuItem::SystemMenu => seq![],
        },
{
    let one = seq![item];
    reveal_with_fuel(menu::prepare, 3);
    reveal_with_fuel(menu::prepare_item, 3);
    assert(one.drop_last() =~= Seq::<MenuItem>::empty());
    law_actions_concatenate(seq![], seq![], item);
    assert(menu::menu_actions(one.drop_last()).len() == 0);
}

/// The numbers of a menu's edit actions are their places among its actions, counted on
/// from `base`.
proof fn lemma_os_indices_concatenate(
    first: Seq<(u64, Option<OsAction>)>,
    second: Seq<(u64, Option<OsAction>)>,
    base: nat,
)
    ensures
        menu::os_indices(first + second, base) == menu::os_indices(first, base) + menu::os_indices(
            second,
            base + first.len(),
        ),
    decreases second.len(),
{
    if second.len() == 0 {
        assert(first + second =~= first);
        assert(menu::os_indices(first, base) + seq![] =~= menu::os_indices(first, base));
    } else {
        lemma_os_indices_concatenate(first, second.drop_last(), base);
        assert((first + second).drop_last() =~= first + second.drop_last());
        assert((first + second).last() == second.last());
        assert(menu::os_indices(first + second, base) =~= menu::os_indices(first, base)
            + menu::os_indices(second, base + first.len()));
    }
}

proof fn lemma_registered_later(
    first: Seq<(OsAction, usize)>,
    second: Seq<(OsAction, usize)>,
    os_action: OsAction,
)
    ensures
        menu::registered(first + second, os_action) == match menu::registered(first, os_action) {
            Some(index) => Some(index),
            None => menu::registered(second, os_action),
        },
    decreases first.len(),
{
    if first.len() == 0 {
        assert(first + second =~= second);
    } else {
        assert((first + second)[0] == first[0]);
        assert((first + second).drop_first() =~= first.drop_first() + second);
        lemma_registered_later(first.drop_first(), second, os_action);
    }
}

proof fn lemma_unregistered(actions: Seq<(u64, Option<OsAction>)>, base: nat, os_action: OsAction)
    requires
        forall|k: int| 0 <= k < actions.len() ==> (#[trigger] actions[k]).1 != Some(os_action),
    ensures
        menu::registered(menu::os_indices(actions, base), os_action) is None,
    decreases actions.len(),
{
    if actions.len() > 0 {
        let rest = actions.drop_last();
        assert forall|k: int| 0 <= k < rest.len() implies (#[trigger] rest[k]).1 != Some(
            os_action,
        ) by {
            assert(rest[k] == actions[k]);
        }
        lemma_unregistered(rest, base, os_action);
        assert(actions.last() == actions[actions.len() - 1]);
        if actions.last().1 is Some {
            let entry = (actions.last().1->0, (base + actions.len() - 1) as usize);
            lemma_registered_later(menu::os_indices(rest, base), seq![entry], os_action);
            reveal_with_fuel(menu::registered, 2);
            assert(seq![entry].drop_first() =~= Seq::<(OsAction, usize)>::empty());
            assert(menu::os_indices(actions, base) =~= menu::os_indices(rest, base) + seq![entry]);
        }
    }
}

/// The action that stands for an edit action is the first that was declared for it.
pub proof fn law_first_declared_action_is_registered(
    actions: Seq<(u64, Option<OsAction>)>,
    index: int,
    os_action: OsAction,
)
    requires
        0 <= index < actions.len() <= usize::MAX,
        actions[index].1 == Some(os_action),
        forall|k: int| 0 <= k < index ==> (#[trigger] actions[k]).1 != Some(os_action),
    ensures
        menu::registered(menu::os_indices(actions, 0), os_action) == Some(index as usize),
{
    let before = actions.take(index);
    let one = seq![actions[index]];
    let rest = actions.skip(index + 1);
    assert(actions =~= before + (one + rest));
    lemma_os_indices_concatenate(before, one + rest, 0);
    lemma_os_indices_concatenate(one, rest, index as nat);
    assert forall|k: int| 0 <= k < before.len() implies (#[trigger] before[k]).1 != Some(
        os_action,
    ) by {
        assert(before[k] == actions[k]);
    }
    lemma_unregistered(before, 0, os_action);
    assert(one.drop_last() =~= Seq::<(u64, Option<OsAction>)>::empty());
    reveal_with_fuel(menu::os_indices, 2);
    let entry = (os_action, index as usize);
    let later = menu::os_indices(rest, (index + 1) as nat);
    assert(menu::os_indices(one, index as nat) =~= seq![entry]);
    lemma_registered_later(menu::os_indices(before, 0), seq![entry] + later, os_action);
    assert((seq![entry] + later)[0] == entry);
}

/// The actions of a menu, by number.
pub proof fn law_action_ids(actions: Seq<(u64, Option<OsAction>)>, index: int)
    requires
        0 <= index < actions.len(),
    ensures
        menu::action_ids(actions).len() == actions.len(),
        menu::action_ids(actions)[index] == actions[index].0,
{
}

/// The four edit actions that the system's own commands stand for; undo, redo and every
/// other action are commands of the application.
pub proof fn law_selectors()
    ensures
        menu::selector_of(Some(OsAction::Cut)) == MenuSelector::Cut,
        menu::selector_of(Some(OsAction::Copy)) == MenuSelector::Copy,
        menu::selector_of(Some(OsAction::Paste)) == MenuSelector::Paste,
        menu::selector_of(Some(OsAction::SelectAll)) == MenuSelector::SelectAll,
        menu::selector_of(Some(OsAction::Undo)) == MenuSelector::MenuItem,
        menu::selector_of(Some(OsAction::Redo)) == MenuSelector::MenuItem,
        menu::selector_of(None) == MenuSelector::MenuItem,
{
}

/// A prepared action is built into a command with its own title, number and key command,
/// and a submenu into a menu of its own, identified by where it stands.
pub proof fn law_built_items(item: PreparedView, prefix: Seq<char>, index: nat, position: nat)
    ensures
        match item {
            PreparedView::Action { name, index: action, os_action, key } => menu::built_item(
                item,
                prefix,
                index,
                position,
            ) == (ElementView::Command {
                title: name,
                selector: menu::selector_of(os_action),
                index: action,
                key,
            }),
            PreparedView::Submenu { name, items } => {
                let identifier = prefix + "."@ + text::decimal(index) + "."@ + text::decimal(
                    position,
                );
                menu::built_item(item, prefix, index, position) == ElementView::Menu {
                    title: name,
                    identifier,
                    inline: false,
                    children: menu::built(items, identifier),
                }
            },
            PreparedView::Separator => true,
        },
{
}

/// The inline menu that holds one group of items.
pub open spec fn group_menu(items: Seq<PreparedView>, prefix: Seq<char>, index: nat) -> ElementView {
    ElementView::Menu {
        title: ""@,
        identifier: prefix + ".group"@ + text::decimal(index),
        inline: true,
        children: Seq::new(
            items.len(),
            |i: int| menu::built_item(items[i], prefix, index, i as nat),
        ),
    }
}

/// Separators cut the items into groups. What follows the last separator becomes an inline
/// menu of its own, numbered by how many groups came before it, with an element for each
/// of its items in their order; what came before the separator stays as it was built, and
/// an empty group makes nothing.
pub proof fn law_separators_cut_groups(
    before: Seq<PreparedView>,
    group: Seq<PreparedView>,
    prefix: Seq<char>,
)
    requires
        forall|i: int| 0 <= i < group.len() ==> !((#[trigger] group[i]) is Separator),
    ensures
        menu::built(group, prefix) == if group.len() == 0 {
            seq![]
        } else {
            seq![group_menu(group, prefix, 0)]
        },
        menu::built(before.push(PreparedView::Separator) + group, prefix) == if group.len() == 0 {
            menu::built(before, prefix)
        } else {
            menu::built(before, prefix).push(
                group_menu(group, prefix, menu::built(before, prefix).len()),
            )
        },
{
    lemma_index_counts(before, prefix);
    let cut = before.push(PreparedView::Separator);
    assert(cut.drop_last() =~= before);
    lemma_group(cut, group, prefix);
    lemma_group(Seq::<PreparedView>::empty(), group, prefix);
    assert(Seq::<PreparedView>::empty() + group =~= group);
}

/// Groups are numbered as they are built.
proof fn lemma_index_counts(items: Seq<PreparedView>, prefix: Seq<char>)
    ensures
        menu::groups(items, prefix).index == menu::groups(items, prefix).children.len(),
        menu::groups(items, prefix).flushed(prefix).index == menu::built(items, prefix).len(),
    decreases items.len(),
{
    if items.len() > 0 {
        lemma_index_counts(items.drop_last(), prefix);
    }
}

proof fn lemma_group(before: Seq<PreparedView>, group: Seq<PreparedView>, prefix: Seq<char>)
    requires
        menu::groups(before, prefix).group.len() == 0,
        forall|i: int| 0 <= i < group.len() ==> !((#[trigger] group[i]) is Separator),
    ensures
        ({
            let start = menu::groups(before, prefix);
            menu::groups(before + group, prefix) == Groups {
                children: start.children,
                group: Seq::new(
                    group.len(),
                    |i: int| menu::built_item(group[i], prefix, start.index, i as nat),
                ),
                index: start.index,
            }
        }),
    decreases group.len(),
{
    let start = menu::groups(before, prefix);
    if group.len() == 0 {
        assert(before + group =~= before);
        assert(start.group =~= Seq::<ElementView>::empty());
    } else {
        let rest = group.drop_last();
        assert forall|i: int| 0 <= i < rest.len() implies !((#[trigger] rest[i]) is Separator) by {
            assert(rest[i] == group[i]);
        }
        lemma_group(before, rest, prefix);
        assert((before + group).drop_last() =~= before + rest);
        assert((before + group).last() == group[group.len() - 1]);
        let all = Seq::new(
            group.len(),
            |i: int| menu::built_item(group[i], prefix, start.index, i as nat),
        );
        let earlier = Seq::new(
            rest.len(),
            |i: int| menu::built_item(rest[i], prefix, start.index, i as nat),
        );
        assert(all =~= earlier.push(
            menu::built_item(
                group[group.len() - 1],
                prefix,
                start.index,
                (group.len() - 1) as nat,
            ),
        ));
    }
}

/// The rows of a context menu are those of its items one after the other, each action
/// under its own name, and those of a submenu under the submenu's name as well.
pub proof fn law_rows_concatenate(
    first: Seq<MenuItem>,
    second: Seq<MenuItem>,
    item: MenuItem,
    prefix: Seq<char>,
    base: nat,
)
    ensures
        menu::menu_rows(first + second, prefix, base) == menu::menu_rows(first, prefix, base)
            + menu::menu_rows(second, prefix, base + menu::menu_actions(first).len()),
        menu::menu_rows(seq![item], prefix, base) == match item {
            MenuItem::Action { name, action, os_action } => seq![(prefix + name@, base)],
            MenuItem::Submenu(inner) => menu::menu_rows(
                inner.items@,
                prefix + inner.name@ + " \u{25b8} "@,
                base,
            ),
            MenuItem::Separator => seq![],
            MenuItem::SystemMenu => seq![],
        },
    decreases second.len(),
{
    let one = seq![item];
    assert(one.drop_last() =~= Seq::<MenuItem>::empty());
    law_actions_concatenate(seq![], seq![], item);
    reveal_with_fuel(menu::menu_rows, 3);
    reveal_with_fuel(menu::item_rows, 3);
    assert(menu::menu_actions(one.drop_last()).len() == 0);
    assert(menu::menu_rows(one, prefix, base) =~= menu::item_rows(item, prefix, base));
    if second.len() == 0 {
        assert(first + second =~= first);
        assert(menu::menu_rows(second, prefix, base + menu::menu_actions(first).len()) =~= seq![]);
    } else {
        law_rows_concatenate(first, second.drop_last(), item, prefix, base);
        law_actions_concatenate(first, second.drop_last(), item);
        assert((first + second).drop_last() =~= first + second.drop_last());
        assert((first + second).last() == second.last());
        assert(menu::menu_rows(first + second, prefix, base) =~= menu::menu_rows(
            first,
            prefix,
            base,
        ) + menu::menu_rows(second, prefix, base + menu::menu_actions(first).len()));
    }
}

/// The quick actions are the actions at the top of the dock menu in their order, each
/// with its own name and action, and of a type that counts them.
pub proof fn law_quick_actions(items: Seq<MenuItem>, item: MenuItem)
    ensures
        menu::shortcuts(Seq::<MenuItem>::empty()).len() == 0,
        menu::shortcuts(items.push(item)) == match item {
            MenuItem::Action { name, action, os_action } => menu::shortcuts(items).push(
                (
                    "gpui.dock."@ + text::decimal(menu::shortcuts(items).len()),
                    name@,
                    action,
                ),
            ),
            _ => menu::shortcuts(items),
        },
{
    assert(items.push(item).drop_last() =~= items);
}

/// A quick action is found by the number in its type, and by nothing else.
pub proof fn law_quick_action_types(kind: Seq<char>, actions: Seq<u64>, number: nat)
    ensures
        number < actions.len() && number <= usize::MAX ==> menu::shortcut_action(
            "gpui.dock."@ + text::decimal(number),
            actions,
        ) == Some(actions[number as int]),
        number >= actions.len() ==> menu::shortcut_action(
            "gpui.dock."@ + text::decimal(number),
            actions,
        ) is None,
        !text::begins_with(kind, "gpui.dock."@) ==> menu::shortcut_action(kind, actions) is None,
        text::parsed(kind, usize::MAX as nat) is None ==> menu::shortcut_action(
            "gpui.dock."@ + kind,
            actions,
        ) is None,
{
    text::laws::law_prefixes("gpui.dock."@, text::decimal(number), kind);
    text::laws::law_prefixes("gpui.dock."@, kind, kind);
    if number <= usize::MAX {
        text::law_decimal_parses_back(number, usize::MAX as nat);
    } else {
        text::law_decimal_parses_back(number, number);
    }
}

/// Every menu but the first becomes a menu of its own with its own name, identified by
/// its place, that holds what is built of its own items.
pub proof fn law_menus_hold_their_items(menus: Seq<PreparedMenu>, menu: PreparedMenu)
    requires
        menus.len() > 0,
    ensures
        ({
            let identifier = "gpui.menu."@ + text::decimal(menus.len());
            menu::bar_steps(menus.push(menu)) == menu::bar_steps(menus).push(
                MenuBarStepView::InsertAfter {
                    menu: ElementView::Menu {
                        title: menu.name@,
                        identifier,
                        inline: false,
                        children: menu::built(menu::prepared_view(menu.items@), identifier),
                    },
                    after: if menus.len() == 1 {
                        None
                    } else {
                        Some("gpui.menu."@ + text::decimal((menus.len() - 1) as nat))
                    },
                },
            )
        }),
{
    assert(menus.push(menu).drop_last() =~= menus);
}

/// The elements of the first menu are inserted at the start of the application menu one
/// by one, the last one first.
pub proof fn law_first_menu_is_inserted_backwards(menu: PreparedMenu, index: int)
    requires
        0 <= index < menu::built(
            menu::prepared_view(menu.items@),
            "gpui.menu."@ + text::decimal(0),
        ).len(),
    ensures
        ({
            let children = menu::built(
                menu::prepared_view(menu.items@),
                "gpui.menu."@ + text::decimal(0),
            );
            let steps = menu::bar_steps(seq![menu]);
            &&& steps.len() == children.len()
            &&& steps[index] == MenuBarStepView::InsertFirst(children[children.len() - 1 - index])
        }),
{
}

/// What stands for a prepared menu has an entry for each of its items, with the item's own
/// texts, number, edit action and key command.
pub proof fn law_prepared_views(items: Seq<PreparedItem>, index: int)
    requires
        0 <= index < items.len(),
    ensures
        menu::prepared_view(items).len() == items.len(),
        menu::prepared_view(items)[index] == match items[index] {
            PreparedItem::Separator => PreparedView::Separator,
            PreparedItem::Action { name, index: number, os_action, key } => PreparedView::Action {
                name: name@,
                index: number as nat,
                os_action,
                key: menu::command_view(key),
            },
            PreparedItem::Submenu(inner) => PreparedView::Submenu {
                name: inner.name@,
                items: menu::prepared_view(inner.items@),
            },
        },
    decreases items.len(),
{
    reveal_with_fuel(menu::prepared_view, 3);
    reveal_with_fuel(menu::prepared_item_view, 3);
    lemma_prepared_length(items);
    lemma_prepared_length(items.drop_last());
    if index < items.len() - 1 {
        law_prepared_views(items.drop_last(), index);
        assert(items.drop_last()[index] == items[index]);
    } else {
        assert(items.last() == items[index]);
    }
}

proof fn lemma_prepared_length(items: Seq<PreparedItem>)
    ensures
        menu::prepared_view(items).len() == items.len(),
    decreases items.len(),
{
    if items.len() > 0 {
        lemma_prepared_length(items.drop_last());
    }
}

/// What stands for built elements has an entry for each of them, with its own title,
/// selector, number, key command, identifier and children.
pub proof fn law_element_views(elements: Seq<MenuElement>, index: int)
    requires
        0 <= index < elements.len(),
    ensures
        menu::elements_view(elements).len() == elements.len(),
        menu::elements_view(elements)[index] == match elements[index] {
            MenuElement::Command { title, selector, index: number, key } => ElementView::Command {
                title: title@,
                selector,
                index: number as nat,
                key: menu::command_view(key),
            },
            MenuElement::Menu { title, identifier, inline, children } => ElementView::Menu {
                title: title@,
                identifier: identifier@,
                inline,
                children: menu::elements_view(children@),
            },
        },
    decreases elements.len(),
{
    reveal_with_fuel(menu::elements_view, 3);
    reveal_with_fuel(menu::element_view, 3);
    lemma_elements_length(elements);
    lemma_elements_length(elements.drop_last());
    if index < elements.len() - 1 {
        law_element_views(elements.drop_last(), index);
        assert(elements.drop_last()[index] == elements[index]);
    } else {
        assert(elements.last() == elements[index]);
    }
}

proof fn lemma_elements_length(elements: Seq<MenuElement>)
    ensures
        menu::elements_view(elements).len() == elements.len(),
    decreases elements.len(),
{
    if elements.len() > 0 {
        lemma_elements_length(elements.drop_last());
    }
}

/// A key command stands for itself: its own flags, and its own key or text.
pub proof fn law_command_views(key: menu::KeyCommand)
    ensures
        menu::command_view(Some(key)) is Some,
        menu::command_view(None) is None,
        menu::command_view(Some(key))->0.flags == key.flags,
        menu::command_view(Some(key))->0.input == match key.input {
            crate::ios::events::KeyInput::System(named) => KeyInputView::System(named),
            crate::ios::events::KeyInput::Text(typed) => KeyInputView::Text(typed@),
        },
{
}

} // verus!
