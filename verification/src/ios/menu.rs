//! Menus: the main menu with its key equivalents, the elements it is built from, context
//! menus and the quick actions of the home screen.
//!
//! An action is known here by a number that the application gives it.

use crate::input::Keystroke;
use crate::ios::events;
use crate::ios::events::{
    key_to_ui_key_input, KeyInput, UI_KEY_MODIFIER_ALTERNATE, UI_KEY_MODIFIER_COMMAND,
    UI_KEY_MODIFIER_CONTROL, UI_KEY_MODIFIER_SHIFT,
};
use crate::text;
use crate::text::{decimal_text, joined};
use vstd::prelude::*;

verus! {

/// The edit actions that the system knows.
#[derive(Clone, Copy, Debug, PartialEq, Eq, Structural)]
pub enum OsAction {
    Cut,
    Copy,
    Paste,
    SelectAll,
    Undo,
    Redo,
}

/// A menu as the application describes it.
#[derive(Debug)]
pub struct Menu {
    pub name: String,
    pub items: Vec<MenuItem>,
}

#[derive(Debug)]
pub enum MenuItem {
    Separator,
    Action { name: String, action: u64, os_action: Option<OsAction> },
    Submenu(Menu),
    /// A menu that the system fills; there is none of that kind here.
    SystemMenu,
}

/// A key binding. `applies` says whether its predicate, if it has one, holds in the
/// default context.
#[derive(Debug)]
pub struct Binding {
    pub action: u64,
    pub applies: bool,
    pub keystrokes: Vec<Keystroke>,
}

/// The key bindings in the order of their precedence.
#[derive(Debug)]
pub struct Keymap {
    pub bindings: Vec<Binding>,
}

/// The first of the bindings that is for the action, and applies where `applying` asks
/// for that.
pub open spec fn first_binding(bindings: Seq<Binding>, action: u64, applying: bool) -> Option<Binding>
    decreases bindings.len(),
{
    if bindings.len() == 0 {
        None
    } else if bindings[0].action == action && (applying ==> bindings[0].applies) {
        Some(bindings[0])
    } else {
        first_binding(bindings.drop_first(), action, applying)
    }
}

impl Keymap {
    /// The binding shown for an action: the first that applies, and the first of all where
    /// none does.
    pub open spec fn shown(self, action: u64) -> Option<Binding> {
        match first_binding(self.bindings@, action, true) {
            Some(binding) => Some(binding),
            None => first_binding(self.bindings@, action, false),
        }
    }
}

fn find_binding(bindings: &Vec<Binding>, action: u64, applying: bool) -> (found: Option<usize>)
    ensures
        match found {
            Some(index) => index < bindings@.len() && first_binding(bindings@, action, applying)
                == Some(bindings@[index as int]),
            None => first_binding(bindings@, action, applying) is None,
        },
{
    let mut index: usize = 0;
    assert(bindings@.skip(0) =~= bindings@);
    while index < bindings.len()
        invariant
            index <= bindings@.len(),
            first_binding(bindings@, action, applying) == first_binding(
                bindings@.skip(index as int),
                action,
                applying,
            ),
        decreases bindings@.len() - index,
    {
        let binding = &bindings[index];
        if binding.action == action && (!applying || binding.applies) {
            return Some(index);
        }
        assert(bindings@.skip(index as int).drop_first() =~= bindings@.skip(index + 1));
        index += 1;
    }
    None
}

/// The keystrokes shown for a menu action.
pub fn key_equivalent(keymap: &Keymap, action: u64) -> (keystrokes: Option<&Vec<Keystroke>>)
    ensures
        keystrokes == (match keymap.shown(action) {
            Some(binding) => Some(&binding.keystrokes),
            None => None,
        }),
{
    match find_binding(&keymap.bindings, action, true) {
        Some(index) => Some(&keymap.bindings[index].keystrokes),
        None => match find_binding(&keymap.bindings, action, false) {
            Some(index) => Some(&keymap.bindings[index].keystrokes),
            None => None,
        },
    }
}

/// The input of a key command, as characters where it is not one of the system's own.
#[verifier::ext_equal]
pub enum KeyInputView {
    System(events::SystemKey),
    Text(Seq<char>),
}

pub open spec fn input_view(input: KeyInput) -> KeyInputView {
    match input {
        KeyInput::System(key) => KeyInputView::System(key),
        KeyInput::Text(text) => KeyInputView::Text(text@),
    }
}

pub open spec fn input_of(key: Seq<char>) -> KeyInputView {
    match events::system_key(key) {
        Some(named) => KeyInputView::System(named),
        None => KeyInputView::Text(events::key_text(key)),
    }
}

/// A key equivalent: its input and its modifier flags.
#[derive(Debug, PartialEq, Eq)]
pub struct KeyCommand {
    pub input: KeyInput,
    pub flags: usize,
}

#[verifier::ext_equal]
pub struct KeyCommandView {
    pub input: KeyInputView,
    pub flags: usize,
}

impl View for KeyCommand {
    type V = KeyCommandView;

    open spec fn view(&self) -> KeyCommandView {
        KeyCommandView { input: input_view(self.input), flags: self.flags }
    }
}

pub open spec fn flag_if(on: bool, flag: usize) -> usize {
    if on {
        flag
    } else {
        0
    }
}

/// The modifier flags of a keystroke.
pub open spec fn flags_of(keystroke: Keystroke) -> usize {
    flag_if(keystroke.modifiers.platform, UI_KEY_MODIFIER_COMMAND) | flag_if(
        keystroke.modifiers.control,
        UI_KEY_MODIFIER_CONTROL,
    ) | flag_if(keystroke.modifiers.alt, UI_KEY_MODIFIER_ALTERNATE) | flag_if(
        keystroke.modifiers.shift,
        UI_KEY_MODIFIER_SHIFT,
    )
}

/// The key command of a menu action: there is one where the shown binding is a single
/// keystroke.
pub open spec fn command_of(keymap: Keymap, action: u64) -> Option<KeyCommandView> {
    match keymap.shown(action) {
        Some(binding) => if binding.keystrokes@.len() == 1 {
            Some(
                KeyCommandView {
                    input: input_of(binding.keystrokes@[0].key@),
                    flags: flags_of(binding.keystrokes@[0]),
                },
            )
        } else {
            None
        },
        None => None,
    }
}

pub open spec fn command_view(command: Option<KeyCommand>) -> Option<KeyCommandView> {
    match command {
        Some(command) => Some(command@),
        None => None,
    }
}

fn key_command(keymap: &Keymap, action: u64) -> (command: Option<KeyCommand>)
    ensures
        command_view(command) == command_of(*keymap, action),
{
    let keystrokes = match key_equivalent(keymap, action) {
        Some(keystrokes) => keystrokes,
        None => {
            return None;
        },
    };
    if keystrokes.len() != 1 {
        return None;
    }
    let keystroke = &keystrokes[0];
    let mut flags: usize = 0;
    if keystroke.modifiers.platform {
        flags = flags | UI_KEY_MODIFIER_COMMAND;
    }
    if keystroke.modifiers.control {
        flags = flags | UI_KEY_MODIFIER_CONTROL;
    }
    if keystroke.modifiers.alt {
        flags = flags | UI_KEY_MODIFIER_ALTERNATE;
    }
    if keystroke.modifiers.shift {
        flags = flags | UI_KEY_MODIFIER_SHIFT;
    }
    proof {
        assert(forall|x: usize| #[trigger] (x | 0usize) == x) by (bit_vector);
        assert(forall|x: usize| #[trigger] (0usize | x) == x) by (bit_vector);
    }
    Some(KeyCommand { input: key_to_ui_key_input(keystroke.key.as_str()), flags })
}

/// A main-menu item with its action's index and its key equivalent resolved.
#[derive(Debug)]
pub enum PreparedItem {
    Separator,
    Action { name: String, index: usize, os_action: Option<OsAction>, key: Option<KeyCommand> },
    Submenu(PreparedMenu),
}

#[derive(Debug)]
pub struct PreparedMenu {
    pub name: String,
    pub items: Vec<PreparedItem>,
}

#[verifier::ext_equal]
pub enum PreparedView {
    Separator,
    Action {
        name: Seq<char>,
        index: nat,
        os_action: Option<OsAction>,
        key: Option<KeyCommandView>,
    },
    Submenu { name: Seq<char>, items: Seq<PreparedView> },
}

pub open spec fn prepared_item_view(item: PreparedItem) -> PreparedView
    decreases item,
{
    match item {
        PreparedItem::Separator => PreparedView::Separator,
        PreparedItem::Action { name, index, os_action, key } => PreparedView::Action {
            name: name@,
            index: index as nat,
            os_action,
            key: command_view(key),
        },
        PreparedItem::Submenu(menu) => PreparedView::Submenu {
            name: menu.name@,
            items: prepared_view(menu.items@),
        },
    }
}

pub open spec fn prepared_view(items: Seq<PreparedItem>) -> Seq<PreparedView>
    decreases items,
{
    if items.len() == 0 {
        seq![]
    } else {
        prepared_view(items.drop_last()).push(prepared_item_view(items.last()))
    }
}

/// The actions of one item.
pub open spec fn item_actions(item: MenuItem) -> Seq<(u64, Option<OsAction>)>
    decreases item,
{
    match item {
        MenuItem::Action { name, action, os_action } => seq![(action, os_action)],
        MenuItem::Submenu(menu) => menu_actions(menu.items@),
        _ => seq![],
    }
}

/// The actions of a menu and its submenus, in the order in which they stand.
pub open spec fn menu_actions(items: Seq<MenuItem>) -> Seq<(u64, Option<OsAction>)>
    decreases items,
{
    if items.len() == 0 {
        seq![]
    } else {
        menu_actions(items.drop_last()) + item_actions(items.last())
    }
}

/// An item resolved, its first action being number `base`; a system menu has no place.
pub open spec fn prepare_item(item: MenuItem, keymap: Keymap, base: nat) -> Option<PreparedView>
    decreases item,
{
    match item {
        MenuItem::Separator => Some(PreparedView::Separator),
        MenuItem::Action { name, action, os_action } => Some(
            PreparedView::Action {
                name: name@,
                index: base,
                os_action,
                key: command_of(keymap, action),
            },
        ),
        MenuItem::Submenu(menu) => Some(
            PreparedView::Submenu { name: menu.name@, items: prepare(menu.items@, keymap, base) },
        ),
        MenuItem::SystemMenu => None,
    }
}

/// A menu's items resolved: each action gets the number of actions before it.
pub open spec fn prepare(items: Seq<MenuItem>, keymap: Keymap, base: nat) -> Seq<PreparedView>
    decreases items,
{
    if items.len() == 0 {
        seq![]
    } else {
        let before = prepare(items.drop_last(), keymap, base);
        match prepare_item(
            items.last(),
            keymap,
            base + menu_actions(items.drop_last()).len(),
        ) {
            Some(item) => before.push(item),
            None => before,
        }
    }
}

/// The numbers of the actions.
pub open spec fn action_ids(actions: Seq<(u64, Option<OsAction>)>) -> Seq<u64> {
    actions.map_values(|action: (u64, Option<OsAction>)| action.0)
}

/// Which action stands for which edit action, the first of all being number `base`.
pub open spec fn os_indices(actions: Seq<(u64, Option<OsAction>)>, base: nat) -> Seq<
    (OsAction, usize),
>
    decreases actions.len(),
{
    if actions.len() == 0 {
        seq![]
    } else {
        let before = os_indices(actions.drop_last(), base);
        match actions.last().1 {
            Some(os_action) => before.push((os_action, (base + actions.len() - 1) as usize)),
            None => before,
        }
    }
}

pub proof fn lemma_os_indices_concat(
    a: Seq<(u64, Option<OsAction>)>,
    b: Seq<(u64, Option<OsAction>)>,
    base: nat,
)
    ensures
        os_indices(a + b, base) == os_indices(a, base) + os_indices(b, base + a.len()),
    decreases b.len(),
{
    if b.len() == 0 {
        assert(a + b =~= a);
    } else {
        assert((a + b).drop_last() =~= a + b.drop_last());
        lemma_os_indices_concat(a, b.drop_last(), base);
    }
}

proof fn lemma_prepare_step(
    items: Seq<MenuItem>,
    index: int,
    keymap: Keymap,
    base: nat,
)
    requires
        0 <= index < items.len(),
    ensures
        menu_actions(items.take(index + 1)) == menu_actions(items.take(index)) + item_actions(
            items[index],
        ),
        os_indices(menu_actions(items.take(index + 1)), base) == os_indices(
            menu_actions(items.take(index)),
            base,
        ) + os_indices(
            item_actions(items[index]),
            base + menu_actions(items.take(index)).len(),
        ),
        action_ids(menu_actions(items.take(index + 1))) == action_ids(
            menu_actions(items.take(index)),
        ) + action_ids(item_actions(items[index])),
        prepare(items.take(index + 1), keymap, base) == (match prepare_item(
            items[index],
            keymap,
            base + menu_actions(items.take(index)).len(),
        ) {
            Some(item) => prepare(items.take(index), keymap, base).push(item),
            None => prepare(items.take(index), keymap, base),
        }),
{
    assert(items.take(index + 1).drop_last() =~= items.take(index));
    lemma_os_indices_concat(
        menu_actions(items.take(index)),
        item_actions(items[index]),
        base,
    );
    assert(action_ids(menu_actions(items.take(index)) + item_actions(items[index]))
        =~= action_ids(menu_actions(items.take(index))) + action_ids(item_actions(items[index])));
}

proof fn lemma_prepared_push(items: Seq<PreparedItem>, item: PreparedItem)
    ensures
        prepared_view(items.push(item)) == prepared_view(items).push(prepared_item_view(item)),
{
    assert(items.push(item).drop_last() =~= items);
}

/// Resolves a menu's items: gives each action an index into `actions` and looks up its
/// key equivalent.
pub fn prepare_items(
    items: &Vec<MenuItem>,
    keymap: &Keymap,
    actions: &mut Vec<u64>,
    os_actions: &mut Vec<(OsAction, usize)>,
) -> (prepared: Vec<PreparedItem>)
    ensures
        prepared_view(prepared@) == prepare(items@, *keymap, old(actions)@.len()),
        final(actions)@ == old(actions)@ + action_ids(menu_actions(items@)),
        final(os_actions)@ == old(os_actions)@ + os_indices(
            menu_actions(items@),
            old(actions)@.len(),
        ),
    decreases items@,
{
    let mut prepared: Vec<PreparedItem> = Vec::new();
    let ghost base = actions@.len();
    let mut index: usize = 0;
    while index < items.len()
        invariant
            index <= items@.len(),
            base == old(actions)@.len(),
            prepared_view(prepared@) == prepare(items@.take(index as int), *keymap, base),
            actions@ == old(actions)@ + action_ids(menu_actions(items@.take(index as int))),
            os_actions@ == old(os_actions)@ + os_indices(
                menu_actions(items@.take(index as int)),
                base,
            ),
        decreases items@.len() - index,
    {
        proof {
            lemma_prepare_step(items@, index as int, *keymap, base);
        }
        let ghost seen = menu_actions(items@.take(index as int)).len();
        let ghost before = prepared@;
        match &items[index] {
            MenuItem::Separator => {
                prepared.push(PreparedItem::Separator);
                proof {
                    lemma_prepared_push(before, prepared@.last());
                    assert(prepared@ =~= before.push(prepared@.last()));
                }
            },
            MenuItem::Action { name, action, os_action } => {
                let number: usize = actions.len();
                if let Some(os_action) = os_action {
                    os_actions.push((*os_action, number));
                }
                actions.push(*action);
                let key = key_command(keymap, *action);
                prepared.push(
                    PreparedItem::Action {
                        name: name.clone(),
                        index: number,
                        os_action: *os_action,
                        key,
                    },
                );
                proof {
                    lemma_prepared_push(before, prepared@.last());
                    assert(prepared@ =~= before.push(prepared@.last()));
                    let one = item_actions(items@[index as int]);
                    assert(one =~= seq![(*action, *os_action)]);
                    assert(one.drop_last() =~= Seq::<(u64, Option<OsAction>)>::empty());
                    reveal_with_fuel(os_indices, 2);
                    assert(action_ids(one) =~= seq![*action]);
                }
            },
            MenuItem::Submenu(menu) => {
                let inner = prepare_items(&menu.items, keymap, actions, os_actions);
                prepared.push(
                    PreparedItem::Submenu(PreparedMenu { name: menu.name.clone(), items: inner }),
                );
                proof {
                    lemma_prepared_push(before, prepared@.last());
                    assert(prepared@ =~= before.push(prepared@.last()));
                }
            },
            MenuItem::SystemMenu => {
                proof {
                    let none = item_actions(items@[index as int]);
                    assert(action_ids(none) =~= Seq::<u64>::empty());
                }
            },
        }
        index += 1;
    }
    assert(items@.take(index as int) =~= items@);
    prepared
}

/// What a command does: one of the system's edit actions, or the menu item's own.
#[derive(Clone, Copy, Debug, PartialEq, Eq, Structural)]
pub enum MenuSelector {
    Cut,
    Copy,
    Paste,
    SelectAll,
    MenuItem,
}

/// An element of a built menu.
#[derive(Debug)]
pub enum MenuElement {
    Command { title: String, selector: MenuSelector, index: usize, key: Option<KeyCommand> },
    Menu {
        title: String,
        identifier: String,
        /// Whether it is shown in place, set off from what is around it.
        inline: bool,
        children: Vec<MenuElement>,
    },
}

#[verifier::ext_equal]
pub enum ElementView {
    Command {
        title: Seq<char>,
        selector: MenuSelector,
        index: nat,
        key: Option<KeyCommandView>,
    },
    Menu { title: Seq<char>, identifier: Seq<char>, inline: bool, children: Seq<ElementView> },
}

pub open spec fn element_view(element: MenuElement) -> ElementView
    decreases element,
{
    match element {
        MenuElement::Command { title, selector, index, key } => ElementView::Command {
            title: title@,
            selector,
            index: index as nat,
            key: command_view(key),
        },
        MenuElement::Menu { title, identifier, inline, children } => ElementView::Menu {
            title: title@,
            identifier: identifier@,
            inline,
            children: elements_view(children@),
        },
    }
}

pub open spec fn elements_view(elements: Seq<MenuElement>) -> Seq<ElementView>
    decreases elements,
{
    if elements.len() == 0 {
        seq![]
    } else {
        elements_view(elements.drop_last()).push(element_view(elements.last()))
    }
}

/// Undo and redo have no selector of their own here.
pub open spec fn selector_of(os_action: Option<OsAction>) -> MenuSelector {
    match os_action {
        Some(OsAction::Cut) => MenuSelector::Cut,
        Some(OsAction::Copy) => MenuSelector::Copy,
        Some(OsAction::Paste) => MenuSelector::Paste,
        Some(OsAction::SelectAll) => MenuSelector::SelectAll,
        _ => MenuSelector::MenuItem,
    }
}

/// A menu in the making: the groups that are complete, the one under way, and its number.
#[verifier::ext_equal]
pub struct Groups {
    pub children: Seq<ElementView>,
    pub group: Seq<ElementView>,
    pub index: nat,
}

pub open spec fn group_identifier(prefix: Seq<char>, index: nat) -> Seq<char> {
    prefix + ".group"@ + text::decimal(index)
}

pub open spec fn submenu_identifier(prefix: Seq<char>, index: nat, position: nat) -> Seq<char> {
    prefix + "."@ + text::decimal(index) + "."@ + text::decimal(position)
}

impl Groups {
    /// The group under way is complete; an empty one leaves no trace.
    pub open spec fn flushed(self, prefix: Seq<char>) -> Groups {
        if self.group.len() == 0 {
            self
        } else {
            Groups {
                children: self.children.push(
                    ElementView::Menu {
                        title: ""@,
                        identifier: group_identifier(prefix, self.index),
                        inline: true,
                        children: self.group,
                    },
                ),
                group: seq![],
                index: self.index + 1,
            }
        }
    }
}

/// An item that stands at `position` in group number `index`.
pub open spec fn built_item(
    item: PreparedView,
    prefix: Seq<char>,
    index: nat,
    position: nat,
) -> ElementView
    decreases item,
{
    match item {
        PreparedView::Action { name, index: action, os_action, key } => ElementView::Command {
            title: name,
            selector: selector_of(os_action),
            index: action,
            key,
        },
        PreparedView::Submenu { name, items } => {
            let identifier = submenu_identifier(prefix, index, position);
            ElementView::Menu {
                title: name,
                identifier,
                inline: false,
                children: groups(items, identifier).flushed(identifier).children,
            }
        },
        PreparedView::Separator => arbitrary(),
    }
}

/// The items in groups: a separator completes the group before it.
pub open spec fn groups(items: Seq<PreparedView>, prefix: Seq<char>) -> Groups
    decreases items,
{
    if items.len() == 0 {
        Groups { children: seq![], group: seq![], index: 0 }
    } else {
        let before = groups(items.drop_last(), prefix);
        match items.last() {
            PreparedView::Separator => before.flushed(prefix),
            item => Groups {
                group: before.group.push(
                    built_item(item, prefix, before.index, before.group.len()),
                ),
                ..before
            },
        }
    }
}

/// The elements of a menu: its runs of items between separators, each an inline menu.
pub open spec fn built(items: Seq<PreparedView>, prefix: Seq<char>) -> Seq<ElementView> {
    groups(items, prefix).flushed(prefix).children
}

proof fn lemma_elements_push(elements: Seq<MenuElement>, element: MenuElement)
    ensures
        elements_view(elements.push(element)) == elements_view(elements).push(
            element_view(element),
        ),
        elements_view(elements).len() == elements.len(),
    decreases elements.len(),
{
    assert(elements.push(element).drop_last() =~= elements);
    if elements.len() > 0 {
        assert(elements.drop_last().push(elements.last()) =~= elements);
        lemma_elements_push(elements.drop_last(), elements.last());
    }
}

fn copy_key(key: &Option<KeyCommand>) -> (copy: Option<KeyCommand>)
    ensures
        command_view(copy) == command_view(*key),
{
    match key {
        Some(command) => {
            let input = match &command.input {
                KeyInput::System(named) => KeyInput::System(*named),
                KeyInput::Text(typed) => KeyInput::Text(typed.clone()),
            };
            Some(KeyCommand { input, flags: command.flags })
        },
        None => None,
    }
}

/// Completes the group under way.
fn flush(
    children: &mut Vec<MenuElement>,
    group: Vec<MenuElement>,
    group_index: usize,
    prefix: &str,
)
    requires
        group@.len() > 0,
    ensures
        elements_view(final(children)@) == elements_view(old(children)@).push(
            ElementView::Menu {
                title: ""@,
                identifier: group_identifier(prefix@, group_index as nat),
                inline: true,
                children: elements_view(group@),
            },
        ),
        final(children)@.len() == old(children)@.len() + 1,
{
    let identifier = joined(
        joined(prefix, ".group").as_str(),
        decimal_text(group_index).as_str(),
    );
    let inline = MenuElement::Menu {
        title: "".to_owned(),
        identifier,
        inline: true,
        children: group,
    };
    proof {
        lemma_elements_push(children@, inline);
    }
    children.push(inline);
}

/// Builds the elements of a menu. There is no separator among them; the runs of items
/// between separators become inline menus instead, which are drawn separated.
pub fn build_menu_children(items: &Vec<PreparedItem>, identifier_prefix: &str) -> (children: Vec<
    MenuElement,
>)
    ensures
        elements_view(children@) == built(prepared_view(items@), identifier_prefix@),
    decreases items@,
{
    let mut children: Vec<MenuElement> = Vec::new();
    let mut group: Vec<MenuElement> = Vec::new();
    let mut group_index: usize = 0;
    let mut index: usize = 0;
    let ghost prefix = identifier_prefix@;
    while index < items.len()
        invariant
            index <= items@.len(),
            prefix == identifier_prefix@,
            group_index <= children@.len(),
            group_index <= index,
            group@.len() == elements_view(group@).len(),
            groups(prepared_view(items@.take(index as int)), prefix) == (Groups {
                children: elements_view(children@),
                group: elements_view(group@),
                index: group_index as nat,
            }),
        decreases items@.len() - index,
    {
        proof {
            assert(items@.take(index + 1) =~= items@.take(index as int).push(items@[index as int]));
            lemma_prepared_push(items@.take(index as int), items@[index as int]);
            let views = prepared_view(items@.take(index + 1));
            assert(views.drop_last() =~= prepared_view(items@.take(index as int)));
        }
        match &items[index] {
            PreparedItem::Separator => {
                if group.len() > 0 {
                    flush(&mut children, group, group_index, identifier_prefix);
                    group = Vec::new();
                    group_index += 1;
                }
            },
            PreparedItem::Action { name, index: number, os_action, key } => {
                let selector = match os_action {
                    Some(OsAction::Cut) => MenuSelector::Cut,
                    Some(OsAction::Copy) => MenuSelector::Copy,
                    Some(OsAction::Paste) => MenuSelector::Paste,
                    Some(OsAction::SelectAll) => MenuSelector::SelectAll,
                    _ => MenuSelector::MenuItem,
                };
                let command = MenuElement::Command {
                    title: name.clone(),
                    selector,
                    index: *number,
                    key: copy_key(key),
                };
                proof {
                    lemma_elements_push(group@, command);
                    assert(element_view(command) == built_item(
                        prepared_item_view(items@[index as int]),
                        prefix,
                        group_index as nat,
                        group@.len(),
                    ));
                }
                group.push(command);
            },
            PreparedItem::Submenu(menu) => {
                let identifier = joined(
                    joined(
                        joined(
                            joined(identifier_prefix, ".").as_str(),
                            decimal_text(group_index).as_str(),
                        ).as_str(),
                        ".",
                    ).as_str(),
                    decimal_text(group.len()).as_str(),
                );
                let inner = build_menu_children(&menu.items, identifier.as_str());
                let submenu = MenuElement::Menu {
                    title: menu.name.clone(),
                    identifier,
                    inline: false,
                    children: inner,
                };
                proof {
                    lemma_elements_push(group@, submenu);
                    assert(element_view(submenu) == built_item(
                        prepared_item_view(items@[index as int]),
                        prefix,
                        group_index as nat,
                        group@.len(),
                    ));
                }
                group.push(submenu);
            },
        }
        index += 1;
    }
    assert(items@.take(index as int) =~= items@);
    if group.len() > 0 {
        flush(&mut children, group, group_index, identifier_prefix);
    }
    children
}

/// The rows of an item in a context menu: submenus become "Menu > Item" rows with a
/// triangle between the names.
pub open spec fn item_rows(item: MenuItem, prefix: Seq<char>, base: nat) -> Seq<(Seq<char>, nat)>
    decreases item,
{
    match item {
        MenuItem::Action { name, action, os_action } => seq![(prefix + name@, base)],
        MenuItem::Submenu(menu) => menu_rows(
            menu.items@,
            prefix + menu.name@ + " \u{25b8} "@,
            base,
        ),
        _ => seq![],
    }
}

/// The rows of a context menu: titles and the numbers of their actions, the first of
/// which is `base`.
pub open spec fn menu_rows(items: Seq<MenuItem>, prefix: Seq<char>, base: nat) -> Seq<
    (Seq<char>, nat),
>
    decreases items,
{
    if items.len() == 0 {
        seq![]
    } else {
        menu_rows(items.drop_last(), prefix, base) + item_rows(
            items.last(),
            prefix,
            base + menu_actions(items.drop_last()).len(),
        )
    }
}

pub open spec fn rows_view(entries: Seq<(String, usize)>) -> Seq<(Seq<char>, nat)> {
    entries.map_values(|entry: (String, usize)| (entry.0@, entry.1 as nat))
}

/// Flattens a menu tree into rows.
pub fn flatten_context_menu(
    items: &Vec<MenuItem>,
    prefix: &str,
    actions: &mut Vec<u64>,
    entries: &mut Vec<(String, usize)>,
)
    ensures
        final(actions)@ == old(actions)@ + action_ids(menu_actions(items@)),
        rows_view(final(entries)@) == rows_view(old(entries)@) + menu_rows(
            items@,
            prefix@,
            old(actions)@.len(),
        ),
    decreases items@,
{
    let mut index: usize = 0;
    let ghost base = actions@.len();
    while index < items.len()
        invariant
            index <= items@.len(),
            base == old(actions)@.len(),
            actions@ == old(actions)@ + action_ids(menu_actions(items@.take(index as int))),
            rows_view(entries@) == rows_view(old(entries)@) + menu_rows(
                items@.take(index as int),
                prefix@,
                base,
            ),
        decreases items@.len() - index,
    {
        let ghost seen = menu_actions(items@.take(index as int));
        let ghost rows = menu_rows(items@.take(index as int), prefix@, base);
        proof {
            assert(items@.take(index + 1).drop_last() =~= items@.take(index as int));
            assert(action_ids(seen + item_actions(items@[index as int])) =~= action_ids(seen)
                + action_ids(item_actions(items@[index as int])));
            assert(menu_rows(items@.take(index + 1), prefix@, base) == rows + item_rows(
                items@[index as int],
                prefix@,
                base + seen.len(),
            ));
        }
        match &items[index] {
            MenuItem::Action { name, action, os_action } => {
                let ghost before = entries@;
                entries.push((joined(prefix, name.as_str()), actions.len()));
                actions.push(*action);
                proof {
                    assert(action_ids(item_actions(items@[index as int])) =~= seq![*action]);
                    assert(rows_view(entries@) =~= rows_view(before).push(
                        (prefix@ + name@, (base + seen.len()) as nat),
                    ));
                }
            },
            MenuItem::Submenu(menu) => {
                let inner = joined(joined(prefix, menu.name.as_str()).as_str(), " \u{25b8} ");
                flatten_context_menu(&menu.items, inner.as_str(), actions, entries);
            },
            MenuItem::Separator | MenuItem::SystemMenu => {
                assert(action_ids(item_actions(items@[index as int])) =~= Seq::<u64>::empty());
            },
        }
        index += 1;
    }
    assert(items@.take(index as int) =~= items@);
}

/// A context menu to show: its rows, and the actions that they stand for.
#[derive(Debug)]
pub struct ContextMenu {
    pub entries: Vec<(String, usize)>,
    pub actions: Vec<u64>,
}

/// The context menu of these items; there is none to show without a row.
pub fn context_menu(items: &Vec<MenuItem>) -> (menu: Option<ContextMenu>)
    ensures
        match menu {
            Some(menu) => rows_view(menu.entries@) == menu_rows(items@, ""@, 0) && menu.actions@
                == action_ids(menu_actions(items@)) && menu.entries@.len() > 0,
            None => menu_rows(items@, ""@, 0).len() == 0,
        },
{
    let mut actions: Vec<u64> = Vec::new();
    let mut entries: Vec<(String, usize)> = Vec::new();
    flatten_context_menu(items, "", &mut actions, &mut entries);
    assert(rows_view(Seq::<(String, usize)>::empty()) =~= Seq::<(Seq<char>, nat)>::empty());
    if entries.len() == 0 {
        assert(rows_view(entries@).len() == 0);
        None
    } else {
        Some(ContextMenu { entries, actions })
    }
}

/// The prefix of the type of a quick action.
pub open spec fn shortcut_type(index: nat) -> Seq<char> {
    "gpui.dock."@ + text::decimal(index)
}

/// The quick actions of a dock menu: a flat list of its own actions, each with the type
/// that names its number.
pub open spec fn shortcuts(items: Seq<MenuItem>) -> Seq<(Seq<char>, Seq<char>, u64)>
    decreases items.len(),
{
    if items.len() == 0 {
        seq![]
    } else {
        let before = shortcuts(items.drop_last());
        match items.last() {
            MenuItem::Action { name, action, os_action } => before.push(
                (shortcut_type(before.len()), name@, action),
            ),
            _ => before,
        }
    }
}

/// A quick action: its type and its title.
#[derive(Debug)]
pub struct Shortcut {
    pub kind: String,
    pub title: String,
}

pub open spec fn shortcuts_view(shortcuts: Seq<Shortcut>, actions: Seq<u64>) -> Seq<
    (Seq<char>, Seq<char>, u64),
> {
    Seq::new(
        shortcuts.len(),
        |i: int| (shortcuts[i].kind@, shortcuts[i].title@, actions[i]),
    )
}

/// The dock menu as quick actions, and the actions that they stand for.
pub fn set_dock_menu(menu: &Vec<MenuItem>) -> (dock: (Vec<Shortcut>, Vec<u64>))
    ensures
        dock.0@.len() == dock.1@.len(),
        shortcuts_view(dock.0@, dock.1@) == shortcuts(menu@),
{
    let mut kinds: Vec<Shortcut> = Vec::new();
    let mut actions: Vec<u64> = Vec::new();
    let mut index: usize = 0;
    while index < menu.len()
        invariant
            index <= menu@.len(),
            kinds@.len() == actions@.len(),
            shortcuts_view(kinds@, actions@) == shortcuts(menu@.take(index as int)),
        decreases menu@.len() - index,
    {
        assert(menu@.take(index + 1).drop_last() =~= menu@.take(index as int));
        if let MenuItem::Action { name, action, .. } = &menu[index] {
            let ghost before = shortcuts_view(kinds@, actions@);
            let kind = joined("gpui.dock.", decimal_text(actions.len()).as_str());
            kinds.push(Shortcut { kind, title: name.clone() });
            actions.push(*action);
            assert(shortcuts_view(kinds@, actions@) =~= before.push(
                (shortcut_type(before.len()), name@, *action),
            ));
        }
        index += 1;
    }
    assert(menu@.take(index as int) =~= menu@);
    (kinds, actions)
}

/// The action that a quick action's type stands for.
pub open spec fn shortcut_action(kind: Seq<char>, actions: Seq<u64>) -> Option<u64> {
    if text::begins_with(kind, "gpui.dock."@) {
        match text::parsed(kind.skip("gpui.dock."@.len() as int), usize::MAX as nat) {
            Some(index) => if index < actions.len() {
                Some(actions[index as int])
            } else {
                None
            },
            None => None,
        }
    } else {
        None
    }
}

pub fn perform_shortcut(kind: &str, actions: &Vec<u64>) -> (action: Option<u64>)
    ensures
        action == shortcut_action(kind@, actions@),
{
    match text::after_prefix(kind, "gpui.dock.") {
        Some(rest) => match text::parse_number(rest) {
            Some(index) => if index < actions.len() {
                Some(actions[index])
            } else {
                None
            },
            None => None,
        },
        None => None,
    }
}

/// The number of the action that stands for an edit action: the first registered.
pub open spec fn registered(os_actions: Seq<(OsAction, usize)>, os_action: OsAction) -> Option<usize>
    decreases os_actions.len(),
{
    if os_actions.len() == 0 {
        None
    } else if os_actions[0].0 == os_action {
        Some(os_actions[0].1)
    } else {
        registered(os_actions.drop_first(), os_action)
    }
}

/// The main-menu action registered for an edit action, if any.
pub fn os_action(
    os_actions: &Vec<(OsAction, usize)>,
    actions: &Vec<u64>,
    wanted: OsAction,
) -> (action: Option<u64>)
    ensures
        action == (match registered(os_actions@, wanted) {
            Some(index) => if index < actions@.len() {
                Some(actions@[index as int])
            } else {
                None
            },
            None => None,
        }),
{
    let mut index: usize = 0;
    assert(os_actions@.skip(0) =~= os_actions@);
    while index < os_actions.len()
        invariant
            index <= os_actions@.len(),
            registered(os_actions@, wanted) == registered(os_actions@.skip(index as int), wanted),
        decreases os_actions@.len() - index,
    {
        let (candidate, number) = os_actions[index];
        if candidate == wanted {
            if number < actions.len() {
                return Some(actions[number]);
            }
            return None;
        }
        assert(os_actions@.skip(index as int).drop_first() =~= os_actions@.skip(index + 1));
        index += 1;
    }
    None
}

/// Whether an action is available: what the application's validator says of it, and always
/// where the application has no validator.
pub fn validate_action(verdict: Option<bool>) -> (available: bool)
    ensures
        available == (verdict != Some(false)),
{
    match verdict {
        Some(verdict) => verdict,
        None => true,
    }
}

/// Whether an edit action can be performed: an action is registered for it, and it is
/// available.
pub fn can_perform_os_action(action: Option<u64>, verdict: Option<bool>) -> (can: bool)
    ensures
        can == (action is Some && verdict != Some(false)),
{
    action.is_some() && validate_action(verdict)
}

/// What an edit command performs: the action whose number it carries, and the one that is
/// registered for the edit action where it carries none.
pub fn handle_os_action(carried: Option<u64>, registered: Option<u64>) -> (action: Option<u64>)
    ensures
        action == (if carried is Some {
            carried
        } else {
            registered
        }),
{
    match carried {
        Some(action) => Some(action),
        None => registered,
    }
}

/// The action of a menu command, by the number that it carries.
pub fn command_action(actions: &Vec<u64>, index: Option<usize>) -> (action: Option<u64>)
    ensures
        action == (match index {
            Some(index) => if index < actions@.len() {
                Some(actions@[index as int])
            } else {
                None
            },
            None => None,
        }),
{
    match index {
        Some(index) => if index < actions.len() {
            Some(actions[index])
        } else {
            None
        },
        None => None,
    }
}

/// A step in building the menu bar.
#[derive(Debug)]
pub enum MenuBarStep {
    /// The element goes to the start of the application menu.
    InsertFirst(MenuElement),
    /// The menu follows the one with this identifier, or the application menu.
    InsertAfter { menu: MenuElement, after: Option<String> },
}

#[verifier::ext_equal]
pub enum MenuBarStepView {
    InsertFirst(ElementView),
    InsertAfter { menu: ElementView, after: Option<Seq<char>> },
}

pub open spec fn step_view(step: MenuBarStep) -> MenuBarStepView {
    match step {
        MenuBarStep::InsertFirst(element) => MenuBarStepView::InsertFirst(element_view(element)),
        MenuBarStep::InsertAfter { menu, after } => MenuBarStepView::InsertAfter {
            menu: element_view(menu),
            after: crate::input::text_view(after),
        },
    }
}

pub open spec fn steps_view(steps: Seq<MenuBarStep>) -> Seq<MenuBarStepView> {
    steps.map_values(|step: MenuBarStep| step_view(step))
}

pub open spec fn menu_identifier(index: nat) -> Seq<char> {
    "gpui.menu."@ + text::decimal(index)
}

/// The steps for the menus: the elements of the first join the application menu, last
/// one first since each goes to its start; every other menu follows the one before it.
pub open spec fn bar_steps(menus: Seq<PreparedMenu>) -> Seq<MenuBarStepView>
    decreases menus.len(),
{
    if menus.len() == 0 {
        seq![]
    } else {
        let before = bar_steps(menus.drop_last());
        let index = (menus.len() - 1) as nat;
        let children = built(prepared_view(menus.last().items@), menu_identifier(index));
        if index == 0 {
            children.reverse().map_values(
                |element: ElementView| MenuBarStepView::InsertFirst(element),
            )
        } else {
            before.push(
                MenuBarStepView::InsertAfter {
                    menu: ElementView::Menu {
                        title: menus.last().name@,
                        identifier: menu_identifier(index),
                        inline: false,
                        children,
                    },
                    after: if index == 1 {
                        None
                    } else {
                        Some(menu_identifier((index - 1) as nat))
                    },
                },
            )
        }
    }
}

proof fn lemma_elements_at(elements: Seq<MenuElement>)
    ensures
        elements_view(elements).len() == elements.len(),
        forall|i: int|
            0 <= i < elements.len() ==> elements_view(elements)[i] == element_view(
                #[trigger] elements[i],
            ),
    decreases elements.len(),
{
    if elements.len() > 0 {
        lemma_elements_at(elements.drop_last());
        assert forall|i: int| 0 <= i < elements.len() implies elements_view(elements)[i]
            == element_view(#[trigger] elements[i]) by {
            if i < elements.len() - 1 {
                assert(elements.drop_last()[i] == elements[i]);
            }
        }
    }
}

/// The steps that put the menus into the menu bar.
pub fn build_menu(menus: &Vec<PreparedMenu>) -> (steps: Vec<MenuBarStep>)
    ensures
        steps_view(steps@) == bar_steps(menus@),
{
    let mut steps: Vec<MenuBarStep> = Vec::new();
    let mut previous: Option<String> = None;
    let mut index: usize = 0;
    while index < menus.len()
        invariant
            index <= menus@.len(),
            steps_view(steps@) == bar_steps(menus@.take(index as int)),
            crate::input::text_view(previous) == if index <= 1 {
                None
            } else {
                Some(menu_identifier((index - 1) as nat))
            },
        decreases menus@.len() - index,
    {
        proof {
            assert(menus@.take(index + 1).drop_last() =~= menus@.take(index as int));
        }
        let identifier = joined("gpui.menu.", decimal_text(index).as_str());
        let mut children = build_menu_children(&menus[index].items, identifier.as_str());
        let ghost all = children@;
        let ghost before = steps@;
        if index == 0 {
            proof {
                lemma_elements_at(all);
            }
            while children.len() > 0
                invariant
                    children@.len() <= all.len(),
                    children@ == all.take(children@.len() as int),
                    steps@.len() == all.len() - children@.len(),
                    forall|i: int|
                        0 <= i < steps@.len() ==> #[trigger] steps@[i]
                            == MenuBarStep::InsertFirst(all[all.len() - 1 - i]),
                decreases children@.len(),
            {
                if let Some(child) = children.pop() {
                    steps.push(MenuBarStep::InsertFirst(child));
                }
            }
            assert(steps_view(steps@) =~= elements_view(all).reverse().map_values(
                |element: ElementView| MenuBarStepView::InsertFirst(element),
            ));
        } else {
            let menu = MenuElement::Menu {
                title: menus[index].name.clone(),
                identifier: identifier.clone(),
                inline: false,
                children,
            };
            let ghost step = MenuBarStep::InsertAfter { menu, after: previous };
            steps.push(MenuBarStep::InsertAfter { menu, after: previous });
            assert(steps_view(steps@) =~= steps_view(before).push(step_view(step)));
            previous = Some(identifier);
        }
        index += 1;
    }
    assert(menus@.take(index as int) =~= menus@);
    steps
}

} // verus!
