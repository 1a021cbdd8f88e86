//! The application: its menus, its windows and the scene they are shown in.

use crate::float::{scalar, Scalar};
use crate::geometry::{origin, Bounds, Edges, Size};
use crate::ios::menu;
use crate::ios::menu::{prepare_items, Keymap, Menu, OsAction, PreparedMenu};
use crate::window::{DisplayId, WindowAppearance, WindowKind};
use vstd::prelude::*;

verus! {

/// The main menu as the system sees it.
#[derive(Debug)]
pub struct MainMenu {
    pub menus: Vec<PreparedMenu>,
    /// The actions of the menu, by the number that their commands carry.
    pub actions: Vec<u64>,
    /// Which action stands for each edit action.
    pub os_actions: Vec<(OsAction, usize)>,
}

/// The actions of all menus, menu after menu.
pub open spec fn all_actions(menus: Seq<Menu>) -> Seq<(u64, Option<OsAction>)>
    decreases menus.len(),
{
    if menus.len() == 0 {
        seq![]
    } else {
        all_actions(menus.drop_last()) + menu::menu_actions(menus.last().items@)
    }
}

/// Whether a prepared menu is what a menu resolves to, its first action being `base`.
pub open spec fn is_prepared(prepared: PreparedMenu, described: Menu, keymap: Keymap, base: nat) -> bool {
    prepared.name@ == described.name@ && menu::prepared_view(prepared.items@) == menu::prepare(
        described.items@,
        keymap,
        base,
    )
}

/// Sets the main menu: the actions of all menus are numbered through.
pub fn set_menus(menus: &Vec<Menu>, keymap: &Keymap) -> (main: MainMenu)
    ensures
        main.menus@.len() == menus@.len(),
        forall|i: int|
            0 <= i < menus@.len() ==> is_prepared(
                #[trigger] main.menus@[i],
                menus@[i],
                *keymap,
                all_actions(menus@.take(i)).len(),
            ),
        main.actions@ == menu::action_ids(all_actions(menus@)),
        main.os_actions@ == menu::os_indices(all_actions(menus@), 0),
{
    let mut prepared: Vec<PreparedMenu> = Vec::new();
    let mut actions: Vec<u64> = Vec::new();
    let mut os_actions: Vec<(OsAction, usize)> = Vec::new();
    let mut index: usize = 0;
    assert(menu::action_ids(all_actions(menus@.take(0))) =~= Seq::<u64>::empty());
    while index < menus.len()
        invariant
            index <= menus@.len(),
            prepared@.len() == index,
            forall|i: int|
                0 <= i < index ==> is_prepared(
                    #[trigger] prepared@[i],
                    menus@[i],
                    *keymap,
                    all_actions(menus@.take(i)).len(),
                ),
            actions@ == menu::action_ids(all_actions(menus@.take(index as int))),
            os_actions@ == menu::os_indices(all_actions(menus@.take(index as int)), 0),
        decreases menus@.len() - index,
    {
        let ghost seen = all_actions(menus@.take(index as int));
        let described = &menus[index];
        let items = prepare_items(&described.items, keymap, &mut actions, &mut os_actions);
        prepared.push(PreparedMenu { name: described.name.clone(), items });
        proof {
            let more = menu::menu_actions(menus@[index as int].items@);
            assert(menus@.take(index + 1).drop_last() =~= menus@.take(index as int));
            assert(menu::action_ids(seen + more) =~= menu::action_ids(seen) + menu::action_ids(
                more,
            ));
            menu::lemma_os_indices_concat(seen, more, 0);
        }
        index += 1;
    }
    assert(menus@.take(index as int) =~= menus@);
    MainMenu { menus: prepared, actions, os_actions }
}

/// Windows and the scene that they are shown in. A window opened before the scene connects
/// waits for it.
#[derive(Debug)]
pub struct SceneWindows {
    pub connected: bool,
    pub pending: Vec<u64>,
}

#[verifier::ext_equal]
pub struct SceneView {
    pub connected: bool,
    pub pending: Seq<u64>,
}

impl View for SceneWindows {
    type V = SceneView;

    open spec fn view(&self) -> SceneView {
        SceneView { connected: self.connected, pending: self.pending@ }
    }
}

impl SceneView {
    pub open spec fn attached(self, window: u64) -> SceneView {
        if self.connected {
            self
        } else {
            SceneView { pending: self.pending.push(window), ..self }
        }
    }

    /// Several windows, one after the other.
    pub open spec fn attached_all(self, windows: Seq<u64>) -> SceneView
        decreases windows.len(),
    {
        if windows.len() == 0 {
            self
        } else {
            self.attached_all(windows.drop_last()).attached(windows.last())
        }
    }
}

impl SceneWindows {
    pub fn new() -> (windows: SceneWindows)
        ensures
            windows@ == (SceneView { connected: false, pending: seq![] }),
    {
        SceneWindows { connected: false, pending: Vec::new() }
    }

    /// Shows a window, or queues it. Tells whether it is shown now.
    pub fn attach_window(&mut self, window: u64) -> (shown: bool)
        ensures
            shown == old(self)@.connected,
            final(self)@ == old(self)@.attached(window),
    {
        if self.connected {
            true
        } else {
            self.pending.push(window);
            false
        }
    }

    /// The scene connects: the windows that waited are shown, in the order in which they
    /// were opened.
    pub fn scene_connected(&mut self) -> (shown: Vec<u64>)
        ensures
            shown@ == old(self)@.pending,
            final(self)@ == (SceneView { connected: true, pending: seq![] }),
    {
        self.connected = true;
        let mut shown: Vec<u64> = Vec::new();
        shown.append(&mut self.pending);
        shown
    }
}

/// The windows opened before the scene connects all wait for it, each once and in order,
/// and from then on none waits.
pub proof fn law_early_windows_wait_in_order(windows: Seq<u64>, later: Seq<u64>)
    ensures
        (SceneView { connected: false, pending: seq![] }).attached_all(windows).pending
            == windows,
        (SceneView { connected: true, pending: seq![] }).attached_all(later).pending.len() == 0,
    decreases windows.len() + later.len(),
{
    if windows.len() > 0 {
        law_early_windows_wait_in_order(windows.drop_last(), later);
        assert(windows.drop_last().push(windows.last()) =~= windows);
        lemma_unconnected(windows.drop_last());
    } else if later.len() > 0 {
        law_early_windows_wait_in_order(windows, later.drop_last());
        lemma_connected(later.drop_last());
    }
}

proof fn lemma_unconnected(windows: Seq<u64>)
    ensures
        !(SceneView { connected: false, pending: seq![] }).attached_all(windows).connected,
    decreases windows.len(),
{
    if windows.len() > 0 {
        lemma_unconnected(windows.drop_last());
    }
}

proof fn lemma_connected(windows: Seq<u64>)
    ensures
        (SceneView { connected: true, pending: seq![] }).attached_all(windows).connected,
    decreases windows.len(),
{
    if windows.len() > 0 {
        lemma_connected(windows.drop_last());
    }
}

/// Where a window opens and at which level: a popup keeps the bounds it asked for and is
/// above everything, every other window fills the screen.
pub fn window_placement(kind: WindowKind, screen: Bounds, requested: Bounds) -> (placement: (
    Bounds,
    i32,
))
    ensures
        placement == (match kind {
            WindowKind::Normal => (screen, 0i32),
            WindowKind::Floating => (screen, 1i32),
            WindowKind::PopUp => (requested, 1000i32),
        }),
{
    match kind {
        WindowKind::Normal => (screen, 0),
        WindowKind::Floating => (screen, 1),
        WindowKind::PopUp => (requested, 1000),
    }
}

/// Whether a window can be resized: only popups own their frame.
pub fn resizes(kind: WindowKind) -> (can: bool)
    ensures
        can == (kind == WindowKind::PopUp),
{
    kind == WindowKind::PopUp
}

/// The safe area: the system's insets, and at the bottom the software keyboard where it
/// covers more.
pub fn safe_area_insets(insets: Edges, keyboard_overlap: Scalar) -> (safe: Edges)
    ensures
        safe == (Edges {
            bottom: if insets.bottom.below(keyboard_overlap) {
                keyboard_overlap
            } else {
                insets.bottom
            },
            ..insets
        }),
{
    Edges {
        top: insets.top,
        right: insets.right,
        bottom: if insets.bottom.less(keyboard_overlap) {
            keyboard_overlap
        } else {
            insets.bottom
        },
        left: insets.left,
    }
}

/// How much of a window the software keyboard covers. Tells whether that changed.
pub fn update_keyboard_overlap(known: &mut Scalar, overlap: Scalar) -> (changed: bool)
    ensures
        changed == !old(known).same_value(overlap),
        *final(known) == if old(known).same_value(overlap) {
            *old(known)
        } else {
            overlap
        },
{
    if known.equal(overlap) {
        return false;
    }
    *known = overlap;
    true
}

/// Takes in the appearance; tells whether it changed.
pub fn update_appearance(known: &mut WindowAppearance, appearance: WindowAppearance) -> (changed: bool)
    ensures
        *final(known) == appearance,
        changed == (*old(known) != appearance),
{
    if appearance == *known {
        return false;
    }
    *known = appearance;
    true
}

/// The view is first responder exactly while a text element has focus. Tells what to ask
/// for where that changed.
pub fn update_keyboard_wanted(wanted: &mut bool, has_text_focus: bool) -> (request: Option<bool>)
    ensures
        *final(wanted) == has_text_focus,
        request == if *old(wanted) == has_text_focus {
            None
        } else {
            Some(has_text_focus)
        },
{
    if has_text_focus == *wanted {
        return None;
    }
    *wanted = has_text_focus;
    Some(has_text_focus)
}

/// A window of a scene: its number, and whether it is the key window.
#[derive(Clone, Copy, Debug, PartialEq, Eq, Structural)]
pub struct SceneWindow {
    pub handle: u64,
    pub is_key: bool,
}

/// The first key window.
pub open spec fn key_window(windows: Seq<SceneWindow>) -> Option<u64>
    decreases windows.len(),
{
    if windows.len() == 0 {
        None
    } else if windows[0].is_key {
        Some(windows[0].handle)
    } else {
        key_window(windows.drop_first())
    }
}

/// The active window among the windows, which come back to front.
pub fn active_window(windows: &Vec<SceneWindow>) -> (active: Option<u64>)
    ensures
        active == key_window(windows@),
{
    let mut index: usize = 0;
    assert(windows@.skip(0) =~= windows@);
    while index < windows.len()
        invariant
            index <= windows@.len(),
            key_window(windows@) == key_window(windows@.skip(index as int)),
        decreases windows@.len() - index,
    {
        if windows[index].is_key {
            return Some(windows[index].handle);
        }
        assert(windows@.skip(index as int).drop_first() =~= windows@.skip(index + 1));
        index += 1;
    }
    None
}

/// The windows front to back.
pub fn ordered_windows(windows: &Vec<SceneWindow>) -> (ordered: Vec<u64>)
    ensures
        ordered@ == windows@.reverse().map_values(|window: SceneWindow| window.handle),
{
    let mut ordered: Vec<u64> = Vec::new();
    let mut index: usize = windows.len();
    while index > 0
        invariant
            index <= windows@.len(),
            ordered@.len() == windows@.len() - index,
            forall|i: int|
                0 <= i < ordered@.len() ==> #[trigger] ordered@[i] == windows@[windows@.len() - 1
                    - i].handle,
        decreases index,
    {
        index -= 1;
        ordered.push(windows[index].handle);
    }
    assert(ordered@ =~= windows@.reverse().map_values(|window: SceneWindow| window.handle));
    ordered
}

/// A window that system UI could be presented from.
#[derive(Clone, Copy, Debug, PartialEq, Eq, Structural)]
pub struct PresentingWindow {
    pub has_controller: bool,
    pub is_key: bool,
}

/// The first window with a controller from `from` on, and among the key windows alone
/// where `key` asks for that.
pub open spec fn presenter(windows: Seq<PresentingWindow>, from: int, key: bool) -> Option<int>
    decreases windows.len() - from,
{
    if from < 0 || from >= windows.len() {
        None
    } else if windows[from].has_controller && (key ==> windows[from].is_key) {
        Some(from)
    } else {
        presenter(windows, from + 1, key)
    }
}

/// The window that presents system UI: the key window, else the first that can.
pub fn presenting_window(windows: &Vec<PresentingWindow>) -> (index: Option<usize>)
    ensures
        match index {
            Some(index) => presenter(windows@, 0, true) == Some(index as int) || (presenter(
                windows@,
                0,
                true,
            ) is None && presenter(windows@, 0, false) == Some(index as int)),
            None => presenter(windows@, 0, true) is None && presenter(windows@, 0, false) is None,
        },
{
    let mut fallback: Option<usize> = None;
    let mut index: usize = 0;
    while index < windows.len()
        invariant
            index <= windows@.len(),
            presenter(windows@, 0, true) == presenter(windows@, index as int, true),
            match fallback {
                Some(first) => presenter(windows@, 0, false) == Some(first as int),
                None => presenter(windows@, 0, false) == presenter(windows@, index as int, false),
            },
        decreases windows@.len() - index,
    {
        let window = windows[index];
        if window.has_controller {
            if window.is_key {
                return Some(index);
            }
            if fallback.is_none() {
                fallback = Some(index);
            }
        }
        index += 1;
    }
    fallback
}

/// The document types that a picker offers.
pub fn picker_types(files: bool, directories: bool) -> (types: Vec<&'static str>)
    ensures
        types@.map_values(|kind: &'static str| kind@) == (if files {
            seq!["public.item"@]
        } else {
            seq![]
        }) + (if directories {
            seq!["public.folder"@]
        } else {
            seq![]
        }),
{
    let mut types: Vec<&'static str> = Vec::new();
    if files {
        types.push("public.item");
    }
    if directories {
        types.push("public.folder");
    }
    assert(types@.map_values(|kind: &'static str| kind@) =~= (if files {
        seq!["public.item"@]
    } else {
        seq![]
    }) + (if directories {
        seq!["public.folder"@]
    } else {
        seq![]
    }));
    types
}

/// The name of a new document.
pub fn document_name(suggested: Option<String>) -> (name: String)
    ensures
        name@ == (match suggested {
            Some(suggested) => suggested@,
            None => "Untitled"@,
        }),
{
    match suggested {
        Some(suggested) => suggested,
        None => "Untitled".to_owned(),
    }
}

/// The path chosen for a new document: the first that was picked.
pub fn chosen_path(picked: Option<Vec<String>>) -> (path: Option<String>)
    ensures
        match picked {
            Some(paths) => if paths@.len() == 0 {
                path is None
            } else {
                path == Some(paths@[0])
            },
            None => path is None,
        },
{
    match picked {
        Some(paths) => {
            let mut paths = paths;
            if paths.len() == 0 {
                None
            } else {
                Some(paths.remove(0))
            }
        },
        None => None,
    }
}

/// The keyboard layout: the language of the input mode, as far as there is one.
pub fn keyboard_layout(language: Option<String>) -> (name: String)
    ensures
        name@ == (match language {
            Some(language) => if language@.len() == 0 {
                "unknown"@
            } else {
                language@
            },
            None => "unknown"@,
        }),
{
    match language {
        Some(language) => if language.as_str().is_empty() {
            "unknown".to_owned()
        } else {
            language
        },
        None => "unknown".to_owned(),
    }
}

/// The style of a button of an alert: the one that cancels is set apart.
pub fn alert_style(cancels: bool) -> (style: isize)
    ensures
        style == if cancels {
            1isize
        } else {
            0isize
        },
{
    if cancels {
        1
    } else {
        0
    }
}

/// The answer to an alert, which is given once.
#[derive(Clone, Copy, Debug, PartialEq, Eq, Structural)]
pub struct PendingAnswer {
    pub given: bool,
}

impl PendingAnswer {
    pub fn new() -> (pending: PendingAnswer)
        ensures
            !pending.given,
    {
        PendingAnswer { given: false }
    }

    /// A button was tapped. Only the first tap is an answer.
    pub fn answer(&mut self, button: usize) -> (chosen: Option<usize>)
        ensures
            final(self).given,
            chosen == if old(self).given {
                None
            } else {
                Some(button)
            },
    {
        if self.given {
            return None;
        }
        self.given = true;
        Some(button)
    }
}

/// The screen's scale where there is no screen: 2.
pub const DEFAULT_SCALE: u32 = 0x4000_0000;

/// The scale of the main screen.
pub fn screen_scale(scale: Option<Scalar>) -> (effective: Scalar)
    ensures
        effective == (match scale {
            Some(scale) => scale,
            None => scalar(DEFAULT_SCALE),
        }),
        scale is None ==> effective == scalar(0x4000_0000),
{
    match scale {
        Some(scale) => scale,
        None => scalar(DEFAULT_SCALE),
    }
}

/// The bytes of the text "gpui-ios-screen0".
pub open spec fn screen_uuid() -> Seq<u8> {
    seq![
        0x67u8, 0x70, 0x75, 0x69, 0x2d, 0x69, 0x6f, 0x73, 0x2d, 0x73, 0x63, 0x72, 0x65, 0x65, 0x6e, 0x30,
    ]
}

/// The device's screen: there is one.
#[derive(Clone, Copy, Debug, PartialEq, Eq, Structural)]
pub struct IosDisplay;

impl IosDisplay {
    pub fn id(&self) -> (id: DisplayId)
        ensures
            id.0 == 0,
    {
        DisplayId(0)
    }

    /// The identity of the screen, stable across launches.
    pub fn uuid(&self) -> (id: [u8; 16])
        ensures
            id@ == screen_uuid(),
    {
        let id: [u8; 16] = [
            0x67, 0x70, 0x75, 0x69, 0x2d, 0x69, 0x6f, 0x73, 0x2d, 0x73, 0x63, 0x72, 0x65, 0x65, 0x6e, 0x30,
        ];
        assert(id@ =~= screen_uuid());
        id
    }

    /// The screen's bounds; `default_size` where there is no screen.
    pub fn bounds(&self, screen: Option<Bounds>, default_size: Size) -> (bounds: Bounds)
        ensures
            bounds == (match screen {
                Some(screen) => screen,
                None => Bounds { origin: origin(), size: default_size },
            }),
    {
        match screen {
            Some(screen) => screen,
            None => Bounds { origin: origin(), size: default_size },
        }
    }
}

} // verus!
