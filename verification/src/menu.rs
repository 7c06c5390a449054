//! The menu bar the shell installs at startup: three groups, each an ordered
//! run of custom items, separators and host-provided actions.
//!
//! The menu is plain data. The host walks it once and builds its own native
//! menu from it.

use vstd::prelude::*;
use crate::ident::{lemma_ids_distinct, MenuId};

verus! {

/// One line of a menu group.
#[derive(Clone, Copy, Debug, PartialEq, Eq)]
pub enum MenuEntry {
    /// A custom item: the identifier the host reports on activation, and
    /// the label it shows.
    Item { id: &'static str, label: &'static str },
    /// A dividing line.
    Separator,
    /// The platform's own copy action, which the host handles by itself.
    Copy,
}

/// A menu entry as contracts see it.
pub enum EntryView {
    Item { id: Seq<char>, label: Seq<char> },
    Separator,
    Copy,
}

impl View for MenuEntry {
    type V = EntryView;

    open spec fn view(&self) -> EntryView {
        match *self {
            MenuEntry::Item { id, label } => EntryView::Item { id: id@, label: label@ },
            MenuEntry::Separator => EntryView::Separator,
            MenuEntry::Copy => EntryView::Copy,
        }
    }
}

/// A titled group of the menu bar.
#[derive(Clone, Debug, PartialEq, Eq)]
pub struct Submenu {
    pub title: &'static str,
    pub entries: Vec<MenuEntry>,
}

/// A menu group as contracts see it.
pub struct SubmenuView {
    pub title: Seq<char>,
    pub entries: Seq<EntryView>,
}

impl View for Submenu {
    type V = SubmenuView;

    open spec fn view(&self) -> SubmenuView {
        SubmenuView {
            title: self.title@,
            entries: self.entries@.map_values(|e: MenuEntry| e@),
        }
    }
}

/// The whole menu bar: its groups from left to right.
#[derive(Clone, Debug, PartialEq, Eq)]
pub struct Menu {
    pub groups: Vec<Submenu>,
}

impl View for Menu {
    type V = Seq<SubmenuView>;

    open spec fn view(&self) -> Seq<SubmenuView> {
        self.groups@.map_values(|g: Submenu| g@)
    }
}

/// The entry that stands for a custom item.
pub open spec fn item_entry(item: MenuId) -> EntryView {
    EntryView::Item { id: item.id(), label: item.label() }
}

/// The File group: the project actions, then saving, then exit, with a
/// separator between the three parts.
pub open spec fn file_group() -> SubmenuView {
    SubmenuView {
        title: "File"@,
        entries: seq![
            item_entry(MenuId::NewProject),
            item_entry(MenuId::OpenProject),
            item_entry(MenuId::CloseProject),
            EntryView::Separator,
            item_entry(MenuId::SaveProject),
            item_entry(MenuId::SaveAsProject),
            EntryView::Separator,
            item_entry(MenuId::Exit),
        ],
    }
}

/// The Edit group: the platform's copy action and nothing else.
pub open spec fn edit_group() -> SubmenuView {
    SubmenuView { title: "Edit"@, entries: seq![EntryView::Copy] }
}

/// The Help group: the about item.
pub open spec fn help_group() -> SubmenuView {
    SubmenuView { title: "Help"@, entries: seq![item_entry(MenuId::About)] }
}

/// The menu bar of the shell: File, Edit, Help.
pub open spec fn app_menu() -> Seq<SubmenuView> {
    seq![file_group(), edit_group(), help_group()]
}

impl MenuEntry {
    /// The entry for a custom item.
    pub fn item(item: MenuId) -> (entry: MenuEntry)
        ensures
            entry@ == item_entry(item),
    {
        MenuEntry::Item { id: item.id_str(), label: item.label_str() }
    }
}

/// Builds the File group.
pub fn file_menu() -> (group: Submenu)
    ensures
        group@ == file_group(),
{
    let mut entries: Vec<MenuEntry> = Vec::new();
    entries.push(MenuEntry::item(MenuId::NewProject));
    entries.push(MenuEntry::item(MenuId::OpenProject));
    entries.push(MenuEntry::item(MenuId::CloseProject));
    entries.push(MenuEntry::Separator);
    entries.push(MenuEntry::item(MenuId::SaveProject));
    entries.push(MenuEntry::item(MenuId::SaveAsProject));
    entries.push(MenuEntry::Separator);
    entries.push(MenuEntry::item(MenuId::Exit));
    let group = Submenu { title: "File", entries };
    assert(group@.entries =~= file_group().entries);
    group
}

/// Builds the Edit group.
pub fn edit_menu() -> (group: Submenu)
    ensures
        group@ == edit_group(),
{
    let mut entries: Vec<MenuEntry> = Vec::new();
    entries.push(MenuEntry::Copy);
    let group = Submenu { title: "Edit", entries };
    assert(group@.entries =~= edit_group().entries);
    group
}

/// Builds the Help group.
pub fn help_menu() -> (group: Submenu)
    ensures
        group@ == help_group(),
{
    let mut entries: Vec<MenuEntry> = Vec::new();
    entries.push(MenuEntry::item(MenuId::About));
    let group = Submenu { title: "Help", entries };
    assert(group@.entries =~= help_group().entries);
    group
}

/// Builds the menu bar. Construction cannot fail, and every call yields the
/// same tree.
pub fn build_menu() -> (menu: Menu)
    ensures
        menu@ == app_menu(),
{
    let mut groups: Vec<Submenu> = Vec::new();
    groups.push(file_menu());
    groups.push(edit_menu());
    groups.push(help_menu());
    let menu = Menu { groups };
    assert(menu@ =~= app_menu());
    menu
}

/// Whether the entry at place `entry` of group `group` is the custom item
/// `item`.
pub open spec fn shows(menu: Seq<SubmenuView>, group: int, entry: int, item: MenuId) -> bool {
    &&& 0 <= group < menu.len()
    &&& 0 <= entry < menu[group].entries.len()
    &&& menu[group].entries[entry] == item_entry(item)
}

/// Where each custom item stands on the menu bar: the group, then the place
/// within the group, both counted from zero.
pub open spec fn place(item: MenuId) -> (int, int) {
    match item {
        MenuId::NewProject => (0, 0),
        MenuId::OpenProject => (0, 1),
        MenuId::CloseProject => (0, 2),
        MenuId::SaveProject => (0, 4),
        MenuId::SaveAsProject => (0, 5),
        MenuId::Exit => (0, 7),
        MenuId::About => (2, 0),
    }
}

/// Building the menu twice gives the same tree: the same groups in the same
/// order, each with the same identifiers, labels and separators at the same
/// places.
pub proof fn lemma_build_menu_deterministic(first: Menu, second: Menu)
    requires
        first@ == app_menu(),
        second@ == app_menu(),
    ensures
        first@ == second@,
        first@.len() == 3,
        forall|g: int| 0 <= g < 3 ==> first@[g].title == second@[g].title,
        forall|g: int| 0 <= g < 3 ==> first@[g].entries == second@[g].entries,
{
}

/// Each of the seven custom items stands at exactly one place on the menu
/// bar, so no identifier is offered twice.
pub proof fn lemma_item_has_one_place(item: MenuId, group: int, entry: int)
    ensures
        shows(app_menu(), group, entry, item) <==> (group, entry) == place(item),
{
    let menu = app_menu();
    assert(menu.len() == 3);
    assert(menu[0].entries.len() == 8);
    assert(menu[1].entries.len() == 1);
    assert(menu[2].entries.len() == 1);
    if shows(menu, group, entry, item) {
        let found = menu[group].entries[entry];
        assert(found is Item);
        if group == 0 {
            assert(entry != 3 && entry != 6);
            if entry == 0 {
                lemma_ids_distinct(item, MenuId::NewProject);
            } else if entry == 1 {
                lemma_ids_distinct(item, MenuId::OpenProject);
            } else if entry == 2 {
                lemma_ids_distinct(item, MenuId::CloseProject);
            } else if entry == 4 {
                lemma_ids_distinct(item, MenuId::SaveProject);
            } else if entry == 5 {
                lemma_ids_distinct(item, MenuId::SaveAsProject);
            } else {
                lemma_ids_distinct(item, MenuId::Exit);
            }
        } else {
            assert(group == 2);
            lemma_ids_distinct(item, MenuId::About);
        }
    }
}

/// Every custom entry of the menu bar is one of the seven items.
pub proof fn lemma_every_item_is_known(group: int, entry: int)
    requires
        0 <= group < app_menu().len(),
        0 <= entry < app_menu()[group].entries.len(),
        app_menu()[group].entries[entry] is Item,
    ensures
        exists|item: MenuId| shows(app_menu(), group, entry, item),
{
    let menu = app_menu();
    assert(menu.len() == 3);
    assert(menu[0].entries.len() == 8);
    assert(menu[1].entries.len() == 1);
    assert(menu[2].entries.len() == 1);
    if group == 0 {
        if entry == 0 {
            assert(shows(menu, group, entry, MenuId::NewProject));
        } else if entry == 1 {
            assert(shows(menu, group, entry, MenuId::OpenProject));
        } else if entry == 2 {
            assert(shows(menu, group, entry, MenuId::CloseProject));
        } else if entry == 4 {
            assert(shows(menu, group, entry, MenuId::SaveProject));
        } else if entry == 5 {
            assert(shows(menu, group, entry, MenuId::SaveAsProject));
        } else {
            assert(entry == 7);
            assert(shows(menu, group, entry, MenuId::Exit));
        }
    } else {
        assert(group == 2);
        assert(shows(menu, group, entry, MenuId::About));
    }
}

} // verus!
