use menu_shell::ident::MenuId;
use menu_shell::menu::{build_menu, edit_menu, file_menu, help_menu, Menu, MenuEntry, Submenu};

fn item(id: &'static str, label: &'static str) -> MenuEntry {
    MenuEntry::Item { id, label }
}

#[test]
fn menu_has_file_edit_help() {
    let menu = build_menu();
    let titles: Vec<&str> = menu.groups.iter().map(|g| g.title).collect();
    assert_eq!(titles, vec!["File", "Edit", "Help"]);
}

#[test]
fn file_group_in_order() {
    let file = file_menu();
    assert_eq!(file.title, "File");
    assert_eq!(
        file.entries,
        vec![
            item("new_project", "New Project"),
            item("open_project", "Open Project"),
            item("close_project", "Close Project"),
            MenuEntry::Separator,
            item("save_project", "Save Project"),
            item("save_as_project", "Save As Project"),
            MenuEntry::Separator,
            item("exit", "Exit"),
        ]
    );
}

#[test]
fn separators_stand_after_the_third_and_the_fifth_item() {
    let file = file_menu();
    let places: Vec<usize> = file
        .entries
        .iter()
        .enumerate()
        .filter(|(_, e)| **e == MenuEntry::Separator)
        .map(|(i, _)| i)
        .collect();
    assert_eq!(places, vec![3, 6]);
}

#[test]
fn edit_group_is_the_copy_action() {
    let edit = edit_menu();
    assert_eq!(edit.title, "Edit");
    assert_eq!(edit.entries, vec![MenuEntry::Copy]);
}

#[test]
fn help_group_is_the_about_item() {
    let help = help_menu();
    assert_eq!(help.title, "Help");
    assert_eq!(help.entries, vec![item("about", "About")]);
}

#[test]
fn menu_is_made_of_the_three_groups() {
    assert_eq!(
        build_menu(),
        Menu { groups: vec![file_menu(), edit_menu(), help_menu()] }
    );
}

#[test]
fn whole_menu_written_out() {
    let expected = Menu {
        groups: vec![
            Submenu {
                title: "File",
                entries: vec![
                    item("new_project", "New Project"),
                    item("open_project", "Open Project"),
                    item("close_project", "Close Project"),
                    MenuEntry::Separator,
                    item("save_project", "Save Project"),
                    item("save_as_project", "Save As Project"),
                    MenuEntry::Separator,
                    item("exit", "Exit"),
                ],
            },
            Submenu { title: "Edit", entries: vec![MenuEntry::Copy] },
            Submenu { title: "Help", entries: vec![item("about", "About")] },
        ],
    };
    assert_eq!(build_menu(), expected);
}

#[test]
fn building_twice_gives_the_same_tree() {
    let first = build_menu();
    let second = build_menu();
    assert_eq!(first, second);
    assert_eq!(first.groups.len(), second.groups.len());
    for (a, b) in first.groups.iter().zip(second.groups.iter()) {
        assert_eq!(a.title, b.title);
        assert_eq!(a.entries, b.entries);
    }
}

#[test]
fn entry_for_an_item_holds_its_identifier_and_label() {
    assert_eq!(MenuEntry::item(MenuId::SaveAsProject), item("save_as_project", "Save As Project"));
    assert_eq!(MenuEntry::item(MenuId::Exit), item("exit", "Exit"));
    assert_ne!(MenuEntry::item(MenuId::Exit), MenuEntry::item(MenuId::About));
}

#[test]
fn each_item_stands_once_on_the_menu() {
    let all = [
        (MenuId::NewProject, (0, 0)),
        (MenuId::OpenProject, (0, 1)),
        (MenuId::CloseProject, (0, 2)),
        (MenuId::SaveProject, (0, 4)),
        (MenuId::SaveAsProject, (0, 5)),
        (MenuId::Exit, (0, 7)),
        (MenuId::About, (2, 0)),
    ];
    let menu = build_menu();
    for (wanted, place) in all {
        let mut found = Vec::new();
        for (g, group) in menu.groups.iter().enumerate() {
            for (i, entry) in group.entries.iter().enumerate() {
                if *entry == MenuEntry::item(wanted) {
                    found.push((g, i));
                }
            }
        }
        assert_eq!(found, vec![place]);
    }
}

#[test]
fn every_custom_entry_is_one_of_the_seven_items() {
    let menu = build_menu();
    let mut seen = 0;
    for group in &menu.groups {
        for entry in &group.entries {
            if let MenuEntry::Item { id, label } = *entry {
                let known = MenuId::from_id(id).expect("a known identifier");
                assert_eq!(known.label_str(), label);
                seen += 1;
            }
        }
    }
    assert_eq!(seen, 7);
}
