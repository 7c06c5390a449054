use menu_shell::ident::MenuId;

const ALL: [MenuId; 7] = [
    MenuId::NewProject,
    MenuId::OpenProject,
    MenuId::CloseProject,
    MenuId::SaveProject,
    MenuId::SaveAsProject,
    MenuId::About,
    MenuId::Exit,
];

#[test]
fn identifiers_of_the_seven_items() {
    assert_eq!(MenuId::NewProject.id_str(), "new_project");
    assert_eq!(MenuId::OpenProject.id_str(), "open_project");
    assert_eq!(MenuId::CloseProject.id_str(), "close_project");
    assert_eq!(MenuId::SaveProject.id_str(), "save_project");
    assert_eq!(MenuId::SaveAsProject.id_str(), "save_as_project");
    assert_eq!(MenuId::About.id_str(), "about");
    assert_eq!(MenuId::Exit.id_str(), "exit");
}

#[test]
fn labels_of_the_seven_items() {
    assert_eq!(MenuId::NewProject.label_str(), "New Project");
    assert_eq!(MenuId::OpenProject.label_str(), "Open Project");
    assert_eq!(MenuId::CloseProject.label_str(), "Close Project");
    assert_eq!(MenuId::SaveProject.label_str(), "Save Project");
    assert_eq!(MenuId::SaveAsProject.label_str(), "Save As Project");
    assert_eq!(MenuId::About.label_str(), "About");
    assert_eq!(MenuId::Exit.label_str(), "Exit");
}

#[test]
fn from_id_finds_each_item() {
    for item in ALL {
        assert_eq!(MenuId::from_id(item.id_str()), Some(item));
    }
}

#[test]
fn from_id_of_named_identifiers() {
    assert_eq!(MenuId::from_id("exit"), Some(MenuId::Exit));
    assert_eq!(MenuId::from_id("open_project"), Some(MenuId::OpenProject));
    assert_eq!(MenuId::from_id("save_project"), Some(MenuId::SaveProject));
    assert_eq!(MenuId::from_id("save_as_project"), Some(MenuId::SaveAsProject));
}

#[test]
fn from_id_rejects_what_is_no_identifier() {
    for id in ["", "Exit", "exit ", "New Project", "new-project", "save", "save_as", "abou", "about_", "copy"] {
        assert_eq!(MenuId::from_id(id), None, "{:?}", id);
    }
}

#[test]
fn from_id_does_not_take_a_label_for_an_identifier() {
    for item in ALL {
        assert_eq!(MenuId::from_id(item.label_str()), None);
    }
}

#[test]
fn no_two_items_share_an_identifier() {
    for (i, a) in ALL.iter().enumerate() {
        for (j, b) in ALL.iter().enumerate() {
            assert_eq!(a.id_str() == b.id_str(), i == j);
        }
    }
}
