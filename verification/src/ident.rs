//! The identifiers under which the custom menu items are known to the host,
//! each with the label the menu shows for it.

use vstd::prelude::*;
use crate::text::same_text;

verus! {

/// One of the seven custom items of the menu bar.
#[derive(Clone, Copy, Debug, PartialEq, Eq, Hash, Structural)]
pub enum MenuId {
    NewProject,
    OpenProject,
    CloseProject,
    SaveProject,
    SaveAsProject,
    About,
    Exit,
}

impl MenuId {
    /// The identifier the host reports when the item is activated.
    pub open spec fn id(self) -> Seq<char> {
        match self {
            MenuId::NewProject => "new_project"@,
            MenuId::OpenProject => "open_project"@,
            MenuId::CloseProject => "close_project"@,
            MenuId::SaveProject => "save_project"@,
            MenuId::SaveAsProject => "save_as_project"@,
            MenuId::About => "about"@,
            MenuId::Exit => "exit"@,
        }
    }

    /// The text the menu shows for the item.
    pub open spec fn label(self) -> Seq<char> {
        match self {
            MenuId::NewProject => "New Project"@,
            MenuId::OpenProject => "Open Project"@,
            MenuId::CloseProject => "Close Project"@,
            MenuId::SaveProject => "Save Project"@,
            MenuId::SaveAsProject => "Save As Project"@,
            MenuId::About => "About"@,
            MenuId::Exit => "Exit"@,
        }
    }

    /// The identifier as a string slice.
    pub fn id_str(self) -> (s: &'static str)
        ensures
            s@ == self.id(),
    {
        match self {
            MenuId::NewProject => "new_project",
            MenuId::OpenProject => "open_project",
            MenuId::CloseProject => "close_project",
            MenuId::SaveProject => "save_project",
            MenuId::SaveAsProject => "save_as_project",
            MenuId::About => "about",
            MenuId::Exit => "exit",
        }
    }

    /// The label as a string slice.
    pub fn label_str(self) -> (s: &'static str)
        ensures
            s@ == self.label(),
    {
        match self {
            MenuId::NewProject => "New Project",
            MenuId::OpenProject => "Open Project",
            MenuId::CloseProject => "Close Project",
            MenuId::SaveProject => "Save Project",
            MenuId::SaveAsProject => "Save As Project",
            MenuId::About => "About",
            MenuId::Exit => "Exit",
        }
    }

    /// Finds the item that an identifier names. Identifiers are matched
    /// exactly: case and surrounding blanks count.
    pub fn from_id(item_id: &str) -> (found: Option<MenuId>)
        ensures
            match found {
                Some(m) => m.id() == item_id@,
                None => forall|m: MenuId| m.id() != item_id@,
            },
    {
        if same_text(item_id, "new_project") {
            Some(MenuId::NewProject)
        } else if same_text(item_id, "open_project") {
            Some(MenuId::OpenProject)
        } else if same_text(item_id, "close_project") {
            Some(MenuId::CloseProject)
        } else if same_text(item_id, "save_project") {
            Some(MenuId::SaveProject)
        } else if same_text(item_id, "save_as_project") {
            Some(MenuId::SaveAsProject)
        } else if same_text(item_id, "about") {
            Some(MenuId::About)
        } else if same_text(item_id, "exit") {
            Some(MenuId::Exit)
        } else {
            None
        }
    }
}

/// No two items share an identifier.
pub proof fn lemma_ids_distinct(a: MenuId, b: MenuId)
    ensures
        a.id() == b.id() <==> a == b,
{
    reveal_strlit("new_project");
    reveal_strlit("open_project");
    reveal_strlit("close_project");
    reveal_strlit("save_project");
    reveal_strlit("save_as_project");
    reveal_strlit("about");
    reveal_strlit("exit");
    // Five of the identifiers differ in length from every other one.
    assert("new_project"@.len() == 11);
    assert("open_project"@.len() == 12);
    assert("close_project"@.len() == 13);
    assert("save_project"@.len() == 12);
    assert("save_as_project"@.len() == 15);
    assert("about"@.len() == 5);
    assert("exit"@.len() == 4);
    // The two of length twelve differ in their first character.
    assert("open_project"@[0] == 'o');
    assert("save_project"@[0] == 's');
}

/// An identifier names at most one item, so `from_id` has one answer.
pub proof fn lemma_from_id_unique(item_id: Seq<char>, a: MenuId, b: MenuId)
    requires
        a.id() == item_id,
        b.id() == item_id,
    ensures
        a == b,
{
    lemma_ids_distinct(a, b);
}

} // verus!
