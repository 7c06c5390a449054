//! What the shell does when the host reports a menu activation, and what it
//! does once the host has tried to deliver a message.
//!
//! The dispatcher decides and the host acts: every function here returns an
//! [`Effect`], and the host performs it on the window that raised the event.

use vstd::prelude::*;
use crate::event::{emit_event, open_project_emission, Emission, EmissionView};
use crate::ident::{lemma_ids_distinct, MenuId};

verus! {

/// The exit status of a process that ends through the menu.
pub const EXIT_STATUS: i32 = 0;

/// What the host is to do in reaction to an event.
#[derive(Clone, Debug, PartialEq, Eq)]
pub enum Effect {
    /// Do nothing at all.
    Nothing,
    /// Send the message to the window that raised the event, then report
    /// the outcome to [`on_delivery`].
    Emit(Emission),
    /// End the process at once with this status, without any cleanup.
    Exit { status: i32 },
    /// A message could not be delivered: give up on the whole process.
    Abort,
}

/// An effect as contracts see it.
pub enum EffectView {
    Nothing,
    Emit(EmissionView),
    Exit { status: int },
    Abort,
}

impl View for Effect {
    type V = EffectView;

    open spec fn view(&self) -> EffectView {
        match *self {
            Effect::Nothing => EffectView::Nothing,
            Effect::Emit(emission) => EffectView::Emit(emission@),
            Effect::Exit { status } => EffectView::Exit { status: status as int },
            Effect::Abort => EffectView::Abort,
        }
    }
}

/// How an attempt to send a message ended.
#[derive(Clone, Copy, Debug, PartialEq, Eq, Structural)]
pub enum Delivery {
    /// The window took the message.
    Delivered,
    /// The window is gone.
    Failed,
}

/// The reaction to the activation of the menu item that `item_id` names:
/// the exit item ends the process, the open-project item sends the
/// open-project message, and every other identifier, known or not, is
/// ignored.
pub open spec fn menu_effect(item_id: Seq<char>) -> EffectView {
    if item_id == MenuId::Exit.id() {
        EffectView::Exit { status: EXIT_STATUS as int }
    } else if item_id == MenuId::OpenProject.id() {
        EffectView::Emit(open_project_emission())
    } else {
        EffectView::Nothing
    }
}

/// The reaction to the outcome of a delivery: a failure is fatal.
pub open spec fn delivery_effect(outcome: Delivery) -> EffectView {
    match outcome {
        Delivery::Delivered => EffectView::Nothing,
        Delivery::Failed => EffectView::Abort,
    }
}

/// Decides what to do when the menu item named `item_id` is activated.
pub fn on_menu_event(item_id: &str) -> (effect: Effect)
    ensures
        effect@ == menu_effect(item_id@),
{
    let found = MenuId::from_id(item_id);
    proof {
        if let Some(m) = found {
            lemma_ids_distinct(m, MenuId::Exit);
            lemma_ids_distinct(m, MenuId::OpenProject);
        }
    }
    match found {
        Some(MenuId::Exit) => Effect::Exit { status: EXIT_STATUS },
        Some(MenuId::OpenProject) => Effect::Emit(emit_event()),
        _ => Effect::Nothing,
    }
}

/// Decides what to do once the host has tried to deliver a message.
pub fn on_delivery(outcome: Delivery) -> (effect: Effect)
    ensures
        effect@ == delivery_effect(outcome),
{
    match outcome {
        Delivery::Delivered => Effect::Nothing,
        Delivery::Failed => Effect::Abort,
    }
}

/// An identifier other than the two that have a handler has no effect,
/// whatever it is.
pub proof fn lemma_unhandled_id_has_no_effect(item_id: Seq<char>)
    requires
        item_id != MenuId::Exit.id(),
        item_id != MenuId::OpenProject.id(),
    ensures
        menu_effect(item_id) == EffectView::Nothing,
{
}

/// Of the seven menu items, the five without a handler have no effect.
pub proof fn lemma_unhandled_item_has_no_effect(item: MenuId)
    requires
        item != MenuId::Exit,
        item != MenuId::OpenProject,
    ensures
        menu_effect(item.id()) == EffectView::Nothing,
{
    lemma_ids_distinct(item, MenuId::Exit);
    lemma_ids_distinct(item, MenuId::OpenProject);
}

/// The exit item ends the process with status zero.
pub proof fn lemma_exit_ends_with_status_zero()
    ensures
        menu_effect(MenuId::Exit.id()) == (EffectView::Exit { status: 0 }),
{
}

/// The open-project item and the standalone command send the same message
/// on the same channel: whatever the dispatcher returns for the item is the
/// emission of whatever the command returns.
pub proof fn lemma_open_project_matches_command(from_menu: Effect, from_command: Emission)
    requires
        from_menu@ == menu_effect(MenuId::OpenProject.id()),
        from_command@ == open_project_emission(),
    ensures
        from_menu@ == EffectView::Emit(from_command@),
        from_command@.channel == "open-project-event"@,
        from_command@.payload.message == "hello"@,
{
    lemma_ids_distinct(MenuId::OpenProject, MenuId::Exit);
}

} // verus!
