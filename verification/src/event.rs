//! The one message the shell sends to the user interface, and the channel it
//! travels on.

use vstd::prelude::*;

verus! {

/// The channel on which the shell announces that a project is to be opened.
pub const OPEN_PROJECT_EVENT: &'static str = "open-project-event";

/// The text every message carries.
pub const GREETING: &'static str = "hello";

/// The body of a message: one field of text.
#[derive(Clone, Debug, PartialEq, Eq)]
pub struct Payload {
    pub message: String,
}

/// A payload as contracts see it.
pub struct PayloadView {
    pub message: Seq<char>,
}

impl View for Payload {
    type V = PayloadView;

    open spec fn view(&self) -> PayloadView {
        PayloadView { message: self.message@ }
    }
}

/// A message ready to be sent: where it goes and what it says.
#[derive(Clone, Debug, PartialEq, Eq)]
pub struct Emission {
    pub channel: &'static str,
    pub payload: Payload,
}

/// An emission as contracts see it.
pub struct EmissionView {
    pub channel: Seq<char>,
    pub payload: PayloadView,
}

impl View for Emission {
    type V = EmissionView;

    open spec fn view(&self) -> EmissionView {
        EmissionView { channel: self.channel@, payload: self.payload@ }
    }
}

/// The message that asks the user interface to open a project.
pub open spec fn open_project_emission() -> EmissionView {
    EmissionView {
        channel: OPEN_PROJECT_EVENT@,
        payload: PayloadView { message: GREETING@ },
    }
}

/// Builds the message that asks the user interface to open a project. Each
/// call makes a fresh message; the host sends it to the window that the
/// command was invoked on.
pub fn emit_event() -> (emission: Emission)
    ensures
        emission@ == open_project_emission(),
{
    Emission {
        channel: OPEN_PROJECT_EVENT,
        payload: Payload { message: GREETING.to_owned() },
    }
}

/// The channel and the text of the message, written out.
pub proof fn lemma_open_project_emission_text()
    ensures
        open_project_emission().channel == "open-project-event"@,
        open_project_emission().payload.message == "hello"@,
        open_project_emission().payload.message == seq!['h', 'e', 'l', 'l', 'o'],
{
    reveal_strlit("hello");
    assert("hello"@ =~= seq!['h', 'e', 'l', 'l', 'o']);
}

} // verus!
