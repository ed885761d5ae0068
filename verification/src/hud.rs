//! The HUD collaborator's verified surface.
//!
//! Widget layout and rendering are external; what the core depends on is
//! the HUD's event protocol — the higher-level events it emits during
//! maintenance — and the list of inbound chat messages it must display.
//! [`Hud`] models exactly that list, so the orchestrator's dispatch order
//! can be stated and proved.

use vstd::prelude::*;

verus! {

/// A higher-level event emitted by the HUD during per-frame maintenance.
#[derive(Debug, PartialEq, Eq)]
pub enum Event {
    /// The user submitted a chat message to send.
    SendMessage(String),
    /// The user asked to leave the session and return to the previous
    /// screen.
    Logout,
    /// The user asked to quit the application.
    Quit,
}

/// The HUD state the core is answerable for: the chat messages handed to
/// it for display, oldest first, none dropped.
#[derive(Debug, PartialEq, Eq)]
pub struct Hud {
    pub messages: Vec<String>,
}

impl Hud {
    /// Creates a HUD with no message displayed yet.
    pub fn new() -> (r: Hud)
        ensures
            r.messages@ == Seq::<String>::empty(),
    {
        Hud { messages: Vec::new() }
    }

    /// Hands the HUD one inbound chat message; it is appended after
    /// everything already displayed.
    pub fn new_message(&mut self, msg: String)
        ensures
            final(self).messages@ == old(self).messages@.push(msg),
    {
        self.messages.push(msg);
    }
}

} // verus!
