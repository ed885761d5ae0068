//! Events of the character-selection screen.
//!
//! The screen's widget layout is an external collaborator; the core
//! consumes only the events it emits and turns them into state-machine
//! transitions.

use vstd::prelude::*;

use crate::playstate::{PlayStateResult, StateId};

verus! {

/// An event emitted by the character-selection screen.
#[derive(Clone, Copy, Debug, PartialEq, Eq, Structural)]
pub enum Event {
    /// Leave the screen and return to the previous one.
    Logout,
    /// Enter an active play session with the chosen character.
    Play,
}

/// The state transition a character-selection event asks the host for:
/// logging out pops back to the previous screen, playing switches the
/// live screen to the session.
pub fn transition(event: Event) -> (r: PlayStateResult)
    ensures
        match event {
            Event::Logout => r == PlayStateResult::Pop,
            Event::Play => r == PlayStateResult::Switch(StateId::Session),
        },
{
    match event {
        Event::Logout => PlayStateResult::Pop,
        Event::Play => PlayStateResult::Switch(StateId::Session),
    }
}

} // verus!
