//! The application state machine.
//!
//! The application is a stack of mutually exclusive screens; the top of
//! the stack is the one live state. The host repeatedly runs the live
//! state's own loop until it produces a [`PlayStateResult`], then applies
//! that result to the stack: states never inspect or mutate one another —
//! the result value is the only channel between them.

use vstd::prelude::*;

verus! {

/// One screen of the application. The set of screens is closed, so a
/// tagged variant replaces dynamic dispatch; per-screen data lives with
/// the host's runner for that screen.
#[derive(Clone, Copy, Debug, PartialEq, Eq, Structural)]
pub enum StateId {
    /// The main menu.
    MainMenu,
    /// Character selection.
    CharSelection,
    /// An active play session.
    Session,
}

impl StateId {
    /// The display name of the screen.
    pub fn name(&self) -> (r: &'static str)
        ensures
            match self {
                StateId::MainMenu => r@ == "Main Menu"@,
                StateId::CharSelection => r@ == "Character Selection"@,
                StateId::Session => r@ == "Session"@,
            },
    {
        match self {
            StateId::MainMenu => "Main Menu",
            StateId::CharSelection => "Character Selection",
            StateId::Session => "Session",
        }
    }
}

/// What a state's execution loop instructs the host to do next.
/// Exactly one is produced per inner-loop exit.
#[derive(Clone, Copy, Debug, PartialEq, Eq, Structural)]
pub enum PlayStateResult {
    /// Keep running the live state.
    Continue,
    /// Remove the live state and resume the one beneath it.
    Pop,
    /// Replace the live state with another.
    Switch(StateId),
    /// Unwind the whole stack and end the application.
    Shutdown,
}

/// The stack after a result is applied to it.
pub open spec fn apply_spec(stack: Seq<StateId>, r: PlayStateResult) -> Seq<StateId> {
    match r {
        PlayStateResult::Continue => stack,
        PlayStateResult::Pop => stack.drop_last(),
        PlayStateResult::Switch(s) => stack.drop_last().push(s),
        PlayStateResult::Shutdown => Seq::<StateId>::empty(),
    }
}

/// The ordered stack of screens. Its invariant — never empty while the
/// application runs — holds because results are only applied while a
/// state is live, and a root state shuts the application down rather
/// than popping itself.
#[derive(Debug, PartialEq, Eq)]
pub struct StateStack {
    pub stack: Vec<StateId>,
}

impl StateStack {
    /// Starts the application with one root screen.
    pub fn new(root: StateId) -> (r: StateStack)
        ensures
            r.stack@ == seq![root],
    {
        let mut stack: Vec<StateId> = Vec::new();
        stack.push(root);
        StateStack { stack }
    }

    /// Whether any state is left to run.
    pub fn is_running(&self) -> (r: bool)
        ensures
            r == (self.stack@.len() > 0),
    {
        self.stack.len() > 0
    }

    /// The live state: the top of the stack.
    pub fn current(&self) -> (r: StateId)
        requires
            self.stack@.len() > 0,
        ensures
            r == self.stack@.last(),
    {
        self.stack[self.stack.len() - 1]
    }

    /// Makes `child` the live state, to resume the current one when the
    /// child pops.
    pub fn push(&mut self, child: StateId)
        ensures
            final(self).stack@ == old(self).stack@.push(child),
    {
        self.stack.push(child);
    }

    /// Applies the result the live state produced. Only a running
    /// machine applies results, so the stack cannot be empty here.
    pub fn apply(&mut self, r: PlayStateResult)
        requires
            old(self).stack@.len() > 0,
        ensures
            final(self).stack@ == apply_spec(old(self).stack@, r),
    {
        match r {
            PlayStateResult::Continue => {},
            PlayStateResult::Pop => {
                let _ = self.stack.pop();
            },
            PlayStateResult::Switch(s) => {
                let _ = self.stack.pop();
                self.stack.push(s);
            },
            PlayStateResult::Shutdown => {
                self.stack.clear();
            },
        }
    }
}

/// Resumption law: when a pushed child state returns `Pop`, the stack is
/// exactly what it was before the push — control resumes in the parent
/// as it stood, nothing is set up anew.
pub proof fn lemma_child_pop_resumes_parent(stack: Seq<StateId>, child: StateId)
    ensures
        apply_spec(stack.push(child), PlayStateResult::Pop) == stack,
{
    assert(stack.push(child).drop_last() =~= stack);
}

/// Shutdown law: after any state returns `Shutdown`, no state remains,
/// so no further state is run.
pub proof fn lemma_shutdown_unwinds(stack: Seq<StateId>)
    ensures
        apply_spec(stack, PlayStateResult::Shutdown).len() == 0,
{
}

} // verus!
