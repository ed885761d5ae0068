//! Host window events.
//!
//! The window supplies a finite batch of input events per frame. The core
//! routes them; the window itself (display surface, cursor grab, buffer
//! swap) stays with the host.

use vstd::prelude::*;

verus! {

/// A semantic key the host window reports edges for.
#[derive(Clone, Copy, Debug, PartialEq, Eq, Structural)]
pub enum Key {
    ToggleCursor,
    MoveForward,
    MoveBack,
    MoveLeft,
    MoveRight,
}

/// One input event from the host window.
#[derive(Clone, Copy, Debug, PartialEq, Eq, Structural)]
pub enum Event {
    /// The user asked to close the window.
    Close,
    /// A key was pressed.
    KeyDown(Key),
    /// A key was released.
    KeyUp(Key),
    /// The pointer moved to the given surface position.
    CursorMove(i32, i32),
    /// The surface was resized to the given dimensions.
    Resize(u32, u32),
}

} // verus!
