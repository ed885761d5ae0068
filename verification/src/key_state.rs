//! The input aggregator.
//!
//! [`KeyState`] accumulates directional key press and release edges into
//! four held-key flags, and derives from them a movement vector with each
//! component in `{-1, 0, 1}`: right minus left, and forward (`up`) minus
//! back (`down`). No normalization is performed at this layer; rotation
//! into world space is the caller's concern, together with the camera
//! orientation.

use vstd::prelude::*;

verus! {

/// One of the four movement directions a key can be bound to.
#[derive(Clone, Copy, Debug, PartialEq, Eq, Structural)]
pub enum Direction {
    Forward,
    Back,
    Left,
    Right,
}

/// A movement vector with components in `{-1, 0, 1}`: `x` is right minus
/// left, `y` is forward minus back.
#[derive(Clone, Copy, Debug, PartialEq, Eq, Structural)]
pub struct DirVec {
    pub x: i8,
    pub y: i8,
}

/// The currently held movement keys. `up` is forward, `down` is back.
#[derive(Clone, Copy, Debug, PartialEq, Eq, Structural)]
pub struct KeyState {
    pub up: bool,
    pub down: bool,
    pub left: bool,
    pub right: bool,
}

/// 1 if a key is held, else 0.
pub open spec fn flag(b: bool) -> int {
    if b {
        1
    } else {
        0
    }
}

impl KeyState {
    /// The state after one `set(dir, pressed)` call.
    pub open spec fn with_set(self, dir: Direction, pressed: bool) -> KeyState {
        match dir {
            Direction::Forward => KeyState { up: pressed, ..self },
            Direction::Back => KeyState { down: pressed, ..self },
            Direction::Left => KeyState { left: pressed, ..self },
            Direction::Right => KeyState { right: pressed, ..self },
        }
    }

    /// Whether the key bound to `dir` is held.
    pub open spec fn held(self, dir: Direction) -> bool {
        match dir {
            Direction::Forward => self.up,
            Direction::Back => self.down,
            Direction::Left => self.left,
            Direction::Right => self.right,
        }
    }

    /// The derived movement vector.
    pub open spec fn dir_vec_spec(self) -> DirVec {
        DirVec {
            x: (flag(self.right) - flag(self.left)) as i8,
            y: (flag(self.up) - flag(self.down)) as i8,
        }
    }

    /// Creates an aggregator with no key held.
    pub fn new() -> (r: KeyState)
        ensures
            r == (KeyState { up: false, down: false, left: false, right: false }),
    {
        KeyState { up: false, down: false, left: false, right: false }
    }

    /// Records a press (`pressed == true`) or release edge for one key;
    /// the other flags are untouched. Repeating a `set` with the same
    /// arguments has no further effect.
    pub fn set(&mut self, dir: Direction, pressed: bool)
        ensures
            *final(self) == old(self).with_set(dir, pressed),
    {
        match dir {
            Direction::Forward => self.up = pressed,
            Direction::Back => self.down = pressed,
            Direction::Left => self.left = pressed,
            Direction::Right => self.right = pressed,
        }
    }

    /// The movement vector for the currently held keys: right minus left
    /// and forward minus back, each component in `{-1, 0, 1}`; opposing
    /// held pairs cancel to zero.
    pub fn dir_vec(&self) -> (r: DirVec)
        ensures
            r == self.dir_vec_spec(),
            -1 <= r.x <= 1,
            -1 <= r.y <= 1,
    {
        let x: i8 = (if self.right { 1i8 } else { 0i8 }) - (if self.left { 1i8 } else { 0i8 });
        let y: i8 = (if self.up { 1i8 } else { 0i8 }) - (if self.down { 1i8 } else { 0i8 });
        DirVec { x, y }
    }
}

/// The derived vector always lies in the 9-element grid
/// `{-1, 0, 1} x {-1, 0, 1}`, whatever keys are held.
pub proof fn lemma_dir_vec_bounded(ks: KeyState)
    ensures
        -1 <= ks.dir_vec_spec().x <= 1,
        -1 <= ks.dir_vec_spec().y <= 1,
{
}

/// A `set` is idempotent: repeating it with the same arguments changes
/// nothing further.
pub proof fn lemma_set_idempotent(ks: KeyState, dir: Direction, pressed: bool)
    ensures
        ks.with_set(dir, pressed).with_set(dir, pressed) == ks.with_set(dir, pressed),
{
}

/// Pressing and then releasing a key that was not held returns the state,
/// and hence the derived vector, to its prior value.
pub proof fn lemma_press_release_round_trip(ks: KeyState, dir: Direction)
    requires
        !ks.held(dir),
    ensures
        ks.with_set(dir, true).with_set(dir, false) == ks,
        ks.with_set(dir, true).with_set(dir, false).dir_vec_spec() == ks.dir_vec_spec(),
{
}

} // verus!
