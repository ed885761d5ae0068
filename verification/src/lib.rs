//! Verified core of a real-time multiplayer game client: the fixed-timestep
//! session runtime that paces frames, aggregates directional input, classifies
//! network-session failures, orchestrates one frame of the inner loop, and
//! drives the application's screen stack.
//!
//! Rendering, UI widget layout and camera projection are external
//! collaborators; this crate holds only the logic with genuine correctness
//! concerns and proves its contracts.

pub mod biome;
pub mod client;
pub mod clock;
pub mod error;
pub mod hud;
pub mod key_state;
pub mod menu;
pub mod playstate;
pub mod session;
pub mod window;
