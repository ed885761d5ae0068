//! Biome classification of terrain.
//!
//! Terrain data itself is out of the core's scope; the biome kind is the
//! plain value the session's world state carries around.

use vstd::prelude::*;

verus! {

/// The kind of biome a region of terrain belongs to.
#[derive(Clone, Copy, Debug, PartialEq, Eq, Structural)]
pub enum BiomeKind {
    Void,
    Grassland,
    Ocean,
    Mountain,
    Snowlands,
    Desert,
    Swamp,
    Forest,
}

} // verus!
