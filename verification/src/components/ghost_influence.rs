//! How an object of the map sways the ghost.

use vstd::prelude::*;

verus! {

/// Whether an object draws the ghost or drives it away.
#[derive(Debug, Clone, Copy, PartialEq, Eq, Hash, Structural)]
pub enum InfluenceType {
    /// The ghost is drawn to this object.
    Attractive,
    /// The ghost is driven away from this object.
    Repulsive,
}

} // verus!
