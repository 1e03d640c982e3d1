//! Identity of a player.
use vstd::prelude::*;

verus! {

/// Stable identifier of a player: the 128-bit value of the player's UUID.
/// Every per-player store is keyed by it.
#[derive(Clone, Copy, Debug, PartialEq, Eq, Hash, Structural)]
pub struct PlayerId(pub u128);

} // verus!
