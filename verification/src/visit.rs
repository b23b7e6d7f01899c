//! Directed night actions recorded from a player's target selection.

use vstd::prelude::*;
use crate::player_ref::PlayerReference;

verus! {

/// A recorded directed action from one player to a target for the current
/// phase. `attack` marks a lethal intent; `astral` marks a non-physical
/// presence that cannot be redirected or observed at the target's home.
#[derive(Clone, Copy, Debug, PartialEq, Eq, Structural)]
pub struct Visit {
    pub target: PlayerReference,
    pub attack: bool,
    pub astral: bool,
}

} // verus!
