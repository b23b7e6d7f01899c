//! The verdict a player cast at the most recent trial.

use vstd::prelude::*;

verus! {

/// How a player voted on the player on trial.
#[derive(Clone, Copy, Debug, PartialEq, Eq, Structural)]
pub enum Verdict {
    Innocent,
    Abstain,
    Guilty,
}

} // verus!
