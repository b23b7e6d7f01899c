//! Stable handles into the player arena.

use vstd::prelude::*;

verus! {

/// An index handle addressing one player of a game's arena.
#[derive(Clone, Copy, Debug, PartialEq, Eq, Structural)]
pub struct PlayerReference {
    pub index: usize,
}

impl PlayerReference {
    /// Makes a handle for the player at `index`.
    pub fn new(index: usize) -> (r: PlayerReference)
        ensures
            r.index == index,
    {
        PlayerReference { index }
    }

    /// The position of this player in the arena.
    pub fn index(&self) -> (r: usize)
        ensures
            r == self.index,
    {
        self.index
    }
}

/// Copies a list of player handles element by element.
pub fn copy_refs(v: &Vec<PlayerReference>) -> (r: Vec<PlayerReference>)
    ensures
        r@ == v@,
{
    let mut r: Vec<PlayerReference> = Vec::new();
    let mut i: usize = 0;
    while i < v.len()
        invariant
            i <= v@.len(),
            r@ == v@.take(i as int),
        decreases v@.len() - i,
    {
        r.push(v[i]);
        proof {
            assert(r@ =~= v@.take(i + 1));
        }
        i += 1;
    }
    proof {
        assert(v@.take(v@.len() as int) =~= v@);
    }
    r
}

} // verus!
