//! Medium: grants a living player a seance into the Dead channel at night.

use vstd::prelude::*;
use crate::player_ref::PlayerReference;

verus! {

/// Role state of the Medium.
#[derive(Clone, Copy, Debug, PartialEq, Eq, Structural)]
pub struct Medium {
    pub seanced_target: Option<PlayerReference>,
}

impl Default for Medium {
    /// A fresh Medium seances nobody.
    fn default() -> (r: Self)
        ensures
            r.seanced_target is None,
    {
        Medium { seanced_target: None }
    }
}

} // verus!
