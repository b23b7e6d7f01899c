//! Journalist: grants a living player the Interview channel at night.

use vstd::prelude::*;
use crate::player_ref::PlayerReference;

verus! {

/// Role state of the Journalist.
#[derive(Clone, Copy, Debug, PartialEq, Eq, Structural)]
pub struct Journalist {
    pub interviewed_target: Option<PlayerReference>,
}

impl Default for Journalist {
    /// A fresh Journalist interviews nobody.
    fn default() -> (r: Self)
        ensures
            r.interviewed_target is None,
    {
        Journalist { interviewed_target: None }
    }
}

} // verus!
