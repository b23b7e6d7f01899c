//! Day/night phases as the surrounding phase machine reports them.

use vstd::prelude::*;
use crate::player_ref::PlayerReference;

verus! {

/// The classification of a phase, without its payload.
#[derive(Clone, Copy, Debug, PartialEq, Eq, Structural)]
pub enum PhaseType {
    Briefing,
    Obituary,
    Discussion,
    Nomination,
    Testimony,
    Judgement,
    FinalWords,
    Dusk,
    Night,
}

/// The current phase, with the player on trial where one exists.
#[derive(Clone, Copy, Debug, PartialEq, Eq, Structural)]
pub enum PhaseState {
    Briefing,
    Obituary,
    Discussion,
    Nomination,
    Testimony { player_on_trial: PlayerReference },
    Judgement,
    FinalWords { player_on_trial: PlayerReference },
    Dusk,
    Night,
}

impl PhaseState {
    /// The classification of this phase.
    pub open spec fn phase_spec(self) -> PhaseType {
        match self {
            PhaseState::Briefing => PhaseType::Briefing,
            PhaseState::Obituary => PhaseType::Obituary,
            PhaseState::Discussion => PhaseType::Discussion,
            PhaseState::Nomination => PhaseType::Nomination,
            PhaseState::Testimony { .. } => PhaseType::Testimony,
            PhaseState::Judgement => PhaseType::Judgement,
            PhaseState::FinalWords { .. } => PhaseType::FinalWords,
            PhaseState::Dusk => PhaseType::Dusk,
            PhaseState::Night => PhaseType::Night,
        }
    }

    /// Returns the classification of this phase.
    pub fn phase(&self) -> (r: PhaseType)
        ensures
            r == self.phase_spec(),
    {
        match self {
            PhaseState::Briefing => PhaseType::Briefing,
            PhaseState::Obituary => PhaseType::Obituary,
            PhaseState::Discussion => PhaseType::Discussion,
            PhaseState::Nomination => PhaseType::Nomination,
            PhaseState::Testimony { .. } => PhaseType::Testimony,
            PhaseState::Judgement => PhaseType::Judgement,
            PhaseState::FinalWords { .. } => PhaseType::FinalWords,
            PhaseState::Dusk => PhaseType::Dusk,
            PhaseState::Night => PhaseType::Night,
        }
    }

    /// Every phase but Night counts as day.
    pub open spec fn is_day_spec(self) -> bool {
        self.phase_spec() != PhaseType::Night
    }

    /// Returns whether this phase counts as day.
    pub fn is_day(&self) -> (r: bool)
        ensures
            r == self.is_day_spec(),
    {
        self.phase() != PhaseType::Night
    }
}

} // verus!
