//! Death records: what investigators see of a dead player.

use vstd::prelude::*;
use crate::game::Game;
use crate::player_ref::PlayerReference;
use crate::role::Role;

verus! {

/// What killed a player, as recorded on the grave.
#[derive(Clone, Copy, Debug, PartialEq, Eq, Structural)]
pub enum GraveKiller {
    RoleKiller(Role),
    Suicide,
}

/// The cause of death recorded on a grave.
#[derive(Clone, Debug, PartialEq)]
pub enum GraveDeathCause {
    Lynching,
    LeftTown,
    Killers(Vec<GraveKiller>),
}

/// A player's death record, attached exactly once at death. The role and
/// will it shows are whatever stood recorded at that moment, which specific
/// roles may have overwritten beforehand.
#[derive(Clone, Debug, PartialEq)]
pub struct Grave {
    pub player: PlayerReference,
    pub role: Role,
    pub will: String,
    pub death_cause: GraveDeathCause,
}

impl Grave {
    /// The record of a lynched player: its true role and will, died to the
    /// lynching.
    pub fn from_player_lynch(game: &Game, player_ref: PlayerReference) -> (g: Grave)
        requires
            game.valid_ref(player_ref),
        ensures
            g.player == player_ref,
            g.role == game.players@[player_ref.index as int].role_state.role_spec(),
            g.will@ == game.players@[player_ref.index as int].will@,
            g.death_cause == GraveDeathCause::Lynching,
    {
        Grave {
            player: player_ref,
            role: player_ref.role(game),
            will: player_ref.will(game).clone(),
            death_cause: GraveDeathCause::Lynching,
        }
    }

    /// The record of a player who left town: its true role and will.
    pub fn from_player_leave_town(game: &Game, player_ref: PlayerReference) -> (g: Grave)
        requires
            game.valid_ref(player_ref),
        ensures
            g.player == player_ref,
            g.role == game.players@[player_ref.index as int].role_state.role_spec(),
            g.will@ == game.players@[player_ref.index as int].will@,
            g.death_cause == GraveDeathCause::LeftTown,
    {
        Grave {
            player: player_ref,
            role: player_ref.role(game),
            will: player_ref.will(game).clone(),
            death_cause: GraveDeathCause::LeftTown,
        }
    }
}

} // verus!
