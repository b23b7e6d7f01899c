//! Win/resolution evaluation: a pure function of the current player set
//! deciding whether the game has ended and who wins. It is recomputed on
//! every query and never cached.

use vstd::prelude::*;
use crate::game::Game;
use crate::player_ref::PlayerReference;
use crate::role::Role;
use crate::role_list::{Faction, FactionAlignment};

verus! {

/// A game-ending condition a faction or archetype can win under.
#[derive(Clone, Copy, Debug, PartialEq, Eq, Structural)]
pub enum ResolutionState {
    Town,
    Mafia,
    Cult,
    Fiends,
}

impl ResolutionState {
    /// The end condition a role needs satisfied to win with its team, where
    /// it has one. Roles with self-contained win conditions have none.
    pub open spec fn role_resolution_spec(role: Role) -> Option<ResolutionState> {
        match role.faction_spec() {
            Faction::Town => Some(ResolutionState::Town),
            Faction::Mafia => Some(ResolutionState::Mafia),
            Faction::Coven => Some(ResolutionState::Cult),
            Faction::Neutral => if role.faction_alignment_spec()
                == FactionAlignment::NeutralKilling {
                Some(ResolutionState::Fiends)
            } else {
                None
            },
        }
    }

    /// Returns the end condition a role needs satisfied to win with its team.
    pub fn role_resolution(role: Role) -> (r: Option<ResolutionState>)
        ensures
            r == ResolutionState::role_resolution_spec(role),
    {
        match role.faction() {
            Faction::Town => Some(ResolutionState::Town),
            Faction::Mafia => Some(ResolutionState::Mafia),
            Faction::Coven => Some(ResolutionState::Cult),
            Faction::Neutral => if role.get_faction_alignment()
                == FactionAlignment::NeutralKilling {
                Some(ResolutionState::Fiends)
            } else {
                None
            },
        }
    }

    /// The game has resolved to `c`: some living player needs `c`, and every
    /// living player either needs `c` or needs nothing.
    pub open spec fn game_over_with(g: Game, c: ResolutionState) -> bool {
        (exists|i: int|
            0 <= i < g.players@.len() && (#[trigger] g.players@[i]).alive
                && ResolutionState::role_resolution_spec(g.players@[i].role_state.role_spec())
                == Some(c)) && (forall|i: int|
            0 <= i < g.players@.len() && (#[trigger] g.players@[i]).alive
                ==> (ResolutionState::role_resolution_spec(g.players@[i].role_state.role_spec())
                is None || ResolutionState::role_resolution_spec(
                g.players@[i].role_state.role_spec(),
            ) == Some(c)))
    }

    /// Returns the end condition the game has resolved to, where it has
    /// resolved to one.
    pub fn game_is_over(game: &Game) -> (r: Option<ResolutionState>)
        ensures
            match r {
                Some(c) => ResolutionState::game_over_with(*game, c),
                None => forall|c: ResolutionState|
                    !ResolutionState::game_over_with(*game, c),
            },
    {
        let n = game.players.len();
        let mut candidate: Option<ResolutionState> = None;
        let ghost mut witness: int = 0;
        let mut i: usize = 0;
        while i < n
            invariant
                n == game.players@.len(),
                i <= n,
                match candidate {
                    Some(c) => 0 <= witness < i && game.players@[witness].alive
                        && ResolutionState::role_resolution_spec(
                        game.players@[witness].role_state.role_spec(),
                    ) == Some(c),
                    None => forall|k: int|
                        0 <= k < i && (#[trigger] game.players@[k]).alive
                            ==> ResolutionState::role_resolution_spec(
                            game.players@[k].role_state.role_spec(),
                        ) is None,
                },
            decreases n - i,
        {
            if candidate.is_none() {
                let pr = PlayerReference::new(i);
                if pr.alive(game) {
                    match ResolutionState::role_resolution(pr.role(game)) {
                        Some(c) => {
                            candidate = Some(c);
                            proof {
                                witness = i as int;
                            }
                        },
                        None => {},
                    }
                }
            }
            i += 1;
        }
        match candidate {
            None => {
                proof {
                    assert forall|c: ResolutionState|
                        !ResolutionState::game_over_with(*game, c) by {}
                }
                None
            },
            Some(c) => {
                let mut ok = true;
                let mut j: usize = 0;
                let ghost mut bad: int = 0;
                while j < n
                    invariant
                        n == game.players@.len(),
                        j <= n,
                        ok ==> forall|k: int|
                            0 <= k < j && (#[trigger] game.players@[k]).alive
                                ==> (ResolutionState::role_resolution_spec(
                                game.players@[k].role_state.role_spec(),
                            ) is None || ResolutionState::role_resolution_spec(
                                game.players@[k].role_state.role_spec(),
                            ) == Some(c)),
                        !ok ==> (0 <= bad < n && game.players@[bad].alive
                            && ResolutionState::role_resolution_spec(
                            game.players@[bad].role_state.role_spec(),
                        ) is Some && ResolutionState::role_resolution_spec(
                            game.players@[bad].role_state.role_spec(),
                        ) != Some(c)),
                    decreases n - j,
                {
                    if ok {
                        let pr = PlayerReference::new(j);
                        if pr.alive(game) {
                            match ResolutionState::role_resolution(pr.role(game)) {
                                Some(c2) => if c2 != c {
                                    ok = false;
                                    proof {
                                        bad = j as int;
                                    }
                                },
                                None => {},
                            }
                        }
                    }
                    j += 1;
                }
                if ok {
                    Some(c)
                } else {
                    proof {
                        assert(0 <= witness < game.players@.len());
                        assert forall|c3: ResolutionState|
                            !ResolutionState::game_over_with(*game, c3) by {
                            if c3 == c {
                                assert(game.players@[bad].alive);
                            } else {
                                assert(game.players@[witness].alive);
                            }
                        }
                    }
                    None
                }
            },
        }
    }

    /// A game resolves to at most one condition.
    pub proof fn lemma_game_over_unique(g: Game, a: ResolutionState, b: ResolutionState)
        requires
            ResolutionState::game_over_with(g, a),
            ResolutionState::game_over_with(g, b),
        ensures
            a == b,
    {
        let w = choose|i: int|
            0 <= i < g.players@.len() && (#[trigger] g.players@[i]).alive
                && ResolutionState::role_resolution_spec(g.players@[i].role_state.role_spec())
                == Some(a);
        assert(g.players@[w].alive);
    }

    /// Returns whether this player's role wins under condition `c`.
    pub fn can_win_with(game: &Game, player: PlayerReference, c: ResolutionState) -> (r: bool)
        requires
            game.valid_ref(player),
        ensures
            r == (ResolutionState::role_resolution_spec(
                game.players@[player.index as int].role_state.role_spec(),
            ) == Some(c)),
    {
        match ResolutionState::role_resolution(player.role(game)) {
            Some(c2) => c2 == c,
            None => false,
        }
    }

    /// Returns whether this player's role needs exactly the condition `c`
    /// satisfied to win: a verified member of that team.
    pub fn requires_only_this_resolution_state(
        game: &Game,
        player: PlayerReference,
        c: ResolutionState,
    ) -> (r: bool)
        requires
            game.valid_ref(player),
        ensures
            r == (ResolutionState::role_resolution_spec(
                game.players@[player.index as int].role_state.role_spec(),
            ) == Some(c)),
    {
        match ResolutionState::role_resolution(player.role(game)) {
            Some(c2) => c2 == c,
            None => false,
        }
    }
}

} // verus!
