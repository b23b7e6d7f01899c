//! The accessor surface through which all role logic reads and writes
//! per-player state. All mutators are immediate: every change is visible to
//! hooks executed later in the same pass.

use vstd::prelude::*;
use crate::chat::ChatMessageVariant;
use crate::game::{lemma_wf_after_update, same_apart_from_players, Game, Player};
use crate::grave::{Grave, GraveDeathCause, GraveKiller};
use crate::player_ref::PlayerReference;
use crate::role::{Role, RoleState};
use crate::verdict::Verdict;
use crate::visit::Visit;

verus! {

/// The role shown on this player's grave if it died right now: the forged
/// override where one is recorded, the true role otherwise.
pub open spec fn grave_role_shown(p: Player) -> Role {
    match p.night_grave_role {
        Some(r) => r,
        None => p.role_state.role_spec(),
    }
}

/// The will shown on this player's grave if it died right now.
pub open spec fn grave_will_shown(p: Player) -> Seq<char> {
    match p.night_grave_will {
        Some(w) => w@,
        None => p.will@,
    }
}

impl PlayerReference {
    /// Returns whether this player is alive.
    pub fn alive(&self, game: &Game) -> (r: bool)
        requires
            game.valid_ref(*self),
        ensures
            r == game.players@[self.index as int].alive,
    {
        game.players[self.index].alive
    }

    /// Returns this player's current defense level.
    pub fn defense(&self, game: &Game) -> (r: u8)
        requires
            game.valid_ref(*self),
        ensures
            r == game.players@[self.index as int].defense,
    {
        game.players[self.index].defense
    }

    /// Returns the verdict this player cast at the most recent trial.
    pub fn verdict(&self, game: &Game) -> (r: Verdict)
        requires
            game.valid_ref(*self),
        ensures
            r == game.players@[self.index as int].verdict,
    {
        game.players[self.index].verdict
    }

    /// Returns whether this player is jailed tonight.
    pub fn night_jailed(&self, game: &Game) -> (r: bool)
        requires
            game.valid_ref(*self),
        ensures
            r == game.players@[self.index as int].night_jailed,
    {
        game.players[self.index].night_jailed
    }

    /// Returns whether this player is silenced tonight.
    pub fn night_silenced(&self, game: &Game) -> (r: bool)
        requires
            game.valid_ref(*self),
        ensures
            r == game.players@[self.index as int].night_silenced,
    {
        game.players[self.index].night_silenced
    }

    /// Returns whether this player's night action is blocked tonight.
    pub fn night_blocked(&self, game: &Game) -> (r: bool)
        requires
            game.valid_ref(*self),
        ensures
            r == game.players@[self.index as int].night_blocked,
    {
        game.players[self.index].night_blocked
    }

    /// Returns whether this player died tonight.
    pub fn night_died(&self, game: &Game) -> (r: bool)
        requires
            game.valid_ref(*self),
        ensures
            r == game.players@[self.index as int].night_died,
    {
        game.players[self.index].night_died
    }

    /// Returns the role this player currently holds.
    pub fn role(&self, game: &Game) -> (r: Role)
        requires
            game.valid_ref(*self),
        ensures
            r == game.players@[self.index as int].role_state.role_spec(),
    {
        game.players[self.index].role_state.role()
    }

    /// Returns the role state attached to this player.
    pub fn role_state<'a>(&self, game: &'a Game) -> (r: &'a RoleState)
        requires
            game.valid_ref(*self),
        ensures
            *r == game.players@[self.index as int].role_state,
    {
        &game.players[self.index].role_state
    }

    /// Returns this player's will.
    pub fn will<'a>(&self, game: &'a Game) -> (r: &'a String)
        requires
            game.valid_ref(*self),
        ensures
            *r == game.players@[self.index as int].will,
    {
        &game.players[self.index].will
    }

    /// Returns the targets this player has selected this phase.
    pub fn selection<'a>(&self, game: &'a Game) -> (r: &'a Vec<PlayerReference>)
        requires
            game.valid_ref(*self),
        ensures
            *r == game.players@[self.index as int].selection,
    {
        &game.players[self.index].selection
    }

    /// Returns the visits committed for this player tonight.
    pub fn night_visits<'a>(&self, game: &'a Game) -> (r: &'a Vec<Visit>)
        requires
            game.valid_ref(*self),
        ensures
            *r == game.players@[self.index as int].night_visits,
    {
        &game.players[self.index].night_visits
    }

    /// Returns the night messages accumulated by this player tonight.
    pub fn night_messages<'a>(&self, game: &'a Game) -> (r: &'a Vec<ChatMessageVariant>)
        requires
            game.valid_ref(*self),
        ensures
            *r == game.players@[self.index as int].night_messages,
    {
        &game.players[self.index].night_messages
    }

    /// Returns the grave-role override recorded for this player tonight.
    pub fn night_grave_role(&self, game: &Game) -> (r: Option<Role>)
        requires
            game.valid_ref(*self),
        ensures
            r == game.players@[self.index as int].night_grave_role,
    {
        game.players[self.index].night_grave_role
    }

    /// Replaces this player's role state wholesale.
    pub fn set_role_state(self, game: &mut Game, rs: RoleState)
        requires
            old(game).valid_ref(self),
            rs.refs_wf(old(game).players@.len() as int),
        ensures
            final(game).players@ == old(game).players@.update(
                self.index as int,
                (Player { role_state: rs, ..old(game).players@[self.index as int] }),
            ),
            same_apart_from_players(*old(game), *final(game)),
            old(game).wf() ==> final(game).wf(),
    {
        let p = &mut game.players[self.index];
        p.role_state = rs;
        proof {
            let i = self.index as int;
            let np = Player { role_state: rs, ..old(game).players@[i] };
            assert(game.players@ == old(game).players@.update(i, np));
            if old(game).wf() {
                lemma_wf_after_update(*old(game), *game, i, np);
            }
        }
    }

    /// Replaces this player's whole role, used for mid-game transformation.
    /// The old role state is discarded wholesale.
    pub fn set_role(self, game: &mut Game, rs: RoleState)
        requires
            old(game).valid_ref(self),
            rs.refs_wf(old(game).players@.len() as int),
        ensures
            final(game).players@ == old(game).players@.update(
                self.index as int,
                (Player { role_state: rs, ..old(game).players@[self.index as int] }),
            ),
            same_apart_from_players(*old(game), *final(game)),
            old(game).wf() ==> final(game).wf(),
    {
        self.set_role_state(game, rs);
    }

    /// Raises this player's defense to at least `v`.
    pub fn increase_defense_to(self, game: &mut Game, v: u8)
        requires
            old(game).valid_ref(self),
        ensures
            final(game).players@ == old(game).players@.update(
                self.index as int,
                (Player {
                    defense: if old(game).players@[self.index as int].defense >= v {
                        old(game).players@[self.index as int].defense
                    } else {
                        v
                    },
                    ..old(game).players@[self.index as int]
                }),
            ),
            same_apart_from_players(*old(game), *final(game)),
            old(game).wf() ==> final(game).wf(),
    {
        let p = &mut game.players[self.index];
        if p.defense < v {
            p.defense = v;
        }
        proof {
            let i = self.index as int;
            let np = Player {
                defense: if old(game).players@[i].defense >= v {
                    old(game).players@[i].defense
                } else {
                    v
                },
                ..old(game).players@[i]
            };
            assert(game.players@ =~= old(game).players@.update(i, np));
            if old(game).wf() {
                lemma_wf_after_update(*old(game), *game, i, np);
            }
        }
    }

    /// Replaces the targets this player has selected this phase.
    pub fn set_selection(self, game: &mut Game, sel: Vec<PlayerReference>)
        requires
            old(game).valid_ref(self),
            forall|j: int|
                0 <= j < sel@.len() ==> (#[trigger] sel@[j]).index < old(game).players@.len(),
        ensures
            final(game).players@ == old(game).players@.update(
                self.index as int,
                (Player { selection: sel, ..old(game).players@[self.index as int] }),
            ),
            same_apart_from_players(*old(game), *final(game)),
            old(game).wf() ==> final(game).wf(),
    {
        let ghost sel_view = sel@;
        let p = &mut game.players[self.index];
        p.selection = sel;
        proof {
            let i = self.index as int;
            let np = Player { selection: game.players@[i].selection, ..old(game).players@[i] };
            assert(game.players@ == old(game).players@.update(i, np));
            if old(game).wf() {
                lemma_wf_after_update(*old(game), *game, i, np);
            }
        }
    }

    /// Replaces the visits committed for this player tonight.
    pub fn set_night_visits(self, game: &mut Game, visits: Vec<Visit>)
        requires
            old(game).valid_ref(self),
            forall|j: int|
                0 <= j < visits@.len() ==> (#[trigger] visits@[j]).target.index < old(game).players@.len(),
        ensures
            final(game).players@ == old(game).players@.update(
                self.index as int,
                (Player { night_visits: visits, ..old(game).players@[self.index as int] }),
            ),
            same_apart_from_players(*old(game), *final(game)),
            old(game).wf() ==> final(game).wf(),
    {
        let p = &mut game.players[self.index];
        p.night_visits = visits;
        proof {
            let i = self.index as int;
            let np = Player {
                night_visits: game.players@[i].night_visits,
                ..old(game).players@[i]
            };
            assert(game.players@ == old(game).players@.update(i, np));
            if old(game).wf() {
                lemma_wf_after_update(*old(game), *game, i, np);
            }
        }
    }

    /// Records or clears the grave-role override for this player tonight.
    pub fn set_night_grave_role(self, game: &mut Game, r: Option<Role>)
        requires
            old(game).valid_ref(self),
        ensures
            final(game).players@ == old(game).players@.update(
                self.index as int,
                (Player { night_grave_role: r, ..old(game).players@[self.index as int] }),
            ),
            same_apart_from_players(*old(game), *final(game)),
            old(game).wf() ==> final(game).wf(),
    {
        let p = &mut game.players[self.index];
        p.night_grave_role = r;
        proof {
            let i = self.index as int;
            let np = Player { night_grave_role: r, ..old(game).players@[i] };
            assert(game.players@ == old(game).players@.update(i, np));
            if old(game).wf() {
                lemma_wf_after_update(*old(game), *game, i, np);
            }
        }
    }

    /// Records the grave-will override for this player tonight.
    pub fn set_night_grave_will(self, game: &mut Game, w: String)
        requires
            old(game).valid_ref(self),
        ensures
            final(game).players@ == old(game).players@.update(
                self.index as int,
                (Player { night_grave_will: Some(w), ..old(game).players@[self.index as int] }),
            ),
            same_apart_from_players(*old(game), *final(game)),
            old(game).wf() ==> final(game).wf(),
    {
        let p = &mut game.players[self.index];
        p.night_grave_will = Some(w);
        proof {
            let i = self.index as int;
            let np = Player {
                night_grave_will: game.players@[i].night_grave_will,
                ..old(game).players@[i]
            };
            assert(game.players@ == old(game).players@.update(i, np));
            if old(game).wf() {
                lemma_wf_after_update(*old(game), *game, i, np);
            }
        }
    }

    /// Appends a message to this player's night buffer.
    pub fn push_night_message(self, game: &mut Game, message: ChatMessageVariant)
        requires
            old(game).valid_ref(self),
        ensures
            final(game).players@ == old(game).players@.update(
                self.index as int,
                (Player {
                    night_messages: final(game).players@[self.index as int].night_messages,
                    ..old(game).players@[self.index as int]
                }),
            ),
            final(game).players@[self.index as int].night_messages@ == old(game).players@[self.index as int].night_messages@.push(message),
            same_apart_from_players(*old(game), *final(game)),
            old(game).wf() ==> final(game).wf(),
    {
        let p = &mut game.players[self.index];
        p.night_messages.push(message);
        proof {
            let i = self.index as int;
            let np = Player {
                night_messages: game.players@[i].night_messages,
                ..old(game).players@[i]
            };
            assert(game.players@ == old(game).players@.update(i, np));
            if old(game).wf() {
                lemma_wf_after_update(*old(game), *game, i, np);
            }
        }
    }

    /// Delivers a private message to this player.
    pub fn add_private_chat_message(self, game: &mut Game, message: ChatMessageVariant)
        requires
            old(game).valid_ref(self),
        ensures
            final(game).players@ == old(game).players@.update(
                self.index as int,
                (Player {
                    chat_messages: final(game).players@[self.index as int].chat_messages,
                    ..old(game).players@[self.index as int]
                }),
            ),
            final(game).players@[self.index as int].chat_messages@ == old(game).players@[self.index as int].chat_messages@.push(message),
            same_apart_from_players(*old(game), *final(game)),
            old(game).wf() ==> final(game).wf(),
    {
        let p = &mut game.players[self.index];
        p.chat_messages.push(message);
        proof {
            let i = self.index as int;
            let np = Player {
                chat_messages: game.players@[i].chat_messages,
                ..old(game).players@[i]
            };
            assert(game.players@ == old(game).players@.update(i, np));
            if old(game).wf() {
                lemma_wf_after_update(*old(game), *game, i, np);
            }
        }
    }

    /// Resolves a lethal night attack of the given strength against this
    /// player. A dead target is left untouched; a defense at or above the
    /// attack strength repels it with a private notice; otherwise the player
    /// dies at once, and the grave shows whatever role and will stand
    /// recorded for it at this moment.
    pub fn try_night_kill(
        self,
        _attacker: PlayerReference,
        game: &mut Game,
        grave_killer: GraveKiller,
        attack: u8,
    ) -> (killed: bool)
        requires
            old(game).valid_ref(self),
        ensures
            killed == (old(game).players@[self.index as int].alive && old(game).players@[self.index as int].defense < attack),
            !old(game).players@[self.index as int].alive ==> *final(game) == *old(game),
            (old(game).players@[self.index as int].alive && old(game).players@[self.index as int].defense >= attack) ==> {
                &&& final(game).players@ == old(game).players@.update(
                    self.index as int,
                    (Player {
                        night_messages: final(game).players@[self.index as int].night_messages,
                        ..old(game).players@[self.index as int]
                    }),
                )
                &&& final(game).players@[self.index as int].night_messages@ == old(game).players@[self.index as int].night_messages@.push(
                    ChatMessageVariant::YouSurvivedAttack,
                )
            },
            killed ==> {
                &&& final(game).players@ == old(game).players@.update(
                    self.index as int,
                    (Player {
                        alive: false,
                        night_died: true,
                        night_grave_killers: final(game).players@[self.index as int].night_grave_killers,
                        grave: final(game).players@[self.index as int].grave,
                        ..old(game).players@[self.index as int]
                    }),
                )
                &&& final(game).players@[self.index as int].night_grave_killers@ == old(game).players@[self.index as int].night_grave_killers@.push(grave_killer)
                &&& final(game).players@[self.index as int].grave matches Some(gr)
                &&& gr.player == self
                &&& gr.role == grave_role_shown(old(game).players@[self.index as int])
                &&& gr.will@ == grave_will_shown(old(game).players@[self.index as int])
                &&& gr.death_cause matches GraveDeathCause::Killers(ks)
                &&& ks@ == seq![grave_killer]
            },
            same_apart_from_players(*old(game), *final(game)),
            old(game).wf() ==> final(game).wf(),
    {
        if !self.alive(game) {
            return false;
        }
        if self.defense(game) >= attack {
            self.push_night_message(game, ChatMessageVariant::YouSurvivedAttack);
            return false;
        }
        let grave_role = match self.night_grave_role(game) {
            Some(r) => r,
            None => self.role(game),
        };
        let grave_will = match &game.players[self.index].night_grave_will {
            Some(w) => w.clone(),
            None => self.will(game).clone(),
        };
        let mut killers: Vec<GraveKiller> = Vec::new();
        killers.push(grave_killer);
        let ghost killers_view = killers@;
        let grave = Grave {
            player: self,
            role: grave_role,
            will: grave_will,
            death_cause: GraveDeathCause::Killers(killers),
        };
        let p = &mut game.players[self.index];
        p.alive = false;
        p.night_died = true;
        p.night_grave_killers.push(grave_killer);
        p.grave = Some(grave);
        proof {
            let i = self.index as int;
            let op = old(game).players@[i];
            let np = Player {
                alive: false,
                night_died: true,
                night_grave_killers: game.players@[i].night_grave_killers,
                grave: game.players@[i].grave,
                ..op
            };
            assert(game.players@[i].night_grave_killers@ =~= op.night_grave_killers@.push(
                grave_killer,
            ));
            assert(killers_view =~= seq![grave_killer]);
            assert(game.players@ =~= old(game).players@.update(i, np));
            if old(game).wf() {
                lemma_wf_after_update(*old(game), *game, i, np);
            }
        }
        true
    }

    /// Marks this player dead and attaches its death record. Callers check
    /// `alive` first: a grave is attached at most once.
    pub fn die(self, game: &mut Game, grave: Grave)
        requires
            old(game).valid_ref(self),
            old(game).players@[self.index as int].alive,
        ensures
            final(game).players@ == old(game).players@.update(
                self.index as int,
                (Player {
                    alive: false,
                    grave: Some(grave),
                    ..old(game).players@[self.index as int]
                }),
            ),
            same_apart_from_players(*old(game), *final(game)),
            old(game).wf() ==> final(game).wf(),
    {
        let p = &mut game.players[self.index];
        p.alive = false;
        p.grave = Some(grave);
        proof {
            let i = self.index as int;
            let np = Player { alive: false, grave: Some(grave), ..old(game).players@[i] };
            assert(game.players@ == old(game).players@.update(i, np));
            if old(game).wf() {
                lemma_wf_after_update(*old(game), *game, i, np);
            }
        }
    }
}

} // verus!
