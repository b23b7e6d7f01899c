//! Retributionist: Town support; reanimates a dead Town body for one night,
//! rerouting the corpse's visits and stealing what it learns.

use vstd::prelude::*;
use crate::chat::ChatGroup;
use crate::dispatch::{converted_visits_spec, convert_targets_to_visits_for};
use crate::game::{same_apart_from_players, Game, Player};
use crate::phase::PhaseType;
use crate::player_ref::{copy_refs, PlayerReference};
use crate::role::common_role;
use crate::role::{Priority, RoleState};
use crate::role_list::Faction;
use crate::visit::Visit;

verus! {

/// Role state of the Retributionist.
#[derive(Clone, Debug, PartialEq)]
pub struct Retributionist {
    pub used_bodies: Vec<PlayerReference>,
    pub currently_used_player: Option<PlayerReference>,
}

impl Default for Retributionist {
    /// A fresh Retributionist has used no bodies and animates nobody.
    fn default() -> (r: Self)
        ensures
            r.used_bodies@ == Seq::<PlayerReference>::empty(),
            r.currently_used_player is None,
    {
        Retributionist { used_bodies: Vec::new(), currently_used_player: None }
    }
}

/// What the Retributionist's phase-start hook leaves behind: at nightfall
/// the per-night animation pointer is cleared while the used-body history
/// is kept forever; any other phase leaves the game untouched.
pub open spec fn retributionist_phase_start_result(
    g1: Game,
    g2: Game,
    used: Seq<PlayerReference>,
    actor: PlayerReference,
    phase: PhaseType,
) -> bool {
    let a = actor.index as int;
    if phase == PhaseType::Night {
        &&& g2.players@ == g1.players@.update(
            a,
            (Player { role_state: g2.players@[a].role_state, ..g1.players@[a] }),
        )
        &&& g2.players@[a].role_state matches RoleState::Retributionist(r2)
        &&& r2.used_bodies@ == used
        &&& r2.currently_used_player is None
        &&& same_apart_from_players(g1, g2)
    } else {
        g2 == g1
    }
}

/// What the Retributionist's night action leaves behind, given the state
/// it started from and the used-body history and animation pointer it held.
/// Jailed, short of two visits, or with a living first target, it touches
/// nothing. At the Necromancy stage the corpse's visit list is rerouted to
/// the second target by the corpse's own conversion and the body joins the
/// permanent used list; at the Steal-Messages stage the animated corpse's
/// night messages are appended to the Retributionist's own.
pub open spec fn retributionist_night_result(
    g1: Game,
    g2: Game,
    used: Seq<PlayerReference>,
    currently: Option<PlayerReference>,
    actor: PlayerReference,
    priority: Priority,
) -> bool {
    let a = actor.index as int;
    if g1.players@[a].night_jailed {
        g2 == g1
    } else if g1.players@[a].night_visits@.len() < 2
        || g1.players@[g1.players@[a].night_visits@[0].target.index as int].alive {
        g2 == g1
    } else {
        let c = g1.players@[a].night_visits@[0].target;
        let ci = c.index as int;
        let s = g1.players@[a].night_visits@[1].target;
        match priority {
            Priority::Necromancy => {
                &&& g2.players@[ci].night_visits@ == converted_visits_spec(
                    g1.players@[ci].role_state,
                    seq![s],
                )
                &&& g2.players@[a].role_state matches RoleState::Retributionist(r2)
                &&& r2.used_bodies@ == used.push(c)
                &&& r2.currently_used_player == Some(c)
                &&& forall|k: int|
                    0 <= k < g1.players@.len() && k != a && k != ci
                        ==> (#[trigger] g2.players@[k]) == g1.players@[k]
                &&& (ci != a ==> g2.players@[ci] == (Player {
                    night_visits: g2.players@[ci].night_visits,
                    ..g1.players@[ci]
                }) && g2.players@[a] == (Player {
                    role_state: g2.players@[a].role_state,
                    ..g1.players@[a]
                }))
                &&& (ci == a ==> g2.players@[a] == (Player {
                    night_visits: g2.players@[a].night_visits,
                    role_state: g2.players@[a].role_state,
                    ..g1.players@[a]
                }))
            },
            Priority::StealMessages => {
                match currently {
                    Some(cu) => {
                        &&& g2.players@ == g1.players@.update(
                            a,
                            (Player {
                                night_messages: g2.players@[a].night_messages,
                                ..g1.players@[a]
                            }),
                        )
                        &&& g2.players@[a].night_messages@ == g1.players@[a].night_messages@
                            + g1.players@[cu.index as int].night_messages@
                    },
                    None => g2 == g1,
                }
            },
            _ => g2 == g1,
        }
    }
}

impl Retributionist {
    /// First pick: a dead, never-yet-used body of a Town role, chosen with
    /// no standing selection. Second pick: a living player other than the
    /// Retributionist itself.
    pub open spec fn can_night_target_spec(
        self,
        g: Game,
        actor: PlayerReference,
        target: PlayerReference,
    ) -> bool {
        let a = g.players@[actor.index as int];
        let t = g.players@[target.index as int];
        !a.night_jailed && a.alive && ((a.selection@.len() == 0 && !t.alive
            && t.role_state.role_spec().faction_spec() == Faction::Town
            && !self.used_bodies@.contains(target)) || (actor != target && a.selection@.len() == 1
            && t.alive))
    }

    /// Returns whether the Retributionist may pick `target_ref` next.
    pub fn can_night_target(
        &self,
        game: &Game,
        actor_ref: PlayerReference,
        target_ref: PlayerReference,
    ) -> (r: bool)
        requires
            game.valid_ref(actor_ref),
            game.valid_ref(target_ref),
        ensures
            r == self.can_night_target_spec(*game, actor_ref, target_ref),
    {
        if actor_ref.night_jailed(game) || !actor_ref.alive(game) {
            return false;
        }
        let sel_len = actor_ref.selection(game).len();
        let first_pick = sel_len == 0 && !target_ref.alive(game) && target_ref.role(
            game,
        ).faction() == Faction::Town && !self.body_already_used(target_ref);
        let second_pick = actor_ref != target_ref && sel_len == 1 && target_ref.alive(game);
        first_pick || second_pick
    }

    /// Returns whether this body has already been reanimated once.
    fn body_already_used(&self, target_ref: PlayerReference) -> (r: bool)
        ensures
            r == self.used_bodies@.contains(target_ref),
    {
        let mut i: usize = 0;
        while i < self.used_bodies.len()
            invariant
                i <= self.used_bodies@.len(),
                forall|k: int| 0 <= k < i ==> self.used_bodies@[k] != target_ref,
            decreases self.used_bodies@.len() - i,
        {
            if self.used_bodies[i] == target_ref {
                return true;
            }
            i += 1;
        }
        false
    }

    /// The Retributionist has no day action.
    pub fn do_day_action(
        self,
        _game: &mut Game,
        _actor_ref: PlayerReference,
        _target_ref: PlayerReference,
    )
        ensures
            *final(_game) == *old(_game),
    {
    }

    /// The Retributionist never targets by day.
    pub fn can_day_target(
        self,
        _game: &Game,
        _actor_ref: PlayerReference,
        _target_ref: PlayerReference,
    ) -> (r: bool)
        ensures
            r == false,
    {
        false
    }

    /// Exactly two targets convert into one physical visit to the body and
    /// one astral visit to the living second target; anything else converts
    /// to no visits.
    pub fn convert_targets_to_visits_raw(
        _game: &Game,
        _actor_ref: PlayerReference,
        target_refs: &Vec<PlayerReference>,
    ) -> (r: Vec<Visit>)
        ensures
            target_refs@.len() == 2 ==> r@ == seq![
                (Visit { target: target_refs@[0], attack: false, astral: false }),
                (Visit { target: target_refs@[1], attack: false, astral: true }),
            ],
            target_refs@.len() != 2 ==> r@ == Seq::<Visit>::empty(),
    {
        let mut r: Vec<Visit> = Vec::new();
        if target_refs.len() == 2 {
            r.push(Visit { target: target_refs[0], attack: false, astral: false });
            r.push(Visit { target: target_refs[1], attack: false, astral: true });
            proof {
                assert(r@ =~= seq![
                    (Visit { target: target_refs@[0], attack: false, astral: false }),
                    (Visit { target: target_refs@[1], attack: false, astral: true }),
                ]);
            }
        }
        r
    }

    /// The two-target conversion, as the shared behavior contract names it.
    pub fn convert_targets_to_visits(
        self,
        game: &Game,
        actor_ref: PlayerReference,
        target_refs: &Vec<PlayerReference>,
    ) -> (r: Vec<Visit>)
        ensures
            target_refs@.len() == 2 ==> r@ == seq![
                (Visit { target: target_refs@[0], attack: false, astral: false }),
                (Visit { target: target_refs@[1], attack: false, astral: true }),
            ],
            target_refs@.len() != 2 ==> r@ == Seq::<Visit>::empty(),
    {
        Retributionist::convert_targets_to_visits_raw(game, actor_ref, target_refs)
    }

    /// The Retributionist speaks and listens on the shared channels only.
    pub fn get_current_send_chat_groups(
        self,
        game: &Game,
        actor_ref: PlayerReference,
    ) -> (out: Vec<ChatGroup>)
        requires
            game.valid_ref(actor_ref),
        ensures
            forall|gr: ChatGroup|
                #[trigger] out@.contains(gr) <==> common_role::sendable_spec(
                    *game,
                    actor_ref,
                    Seq::<ChatGroup>::empty(),
                    gr,
                ),
            out@.no_duplicates(),
    {
        let night_chat_groups: Vec<ChatGroup> = Vec::new();
        common_role::get_current_send_chat_groups(game, actor_ref, &night_chat_groups)
    }

    /// The shared receive computation, under the name the behavior
    /// contract spells it.
    pub fn get_current_recieve_chat_groups(
        self,
        game: &Game,
        actor_ref: PlayerReference,
    ) -> (out: Vec<ChatGroup>)
        requires
            game.valid_ref(actor_ref),
        ensures
            forall|gr: ChatGroup|
                #[trigger] out@.contains(gr) <==> common_role::receivable_spec(
                    *game,
                    actor_ref,
                    gr,
                ),
            out@.no_duplicates(),
    {
        common_role::get_current_receive_chat_groups(game, actor_ref)
    }

    /// At nightfall the per-night animation pointer is cleared; the history
    /// of used bodies is kept forever.
    pub fn on_phase_start(self, game: &mut Game, actor_ref: PlayerReference, phase: PhaseType)
        requires
            old(game).valid_ref(actor_ref),
            RoleState::Retributionist(self).refs_wf(old(game).players@.len() as int),
        ensures
            retributionist_phase_start_result(
                *old(game),
                *final(game),
                self.used_bodies@,
                actor_ref,
                phase,
            ),
            final(game).players@.len() == old(game).players@.len(),
            old(game).wf() ==> final(game).wf(),
    {
        if phase == PhaseType::Night {
            let kept = copy_refs(&self.used_bodies);
            actor_ref.set_role_state(
                game,
                RoleState::Retributionist(
                    Retributionist { used_bodies: kept, currently_used_player: None },
                ),
            );
        }
    }

    /// Taking the role needs no setup.
    pub fn on_role_creation(self, game: &mut Game, _actor_ref: PlayerReference)
        ensures
            *final(game) == *old(game),
    {
    }

    /// A body once on the used list can never be picked as a first target
    /// again: with no standing selection, the legality predicate rejects
    /// it, whatever the body's or the Retributionist's state has become.
    pub proof fn lemma_used_body_never_reselected(
        self,
        g: Game,
        actor: PlayerReference,
        target: PlayerReference,
    )
        requires
            self.used_bodies@.contains(target),
            g.players@[actor.index as int].selection@.len() == 0,
        ensures
            !self.can_night_target_spec(g, actor, target),
    {
    }

    /// At the Necromancy stage, with two committed visits whose first names
    /// a dead body, the corpse's visit list is rerouted to the second
    /// target by the corpse's own conversion, and the body is recorded as
    /// used permanently. At the Steal-Messages stage, every night message
    /// the animated corpse accumulated is copied to the Retributionist.
    #[verifier::rlimit(100)]
    pub fn do_night_action(self, game: &mut Game, actor_ref: PlayerReference, priority: Priority)
        requires
            old(game).wf(),
            old(game).valid_ref(actor_ref),
            RoleState::Retributionist(self).refs_wf(old(game).players@.len() as int),
        ensures
            final(game).wf(),
            final(game).players@.len() == old(game).players@.len(),
            same_apart_from_players(*old(game), *final(game)),
            retributionist_night_result(
                *old(game),
                *final(game),
                self.used_bodies@,
                self.currently_used_player,
                actor_ref,
                priority,
            ),
    {
        if actor_ref.night_jailed(game) {
            return ;
        }
        let visits = actor_ref.night_visits(game);
        if visits.len() < 2 {
            return ;
        }
        let first_target = visits[0].target;
        let second_target = visits[1].target;
        proof {
            assert(old(game).players@[actor_ref.index as int].refs_wf(
                old(game).players@.len() as int,
            ));
        }
        if first_target.alive(game) {
            return ;
        }
        match priority {
            Priority::Necromancy => {
                let mut routed_targets: Vec<PlayerReference> = Vec::new();
                routed_targets.push(second_target);
                proof {
                    assert(routed_targets@ =~= seq![second_target]);
                }
                let routed = convert_targets_to_visits_for(game, first_target, &routed_targets);
                proof {
                    assert(forall|j: int|
                        0 <= j < routed@.len() ==> (#[trigger] routed@[j]).target.index < old(
                            game,
                        ).players@.len());
                }
                first_target.set_night_visits(game, routed);
                let mut used = copy_refs(&self.used_bodies);
                used.push(first_target);
                actor_ref.set_role_state(
                    game,
                    RoleState::Retributionist(
                        Retributionist {
                            used_bodies: used,
                            currently_used_player: Some(first_target),
                        },
                    ),
                );
            },
            Priority::StealMessages => {
                match self.currently_used_player {
                    Some(currently_used) => {
                        let total = game.players[currently_used.index].night_messages.len();
                        let mut j: usize = 0;
                        while j < total
                            invariant
                                game.valid_ref(actor_ref),
                                game.valid_ref(currently_used),
                                game.players@.len() == old(game).players@.len(),
                                total == old(
                                    game,
                                ).players@[currently_used.index as int].night_messages@.len(),
                                j <= total,
                                forall|k: int|
                                    0 <= k < old(game).players@.len() && k
                                        != actor_ref.index as int ==> game.players@[k] == old(
                                        game,
                                    ).players@[k],
                                game.players@[actor_ref.index as int] == (Player {
                                    night_messages: game.players@[actor_ref.index as int].night_messages,
                                    ..old(game).players@[actor_ref.index as int]
                                }),
                                game.players@[actor_ref.index as int].night_messages@ == old(
                                    game,
                                ).players@[actor_ref.index as int].night_messages@ + old(
                                    game,
                                ).players@[currently_used.index as int].night_messages@.take(
                                    j as int,
                                ),
                                same_apart_from_players(*old(game), *game),
                                game.wf(),
                            decreases total - j,
                        {
                            let message = game.players[currently_used.index].night_messages[
                                j
                            ].duplicate();
                            actor_ref.push_night_message(game, message);
                            proof {
                                let a = actor_ref.index as int;
                                let cm = old(
                                    game,
                                ).players@[currently_used.index as int].night_messages@;
                                assert(game.players@[a].night_messages@ =~= old(
                                    game,
                                ).players@[a].night_messages@ + cm.take(j + 1));
                            }
                            j += 1;
                        }
                        proof {
                            let cm = old(
                                game,
                            ).players@[currently_used.index as int].night_messages@;
                            assert(cm.take(cm.len() as int) =~= cm);
                            assert(game.players@ =~= old(game).players@.update(
                                actor_ref.index as int,
                                (Player {
                                    night_messages: game.players@[actor_ref.index as int].night_messages,
                                    ..old(game).players@[actor_ref.index as int]
                                }),
                            ));
                        }
                    },
                    None => {},
                }
            },
            _ => {},
        }
    }
}

} // verus!