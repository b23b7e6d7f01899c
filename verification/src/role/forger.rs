//! Forger: Mafia deception; rewrites what a victim's grave will show.

use vstd::prelude::*;
use crate::chat::ChatMessageVariant;
use crate::game::{same_apart_from_players, Game, Player};
use crate::phase::PhaseType;
use crate::player_ref::PlayerReference;
use crate::role::common_role;
use crate::role::{Priority, Role, RoleState};
use crate::visit::Visit;

verus! {

/// Role state of the Forger.
#[derive(Clone, Debug, PartialEq)]
pub struct Forger {
    pub fake_role: Role,
    pub fake_will: String,
    pub forges_remaining: u8,
    pub forged_ref: Option<PlayerReference>,
}

impl Default for Forger {
    /// A fresh Forger holds three forges and no prepared identity.
    fn default() -> (r: Self)
        ensures
            r.forges_remaining == 3,
            r.forged_ref is None,
            r.fake_role == Role::Jester,
            r.fake_will@ == Seq::<char>::empty(),
    {
        Forger {
            forges_remaining: 3,
            forged_ref: None,
            fake_role: Role::Jester,
            fake_will: String::new(),
        }
    }
}

/// A successfully forged player shows exactly the fabricated role and will
/// on any grave attached while the overrides stand: the true role and will
/// never reach the record.
pub proof fn lemma_forged_grave_shows_fakes(p: Player, fake_role: Role, fake_will: Seq<char>)
    requires
        p.night_grave_role == Some(fake_role),
        p.night_grave_will matches Some(w) && w@ == fake_will,
    ensures
        crate::player::grave_role_shown(p) == fake_role,
        crate::player::grave_will_shown(p) == fake_will,
{
}

/// What the Forger's phase-start hook leaves behind: the per-night "whom
/// did I forge" memory is cleared, everything else of the state is kept,
/// and nothing else of the game moves.
pub open spec fn forger_phase_start_result(
    g1: Game,
    g2: Game,
    f: Forger,
    actor: PlayerReference,
) -> bool {
    let a = actor.index as int;
    g2.players@ == g1.players@.update(
        a,
        (Player {
            role_state: RoleState::Forger(
                Forger {
                    fake_role: f.fake_role,
                    fake_will: f.fake_will,
                    forges_remaining: f.forges_remaining,
                    forged_ref: None,
                },
            ),
            ..g1.players@[a]
        }),
    ) && same_apart_from_players(g1, g2)
}

/// What the Forger's night action leaves behind, given the state it
/// started from. Jailed it touches nothing. At the Deception stage, with a
/// forge left, it overwrites its first visited target's recorded grave
/// role and will with the configured fakes, spends one forge, and
/// remembers the target. At the Investigative stage, if the remembered
/// target died tonight, the true role and will reach the Forger privately,
/// whatever the forge count has dropped to.
pub open spec fn forger_night_result(
    g1: Game,
    g2: Game,
    f: Forger,
    actor: PlayerReference,
    priority: Priority,
) -> bool {
    let a = actor.index as int;
    if g1.players@[a].night_jailed {
        g2 == g1
    } else {
        match priority {
            Priority::Deception => {
                if f.forges_remaining == 0 || g1.players@[a].night_visits@.len() == 0 {
                    g2 == g1
                } else {
                    let t = g1.players@[a].night_visits@[0].target.index as int;
                    &&& g2.players@[t].night_grave_role == Some(f.fake_role)
                    &&& g2.players@[t].night_grave_will == Some(f.fake_will)
                    &&& g2.players@[a].role_state == RoleState::Forger(
                        Forger {
                            fake_role: f.fake_role,
                            fake_will: f.fake_will,
                            forges_remaining: (f.forges_remaining - 1) as u8,
                            forged_ref: Some(g1.players@[a].night_visits@[0].target),
                        },
                    )
                    &&& forall|k: int|
                        0 <= k < g1.players@.len() && k != t && k != a
                            ==> (#[trigger] g2.players@[k]) == g1.players@[k]
                    &&& (t != a ==> g2.players@[t] == (Player {
                        night_grave_role: Some(f.fake_role),
                        night_grave_will: Some(f.fake_will),
                        ..g1.players@[t]
                    }) && g2.players@[a] == (Player {
                        role_state: g2.players@[a].role_state,
                        ..g1.players@[a]
                    }))
                    &&& (t == a ==> g2.players@[a] == (Player {
                        night_grave_role: Some(f.fake_role),
                        night_grave_will: Some(f.fake_will),
                        role_state: g2.players@[a].role_state,
                        ..g1.players@[a]
                    }))
                    &&& same_apart_from_players(g1, g2)
                }
            },
            Priority::Investigative => {
                match f.forged_ref {
                    Some(fr) => {
                        if g1.players@[fr.index as int].night_died {
                            &&& g2.players@ == g1.players@.update(
                                a,
                                (Player {
                                    night_messages: g2.players@[a].night_messages,
                                    ..g1.players@[a]
                                }),
                            )
                            &&& g2.players@[a].night_messages@ == g1.players@[a].night_messages@.push(
                                (ChatMessageVariant::PlayerRoleAndAlibi {
                                    player: fr,
                                    role: g1.players@[fr.index as int].role_state.role_spec(),
                                    will: g1.players@[fr.index as int].will,
                                }),
                            )
                            &&& same_apart_from_players(g1, g2)
                        } else {
                            g2 == g1
                        }
                    },
                    None => g2 == g1,
                }
            },
            _ => g2 == g1,
        }
    }
}

impl Forger {
    /// The Forger selects by the default night rule, while forges remain.
    pub fn can_select(
        self,
        game: &Game,
        actor_ref: PlayerReference,
        target_ref: PlayerReference,
    ) -> (r: bool)
        requires
            game.valid_ref(actor_ref),
            game.valid_ref(target_ref),
        ensures
            r == (common_role::can_night_select_spec(*game, actor_ref, target_ref)
                && self.forges_remaining > 0),
    {
        common_role::can_night_select(game, actor_ref, target_ref) && self.forges_remaining > 0
    }

    /// The Forger's visit is the default non-lethal one.
    pub fn convert_selection_to_visits(
        self,
        game: &Game,
        actor_ref: PlayerReference,
        target_refs: &Vec<PlayerReference>,
    ) -> (r: Vec<Visit>)
        ensures
            target_refs@.len() > 0 ==> r@ == seq![
                (Visit { target: target_refs@[0], attack: false, astral: false }),
            ],
            target_refs@.len() == 0 ==> r@ == Seq::<Visit>::empty(),
    {
        common_role::convert_selection_to_visits(game, actor_ref, target_refs, false)
    }

    /// Clears the per-night "whom did I forge" memory at every phase start;
    /// everything else of the state is kept.
    pub fn on_phase_start(self, game: &mut Game, actor_ref: PlayerReference, _phase: PhaseType)
        requires
            old(game).valid_ref(actor_ref),
        ensures
            forger_phase_start_result(*old(game), *final(game), self, actor_ref),
            final(game).players@.len() == old(game).players@.len(),
            old(game).wf() ==> final(game).wf(),
    {
        actor_ref.set_role_state(
            game,
            RoleState::Forger(
                Forger {
                    fake_role: self.fake_role,
                    fake_will: self.fake_will,
                    forges_remaining: self.forges_remaining,
                    forged_ref: None,
                },
            ),
        );
    }

    /// At the Deception stage, with a forge left, overwrites the first
    /// visited target's recorded grave role and will with the configured
    /// fakes, spends one forge, and remembers the target. At the
    /// Investigative stage, if the remembered target died tonight, the
    /// Forger privately learns its true role and will — even when the
    /// forge it spent on that target was its last. A jailed Forger does
    /// nothing.
    #[verifier::rlimit(100)]
    pub fn do_night_action(self, game: &mut Game, actor_ref: PlayerReference, priority: Priority)
        requires
            old(game).wf(),
            old(game).valid_ref(actor_ref),
            match self.forged_ref {
                Some(p) => p.index < old(game).players@.len(),
                None => true,
            },
        ensures
            final(game).wf(),
            final(game).players@.len() == old(game).players@.len(),
            same_apart_from_players(*old(game), *final(game)),
            forger_night_result(*old(game), *final(game), self, actor_ref, priority),
    {
        if actor_ref.night_jailed(game) {
            return ;
        }
        match priority {
            Priority::Deception => {
                if self.forges_remaining == 0 {
                    return ;
                }
                let visits = actor_ref.night_visits(game);
                if visits.len() == 0 {
                    return ;
                }
                let target_ref = visits[0].target;
                proof {
                    assert(old(game).players@[actor_ref.index as int].refs_wf(
                        old(game).players@.len() as int,
                    ));
                }
                target_ref.set_night_grave_role(game, Some(self.fake_role));
                let will_copy = self.fake_will.clone();
                target_ref.set_night_grave_will(game, will_copy);
                actor_ref.set_role_state(
                    game,
                    RoleState::Forger(
                        Forger {
                            fake_role: self.fake_role,
                            fake_will: self.fake_will,
                            forges_remaining: self.forges_remaining - 1,
                            forged_ref: Some(target_ref),
                        },
                    ),
                );
            },
            Priority::Investigative => {
                match self.forged_ref {
                    Some(forged_ref) => {
                        if forged_ref.night_died(game) {
                            let message = ChatMessageVariant::PlayerRoleAndAlibi {
                                player: forged_ref,
                                role: forged_ref.role(game),
                                will: forged_ref.will(game).clone(),
                            };
                            actor_ref.push_night_message(game, message);
                        }
                    },
                    None => {},
                }
            },
            _ => {},
        }
    }
}

} // verus!
