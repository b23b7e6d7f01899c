//! Deputy: a Town gunslinger holding one daytime bullet.

use vstd::prelude::*;
use crate::chat::{ChatGroup, ChatMessageVariant};
use crate::game::{Game, Player};
use crate::grave::{Grave, GraveDeathCause, GraveKiller};
use crate::phase::PhaseType;
use crate::player_ref::PlayerReference;
use crate::resolution::ResolutionState;
use crate::role::{Role, RoleState};

verus! {

/// Role state of the Deputy.
#[derive(Clone, Copy, Debug, PartialEq, Eq, Structural)]
pub struct Deputy {
    pub bullets_remaining: u8,
}

impl Default for Deputy {
    /// A fresh Deputy holds one bullet.
    fn default() -> (r: Self)
        ensures
            r.bullets_remaining == 1,
    {
        Deputy { bullets_remaining: 1 }
    }
}

/// What the Deputy's shot leaves behind, given the state it started from
/// and the bullets it held. The target is warned privately; a defended
/// target survives and both sides are told; otherwise the town learns of
/// the shot, the target dies with the Deputy recorded as its killer, and a
/// victim verified as Town takes the Deputy out of town with it. One
/// bullet is spent either way.
pub open spec fn deputy_day_result(
    g1: Game,
    g2: Game,
    d: Deputy,
    actor: PlayerReference,
    target: PlayerReference,
) -> bool {
    let a = actor.index as int;
    let t = target.index as int;
    &&& g2.players@.len() == g1.players@.len()
    &&& g2.phase == g1.phase
    &&& g2.day_number == g1.day_number
    &&& g2.rng_state == g1.rng_state
    &&& (forall|k: int|
        0 <= k < g1.players@.len() && k != a && k != t ==> (#[trigger] g2.players@[k])
            == g1.players@[k])
    &&& g2.players@[a].role_state == RoleState::Deputy(
        Deputy { bullets_remaining: (d.bullets_remaining - 1) as u8 },
    )
    &&& (g1.players@[t].defense >= 1 ==> {
        &&& g2.players@[t] == (Player {
            chat_messages: g2.players@[t].chat_messages,
            ..g1.players@[t]
        })
        &&& g2.players@[t].chat_messages@ == g1.players@[t].chat_messages@.push(
            ChatMessageVariant::DeputyShotYou,
        ).push(ChatMessageVariant::YouSurvivedAttack)
        &&& g2.players@[a] == (Player {
            chat_messages: g2.players@[a].chat_messages,
            role_state: g2.players@[a].role_state,
            ..g1.players@[a]
        })
        &&& g2.players@[a].chat_messages@ == g1.players@[a].chat_messages@.push(
            ChatMessageVariant::SomeoneSurvivedYourAttack,
        )
        &&& g2.group_messages == g1.group_messages
    })
    &&& (g1.players@[t].defense < 1 ==> {
        &&& g2.group_messages@ == g1.group_messages@.push(
            (ChatGroup::All, ChatMessageVariant::DeputyKilled { shot_index: target.index }),
        )
        &&& g2.players@[t] == (Player {
            alive: false,
            chat_messages: g2.players@[t].chat_messages,
            grave: g2.players@[t].grave,
            ..g1.players@[t]
        })
        &&& g2.players@[t].chat_messages@ == g1.players@[t].chat_messages@.push(
            ChatMessageVariant::DeputyShotYou,
        )
        &&& g2.players@[t].grave matches Some(gr)
        &&& gr.player == target
        &&& gr.role == g1.players@[t].role_state.role_spec()
        &&& gr.will@ == g1.players@[t].will@
        &&& gr.death_cause matches GraveDeathCause::Killers(ks)
        &&& ks@ == seq![GraveKiller::RoleKiller(Role::Deputy)]
        &&& (ResolutionState::role_resolution_spec(g1.players@[t].role_state.role_spec())
            == Some(ResolutionState::Town) ==> {
            &&& g2.players@[a] == (Player {
                alive: false,
                role_state: g2.players@[a].role_state,
                grave: g2.players@[a].grave,
                ..g1.players@[a]
            })
            &&& g2.players@[a].grave matches Some(gr2)
            &&& gr2.player == actor
            &&& gr2.role == g1.players@[a].role_state.role_spec()
            &&& gr2.will@ == g1.players@[a].will@
            &&& gr2.death_cause == GraveDeathCause::LeftTown
        })
        &&& (ResolutionState::role_resolution_spec(g1.players@[t].role_state.role_spec())
            != Some(ResolutionState::Town) ==> g2.players@[a] == (Player {
            role_state: g2.players@[a].role_state,
            ..g1.players@[a]
        }))
    })
}

impl Deputy {
    /// The Deputy may shoot: by day, after the first day, with a bullet
    /// left, at a living player other than itself, while itself alive, and
    /// only during Discussion or Nomination.
    pub open spec fn can_day_target_spec(
        self,
        g: Game,
        actor: PlayerReference,
        target: PlayerReference,
    ) -> bool {
        g.phase.is_day_spec() && g.day_number > 1 && self.bullets_remaining > 0 && actor != target
            && g.players@[target.index as int].alive && g.players@[actor.index as int].alive && (
        g.phase.phase_spec() == PhaseType::Discussion || g.phase.phase_spec()
            == PhaseType::Nomination)
    }

    /// Returns whether the Deputy may shoot `target_ref` right now.
    pub fn can_day_target(
        self,
        game: &Game,
        actor_ref: PlayerReference,
        target_ref: PlayerReference,
    ) -> (r: bool)
        requires
            game.valid_ref(actor_ref),
            game.valid_ref(target_ref),
        ensures
            r == self.can_day_target_spec(*game, actor_ref, target_ref),
    {
        game.current_phase().is_day() && game.day_number > 1 && self.bullets_remaining > 0
            && actor_ref != target_ref && target_ref.alive(game) && actor_ref.alive(game) && (
        game.current_phase().phase() == PhaseType::Discussion || game.current_phase().phase()
            == PhaseType::Nomination)
    }

    /// Fires the shot. The target is warned privately; a defended target
    /// survives and both sides are told; otherwise the town learns of the
    /// shot, the target dies with the Deputy recorded as its killer, and if
    /// the victim was a verified Town member the Deputy leaves town dead as
    /// a penalty. One bullet is spent either way.
    pub fn do_day_action(
        self,
        game: &mut Game,
        actor_ref: PlayerReference,
        target_ref: PlayerReference,
    )
        requires
            old(game).valid_ref(actor_ref),
            old(game).valid_ref(target_ref),
            actor_ref != target_ref,
            old(game).players@[actor_ref.index as int].alive,
            old(game).players@[target_ref.index as int].alive,
            self.bullets_remaining > 0,
        ensures
            final(game).players@.len() == old(game).players@.len(),
            old(game).wf() ==> final(game).wf(),
            deputy_day_result(*old(game), *final(game), self, actor_ref, target_ref),
    {
        target_ref.add_private_chat_message(game, ChatMessageVariant::DeputyShotYou);
        if target_ref.defense(game) >= 1 {
            target_ref.add_private_chat_message(game, ChatMessageVariant::YouSurvivedAttack);
            actor_ref.add_private_chat_message(
                game,
                ChatMessageVariant::SomeoneSurvivedYourAttack,
            );
        } else {
            game.add_message_to_chat_group(
                ChatGroup::All,
                ChatMessageVariant::DeputyKilled { shot_index: target_ref.index() },
            );
            let mut grave = Grave::from_player_lynch(game, target_ref);
            let mut killers: Vec<GraveKiller> = Vec::new();
            killers.push(GraveKiller::RoleKiller(Role::Deputy));
            let ghost killers_view = killers@;
            grave.death_cause = GraveDeathCause::Killers(killers);
            proof {
                assert(killers_view =~= seq![GraveKiller::RoleKiller(Role::Deputy)]);
            }
            target_ref.die(game, grave);
            if ResolutionState::requires_only_this_resolution_state(
                game,
                target_ref,
                ResolutionState::Town,
            ) {
                let leave_grave = Grave::from_player_leave_town(game, actor_ref);
                actor_ref.die(game, leave_grave);
            }
        }
        actor_ref.set_role_state(
            game,
            RoleState::Deputy(Deputy { bullets_remaining: self.bullets_remaining - 1 }),
        );
    }
}

} // verus!
