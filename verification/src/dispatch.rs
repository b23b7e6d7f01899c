//! Role behavior dispatch: one shared entry per capability, matched over
//! the closed set of role states. The resolution engine and the phase
//! machine call these; they hold no role-specific knowledge themselves.

use vstd::prelude::*;
use crate::game::Game;
use crate::phase::PhaseType;
use crate::player_ref::{copy_refs, PlayerReference};
use crate::role::deputy::Deputy;
use crate::role::doomsayer::Doomsayer;
use crate::role::forger::Forger;
use crate::role::jester::Jester;
use crate::role::retributionist::Retributionist;
use crate::role::{common_role, Priority, RoleState};
use crate::visit::Visit;

verus! {

/// What a player's selection converts to, by its role: the Retributionist
/// turns exactly two targets into one physical and one astral visit; every
/// other role turns a non-empty selection into one non-lethal visit to its
/// first target.
pub open spec fn converted_visits_spec(rs: RoleState, targets: Seq<PlayerReference>) -> Seq<
    Visit,
> {
    match rs {
        RoleState::Retributionist(_) => if targets.len() == 2 {
            seq![
                (Visit { target: targets[0], attack: false, astral: false }),
                (Visit { target: targets[1], attack: false, astral: true }),
            ]
        } else {
            Seq::empty()
        },
        _ => if targets.len() > 0 {
            seq![(Visit { target: targets[0], attack: false, astral: false })]
        } else {
            Seq::empty()
        },
    }
}

/// Converts a target selection into visits by the selecting player's role.
/// Pure: the game is only read.
pub fn convert_targets_to_visits_for(
    game: &Game,
    player_ref: PlayerReference,
    targets: &Vec<PlayerReference>,
) -> (r: Vec<Visit>)
    requires
        game.valid_ref(player_ref),
    ensures
        r@ == converted_visits_spec(
            game.players@[player_ref.index as int].role_state,
            targets@,
        ),
{
    let is_retributionist = match player_ref.role_state(game) {
        RoleState::Retributionist(_) => true,
        _ => false,
    };
    if is_retributionist {
        Retributionist::convert_targets_to_visits_raw(game, player_ref, targets)
    } else {
        common_role::convert_selection_to_visits(game, player_ref, targets, false)
    }
}

/// Whether the actor's role lets it select `target` at night: each role's
/// own legality rule, the shared default for the rest.
pub open spec fn can_night_select_spec_for(
    g: Game,
    actor: PlayerReference,
    target: PlayerReference,
) -> bool {
    match g.players@[actor.index as int].role_state {
        RoleState::Forger(f) => common_role::can_night_select_spec(g, actor, target)
            && f.forges_remaining > 0,
        RoleState::Jester(j) => j.can_select_spec(g, actor, target),
        RoleState::Retributionist(r) => r.can_night_target_spec(g, actor, target),
        _ => common_role::can_night_select_spec(g, actor, target),
    }
}

/// Returns whether the actor's role lets it select `target` at night.
pub fn can_night_select_for(
    game: &Game,
    actor_ref: PlayerReference,
    target_ref: PlayerReference,
) -> (r: bool)
    requires
        game.valid_ref(actor_ref),
        game.valid_ref(target_ref),
    ensures
        r == can_night_select_spec_for(*game, actor_ref, target_ref),
{
    let own: RoleState = read_role_state(game, actor_ref);
    match own {
        RoleState::Forger(f) => f.can_select(game, actor_ref, target_ref),
        RoleState::Jester(j) => j.can_select(game, actor_ref, target_ref),
        RoleState::Retributionist(r) => r.can_night_target(game, actor_ref, target_ref),
        _ => common_role::can_night_select(game, actor_ref, target_ref),
    }
}

/// The two states are the same role and carry the same data. (A copied
/// list of handles is a distinct list value with the same contents.)
pub open spec fn same_role_state(a: RoleState, b: RoleState) -> bool {
    match (a, b) {
        (RoleState::Retributionist(x), RoleState::Retributionist(y)) => x.used_bodies@
            == y.used_bodies@ && x.currently_used_player == y.currently_used_player,
        _ => a == b,
    }
}

/// Reads a player's role state out as an owned value carrying the same
/// data as the stored one.
fn read_role_state(game: &Game, player_ref: PlayerReference) -> (rs: RoleState)
    requires
        game.valid_ref(player_ref),
    ensures
        same_role_state(rs, game.players@[player_ref.index as int].role_state),
{
    match player_ref.role_state(game) {
        RoleState::Deputy(d) => RoleState::Deputy(Deputy { bullets_remaining: d.bullets_remaining }),
        RoleState::Doomsayer(d) => RoleState::Doomsayer(*d),
        RoleState::Forger(f) => RoleState::Forger(
            Forger {
                fake_role: f.fake_role,
                fake_will: f.fake_will.clone(),
                forges_remaining: f.forges_remaining,
                forged_ref: f.forged_ref,
            },
        ),
        RoleState::Jester(j) => RoleState::Jester(*j),
        RoleState::Journalist(j) => RoleState::Journalist(*j),
        RoleState::Medium(m) => RoleState::Medium(*m),
        RoleState::Retributionist(r) => RoleState::Retributionist(
            Retributionist {
                used_bodies: copy_refs(&r.used_bodies),
                currently_used_player: r.currently_used_player,
            },
        ),
        RoleState::Other(role) => RoleState::Other(*role),
    }
}

/// What one player's night hook leaves behind at one priority stage, by
/// the role it held when the stage began. Roles without a night action,
/// and stages a role does not care about, leave the game as it was.
pub open spec fn night_action_result(g1: Game, g2: Game, i: int, priority: Priority) -> bool {
    let actor = (PlayerReference { index: i as usize });
    &&& g2.players@.len() == g1.players@.len()
    &&& g2.phase == g1.phase
    &&& g2.day_number == g1.day_number
    &&& match g1.players@[i].role_state {
        RoleState::Doomsayer(d) => crate::role::doomsayer::doomsayer_night_result(
            g1,
            g2,
            d,
            actor,
            priority,
        ),
        RoleState::Forger(f) => crate::role::forger::forger_night_result(
            g1,
            g2,
            f,
            actor,
            priority,
        ),
        RoleState::Jester(j) => (priority == Priority::TopPriority
            ==> crate::role::jester::jester_night_result(g1, g2, j, actor)) && (priority
            != Priority::TopPriority ==> g2 == g1),
        RoleState::Retributionist(r) => crate::role::retributionist::retributionist_night_result(
            g1,
            g2,
            r.used_bodies@,
            r.currently_used_player,
            actor,
            priority,
        ),
        _ => g2 == g1,
    }
}

/// Invokes the actor's role-specific night hook for one priority stage.
pub fn do_night_action(game: &mut Game, actor_ref: PlayerReference, priority: Priority)
    requires
        old(game).wf(),
        old(game).valid_ref(actor_ref),
    ensures
        final(game).wf(),
        night_action_result(*old(game), *final(game), actor_ref.index as int, priority),
{
    let own: RoleState = read_role_state(game, actor_ref);
    proof {
        assert(old(game).players@[actor_ref.index as int].refs_wf(
            old(game).players@.len() as int,
        ));
    }
    match own {
        RoleState::Doomsayer(d) => d.do_night_action(game, actor_ref, priority),
        RoleState::Forger(f) => f.do_night_action(game, actor_ref, priority),
        RoleState::Jester(j) => j.do_night_action(game, actor_ref, priority),
        RoleState::Retributionist(r) => r.do_night_action(game, actor_ref, priority),
        _ => {},
    }
}

/// Invokes the actor's role-specific day-action hook, after checking the
/// role's own legality predicate: an action that fails it is never
/// submitted to the mutating hook.
pub fn do_day_action(game: &mut Game, actor_ref: PlayerReference, target_ref: PlayerReference)
    requires
        old(game).wf(),
        old(game).valid_ref(actor_ref),
        old(game).valid_ref(target_ref),
    ensures
        final(game).wf(),
        final(game).players@.len() == old(game).players@.len(),
        final(game).phase == old(game).phase,
        final(game).day_number == old(game).day_number,
        match old(game).players@[actor_ref.index as int].role_state {
            RoleState::Deputy(d) => (d.can_day_target_spec(*old(game), actor_ref, target_ref)
                ==> crate::role::deputy::deputy_day_result(
                *old(game),
                *final(game),
                d,
                actor_ref,
                target_ref,
            )) && (!d.can_day_target_spec(*old(game), actor_ref, target_ref) ==> *final(game)
                == *old(game)),
            _ => *final(game) == *old(game),
        },
{
    let own: RoleState = read_role_state(game, actor_ref);
    match own {
        RoleState::Deputy(d) => {
            if d.can_day_target(game, actor_ref, target_ref) {
                d.do_day_action(game, actor_ref, target_ref);
            }
        },
        _ => {},
    }
}

/// Whether the player's role has won: roles with a self-tracked flag
/// answer from it; every other role delegates to the global resolution
/// evaluation.
pub open spec fn won_game_spec_for(g: Game, actor: PlayerReference) -> bool {
    match g.players@[actor.index as int].role_state {
        RoleState::Doomsayer(d) => d.won,
        RoleState::Jester(j) => j.won,
        _ => common_role::won_game_spec(g, actor),
    }
}

/// Returns whether the player's role has won the game.
pub fn get_won_game_for(game: &Game, actor_ref: PlayerReference) -> (r: bool)
    requires
        game.valid_ref(actor_ref),
    ensures
        r == won_game_spec_for(*game, actor_ref),
{
    let own: RoleState = read_role_state(game, actor_ref);
    match own {
        RoleState::Doomsayer(d) => d.get_won_game(game, actor_ref),
        RoleState::Jester(j) => j.get_won_game(game, actor_ref),
        _ => common_role::get_won_game(game, actor_ref),
    }
}

/// Invokes the actor's role-creation hook, used whenever a role is
/// assigned or a player transforms into a new role. Only the Doomsayer
/// does setup work: its conversion check runs at once.
pub fn on_role_creation(game: &mut Game, actor_ref: PlayerReference)
    requires
        old(game).wf(),
        old(game).valid_ref(actor_ref),
    ensures
        final(game).wf(),
        final(game).players@.len() == old(game).players@.len(),
        final(game).phase == old(game).phase,
        final(game).day_number == old(game).day_number,
        match old(game).players@[actor_ref.index as int].role_state {
            RoleState::Doomsayer(d) => crate::role::doomsayer::conversion_result(
                *old(game),
                *final(game),
                d,
                actor_ref,
            ),
            _ => *final(game) == *old(game),
        },
{
    let own: RoleState = read_role_state(game, actor_ref);
    match own {
        RoleState::Doomsayer(d) => d.on_role_creation(game, actor_ref),
        RoleState::Retributionist(r) => r.on_role_creation(game, actor_ref),
        _ => {},
    }
}

/// What one player's phase-start hook leaves behind, by the role it held
/// when the hook ran. Roles without a phase-start hook leave the game as
/// it was.
pub open spec fn phase_start_hook_result(g1: Game, g2: Game, i: int, phase: PhaseType) -> bool {
    let actor = (PlayerReference { index: i as usize });
    &&& g2.players@.len() == g1.players@.len()
    &&& g2.phase == g1.phase
    &&& g2.day_number == g1.day_number
    &&& match g1.players@[i].role_state {
        RoleState::Doomsayer(d) => crate::role::doomsayer::conversion_result(g1, g2, d, actor),
        RoleState::Forger(f) => crate::role::forger::forger_phase_start_result(g1, g2, f, actor),
        RoleState::Jester(j) => crate::role::jester::jester_phase_start_result(g1, g2, j, actor),
        RoleState::Retributionist(r) => crate::role::retributionist::retributionist_phase_start_result(
            g1,
            g2,
            r.used_bodies@,
            actor,
            phase,
        ),
        _ => g2 == g1,
    }
}

/// `trace` witnesses the first `n` players' phase-start hooks running in
/// player order: it records the game before any hook, after each hook in
/// turn, and after the last.
pub open spec fn phase_start_pass_trace(
    g1: Game,
    g2: Game,
    trace: Seq<Game>,
    n: int,
    phase: PhaseType,
) -> bool {
    &&& trace.len() == n + 1
    &&& trace[0] == g1
    &&& trace[n] == g2
    &&& forall|k: int|
        0 <= k < n ==> phase_start_hook_result(#[trigger] trace[k], trace[k + 1], k, phase)
}

/// The first `n` players' phase-start hooks, chained in player order
/// through some sequence of intermediate game states.
pub open spec fn phase_start_pass_result(g1: Game, g2: Game, n: int, phase: PhaseType) -> bool {
    exists|trace: Seq<Game>| #[trigger] phase_start_pass_trace(g1, g2, trace, n, phase)
}

/// Invokes every player's phase-start hook once, in player order.
pub fn on_phase_start(game: &mut Game, phase: PhaseType)
    requires
        old(game).wf(),
    ensures
        final(game).wf(),
        final(game).players@.len() == old(game).players@.len(),
        final(game).phase == old(game).phase,
        final(game).day_number == old(game).day_number,
        phase_start_pass_result(
            *old(game),
            *final(game),
            old(game).players@.len() as int,
            phase,
        ),
{
    let n = game.players.len();
    let ghost mut trace: Seq<Game> = seq![*old(game)];
    let mut i: usize = 0;
    while i < n
        invariant
            game.wf(),
            n == old(game).players@.len(),
            game.players@.len() == n,
            game.phase == old(game).phase,
            game.day_number == old(game).day_number,
            i <= n,
            trace.len() == i + 1,
            trace[0] == *old(game),
            trace[i as int] == *game,
            forall|k: int|
                0 <= k < i ==> phase_start_hook_result(
                    #[trigger] trace[k],
                    trace[k + 1],
                    k,
                    phase,
                ),
        decreases n - i,
    {
        let actor_ref = PlayerReference::new(i);
        let ghost pre = *game;
        let own: RoleState = read_role_state(game, actor_ref);
        proof {
            assert(game.players@[i as int].refs_wf(game.players@.len() as int));
        }
        match own {
            RoleState::Doomsayer(d) => d.on_phase_start(game, actor_ref, phase),
            RoleState::Forger(f) => f.on_phase_start(game, actor_ref, phase),
            RoleState::Jester(j) => j.on_phase_start(game, actor_ref, phase),
            RoleState::Retributionist(r) => r.on_phase_start(game, actor_ref, phase),
            _ => {},
        }
        proof {
            assert(phase_start_hook_result(pre, *game, i as int, phase));
            trace = trace.push(*game);
        }
        i += 1;
    }
    proof {
        assert(phase_start_pass_trace(*old(game), *game, trace, n as int, phase));
    }
}

/// What one player's death hook leaves behind for a death event, by the
/// role it held when the hook ran. Roles without a death hook leave the
/// game as it was.
pub open spec fn death_hook_result(g1: Game, g2: Game, i: int, dead: PlayerReference) -> bool {
    let actor = (PlayerReference { index: i as usize });
    &&& g2.players@.len() == g1.players@.len()
    &&& g2.phase == g1.phase
    &&& g2.day_number == g1.day_number
    &&& match g1.players@[i].role_state {
        RoleState::Doomsayer(d) => crate::role::doomsayer::conversion_result(g1, g2, d, actor),
        RoleState::Jester(_) => crate::role::jester::jester_death_result(g1, g2, actor, dead),
        _ => g2 == g1,
    }
}

/// `trace` witnesses the first `n` players' death hooks running in player
/// order for one death event.
pub open spec fn death_pass_trace(
    g1: Game,
    g2: Game,
    trace: Seq<Game>,
    n: int,
    dead: PlayerReference,
) -> bool {
    &&& trace.len() == n + 1
    &&& trace[0] == g1
    &&& trace[n] == g2
    &&& forall|k: int|
        0 <= k < n ==> death_hook_result(#[trigger] trace[k], trace[k + 1], k, dead)
}

/// The first `n` players' death hooks, chained in player order through
/// some sequence of intermediate game states.
pub open spec fn death_pass_result(g1: Game, g2: Game, n: int, dead: PlayerReference) -> bool {
    exists|trace: Seq<Game>| #[trigger] death_pass_trace(g1, g2, trace, n, dead)
}

/// Invokes every player's death hook once for a death event, in player
/// order. The surrounding phase machine calls this at every death.
pub fn on_any_death(game: &mut Game, dead_player_ref: PlayerReference)
    requires
        old(game).wf(),
        old(game).valid_ref(dead_player_ref),
    ensures
        final(game).wf(),
        final(game).players@.len() == old(game).players@.len(),
        final(game).phase == old(game).phase,
        final(game).day_number == old(game).day_number,
        death_pass_result(
            *old(game),
            *final(game),
            old(game).players@.len() as int,
            dead_player_ref,
        ),
{
    let n = game.players.len();
    let ghost mut trace: Seq<Game> = seq![*old(game)];
    let mut i: usize = 0;
    while i < n
        invariant
            game.wf(),
            n == old(game).players@.len(),
            game.players@.len() == n,
            game.phase == old(game).phase,
            game.day_number == old(game).day_number,
            i <= n,
            trace.len() == i + 1,
            trace[0] == *old(game),
            trace[i as int] == *game,
            forall|k: int|
                0 <= k < i ==> death_hook_result(
                    #[trigger] trace[k],
                    trace[k + 1],
                    k,
                    dead_player_ref,
                ),
        decreases n - i,
    {
        let actor_ref = PlayerReference::new(i);
        let ghost pre = *game;
        let own: RoleState = read_role_state(game, actor_ref);
        match own {
            RoleState::Doomsayer(d) => d.on_any_death(game, actor_ref, dead_player_ref),
            RoleState::Jester(j) => j.on_any_death(game, actor_ref, dead_player_ref),
            _ => {},
        }
        proof {
            assert(death_hook_result(pre, *game, i as int, dead_player_ref));
            trace = trace.push(*game);
        }
        i += 1;
    }
    proof {
        assert(death_pass_trace(*old(game), *game, trace, n as int, dead_player_ref));
    }
}

} // verus!
