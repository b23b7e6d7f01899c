//! The night priority resolution engine: commits selections to visits, then
//! walks the priority stages in their fixed total order, invoking every
//! player's night hook once per stage, in stable player-index order. The
//! engine holds no role-specific knowledge; it is a pure dispatcher, and a
//! full pass is deterministic in the game state it starts from, the seeded
//! random source included.

use vstd::prelude::*;
use crate::dispatch::{
    converted_visits_spec, convert_targets_to_visits_for, do_night_action, night_action_result,
};
use crate::game::{same_apart_from_players, Game, Player};
use crate::player_ref::{copy_refs, PlayerReference};
use crate::role::Priority;

verus! {

/// The second game is the first with every player's selection committed to
/// its visit list, by the player's own role; nothing else of any player
/// moved.
pub open spec fn committed_visits_result(g1: Game, g2: Game) -> bool {
    &&& g2.players@.len() == g1.players@.len()
    &&& same_apart_from_players(g1, g2)
    &&& forall|i: int|
        0 <= i < g1.players@.len() ==> {
            &&& (#[trigger] g2.players@[i]).night_visits@ == converted_visits_spec(
                g1.players@[i].role_state,
                g1.players@[i].selection@,
            )
            &&& g2.players@[i] == (Player {
                night_visits: g2.players@[i].night_visits,
                ..g1.players@[i]
            })
        }
}

/// `trace` witnesses one priority stage: every one of the `n` players'
/// night hooks running once, in stable player-index order, at that stage.
pub open spec fn stage_pass_trace(
    g1: Game,
    g2: Game,
    trace: Seq<Game>,
    n: int,
    priority: Priority,
) -> bool {
    &&& trace.len() == n + 1
    &&& trace[0] == g1
    &&& trace[n] == g2
    &&& forall|k: int|
        0 <= k < n ==> night_action_result(#[trigger] trace[k], trace[k + 1], k, priority)
}

/// One priority stage run over all `n` players, chained in player order
/// through some sequence of intermediate game states.
pub open spec fn stage_pass_result(g1: Game, g2: Game, n: int, priority: Priority) -> bool {
    exists|trace: Seq<Game>| #[trigger] stage_pass_trace(g1, g2, trace, n, priority)
}

/// `trace` witnesses the first `k` priority stages of the fixed order
/// running in turn, each over the whole arena.
pub open spec fn stages_pass_trace(g1: Game, g2: Game, trace: Seq<Game>, k: int) -> bool {
    &&& trace.len() == k + 1
    &&& trace[0] == g1
    &&& trace[k] == g2
    &&& forall|j: int|
        0 <= j < k ==> stage_pass_result(
            #[trigger] trace[j],
            trace[j + 1],
            trace[j].players@.len() as int,
            Priority::values_spec()[j],
        )
}

/// The first `k` priority stages of the fixed order, chained through some
/// sequence of intermediate game states.
pub open spec fn stages_pass_result(g1: Game, g2: Game, k: int) -> bool {
    exists|trace: Seq<Game>| #[trigger] stages_pass_trace(g1, g2, trace, k)
}

/// A full night pass: selections are committed to visits first, and then
/// every priority stage of the fixed order runs over all players, in
/// stable player-index order. Each step of the chain is the corresponding
/// dispatch relation, so the pass is pinned to the composition of the
/// per-role night results.
pub open spec fn night_pass_result(g1: Game, g2: Game) -> bool {
    exists|mid: Game|
        #[trigger] committed_visits_result(g1, mid) && stages_pass_result(
            mid,
            g2,
            Priority::values_spec().len() as int,
        )
}

/// Converts every player's selection into its committed visit list, by the
/// player's own role, in player order. Nothing else of any player changes.
pub fn commit_night_visits(game: &mut Game)
    requires
        old(game).wf(),
    ensures
        final(game).wf(),
        committed_visits_result(*old(game), *final(game)),
{
    let n = game.players.len();
    let mut i: usize = 0;
    while i < n
        invariant
            game.wf(),
            n == old(game).players@.len(),
            game.players@.len() == n,
            same_apart_from_players(*old(game), *game),
            i <= n,
            forall|k: int|
                0 <= k < i ==> {
                    &&& (#[trigger] game.players@[k]).night_visits@ == converted_visits_spec(
                        old(game).players@[k].role_state,
                        old(game).players@[k].selection@,
                    )
                    &&& game.players@[k] == (Player {
                        night_visits: game.players@[k].night_visits,
                        ..old(game).players@[k]
                    })
                },
            forall|k: int| i <= k < n ==> game.players@[k] == old(game).players@[k],
        decreases n - i,
    {
        let pr = PlayerReference::new(i);
        let sel = copy_refs(pr.selection(game));
        let visits = convert_targets_to_visits_for(game, pr, &sel);
        proof {
            assert(game.players@[i as int].refs_wf(n as int));
            assert forall|j: int|
                0 <= j < visits@.len() implies (#[trigger] visits@[j]).target.index < n by {
                assert(visits@ == converted_visits_spec(
                    game.players@[i as int].role_state,
                    sel@,
                ));
            }
        }
        pr.set_night_visits(game, visits);
        i += 1;
    }
}

/// Runs one full night: commits visits, then for each priority stage in
/// the fixed order invokes every player's night hook once, in stable
/// player-index order. Runs to completion once begun.
pub fn resolve_night(game: &mut Game)
    requires
        old(game).wf(),
    ensures
        final(game).wf(),
        final(game).players@.len() == old(game).players@.len(),
        final(game).phase == old(game).phase,
        final(game).day_number == old(game).day_number,
        night_pass_result(*old(game), *final(game)),
{
    commit_night_visits(game);
    let ghost after_commit = *game;
    let priorities = Priority::values();
    let ghost mut stage_trace: Seq<Game> = seq![after_commit];
    let mut pi: usize = 0;
    while pi < priorities.len()
        invariant
            game.wf(),
            priorities@ == Priority::values_spec(),
            pi <= priorities@.len(),
            game.players@.len() == old(game).players@.len(),
            game.phase == old(game).phase,
            game.day_number == old(game).day_number,
            stage_trace.len() == pi + 1,
            stage_trace[0] == after_commit,
            stage_trace[pi as int] == *game,
            forall|j: int|
                0 <= j < pi ==> stage_pass_result(
                    #[trigger] stage_trace[j],
                    stage_trace[j + 1],
                    stage_trace[j].players@.len() as int,
                    Priority::values_spec()[j],
                ),
        decreases priorities@.len() - pi,
    {
        let priority = priorities[pi];
        let ghost stage_start = *game;
        let n = game.players.len();
        let ghost mut inner_trace: Seq<Game> = seq![stage_start];
        let mut i: usize = 0;
        while i < n
            invariant
                game.wf(),
                n == stage_start.players@.len(),
                game.players@.len() == n,
                game.phase == old(game).phase,
                game.day_number == old(game).day_number,
                i <= n,
                inner_trace.len() == i + 1,
                inner_trace[0] == stage_start,
                inner_trace[i as int] == *game,
                forall|k: int|
                    0 <= k < i ==> night_action_result(
                        #[trigger] inner_trace[k],
                        inner_trace[k + 1],
                        k,
                        priority,
                    ),
            decreases n - i,
        {
            let ghost pre = *game;
            do_night_action(game, PlayerReference::new(i), priority);
            proof {
                assert(night_action_result(pre, *game, i as int, priority));
                inner_trace = inner_trace.push(*game);
            }
            i += 1;
        }
        proof {
            assert(stage_pass_trace(stage_start, *game, inner_trace, n as int, priority));
            assert(stage_pass_result(stage_start, *game, n as int, priority));
            stage_trace = stage_trace.push(*game);
        }
        pi += 1;
    }
    proof {
        assert(stages_pass_trace(
            after_commit,
            *game,
            stage_trace,
            Priority::values_spec().len() as int,
        ));
        assert(stages_pass_result(after_commit, *game, Priority::values_spec().len() as int));
        assert(committed_visits_result(*old(game), after_commit));
        assert(night_pass_result(*old(game), *game));
    }
}

} // verus!
