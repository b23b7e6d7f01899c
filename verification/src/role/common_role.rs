//! Behavior shared by most roles: the default selection legality, the
//! default selection-to-visit conversion, chat-group visibility, and the
//! default delegation to global win evaluation.

use vstd::prelude::*;
use crate::chat::ChatGroup;
use crate::game::{Game, Player};
use crate::phase::PhaseState;
use crate::player_ref::PlayerReference;
use crate::resolution::ResolutionState;
use crate::role::RoleState;
use crate::role_list::Faction;
use crate::visit::Visit;

verus! {

/// The two players hold roles of the same evil team: both Mafia, or both
/// Coven.
pub open spec fn same_evil_team_spec(g: Game, a: PlayerReference, b: PlayerReference) -> bool {
    let fa = g.players@[a.index as int].role_state.role_spec().faction_spec();
    let fb = g.players@[b.index as int].role_state.role_spec().faction_spec();
    fa == fb && (fa == Faction::Mafia || fa == Faction::Coven)
}

/// Returns whether the two players are allies on an evil team.
pub fn same_evil_team(game: &Game, actor_ref: PlayerReference, target_ref: PlayerReference) -> (r:
    bool)
    requires
        game.valid_ref(actor_ref),
        game.valid_ref(target_ref),
    ensures
        r == same_evil_team_spec(*game, actor_ref, target_ref),
{
    let fa = actor_ref.role(game).faction();
    let fb = target_ref.role(game).faction();
    fa == fb && (fa == Faction::Mafia || fa == Faction::Coven)
}

/// The default legality of selecting a night target: a living, un-jailed
/// actor with no standing selection picks a living player other than itself
/// that is not an ally on its evil team.
pub open spec fn can_night_select_spec(
    g: Game,
    actor: PlayerReference,
    target: PlayerReference,
) -> bool {
    let a = g.players@[actor.index as int];
    let t = g.players@[target.index as int];
    actor != target && !a.night_jailed && a.selection@.len() == 0 && a.alive && t.alive
        && !same_evil_team_spec(g, actor, target)
}

/// Returns whether the default night-selection rule lets `actor_ref` select
/// `target_ref`.
pub fn can_night_select(
    game: &Game,
    actor_ref: PlayerReference,
    target_ref: PlayerReference,
) -> (r: bool)
    requires
        game.valid_ref(actor_ref),
        game.valid_ref(target_ref),
    ensures
        r == can_night_select_spec(*game, actor_ref, target_ref),
{
    actor_ref != target_ref && !actor_ref.night_jailed(game) && actor_ref.selection(
        game,
    ).is_empty() && actor_ref.alive(game) && target_ref.alive(game) && !same_evil_team(
        game,
        actor_ref,
        target_ref,
    )
}

/// The default conversion of a selection into visits: a non-empty selection
/// yields exactly one non-astral visit to its first target, carrying the
/// role's attack flag; an empty selection yields no visits. The conversion
/// is pure: it never mutates game state.
pub fn convert_selection_to_visits(
    _game: &Game,
    _actor_ref: PlayerReference,
    target_refs: &Vec<PlayerReference>,
    attack: bool,
) -> (r: Vec<Visit>)
    ensures
        target_refs@.len() > 0 ==> r@ == seq![
            (Visit { target: target_refs@[0], attack, astral: false }),
        ],
        target_refs@.len() == 0 ==> r@ == Seq::<Visit>::empty(),
{
    let mut r: Vec<Visit> = Vec::new();
    if target_refs.len() > 0 {
        r.push(Visit { target: target_refs[0], attack, astral: false });
        proof {
            assert(r@ =~= seq![(Visit { target: target_refs@[0], attack, astral: false })]);
        }
    }
    r
}

/// This player's role has won through the global resolution evaluation:
/// the game has resolved to a condition its team needs.
pub open spec fn won_game_spec(g: Game, actor: PlayerReference) -> bool {
    exists|c: ResolutionState|
        #[trigger] ResolutionState::game_over_with(g, c)
            && ResolutionState::role_resolution_spec(
            g.players@[actor.index as int].role_state.role_spec(),
        ) == Some(c)
}

/// Returns whether this player's role has won through the global resolution
/// evaluation. Only roles that win by end-game condition delegate here;
/// roles with self-tracked win flags answer from their own state.
pub fn get_won_game(game: &Game, actor_ref: PlayerReference) -> (r: bool)
    requires
        game.valid_ref(actor_ref),
    ensures
        r == won_game_spec(*game, actor_ref),
{
    match ResolutionState::game_is_over(game) {
        Some(c) => {
            let w = ResolutionState::can_win_with(game, actor_ref, c);
            proof {
                if !w {
                    assert forall|c2: ResolutionState|
                        ResolutionState::game_over_with(*game, c2) implies
                        ResolutionState::role_resolution_spec(
                        game.players@[actor_ref.index as int].role_state.role_spec(),
                    ) != Some(c2) by {
                        ResolutionState::lemma_game_over_unique(*game, c, c2);
                    }
                }
            }
            w
        },
        None => false,
    }
}

/// A player whose role state seances `actor` into the Dead channel.
pub open spec fn player_seances(p: Player, actor: PlayerReference) -> bool {
    p.role_state matches RoleState::Medium(m) && m.seanced_target == Some(actor)
}

/// Some player's Medium state seances `actor`.
pub open spec fn seanced_by_medium(g: Game, actor: PlayerReference) -> bool {
    exists|i: int| 0 <= i < g.players@.len() && player_seances(#[trigger] g.players@[i], actor)
}

/// Returns whether some Medium seances `actor_ref` tonight.
fn seanced(game: &Game, actor_ref: PlayerReference) -> (b: bool)
    ensures
        b == seanced_by_medium(*game, actor_ref),
{
    let n = game.players.len();
    let mut i: usize = 0;
    while i < n
        invariant
            n == game.players@.len(),
            i <= n,
            forall|k: int| 0 <= k < i ==> !player_seances(#[trigger] game.players@[k], actor_ref),
        decreases n - i,
    {
        let hit = match &game.players[i].role_state {
            RoleState::Medium(m) => match m.seanced_target {
                Some(t) => t == actor_ref,
                None => false,
            },
            _ => false,
        };
        if hit {
            proof {
                assert(player_seances(game.players@[i as int], actor_ref));
            }
            return true;
        }
        i += 1;
    }
    false
}

/// A player whose role state interviews `actor`.
pub open spec fn player_interviews(p: Player, actor: PlayerReference) -> bool {
    p.role_state matches RoleState::Journalist(j) && j.interviewed_target == Some(actor)
}

/// Some player's Journalist state interviews `actor`.
pub open spec fn interviewed_by_journalist(g: Game, actor: PlayerReference) -> bool {
    exists|i: int| 0 <= i < g.players@.len() && player_interviews(#[trigger] g.players@[i], actor)
}

/// Returns whether some Journalist interviews `actor_ref` tonight.
fn interviewed(game: &Game, actor_ref: PlayerReference) -> (b: bool)
    ensures
        b == interviewed_by_journalist(*game, actor_ref),
{
    let n = game.players.len();
    let mut i: usize = 0;
    while i < n
        invariant
            n == game.players@.len(),
            i <= n,
            forall|k: int|
                0 <= k < i ==> !player_interviews(#[trigger] game.players@[k], actor_ref),
        decreases n - i,
    {
        let hit = match &game.players[i].role_state {
            RoleState::Journalist(j) => match j.interviewed_target {
                Some(t) => t == actor_ref,
                None => false,
            },
            _ => false,
        };
        if hit {
            proof {
                assert(player_interviews(game.players@[i as int], actor_ref));
            }
            return true;
        }
        i += 1;
    }
    false
}

/// Returns whether `g` occurs in `v`.
fn contains_group(v: &Vec<ChatGroup>, g: ChatGroup) -> (b: bool)
    ensures
        b == v@.contains(g),
{
    let mut i: usize = 0;
    while i < v.len()
        invariant
            i <= v@.len(),
            forall|k: int| 0 <= k < i ==> v@[k] != g,
        decreases v@.len() - i,
    {
        if v[i] == g {
            return true;
        }
        i += 1;
    }
    false
}

/// Whether `group` is among the channels `actor` may send to. The rules, in
/// precedence order: a dead player sends on Dead alone, unless it is also
/// silenced, in which case it sends nowhere; a silenced living player
/// sends nowhere; Briefing and Obituary silence everyone; the discussion
/// phases open All, with Testimony and FinalWords restricting it to the
/// player on trial; at Night a seanced player reaches Dead, an interviewed
/// one reaches Interview, and a jailed player reaches Jail alone, while an
/// un-jailed one keeps its role's night channels plus its evil faction's
/// channel.
pub open spec fn sendable_spec(
    g: Game,
    actor: PlayerReference,
    night_chat_groups: Seq<ChatGroup>,
    group: ChatGroup,
) -> bool {
    let p = g.players@[actor.index as int];
    if !p.alive {
        group == ChatGroup::Dead && !p.night_silenced
    } else if p.night_silenced {
        false
    } else {
        match g.phase {
            PhaseState::Briefing | PhaseState::Obituary => false,
            PhaseState::Discussion | PhaseState::Nomination | PhaseState::Judgement
            | PhaseState::Dusk => group == ChatGroup::All,
            PhaseState::Testimony { player_on_trial } => player_on_trial == actor && group
                == ChatGroup::All,
            PhaseState::FinalWords { player_on_trial } => player_on_trial == actor && group
                == ChatGroup::All,
            PhaseState::Night => {
                ||| (group == ChatGroup::Dead && seanced_by_medium(g, actor))
                ||| (group == ChatGroup::Interview && interviewed_by_journalist(g, actor))
                ||| (if p.night_jailed {
                    group == ChatGroup::Jail
                } else {
                    night_chat_groups.contains(group) || (p.role_state.role_spec().faction_spec()
                        == Faction::Mafia && group == ChatGroup::Mafia) || (
                    p.role_state.role_spec().faction_spec() == Faction::Coven && group
                        == ChatGroup::Cult)
                })
            },
        }
    }
}

/// Returns whether `actor_ref` may send to `group` right now.
fn sendable_one(
    game: &Game,
    actor_ref: PlayerReference,
    night_chat_groups: &Vec<ChatGroup>,
    group: ChatGroup,
) -> (b: bool)
    requires
        game.valid_ref(actor_ref),
    ensures
        b == sendable_spec(*game, actor_ref, night_chat_groups@, group),
{
    if !actor_ref.alive(game) {
        return group == ChatGroup::Dead && !actor_ref.night_silenced(game);
    }
    if actor_ref.night_silenced(game) {
        return false;
    }
    match game.current_phase() {
        PhaseState::Briefing | PhaseState::Obituary => false,
        PhaseState::Discussion | PhaseState::Nomination | PhaseState::Judgement
        | PhaseState::Dusk => group == ChatGroup::All,
        PhaseState::Testimony { player_on_trial } => *player_on_trial == actor_ref && group
            == ChatGroup::All,
        PhaseState::FinalWords { player_on_trial } => *player_on_trial == actor_ref && group
            == ChatGroup::All,
        PhaseState::Night => {
            let sea = group == ChatGroup::Dead && seanced(game, actor_ref);
            let inter = group == ChatGroup::Interview && interviewed(game, actor_ref);
            let jail_or_night = if actor_ref.night_jailed(game) {
                group == ChatGroup::Jail
            } else {
                contains_group(night_chat_groups, group) || (actor_ref.role(game).faction()
                    == Faction::Mafia && group == ChatGroup::Mafia) || (actor_ref.role(
                    game,
                ).faction() == Faction::Coven && group == ChatGroup::Cult)
            };
            sea || inter || jail_or_night
        },
    }
}

/// Lists the channels `actor_ref` may send to right now, each once. The set
/// is re-derived on every query; nothing is cached across phases.
#[verifier::rlimit(60)]
pub fn get_current_send_chat_groups(
    game: &Game,
    actor_ref: PlayerReference,
    night_chat_groups: &Vec<ChatGroup>,
) -> (out: Vec<ChatGroup>)
    requires
        game.valid_ref(actor_ref),
    ensures
        forall|gr: ChatGroup|
            #[trigger] out@.contains(gr) <==> sendable_spec(
                *game,
                actor_ref,
                night_chat_groups@,
                gr,
            ),
        out@.no_duplicates(),
{
    let universe = ChatGroup::values();
    let mut out: Vec<ChatGroup> = Vec::new();
    let mut i: usize = 0;
    while i < universe.len()
        invariant
            universe@ == ChatGroup::values_spec(),
            game.valid_ref(actor_ref),
            i <= universe@.len(),
            forall|gr: ChatGroup|
                #[trigger] out@.contains(gr) ==> sendable_spec(
                    *game,
                    actor_ref,
                    night_chat_groups@,
                    gr,
                ),
            forall|k: int|
                0 <= k < i && sendable_spec(
                    *game,
                    actor_ref,
                    night_chat_groups@,
                    #[trigger] universe@[k],
                ) ==> out@.contains(universe@[k]),
            out@.no_duplicates(),
        decreases universe@.len() - i,
    {
        let gr = universe[i];
        if sendable_one(game, actor_ref, night_chat_groups, gr) && !contains_group(&out, gr) {
            let ghost old_out = out@;
            out.push(gr);
            proof {
                lemma_push_distinct(old_out, gr);
            }
        }
        i += 1;
    }
    proof {
        ChatGroup::lemma_values_complete();
        assert forall|gr: ChatGroup|
            #[trigger] out@.contains(gr) <==> sendable_spec(
                *game,
                actor_ref,
                night_chat_groups@,
                gr,
            ) by {
            if sendable_spec(*game, actor_ref, night_chat_groups@, gr) {
                let k = choose|k: int|
                    0 <= k < ChatGroup::values_spec().len() && ChatGroup::values_spec()[k] == gr;
                assert(sendable_spec(*game, actor_ref, night_chat_groups@, universe@[k]));
            }
        }
    }
    out
}

/// Pushing an element a sequence lacks keeps membership exact and keeps the
/// sequence duplicate-free.
proof fn lemma_push_distinct(s: Seq<ChatGroup>, x: ChatGroup)
    requires
        s.no_duplicates(),
        !s.contains(x),
    ensures
        s.push(x).no_duplicates(),
        forall|g: ChatGroup| #[trigger] s.push(x).contains(g) <==> (s.contains(g) || g == x),
{
    let t = s.push(x);
    assert forall|i: int, j: int|
        0 <= i < t.len() && 0 <= j < t.len() && i != j implies t[i] != t[j] by {
        if i < s.len() && j < s.len() {
        } else if i < s.len() {
            assert(t[i] == s[i]);
            assert(s.contains(s[i]));
        } else if j < s.len() {
            assert(t[j] == s[j]);
            assert(s.contains(s[j]));
        }
    }
    assert forall|g: ChatGroup| #[trigger] t.contains(g) <==> (s.contains(g) || g == x) by {
        if t.contains(g) {
            let j = choose|j: int| 0 <= j < t.len() && t[j] == g;
            if j < s.len() {
                assert(s[j] == g);
                assert(s.contains(g));
            }
        }
        if s.contains(g) {
            let j = choose|j: int| 0 <= j < s.len() && s[j] == g;
            assert(t[j] == g);
        }
        if g == x {
            assert(t[t.len() - 1] == g);
        }
    }
}

/// Whether `group` is among the channels `actor` receives. Everyone
/// receives All; the dead, and at Night the living seanced, receive Dead;
/// Mafia and Coven members their faction channel; the jailed receive Jail;
/// and at Night the living interviewed receive Interview.
pub open spec fn receivable_spec(g: Game, actor: PlayerReference, group: ChatGroup) -> bool {
    let p = g.players@[actor.index as int];
    ||| group == ChatGroup::All
    ||| (group == ChatGroup::Dead && (!p.alive || (g.phase is Night && p.alive
        && seanced_by_medium(g, actor))))
    ||| (group == ChatGroup::Mafia && p.role_state.role_spec().faction_spec() == Faction::Mafia)
    ||| (group == ChatGroup::Cult && p.role_state.role_spec().faction_spec() == Faction::Coven)
    ||| (group == ChatGroup::Jail && p.night_jailed)
    ||| (group == ChatGroup::Interview && g.phase is Night && p.alive && interviewed_by_journalist(
        g,
        actor,
    ))
}

/// Returns whether `actor_ref` receives `group` right now.
fn receivable_one(game: &Game, actor_ref: PlayerReference, group: ChatGroup) -> (b: bool)
    requires
        game.valid_ref(actor_ref),
    ensures
        b == receivable_spec(*game, actor_ref, group),
{
    if group == ChatGroup::All {
        return true;
    }
    let night = game.current_phase().phase() == crate::phase::PhaseType::Night;
    if group == ChatGroup::Dead && !actor_ref.alive(game) {
        return true;
    }
    if group == ChatGroup::Dead && night && actor_ref.alive(game) && seanced(game, actor_ref) {
        return true;
    }
    if group == ChatGroup::Mafia && actor_ref.role(game).faction() == Faction::Mafia {
        return true;
    }
    if group == ChatGroup::Cult && actor_ref.role(game).faction() == Faction::Coven {
        return true;
    }
    if group == ChatGroup::Jail && actor_ref.night_jailed(game) {
        return true;
    }
    if group == ChatGroup::Interview && night && actor_ref.alive(game) && interviewed(
        game,
        actor_ref,
    ) {
        return true;
    }
    false
}

/// Lists the channels `actor_ref` receives right now, each once. The set is
/// re-derived on every query; nothing is cached across phases.
#[verifier::rlimit(60)]
pub fn get_current_receive_chat_groups(game: &Game, actor_ref: PlayerReference) -> (out: Vec<
    ChatGroup,
>)
    requires
        game.valid_ref(actor_ref),
    ensures
        forall|gr: ChatGroup|
            #[trigger] out@.contains(gr) <==> receivable_spec(*game, actor_ref, gr),
        out@.no_duplicates(),
{
    let universe = ChatGroup::values();
    let mut out: Vec<ChatGroup> = Vec::new();
    let mut i: usize = 0;
    while i < universe.len()
        invariant
            universe@ == ChatGroup::values_spec(),
            game.valid_ref(actor_ref),
            i <= universe@.len(),
            forall|gr: ChatGroup|
                #[trigger] out@.contains(gr) ==> receivable_spec(*game, actor_ref, gr),
            forall|k: int|
                0 <= k < i && receivable_spec(*game, actor_ref, #[trigger] universe@[k])
                    ==> out@.contains(universe@[k]),
            out@.no_duplicates(),
        decreases universe@.len() - i,
    {
        let gr = universe[i];
        if receivable_one(game, actor_ref, gr) && !contains_group(&out, gr) {
            let ghost old_out = out@;
            out.push(gr);
            proof {
                lemma_push_distinct(old_out, gr);
            }
        }
        i += 1;
    }
    proof {
        ChatGroup::lemma_values_complete();
        assert forall|gr: ChatGroup|
            #[trigger] out@.contains(gr) <==> receivable_spec(*game, actor_ref, gr) by {
            if receivable_spec(*game, actor_ref, gr) {
                let k = choose|k: int|
                    0 <= k < ChatGroup::values_spec().len() && ChatGroup::values_spec()[k] == gr;
                assert(receivable_spec(*game, actor_ref, universe@[k]));
            }
        }
    }
    out
}

} // verus!
