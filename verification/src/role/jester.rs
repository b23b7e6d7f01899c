//! Jester: a Neutral trickster who wins by being lynched.

use vstd::prelude::*;
use crate::chat::{ChatGroup, ChatMessageVariant};
use crate::game::{same_apart_from_players, Game, Player};
use crate::grave::{GraveDeathCause, GraveKiller};
use crate::phase::{PhaseState, PhaseType};
use crate::player_ref::PlayerReference;
use crate::player::{grave_role_shown, grave_will_shown};
use crate::rng::{next_rng, next_rng_spec};
use crate::role::{Priority, Role, RoleState};
use crate::verdict::Verdict;

verus! {

/// Role state of the Jester.
#[derive(Clone, Copy, Debug, PartialEq, Eq, Structural)]
pub struct Jester {
    pub lynched_yesterday: bool,
    pub won: bool,
}

impl Default for Jester {
    /// A fresh Jester has not been lynched and has not won.
    fn default() -> (r: Self)
        ensures
            r.lynched_yesterday == false,
            r.won == false,
    {
        Jester { lynched_yesterday: false, won: false }
    }
}

/// Player `i` is a target the dead Jester may kill: living, not the Jester
/// itself, and not one who voted Innocent.
pub open spec fn jester_eligible(g: Game, actor: PlayerReference, i: int) -> bool {
    g.players@[i].alive && i != actor.index as int && g.players@[i].verdict != Verdict::Innocent
}

/// The eligible targets among the first `n` players, in index order.
pub open spec fn eligible_refs(g: Game, actor: PlayerReference, n: int) -> Seq<PlayerReference>
    decreases n,
{
    if n <= 0 {
        Seq::empty()
    } else {
        let pre = eligible_refs(g, actor, n - 1);
        if jester_eligible(g, actor, n - 1) {
            pre.push(PlayerReference { index: (n - 1) as usize })
        } else {
            pre
        }
    }
}

/// Eligibility reads nothing of the Jester itself, so a change confined to
/// the Jester's own entry leaves the eligible list as it was.
proof fn lemma_eligible_refs_same(g1: Game, g2: Game, actor: PlayerReference, n: int)
    requires
        g1.players@.len() == g2.players@.len(),
        n <= g1.players@.len(),
        forall|i: int|
            0 <= i < g1.players@.len() && i != actor.index as int ==> g2.players@[i] == #[trigger] g1.players@[i],
    ensures
        eligible_refs(g1, actor, n) == eligible_refs(g2, actor, n),
    decreases n,
{
    if n > 0 {
        lemma_eligible_refs_same(g1, g2, actor, n - 1);
    }
}

/// Every listed eligible target addresses the arena.
proof fn lemma_eligible_refs_bounds(g: Game, actor: PlayerReference, n: int)
    requires
        n <= g.players@.len(),
        n <= usize::MAX,
    ensures
        forall|j: int|
            0 <= j < eligible_refs(g, actor, n).len() ==> (#[trigger] eligible_refs(
                g,
                actor,
                n,
            )[j]).index < n,
    decreases n,
{
    if n > 0 {
        lemma_eligible_refs_bounds(g, actor, n - 1);
        let pre = eligible_refs(g, actor, n - 1);
        let cur = eligible_refs(g, actor, n);
        assert forall|j: int| 0 <= j < cur.len() implies (#[trigger] cur[j]).index < n by {
            if jester_eligible(g, actor, n - 1) {
                assert(cur == pre.push(PlayerReference { index: (n - 1) as usize }));
                if j < pre.len() {
                    assert(cur[j] == pre[j]);
                } else {
                    assert(cur[j].index == n - 1);
                }
            } else {
                assert(cur == pre);
            }
        }
    }
}

/// Returns the dead Jester's eligible targets, in index order.
fn jester_eligible_targets(game: &Game, actor_ref: PlayerReference) -> (v: Vec<PlayerReference>)
    ensures
        v@ == eligible_refs(*game, actor_ref, game.players@.len() as int),
{
    let n = game.players.len();
    let mut v: Vec<PlayerReference> = Vec::new();
    let mut i: usize = 0;
    while i < n
        invariant
            n == game.players@.len(),
            i <= n,
            v@ == eligible_refs(*game, actor_ref, i as int),
        decreases n - i,
    {
        let pr = PlayerReference::new(i);
        if pr.alive(game) && i != actor_ref.index() && pr.verdict(game) != Verdict::Innocent {
            v.push(pr);
        }
        i += 1;
    }
    v
}

/// What the Jester's night action leaves behind, given the state it started
/// from. On the first night a living Jester's defense is raised to two. A
/// living Jester does nothing more; a dead one that was lynched yesterday
/// kills its explicit day-selection, or an eligible target drawn from the
/// injected random source, or nobody when none is eligible.
pub open spec fn jester_night_result(g1: Game, g2: Game, j: Jester, actor: PlayerReference) -> bool {
    let a = actor.index as int;
    let p1 = g1.players@[a];
    let raised: u8 = if g1.day_number == 1 && p1.alive && p1.defense < 2 {
        2u8
    } else {
        p1.defense
    };
    let base = g1.players@.update(a, (Player { defense: raised, ..p1 }));
    if p1.alive || !j.lynched_yesterday {
        g2.players@ == base && same_apart_from_players(g1, g2)
    } else {
        let sel = p1.selection@;
        let el = eligible_refs(g1, actor, g1.players@.len() as int);
        if sel.len() == 0 && el.len() == 0 {
            g2.players@ == base && same_apart_from_players(g1, g2)
        } else {
            let t = if sel.len() > 0 {
                sel[0]
            } else {
                el[(next_rng_spec(g1.rng_state) as int) % (el.len() as int)]
            };
            let ti = t.index as int;
            &&& g2.phase == g1.phase
            &&& g2.day_number == g1.day_number
            &&& g2.group_messages == g1.group_messages
            &&& g2.rng_state == (if sel.len() > 0 {
                g1.rng_state
            } else {
                next_rng_spec(g1.rng_state)
            })
            &&& g2.players@.len() == g1.players@.len()
            &&& (forall|k: int|
                0 <= k < g1.players@.len() && k != a && k != ti ==> (#[trigger] g2.players@[k])
                    == base[k])
            &&& g2.players@[a] == base[a]
            &&& (ti != a ==> {
                &&& (!g1.players@[ti].alive ==> g2.players@[ti] == g1.players@[ti])
                &&& ((g1.players@[ti].alive && g1.players@[ti].defense >= 3) ==> g2.players@[ti]
                    == (Player {
                    night_messages: g2.players@[ti].night_messages,
                    ..g1.players@[ti]
                }) && g2.players@[ti].night_messages@ == g1.players@[ti].night_messages@.push(
                    ChatMessageVariant::YouSurvivedAttack,
                ))
                &&& ((g1.players@[ti].alive && g1.players@[ti].defense < 3) ==> {
                    &&& g2.players@[ti] == (Player {
                        alive: false,
                        night_died: true,
                        night_grave_killers: g2.players@[ti].night_grave_killers,
                        grave: g2.players@[ti].grave,
                        ..g1.players@[ti]
                    })
                    &&& g2.players@[ti].night_grave_killers@
                        == g1.players@[ti].night_grave_killers@.push(
                        GraveKiller::RoleKiller(Role::Jester),
                    )
                    &&& g2.players@[ti].grave matches Some(gr)
                    &&& gr.player == t
                    &&& gr.role == grave_role_shown(g1.players@[ti])
                    &&& gr.will@ == grave_will_shown(g1.players@[ti])
                    &&& gr.death_cause matches GraveDeathCause::Killers(ks)
                    &&& ks@ == seq![GraveKiller::RoleKiller(Role::Jester)]
                })
            })
        }
    }
}

/// The Jester's night action is deterministic in the state it starts from:
/// two runs from one starting game agree on who lives, who died tonight,
/// and where the injected random source stands — the fallback draw included.
pub proof fn lemma_jester_night_deterministic(
    g1: Game,
    g2: Game,
    g3: Game,
    j: Jester,
    actor: PlayerReference,
)
    requires
        actor.index < g1.players@.len(),
        jester_night_result(g1, g2, j, actor),
        jester_night_result(g1, g3, j, actor),
    ensures
        g2.players@.len() == g3.players@.len(),
        forall|i: int|
            0 <= i < g2.players@.len() ==> ((#[trigger] g2.players@[i]).alive
                == g3.players@[i].alive && g2.players@[i].night_died
                == g3.players@[i].night_died),
        g2.rng_state == g3.rng_state,
{
    let a = actor.index as int;
    let p1 = g1.players@[a];
    let raised: u8 = if g1.day_number == 1 && p1.alive && p1.defense < 2 {
        2u8
    } else {
        p1.defense
    };
    let base = g1.players@.update(a, (Player { defense: raised, ..p1 }));
    let sel = p1.selection@;
    let el = eligible_refs(g1, actor, g1.players@.len() as int);
    if p1.alive || !j.lynched_yesterday || (sel.len() == 0 && el.len() == 0) {
        assert forall|i: int|
            0 <= i < g2.players@.len() implies ((#[trigger] g2.players@[i]).alive
            == g3.players@[i].alive && g2.players@[i].night_died
            == g3.players@[i].night_died) by {}
    } else {
        let t = if sel.len() > 0 {
            sel[0]
        } else {
            el[(next_rng_spec(g1.rng_state) as int) % (el.len() as int)]
        };
        let ti = t.index as int;
        assert forall|i: int|
            0 <= i < g2.players@.len() implies ((#[trigger] g2.players@[i]).alive
            == g3.players@[i].alive && g2.players@[i].night_died
            == g3.players@[i].night_died) by {
            if i != a && i != ti {
                assert(g2.players@[i] == base[i]);
                assert(g3.players@[i] == base[i]);
            } else if i == a {
                assert(g2.players@[a] == base[a]);
                assert(g3.players@[a] == base[a]);
            } else {
                if !g1.players@[ti].alive {
                    assert(g2.players@[ti] == g1.players@[ti]);
                    assert(g3.players@[ti] == g1.players@[ti]);
                } else if g1.players@[ti].defense >= 3 {
                } else {
                    assert(!g2.players@[ti].alive && g2.players@[ti].night_died);
                    assert(!g3.players@[ti].alive && g3.players@[ti].night_died);
                }
            }
        }
    }
}

/// What the Jester's phase-start hook leaves behind: at the start of
/// FinalWords with the Jester on trial it marks itself lynched and won; at
/// the start of Obituary the lynched mark is cleared and the won flag
/// kept; any other phase leaves the game untouched.
pub open spec fn jester_phase_start_result(
    g1: Game,
    g2: Game,
    j: Jester,
    actor: PlayerReference,
) -> bool {
    let a = actor.index as int;
    match g1.phase {
        PhaseState::FinalWords { player_on_trial } => if player_on_trial == actor {
            g2.players@ == g1.players@.update(
                a,
                (Player {
                    role_state: RoleState::Jester(Jester { lynched_yesterday: true, won: true }),
                    ..g1.players@[a]
                }),
            ) && same_apart_from_players(g1, g2)
        } else {
            g2 == g1
        },
        PhaseState::Obituary => g2.players@ == g1.players@.update(
            a,
            (Player {
                role_state: RoleState::Jester(Jester { lynched_yesterday: false, won: j.won }),
                ..g1.players@[a]
            }),
        ) && same_apart_from_players(g1, g2),
        _ => g2 == g1,
    }
}

/// What the Jester's death hook leaves behind: when the Jester itself is
/// the player that died during FinalWords, the whole town is told that the
/// Jester has won; any other death leaves the game untouched.
pub open spec fn jester_death_result(
    g1: Game,
    g2: Game,
    actor: PlayerReference,
    dead: PlayerReference,
) -> bool {
    if actor == dead && g1.phase.phase_spec() == PhaseType::FinalWords {
        &&& g2.players == g1.players
        &&& g2.phase == g1.phase
        &&& g2.day_number == g1.day_number
        &&& g2.rng_state == g1.rng_state
        &&& g2.group_messages@ == g1.group_messages@.push(
            (ChatGroup::All, ChatMessageVariant::JesterWon),
        )
    } else {
        g2 == g1
    }
}

impl Jester {
    /// The dead, freshly lynched Jester may select a living player other
    /// than itself whose verdict was not Innocent, while it has no standing
    /// selection.
    pub open spec fn can_select_spec(
        self,
        g: Game,
        actor: PlayerReference,
        target: PlayerReference,
    ) -> bool {
        let a = g.players@[actor.index as int];
        let t = g.players@[target.index as int];
        actor != target && a.selection@.len() == 0 && !a.alive && t.alive && t.verdict
            != Verdict::Innocent && self.lynched_yesterday
    }

    /// Returns whether the Jester may select `target_ref` tonight.
    pub fn can_select(
        self,
        game: &Game,
        actor_ref: PlayerReference,
        target_ref: PlayerReference,
    ) -> (r: bool)
        requires
            game.valid_ref(actor_ref),
            game.valid_ref(target_ref),
        ensures
            r == self.can_select_spec(*game, actor_ref, target_ref),
    {
        actor_ref != target_ref && actor_ref.selection(game).is_empty() && !actor_ref.alive(game)
            && target_ref.alive(game) && target_ref.verdict(game) != Verdict::Innocent
            && self.lynched_yesterday
    }

    /// The Jester's win flag answers for it directly.
    pub fn get_won_game(self, _game: &Game, _actor_ref: PlayerReference) -> (r: bool)
        ensures
            r == self.won,
    {
        self.won
    }

    /// At the start of FinalWords with the Jester on trial, it marks itself
    /// lynched and won; at the start of Obituary the lynched mark is
    /// cleared. Other phases leave it untouched.
    pub fn on_phase_start(self, game: &mut Game, actor_ref: PlayerReference, _phase: PhaseType)
        requires
            old(game).valid_ref(actor_ref),
        ensures
            jester_phase_start_result(*old(game), *final(game), self, actor_ref),
            final(game).players@.len() == old(game).players@.len(),
            old(game).wf() ==> final(game).wf(),
    {
        let on_trial = match game.current_phase() {
            PhaseState::FinalWords { player_on_trial } => *player_on_trial == actor_ref,
            _ => false,
        };
        if on_trial {
            actor_ref.set_role_state(
                game,
                RoleState::Jester(Jester { lynched_yesterday: true, won: true }),
            );
        } else if matches!(game.current_phase(), PhaseState::Obituary) {
            actor_ref.set_role_state(
                game,
                RoleState::Jester(Jester { lynched_yesterday: false, won: self.won }),
            );
        }
    }

    /// When the Jester itself dies during FinalWords, the whole town learns
    /// that the Jester has won.
    pub fn on_any_death(
        self,
        game: &mut Game,
        actor_ref: PlayerReference,
        dead_player_ref: PlayerReference,
    )
        ensures
            jester_death_result(*old(game), *final(game), actor_ref, dead_player_ref),
            final(game).players@.len() == old(game).players@.len(),
            old(game).wf() ==> final(game).wf(),
    {
        if actor_ref == dead_player_ref && game.current_phase().phase() == PhaseType::FinalWords {
            game.add_message_to_chat_group(ChatGroup::All, ChatMessageVariant::JesterWon);
        }
    }

    /// Acts once, at top priority. On the first night a living Jester's defense
    /// is raised to two. A dead Jester that was lynched yesterday then
    /// kills its explicit selection at lethal strength three, or an
    /// eligible target drawn uniformly from the injected random source, or
    /// nobody when none is eligible.
    #[verifier::rlimit(100)]
    pub fn do_night_action(self, game: &mut Game, actor_ref: PlayerReference, priority: Priority)
        requires
            old(game).wf(),
            old(game).valid_ref(actor_ref),
        ensures
            priority != Priority::TopPriority ==> *final(game) == *old(game),
            priority == Priority::TopPriority ==> jester_night_result(
                *old(game),
                *final(game),
                self,
                actor_ref,
            ),
            final(game).wf(),
            final(game).players@.len() == old(game).players@.len(),
            final(game).phase == old(game).phase,
            final(game).day_number == old(game).day_number,
    {
        if priority != Priority::TopPriority {
            return ;
        }
        if game.day_number == 1 && actor_ref.alive(game) {
            actor_ref.increase_defense_to(game, 2);
        } else {
            proof {
                assert(game.players@ =~= old(game).players@.update(
                    actor_ref.index as int,
                    (Player {
                        defense: old(game).players@[actor_ref.index as int].defense,
                        ..old(game).players@[actor_ref.index as int]
                    }),
                ));
            }
        }
        if actor_ref.alive(game) {
            return ;
        }
        if !self.lynched_yesterday {
            return ;
        }
        let sel_first: Option<PlayerReference> = {
            let s = actor_ref.selection(game);
            if s.len() > 0 {
                Some(s[0])
            } else {
                None
            }
        };
        let target = match sel_first {
            Some(t) => t,
            None => {
                let eligible = jester_eligible_targets(game, actor_ref);
                proof {
                    lemma_eligible_refs_same(
                        *old(game),
                        *game,
                        actor_ref,
                        old(game).players@.len() as int,
                    );
                }
                if eligible.len() == 0 {
                    return ;
                }
                let arena_len = game.players.len();
                proof {
                    assert(arena_len as int == game.players@.len());
                    lemma_eligible_refs_bounds(*game, actor_ref, arena_len as int);
                }
                let r = next_rng(game.rng_state);
                game.rng_state = r;
                let idx = (r % (eligible.len() as u64)) as usize;
                eligible[idx]
            },
        };
        target.try_night_kill(actor_ref, game, GraveKiller::RoleKiller(Role::Jester), 3);
    }
}

} // verus!
