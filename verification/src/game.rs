//! Shared game state: the player arena, the current phase, and the group
//! chat log. All role logic reads and writes players through the accessor
//! surface defined here.

use vstd::prelude::*;
use crate::chat::{ChatGroup, ChatMessageVariant};
use crate::grave::{Grave, GraveDeathCause, GraveKiller};
use crate::phase::PhaseState;
use crate::player_ref::PlayerReference;
use crate::role::{Role, RoleState};
use crate::verdict::Verdict;
use crate::visit::Visit;

verus! {

/// Everything the game tracks about one player.
#[derive(Clone, Debug, PartialEq)]
pub struct Player {
    pub alive: bool,
    pub role_state: RoleState,
    pub defense: u8,
    pub will: String,
    pub verdict: Verdict,
    pub selection: Vec<PlayerReference>,
    pub night_visits: Vec<Visit>,
    pub night_jailed: bool,
    pub night_silenced: bool,
    pub night_blocked: bool,
    pub night_died: bool,
    pub night_grave_role: Option<Role>,
    pub night_grave_will: Option<String>,
    pub night_grave_killers: Vec<GraveKiller>,
    pub night_messages: Vec<ChatMessageVariant>,
    pub chat_messages: Vec<ChatMessageVariant>,
    pub grave: Option<Grave>,
}

/// `p` with its role state replaced wholesale.
pub open spec fn with_role_state(p: Player, rs: RoleState) -> Player {
    Player { role_state: rs, ..p }
}

impl Player {
    /// Every player handle this player stores addresses an arena of `n`.
    pub open spec fn refs_wf(self, n: int) -> bool {
        (forall|j: int|
            0 <= j < self.selection@.len() ==> #[trigger] self.selection@[j].index < n)
            && (forall|j: int|
            0 <= j < self.night_visits@.len() ==> #[trigger] self.night_visits@[j].target.index
                < n) && self.role_state.refs_wf(n)
    }

    /// A freshly created player assigned `role`: alive, defenseless, with an
    /// empty will, no selections, no visits, no night flags, and no grave.
    pub fn new(role: Role) -> (p: Player)
        ensures
            p.alive == true,
            RoleState::initial_for(role, p.role_state),
            p.defense == 0,
            p.will@ == Seq::<char>::empty(),
            p.verdict == Verdict::Abstain,
            p.selection@ == Seq::<PlayerReference>::empty(),
            p.night_visits@ == Seq::<Visit>::empty(),
            p.night_jailed == false,
            p.night_silenced == false,
            p.night_blocked == false,
            p.night_died == false,
            p.night_grave_role is None,
            p.night_grave_will is None,
            p.night_grave_killers@ == Seq::<GraveKiller>::empty(),
            p.night_messages@ == Seq::<ChatMessageVariant>::empty(),
            p.chat_messages@ == Seq::<ChatMessageVariant>::empty(),
            p.grave is None,
    {
        Player {
            alive: true,
            role_state: RoleState::new_for_role(role),
            defense: 0,
            will: String::new(),
            verdict: Verdict::Abstain,
            selection: Vec::new(),
            night_visits: Vec::new(),
            night_jailed: false,
            night_silenced: false,
            night_blocked: false,
            night_died: false,
            night_grave_role: None,
            night_grave_will: None,
            night_grave_killers: Vec::new(),
            night_messages: Vec::new(),
            chat_messages: Vec::new(),
            grave: None,
        }
    }
}

/// The two games agree on everything but the player arena.
pub open spec fn same_apart_from_players(a: Game, b: Game) -> bool {
    a.phase == b.phase && a.day_number == b.day_number && a.group_messages == b.group_messages
        && a.rng_state == b.rng_state
}

/// Replacing one player by a well-formed one keeps the game well-formed.
pub proof fn lemma_wf_after_update(g1: Game, g2: Game, i: int, p: Player)
    requires
        g1.wf(),
        0 <= i < g1.players@.len(),
        g2.players@ == g1.players@.update(i, p),
        p.refs_wf(g1.players@.len() as int),
        g2.phase == g1.phase,
    ensures
        g2.wf(),
{
    assert(g2.players@.len() == g1.players@.len());
    assert forall|k: int|
        0 <= k < g2.players@.len() implies (#[trigger] g2.players@[k]).refs_wf(
        g2.players@.len() as int,
    ) by {
        if k == i {
            assert(g2.players@[k] == p);
        } else {
            assert(g2.players@[k] == g1.players@[k]);
        }
    }
}

/// One game's shared state, mutated synchronously by exactly one control flow.
#[derive(Clone, Debug, PartialEq)]
pub struct Game {
    pub players: Vec<Player>,
    pub phase: PhaseState,
    pub day_number: u8,
    pub group_messages: Vec<(ChatGroup, ChatMessageVariant)>,
    /// The injected random-choice source: a seedable generator state, walked
    /// deterministically whenever a uniform choice is drawn, so that a full
    /// resolution pass is reproducible from the seed.
    pub rng_state: u64,
}

impl Game {
    /// A handle addresses this game's arena.
    pub open spec fn valid_ref(self, p: PlayerReference) -> bool {
        p.index < self.players@.len()
    }

    /// The phase payload addresses this game's arena.
    pub open spec fn phase_refs_wf(self) -> bool {
        match self.phase {
            PhaseState::Testimony { player_on_trial } => self.valid_ref(player_on_trial),
            PhaseState::FinalWords { player_on_trial } => self.valid_ref(player_on_trial),
            _ => true,
        }
    }

    /// Every player handle stored anywhere in the game addresses the arena.
    pub open spec fn wf(self) -> bool {
        (forall|i: int|
            0 <= i < self.players@.len() ==> (#[trigger] self.players@[i]).refs_wf(
                self.players@.len() as int,
            )) && self.phase_refs_wf()
    }

    /// Starts a game: one player per role, at the Briefing phase of day one,
    /// with the random-choice source seeded as given.
    pub fn new(roles: &Vec<Role>, rng_seed: u64) -> (g: Game)
        ensures
            g.rng_state == rng_seed,
            g.players@.len() == roles@.len(),
            forall|i: int|
                0 <= i < roles@.len() ==> RoleState::initial_for(
                    roles@[i],
                    (#[trigger] g.players@[i]).role_state,
                ),
            forall|i: int| 0 <= i < roles@.len() ==> (#[trigger] g.players@[i]).alive == true,
            g.phase == PhaseState::Briefing,
            g.day_number == 1,
            g.group_messages@ == Seq::<(ChatGroup, ChatMessageVariant)>::empty(),
            g.wf(),
    {
        let mut players: Vec<Player> = Vec::new();
        let mut i: usize = 0;
        while i < roles.len()
            invariant
                i <= roles@.len(),
                players@.len() == i,
                forall|k: int|
                    0 <= k < i ==> RoleState::initial_for(
                        roles@[k],
                        (#[trigger] players@[k]).role_state,
                    ),
                forall|k: int| 0 <= k < i ==> (#[trigger] players@[k]).alive == true,
                forall|k: int|
                    0 <= k < i ==> (#[trigger] players@[k]).refs_wf(
                        if roles@.len() > 0 {
                            roles@.len() as int
                        } else {
                            0
                        },
                    ),
            decreases roles@.len() - i,
        {
            players.push(Player::new(roles[i]));
            proof {
                let k = i as int;
                let n: int = if roles@.len() > 0 {
                    roles@.len() as int
                } else {
                    0
                };
                assert(players@[k].selection@.len() == 0);
                assert(players@[k].night_visits@.len() == 0);
                assert(RoleState::initial_for(roles@[k], players@[k].role_state));
                assert(players@[k].role_state.refs_wf(n)) by {
                    if roles@.len() > 0 {
                        assert(n >= 1);
                    }
                }
            }
            i += 1;
        }
        Game {
            players,
            phase: PhaseState::Briefing,
            day_number: 1,
            group_messages: Vec::new(),
            rng_state: rng_seed,
        }
    }

    /// Returns the current phase.
    pub fn current_phase(&self) -> (r: &PhaseState)
        ensures
            *r == self.phase,
    {
        &self.phase
    }

    /// Delivers a message to every member of a chat group by appending it to
    /// the game's group chat log.
    pub fn add_message_to_chat_group(&mut self, group: ChatGroup, message: ChatMessageVariant)
        ensures
            final(self).players == old(self).players,
            final(self).phase == old(self).phase,
            final(self).day_number == old(self).day_number,
            final(self).rng_state == old(self).rng_state,
            final(self).group_messages@ == old(self).group_messages@.push((group, message)),
            old(self).wf() ==> final(self).wf(),
    {
        self.group_messages.push((group, message));
    }
}

} // verus!
