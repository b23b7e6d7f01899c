//! Doomsayer: a Neutral evil who wins by guessing three players' role
//! categories at once, and falls back to Jester when too few targets remain.

use vstd::prelude::*;
use crate::chat::ChatMessageVariant;
use crate::game::{same_apart_from_players, Game, Player};
use crate::grave::{GraveDeathCause, GraveKiller};
use crate::phase::PhaseType;
use crate::player_ref::PlayerReference;
use crate::role::jester::Jester;
use crate::role::{Priority, Role, RoleState};

verus! {

/// Role state of the Doomsayer: three fixed (target, guess) pairs and a
/// permanent won flag.
#[derive(Clone, Copy, Debug, PartialEq)]
pub struct Doomsayer {
    pub guesses: [(PlayerReference, DoomsayerGuess); 3],
    pub won: bool,
}

impl Default for Doomsayer {
    /// A fresh Doomsayer guesses Neutral on the first player three times
    /// and has not won.
    fn default() -> (r: Self)
        ensures
            r.won == false,
            r.guesses@.len() == 3,
            forall|i: int|
                0 <= i < 3 ==> r.guesses@[i] == (
                    PlayerReference { index: 0 },
                    DoomsayerGuess::Neutral,
                ),
    {
        let g = (PlayerReference { index: 0 }, DoomsayerGuess::Neutral);
        let r = Doomsayer { guesses: [g, g, g], won: false };
        proof {
            assert(r.guesses@ =~= seq![g, g, g]);
        }
        r
    }
}

/// A category the Doomsayer can guess for a target.
#[derive(Clone, Copy, Debug, PartialEq, Eq, Structural)]
pub enum DoomsayerGuess {
    Mafia,
    Neutral,
    Fiends,
    Cult,

    Jailor,
    Doctor,
    Bodyguard,
    Cop,
    Bouncer,
    Engineer,
    Armorsmith,
    Vigilante,
    Veteran,
    Marksman,
    Deputy,
    Escort,
    Medium,
    Retributionist,
    Journalist,
    Mayor,
    Transporter,
}

impl Default for DoomsayerGuess {
    /// The default guess is Neutral.
    fn default() -> (r: Self)
        ensures
            r == DoomsayerGuess::Neutral,
    {
        DoomsayerGuess::Neutral
    }
}

impl DoomsayerGuess {
    /// The category a role falls under, where it is guessable at all.
    /// Town investigative roles and the Martyr cannot be guessed.
    pub open spec fn convert_to_guess_spec(role: Role) -> Option<DoomsayerGuess> {
        match role {
            Role::Jailor => Some(DoomsayerGuess::Jailor),

            Role::Detective | Role::Lookout | Role::Spy | Role::Tracker
            | Role::Philosopher | Role::Psychic | Role::Auditor | Role::Snoop
            | Role::Gossip | Role::FlowerGirl => None,

            Role::Doctor => Some(DoomsayerGuess::Doctor),
            Role::Bodyguard => Some(DoomsayerGuess::Bodyguard),
            Role::Cop => Some(DoomsayerGuess::Cop),
            Role::Bouncer => Some(DoomsayerGuess::Bouncer),
            Role::Engineer => Some(DoomsayerGuess::Engineer),
            Role::Armorsmith => Some(DoomsayerGuess::Armorsmith),

            Role::Vigilante => Some(DoomsayerGuess::Vigilante),
            Role::Veteran => Some(DoomsayerGuess::Veteran),
            Role::Marksman => Some(DoomsayerGuess::Marksman),
            Role::Deputy => Some(DoomsayerGuess::Deputy),

            Role::Escort => Some(DoomsayerGuess::Escort),
            Role::Medium => Some(DoomsayerGuess::Medium),
            Role::Retributionist => Some(DoomsayerGuess::Retributionist),
            Role::Journalist => Some(DoomsayerGuess::Journalist),
            Role::Mayor => Some(DoomsayerGuess::Mayor),
            Role::Transporter => Some(DoomsayerGuess::Transporter),

            Role::Godfather | Role::Mafioso | Role::Eros | Role::Counterfeiter
            | Role::Retrainer | Role::Hypnotist | Role::Blackmailer | Role::Informant
            | Role::Witch | Role::Necromancer | Role::Consort | Role::Mortician
            | Role::Framer | Role::Forger | Role::Cupid
            | Role::MafiaSupportWildcard => Some(DoomsayerGuess::Mafia),

            Role::Jester | Role::RabbleRouser | Role::Politician | Role::Doomsayer
            | Role::Death | Role::Minion | Role::Scarecrow | Role::Wildcard
            | Role::TrueWildcard => Some(DoomsayerGuess::Neutral),
            Role::Martyr => None,

            Role::Arsonist | Role::Werewolf | Role::Ojo | Role::Puppeteer
            | Role::Pyrolisk | Role::Kira | Role::FiendsWildcard => Some(DoomsayerGuess::Fiends),

            Role::Apostle | Role::Disciple | Role::Zealot => Some(DoomsayerGuess::Cult),
        }
    }

    /// Returns the category a role falls under, where it is guessable at all.
    pub fn convert_to_guess(role: Role) -> (r: Option<DoomsayerGuess>)
        ensures
            r == DoomsayerGuess::convert_to_guess_spec(role),
    {
        match role {
            Role::Jailor => Some(DoomsayerGuess::Jailor),

            Role::Detective | Role::Lookout | Role::Spy | Role::Tracker
            | Role::Philosopher | Role::Psychic | Role::Auditor | Role::Snoop
            | Role::Gossip | Role::FlowerGirl => None,

            Role::Doctor => Some(DoomsayerGuess::Doctor),
            Role::Bodyguard => Some(DoomsayerGuess::Bodyguard),
            Role::Cop => Some(DoomsayerGuess::Cop),
            Role::Bouncer => Some(DoomsayerGuess::Bouncer),
            Role::Engineer => Some(DoomsayerGuess::Engineer),
            Role::Armorsmith => Some(DoomsayerGuess::Armorsmith),

            Role::Vigilante => Some(DoomsayerGuess::Vigilante),
            Role::Veteran => Some(DoomsayerGuess::Veteran),
            Role::Marksman => Some(DoomsayerGuess::Marksman),
            Role::Deputy => Some(DoomsayerGuess::Deputy),

            Role::Escort => Some(DoomsayerGuess::Escort),
            Role::Medium => Some(DoomsayerGuess::Medium),
            Role::Retributionist => Some(DoomsayerGuess::Retributionist),
            Role::Journalist => Some(DoomsayerGuess::Journalist),
            Role::Mayor => Some(DoomsayerGuess::Mayor),
            Role::Transporter => Some(DoomsayerGuess::Transporter),

            Role::Godfather | Role::Mafioso | Role::Eros | Role::Counterfeiter
            | Role::Retrainer | Role::Hypnotist | Role::Blackmailer | Role::Informant
            | Role::Witch | Role::Necromancer | Role::Consort | Role::Mortician
            | Role::Framer | Role::Forger | Role::Cupid
            | Role::MafiaSupportWildcard => Some(DoomsayerGuess::Mafia),

            Role::Jester | Role::RabbleRouser | Role::Politician | Role::Doomsayer
            | Role::Death | Role::Minion | Role::Scarecrow | Role::Wildcard
            | Role::TrueWildcard => Some(DoomsayerGuess::Neutral),
            Role::Martyr => None,

            Role::Arsonist | Role::Werewolf | Role::Ojo | Role::Puppeteer
            | Role::Pyrolisk | Role::Kira | Role::FiendsWildcard => Some(DoomsayerGuess::Fiends),

            Role::Apostle | Role::Disciple | Role::Zealot => Some(DoomsayerGuess::Cult),
        }
    }

    /// Whether this guess names the category the role falls under.
    pub open spec fn guess_matches_role_spec(self, role: Role) -> bool {
        match DoomsayerGuess::convert_to_guess_spec(role) {
            Some(guess) => self == guess,
            None => false,
        }
    }

    /// Returns whether this guess names the category the role falls under.
    pub fn guess_matches_role(&self, role: Role) -> (r: bool)
        ensures
            r == self.guess_matches_role_spec(role),
    {
        if let Some(guess) = DoomsayerGuess::convert_to_guess(role) {
            *self == guess
        } else {
            false
        }
    }
}

/// Player `i` is a living guessable player other than the Doomsayer itself.
pub open spec fn eligible_guessable(g: Game, actor: PlayerReference, i: int) -> bool {
    let p = g.players@[i];
    p.alive && DoomsayerGuess::convert_to_guess_spec(p.role_state.role_spec()) is Some && i
        != actor.index as int
}

/// How many of the first `n` players are living guessable players other
/// than the Doomsayer itself.
pub open spec fn eligible_guessable_count(g: Game, actor: PlayerReference, n: int) -> int
    decreases n,
{
    if n <= 0 {
        0
    } else {
        eligible_guessable_count(g, actor, n - 1) + if eligible_guessable(g, actor, n - 1) {
            1int
        } else {
            0int
        }
    }
}

/// Returns how many living guessable players other than `actor_ref` remain.
fn count_eligible_guessable(game: &Game, actor_ref: PlayerReference) -> (c: usize)
    ensures
        c == eligible_guessable_count(*game, actor_ref, game.players@.len() as int),
        c <= game.players@.len(),
{
    let n = game.players.len();
    let mut c: usize = 0;
    let mut i: usize = 0;
    while i < n
        invariant
            n == game.players@.len(),
            i <= n,
            c <= i,
            c == eligible_guessable_count(*game, actor_ref, i as int),
        decreases n - i,
    {
        let pr = PlayerReference::new(i);
        if pr.alive(game) && DoomsayerGuess::convert_to_guess(pr.role(game)).is_some() && i
            != actor_ref.index() {
            c += 1;
        }
        i += 1;
    }
    c
}

/// The Doomsayer's three guesses all hold: three distinct, living targets,
/// none of them the Doomsayer itself, each guess naming the category its
/// target's true role falls under.
pub open spec fn doomsayer_wins_spec(
    g: Game,
    actor: PlayerReference,
    guesses: Seq<(PlayerReference, DoomsayerGuess)>,
) -> bool {
    let t0 = guesses[0].0;
    let t1 = guesses[1].0;
    let t2 = guesses[2].0;
    t0 != actor && t1 != actor && t2 != actor && g.players@[t0.index as int].alive
        && g.players@[t1.index as int].alive && g.players@[t2.index as int].alive
        && guesses[0].1.guess_matches_role_spec(g.players@[t0.index as int].role_state.role_spec())
        && guesses[1].1.guess_matches_role_spec(g.players@[t1.index as int].role_state.role_spec())
        && guesses[2].1.guess_matches_role_spec(g.players@[t2.index as int].role_state.role_spec())
        && t0 != t1 && t0 != t2 && t1 != t2
}

/// The Doomsayer converts: it has not won, it is alive, and fewer than
/// three eligible guessable players remain.
pub open spec fn conversion_applies(g: Game, d: Doomsayer, actor: PlayerReference) -> bool {
    !d.won && g.players@[actor.index as int].alive && eligible_guessable_count(
        g,
        actor,
        g.players@.len() as int,
    ) < 3
}

/// What a conversion check leaves behind: either the actor holds a fresh
/// Jester state and nothing else changed, or the game is untouched.
pub open spec fn conversion_result(
    g1: Game,
    g2: Game,
    d: Doomsayer,
    actor: PlayerReference,
) -> bool {
    if conversion_applies(g1, d, actor) {
        g2.players@ == g1.players@.update(
            actor.index as int,
            (Player {
                role_state: RoleState::Jester(Jester { lynched_yesterday: false, won: false }),
                ..g1.players@[actor.index as int]
            }),
        ) && same_apart_from_players(g1, g2)
    } else {
        g2 == g1
    }
}

/// What the Doomsayer's night action leaves behind, given the state it
/// started from. Off-priority, blocked, or dead, it touches nothing. With
/// its guesses wrong it only notices the failure privately. With every
/// guess right it announces the win to itself, kills each guessed target
/// and then itself at lethal strength three, and keeps its guesses with
/// the won flag set forever.
pub open spec fn doomsayer_night_result(
    g1: Game,
    g2: Game,
    d: Doomsayer,
    actor: PlayerReference,
    priority: Priority,
) -> bool {
    let a = actor.index as int;
    if priority != Priority::TopPriority {
        g2 == g1
    } else if g1.players@[a].night_blocked || !g1.players@[a].alive {
        g2 == g1
    } else if !doomsayer_wins_spec(g1, actor, d.guesses@) {
        &&& g2.players@ == g1.players@.update(
            a,
            (Player { chat_messages: g2.players@[a].chat_messages, ..g1.players@[a] }),
        )
        &&& g2.players@[a].chat_messages@ == g1.players@[a].chat_messages@.push(
            ChatMessageVariant::DoomsayerFailed,
        )
        &&& same_apart_from_players(g1, g2)
    } else {
        &&& g2.players@[a].role_state == RoleState::Doomsayer(
            Doomsayer { guesses: d.guesses, won: true },
        )
        &&& g2.players@[a].chat_messages@ == g1.players@[a].chat_messages@.push(
            ChatMessageVariant::DoomsayerWon,
        )
        &&& forall|i: int|
            0 <= i < 3 && g1.players@[(#[trigger] d.guesses@[i]).0.index as int].defense < 3
                ==> (!g2.players@[d.guesses@[i].0.index as int].alive
                && g2.players@[d.guesses@[i].0.index as int].night_died
                && g2.players@[d.guesses@[i].0.index as int].grave is Some
                && g2.players@[d.guesses@[i].0.index as int] == (Player {
                alive: false,
                night_died: true,
                night_grave_killers: g2.players@[d.guesses@[i].0.index as int].night_grave_killers,
                grave: g2.players@[d.guesses@[i].0.index as int].grave,
                ..g1.players@[d.guesses@[i].0.index as int]
            }))
        &&& forall|i: int|
            0 <= i < 3 && g1.players@[(#[trigger] d.guesses@[i]).0.index as int].defense >= 3
                ==> (g2.players@[d.guesses@[i].0.index as int] == (Player {
                night_messages: g2.players@[d.guesses@[i].0.index as int].night_messages,
                ..g1.players@[d.guesses@[i].0.index as int]
            }) && g2.players@[d.guesses@[i].0.index as int].night_messages@
                == g1.players@[d.guesses@[i].0.index as int].night_messages@.push(
                ChatMessageVariant::YouSurvivedAttack,
            ))
        &&& (g1.players@[a].defense < 3 ==> {
            &&& !g2.players@[a].alive
            &&& g2.players@[a].night_died
            &&& g2.players@[a].grave matches Some(gr)
            &&& gr.death_cause matches GraveDeathCause::Killers(ks)
            &&& ks@ == seq![GraveKiller::Suicide]
        })
        &&& (g1.players@[a].defense >= 3 ==> (g2.players@[a].alive
            && g2.players@[a].night_messages@ == g1.players@[a].night_messages@.push(
            ChatMessageVariant::YouSurvivedAttack,
        )))
        &&& forall|k: int|
            0 <= k < g1.players@.len() && k != a && k != d.guesses@[0].0.index as int && k
                != d.guesses@[1].0.index as int && k != d.guesses@[2].0.index as int
                ==> (#[trigger] g2.players@[k]) == g1.players@[k]
        &&& same_apart_from_players(g1, g2)
    }
}

impl Doomsayer {
    /// Transforms the Doomsayer into a Jester when it has not yet won, is
    /// still alive, and fewer than three eligible guessable living players
    /// remain; otherwise leaves the game untouched.
    pub fn check_and_convert_to_jester(
        game: &mut Game,
        doomsayer: Doomsayer,
        actor_ref: PlayerReference,
    )
        requires
            old(game).valid_ref(actor_ref),
        ensures
            conversion_result(*old(game), *final(game), doomsayer, actor_ref),
            old(game).wf() ==> final(game).wf(),
    {
        if !doomsayer.won && actor_ref.alive(game) {
            let c = count_eligible_guessable(game, actor_ref);
            if c < 3 {
                actor_ref.set_role(
                    game,
                    RoleState::Jester(Jester { lynched_yesterday: false, won: false }),
                );
            }
        }
    }

    /// The Doomsayer's win flag answers for it directly.
    pub fn get_won_game(self, _game: &Game, _actor_ref: PlayerReference) -> (r: bool)
        ensures
            r == self.won,
    {
        self.won
    }

    /// Runs the conversion check at every phase start.
    pub fn on_phase_start(self, game: &mut Game, actor_ref: PlayerReference, _phase: PhaseType)
        requires
            old(game).valid_ref(actor_ref),
        ensures
            conversion_result(*old(game), *final(game), self, actor_ref),
            old(game).wf() ==> final(game).wf(),
    {
        Doomsayer::check_and_convert_to_jester(game, self, actor_ref);
    }

    /// Runs the conversion check when the role is assigned.
    pub fn on_role_creation(self, game: &mut Game, actor_ref: PlayerReference)
        requires
            old(game).valid_ref(actor_ref),
        ensures
            conversion_result(*old(game), *final(game), self, actor_ref),
            old(game).wf() ==> final(game).wf(),
    {
        Doomsayer::check_and_convert_to_jester(game, self, actor_ref);
    }

    /// Runs the conversion check at every death.
    pub fn on_any_death(
        self,
        game: &mut Game,
        actor_ref: PlayerReference,
        _dead_player_ref: PlayerReference,
    )
        requires
            old(game).valid_ref(actor_ref),
        ensures
            conversion_result(*old(game), *final(game), self, actor_ref),
            old(game).wf() ==> final(game).wf(),
    {
        Doomsayer::check_and_convert_to_jester(game, self, actor_ref);
    }

    /// Evaluates the three guesses once, at top priority, unless blocked or
    /// dead. On a win the Doomsayer announces it to itself, kills all three
    /// targets and itself at lethal strength three, and marks itself won
    /// permanently; on a failure it only receives a private notice.
    #[verifier::rlimit(100)]
    pub fn do_night_action(self, game: &mut Game, actor_ref: PlayerReference, priority: Priority)
        requires
            old(game).valid_ref(actor_ref),
            forall|i: int|
                0 <= i < 3 ==> (#[trigger] self.guesses@[i]).0.index < old(game).players@.len(),
        ensures
            doomsayer_night_result(*old(game), *final(game), self, actor_ref, priority),
            final(game).players@.len() == old(game).players@.len(),
            old(game).wf() ==> final(game).wf(),
    {
        if priority != Priority::TopPriority {
            return ;
        }
        if actor_ref.night_blocked(game) {
            return ;
        }
        if !actor_ref.alive(game) {
            return ;
        }
        let g0 = self.guesses[0];
        let g1 = self.guesses[1];
        let g2 = self.guesses[2];
        let won = g0.0 != actor_ref && g1.0 != actor_ref && g2.0 != actor_ref && g0.0.alive(game)
            && g1.0.alive(game) && g2.0.alive(game) && g0.1.guess_matches_role(g0.0.role(game))
            && g1.1.guess_matches_role(g1.0.role(game)) && g2.1.guess_matches_role(
            g2.0.role(game),
        ) && g0.0 != g1.0 && g0.0 != g2.0 && g1.0 != g2.0;
        proof {
            assert(won == doomsayer_wins_spec(*game, actor_ref, self.guesses@));
        }
        if won {
            actor_ref.add_private_chat_message(game, ChatMessageVariant::DoomsayerWon);
            g0.0.try_night_kill(
                actor_ref,
                game,
                GraveKiller::RoleKiller(Role::Doomsayer),
                3,
            );
            g1.0.try_night_kill(
                actor_ref,
                game,
                GraveKiller::RoleKiller(Role::Doomsayer),
                3,
            );
            g2.0.try_night_kill(
                actor_ref,
                game,
                GraveKiller::RoleKiller(Role::Doomsayer),
                3,
            );
            actor_ref.try_night_kill(actor_ref, game, GraveKiller::Suicide, 3);
            actor_ref.set_role_state(
                game,
                RoleState::Doomsayer(Doomsayer { guesses: self.guesses, won: true }),
            );
        } else {
            actor_ref.add_private_chat_message(game, ChatMessageVariant::DoomsayerFailed);
        }
    }
}

} // verus!
