//! The closed catalog of roles, their faction alignments, and the per-role
//! state attached to each player.

pub mod common_role;
pub mod deputy;
pub mod doomsayer;
pub mod forger;
pub mod jester;
pub mod journalist;
pub mod medium;
pub mod retributionist;

use vstd::prelude::*;
use crate::role_list::{Faction, FactionAlignment};
use crate::role::deputy::Deputy;
use crate::role::doomsayer::{Doomsayer, DoomsayerGuess};
use crate::role::forger::Forger;
use crate::role::jester::Jester;
use crate::role::journalist::Journalist;
use crate::role::medium::Medium;
use crate::role::retributionist::Retributionist;

verus! {

/// Every role a player can be assigned.
#[derive(Clone, Copy, Debug, PartialEq, Eq, Structural)]
pub enum Role {
    Jailor,

    Detective,
    Lookout,
    Spy,
    Tracker,
    Philosopher,
    Psychic,
    Auditor,
    Snoop,
    Gossip,
    FlowerGirl,

    Doctor,
    Bodyguard,
    Cop,
    Bouncer,
    Engineer,
    Armorsmith,

    Vigilante,
    Veteran,
    Marksman,
    Deputy,

    Escort,
    Medium,
    Retributionist,
    Journalist,
    Mayor,
    Transporter,

    Godfather,
    Mafioso,
    Eros,
    Counterfeiter,
    Retrainer,
    Hypnotist,
    Blackmailer,
    Informant,
    Witch,
    Necromancer,
    Consort,
    Mortician,
    Framer,
    Forger,
    Cupid,
    MafiaSupportWildcard,

    Jester,
    RabbleRouser,
    Politician,
    Doomsayer,
    Death,
    Minion,
    Scarecrow,
    Wildcard,
    TrueWildcard,
    Martyr,

    Arsonist,
    Werewolf,
    Ojo,
    Puppeteer,
    Pyrolisk,
    Kira,
    FiendsWildcard,

    Apostle,
    Disciple,
    Zealot,
}

impl Role {
    /// The alignment each role is catalogued under.
    pub open spec fn faction_alignment_spec(self) -> FactionAlignment {
        match self {
            Role::Jailor => FactionAlignment::TownKilling,

            Role::Detective | Role::Lookout | Role::Spy | Role::Tracker
            | Role::Philosopher | Role::Psychic | Role::Auditor | Role::Snoop
            | Role::Gossip | Role::FlowerGirl => FactionAlignment::TownInvestigative,

            Role::Doctor | Role::Bodyguard | Role::Cop | Role::Bouncer
            | Role::Engineer | Role::Armorsmith => FactionAlignment::TownProtective,

            Role::Vigilante | Role::Veteran | Role::Marksman | Role::Deputy =>
                FactionAlignment::TownKilling,

            Role::Escort | Role::Medium | Role::Retributionist | Role::Journalist
            | Role::Mayor | Role::Transporter => FactionAlignment::TownSupport,

            Role::Godfather | Role::Mafioso => FactionAlignment::MafiaKilling,

            Role::Counterfeiter | Role::Hypnotist | Role::Blackmailer
            | Role::Mortician | Role::Framer | Role::Forger => FactionAlignment::MafiaDeception,

            Role::Eros | Role::Retrainer | Role::Informant | Role::Witch
            | Role::Necromancer | Role::Consort | Role::Cupid
            | Role::MafiaSupportWildcard => FactionAlignment::MafiaSupport,

            Role::Jester | Role::RabbleRouser | Role::Politician | Role::Doomsayer =>
                FactionAlignment::NeutralEvil,

            Role::Death | Role::Arsonist | Role::Werewolf | Role::Ojo
            | Role::Puppeteer | Role::Pyrolisk | Role::Kira
            | Role::FiendsWildcard => FactionAlignment::NeutralKilling,

            Role::Minion | Role::Scarecrow | Role::Wildcard | Role::TrueWildcard =>
                FactionAlignment::NeutralChaos,

            Role::Martyr => FactionAlignment::NeutralBenign,

            Role::Apostle | Role::Disciple | Role::Zealot => FactionAlignment::CovenEvil,
        }
    }

    /// Returns the alignment this role is catalogued under.
    pub fn get_faction_alignment(&self) -> (r: FactionAlignment)
        ensures
            r == self.faction_alignment_spec(),
    {
        match self {
            Role::Jailor => FactionAlignment::TownKilling,

            Role::Detective | Role::Lookout | Role::Spy | Role::Tracker
            | Role::Philosopher | Role::Psychic | Role::Auditor | Role::Snoop
            | Role::Gossip | Role::FlowerGirl => FactionAlignment::TownInvestigative,

            Role::Doctor | Role::Bodyguard | Role::Cop | Role::Bouncer
            | Role::Engineer | Role::Armorsmith => FactionAlignment::TownProtective,

            Role::Vigilante | Role::Veteran | Role::Marksman | Role::Deputy =>
                FactionAlignment::TownKilling,

            Role::Escort | Role::Medium | Role::Retributionist | Role::Journalist
            | Role::Mayor | Role::Transporter => FactionAlignment::TownSupport,

            Role::Godfather | Role::Mafioso => FactionAlignment::MafiaKilling,

            Role::Counterfeiter | Role::Hypnotist | Role::Blackmailer
            | Role::Mortician | Role::Framer | Role::Forger => FactionAlignment::MafiaDeception,

            Role::Eros | Role::Retrainer | Role::Informant | Role::Witch
            | Role::Necromancer | Role::Consort | Role::Cupid
            | Role::MafiaSupportWildcard => FactionAlignment::MafiaSupport,

            Role::Jester | Role::RabbleRouser | Role::Politician | Role::Doomsayer =>
                FactionAlignment::NeutralEvil,

            Role::Death | Role::Arsonist | Role::Werewolf | Role::Ojo
            | Role::Puppeteer | Role::Pyrolisk | Role::Kira
            | Role::FiendsWildcard => FactionAlignment::NeutralKilling,

            Role::Minion | Role::Scarecrow | Role::Wildcard | Role::TrueWildcard =>
                FactionAlignment::NeutralChaos,

            Role::Martyr => FactionAlignment::NeutralBenign,

            Role::Apostle | Role::Disciple | Role::Zealot => FactionAlignment::CovenEvil,
        }
    }

    /// The full catalog, in a fixed order.
    pub open spec fn values_spec() -> Seq<Role> {
        seq![
            Role::Jailor,
            Role::Detective, Role::Lookout, Role::Spy, Role::Tracker,
            Role::Philosopher, Role::Psychic, Role::Auditor, Role::Snoop,
            Role::Gossip, Role::FlowerGirl,
            Role::Doctor, Role::Bodyguard, Role::Cop, Role::Bouncer,
            Role::Engineer, Role::Armorsmith,
            Role::Vigilante, Role::Veteran, Role::Marksman, Role::Deputy,
            Role::Escort, Role::Medium, Role::Retributionist, Role::Journalist,
            Role::Mayor, Role::Transporter,
            Role::Godfather, Role::Mafioso, Role::Eros, Role::Counterfeiter,
            Role::Retrainer, Role::Hypnotist, Role::Blackmailer, Role::Informant,
            Role::Witch, Role::Necromancer, Role::Consort, Role::Mortician,
            Role::Framer, Role::Forger, Role::Cupid, Role::MafiaSupportWildcard,
            Role::Jester, Role::RabbleRouser, Role::Politician, Role::Doomsayer,
            Role::Death, Role::Minion, Role::Scarecrow, Role::Wildcard,
            Role::TrueWildcard, Role::Martyr,
            Role::Arsonist, Role::Werewolf, Role::Ojo, Role::Puppeteer,
            Role::Pyrolisk, Role::Kira, Role::FiendsWildcard,
            Role::Apostle, Role::Disciple, Role::Zealot,
        ]
    }

    /// Every role appears in the catalog.
    pub proof fn lemma_values_complete()
        ensures
            forall|r: Role| #[trigger] Role::values_spec().contains(r),
    {
        let s = Role::values_spec();
        assert forall|r: Role| #[trigger] s.contains(r) by {
            let i = Role::catalog_index(r);
            assert(0 <= i < s.len());
            assert(s[i] == r);
        }
    }

    /// The position of a role in the catalog.
    pub open spec fn catalog_index(r: Role) -> int {
        match r {
            Role::Jailor => 0,
            Role::Detective => 1,
            Role::Lookout => 2,
            Role::Spy => 3,
            Role::Tracker => 4,
            Role::Philosopher => 5,
            Role::Psychic => 6,
            Role::Auditor => 7,
            Role::Snoop => 8,
            Role::Gossip => 9,
            Role::FlowerGirl => 10,
            Role::Doctor => 11,
            Role::Bodyguard => 12,
            Role::Cop => 13,
            Role::Bouncer => 14,
            Role::Engineer => 15,
            Role::Armorsmith => 16,
            Role::Vigilante => 17,
            Role::Veteran => 18,
            Role::Marksman => 19,
            Role::Deputy => 20,
            Role::Escort => 21,
            Role::Medium => 22,
            Role::Retributionist => 23,
            Role::Journalist => 24,
            Role::Mayor => 25,
            Role::Transporter => 26,
            Role::Godfather => 27,
            Role::Mafioso => 28,
            Role::Eros => 29,
            Role::Counterfeiter => 30,
            Role::Retrainer => 31,
            Role::Hypnotist => 32,
            Role::Blackmailer => 33,
            Role::Informant => 34,
            Role::Witch => 35,
            Role::Necromancer => 36,
            Role::Consort => 37,
            Role::Mortician => 38,
            Role::Framer => 39,
            Role::Forger => 40,
            Role::Cupid => 41,
            Role::MafiaSupportWildcard => 42,
            Role::Jester => 43,
            Role::RabbleRouser => 44,
            Role::Politician => 45,
            Role::Doomsayer => 46,
            Role::Death => 47,
            Role::Minion => 48,
            Role::Scarecrow => 49,
            Role::Wildcard => 50,
            Role::TrueWildcard => 51,
            Role::Martyr => 52,
            Role::Arsonist => 53,
            Role::Werewolf => 54,
            Role::Ojo => 55,
            Role::Puppeteer => 56,
            Role::Pyrolisk => 57,
            Role::Kira => 58,
            Role::FiendsWildcard => 59,
            Role::Apostle => 60,
            Role::Disciple => 61,
            Role::Zealot => 62,
        }
    }

    /// Lists every role, in catalog order.
    #[verifier::rlimit(50)]
    pub fn values() -> (r: Vec<Role>)
        ensures
            r@ == Role::values_spec(),
    {
        let mut v: Vec<Role> = Vec::new();
        v.push(Role::Jailor);
        v.push(Role::Detective);
        v.push(Role::Lookout);
        v.push(Role::Spy);
        v.push(Role::Tracker);
        v.push(Role::Philosopher);
        v.push(Role::Psychic);
        v.push(Role::Auditor);
        v.push(Role::Snoop);
        v.push(Role::Gossip);
        v.push(Role::FlowerGirl);
        v.push(Role::Doctor);
        v.push(Role::Bodyguard);
        v.push(Role::Cop);
        v.push(Role::Bouncer);
        v.push(Role::Engineer);
        v.push(Role::Armorsmith);
        v.push(Role::Vigilante);
        v.push(Role::Veteran);
        v.push(Role::Marksman);
        v.push(Role::Deputy);
        v.push(Role::Escort);
        v.push(Role::Medium);
        v.push(Role::Retributionist);
        v.push(Role::Journalist);
        v.push(Role::Mayor);
        v.push(Role::Transporter);
        v.push(Role::Godfather);
        v.push(Role::Mafioso);
        v.push(Role::Eros);
        v.push(Role::Counterfeiter);
        v.push(Role::Retrainer);
        v.push(Role::Hypnotist);
        v.push(Role::Blackmailer);
        v.push(Role::Informant);
        v.push(Role::Witch);
        v.push(Role::Necromancer);
        v.push(Role::Consort);
        v.push(Role::Mortician);
        v.push(Role::Framer);
        v.push(Role::Forger);
        v.push(Role::Cupid);
        v.push(Role::MafiaSupportWildcard);
        v.push(Role::Jester);
        v.push(Role::RabbleRouser);
        v.push(Role::Politician);
        v.push(Role::Doomsayer);
        v.push(Role::Death);
        v.push(Role::Minion);
        v.push(Role::Scarecrow);
        v.push(Role::Wildcard);
        v.push(Role::TrueWildcard);
        v.push(Role::Martyr);
        v.push(Role::Arsonist);
        v.push(Role::Werewolf);
        v.push(Role::Ojo);
        v.push(Role::Puppeteer);
        v.push(Role::Pyrolisk);
        v.push(Role::Kira);
        v.push(Role::FiendsWildcard);
        v.push(Role::Apostle);
        v.push(Role::Disciple);
        v.push(Role::Zealot);
        proof {
            assert(v@ =~= Role::values_spec());
        }
        v
    }

    /// The faction this role belongs to.
    pub open spec fn faction_spec(self) -> Faction {
        self.faction_alignment_spec().faction_spec()
    }

    /// Returns the faction this role belongs to.
    pub fn faction(&self) -> (r: Faction)
        ensures
            r == self.faction_spec(),
    {
        self.get_faction_alignment().faction()
    }
}

/// A stage of night-action resolution. The engine walks the stages in the
/// fixed order below; a role acts only at the stages it declares.
#[derive(Clone, Copy, Debug, PartialEq, Eq, Structural)]
pub enum Priority {
    TopPriority,
    Deception,
    Necromancy,
    Protection,
    Investigative,
    Kill,
    StealMessages,
    Cleanup,
}

impl Priority {
    /// The fixed total order of the stages.
    pub open spec fn values_spec() -> Seq<Priority> {
        seq![
            Priority::TopPriority,
            Priority::Deception,
            Priority::Necromancy,
            Priority::Protection,
            Priority::Investigative,
            Priority::Kill,
            Priority::StealMessages,
            Priority::Cleanup,
        ]
    }

    /// Lists the stages in resolution order.
    pub fn values() -> (r: Vec<Priority>)
        ensures
            r@ == Priority::values_spec(),
    {
        let mut v: Vec<Priority> = Vec::new();
        v.push(Priority::TopPriority);
        v.push(Priority::Deception);
        v.push(Priority::Necromancy);
        v.push(Priority::Protection);
        v.push(Priority::Investigative);
        v.push(Priority::Kill);
        v.push(Priority::StealMessages);
        v.push(Priority::Cleanup);
        proof {
            assert(v@ =~= Priority::values_spec());
        }
        v
    }
}

/// The one role state attached to a player. Exactly one variant is attached
/// at any time; transitions replace it wholesale.
#[derive(Clone, Debug, PartialEq)]
pub enum RoleState {
    Deputy(Deputy),
    Doomsayer(Doomsayer),
    Forger(Forger),
    Jester(Jester),
    Journalist(Journalist),
    Medium(Medium),
    Retributionist(Retributionist),
    Other(Role),
}

impl RoleState {
    /// The role this state belongs to.
    pub open spec fn role_spec(self) -> Role {
        match self {
            RoleState::Deputy(_) => Role::Deputy,
            RoleState::Doomsayer(_) => Role::Doomsayer,
            RoleState::Forger(_) => Role::Forger,
            RoleState::Jester(_) => Role::Jester,
            RoleState::Journalist(_) => Role::Journalist,
            RoleState::Medium(_) => Role::Medium,
            RoleState::Retributionist(_) => Role::Retributionist,
            RoleState::Other(r) => r,
        }
    }

    /// Returns the role this state belongs to.
    pub fn role(&self) -> (r: Role)
        ensures
            r == self.role_spec(),
    {
        match self {
            RoleState::Deputy(_) => Role::Deputy,
            RoleState::Doomsayer(_) => Role::Doomsayer,
            RoleState::Forger(_) => Role::Forger,
            RoleState::Jester(_) => Role::Jester,
            RoleState::Journalist(_) => Role::Journalist,
            RoleState::Medium(_) => Role::Medium,
            RoleState::Retributionist(_) => Role::Retributionist,
            RoleState::Other(r) => *r,
        }
    }

    /// Every player handle stored inside the state addresses the arena of
    /// `n` players.
    pub open spec fn refs_wf(self, n: int) -> bool {
        match self {
            RoleState::Doomsayer(d) => d.guesses@.len() == 3 && forall|i: int|
                0 <= i < 3 ==> #[trigger] d.guesses@[i].0.index < n,
            RoleState::Forger(f) => match f.forged_ref {
                Some(p) => p.index < n,
                None => true,
            },
            RoleState::Retributionist(r) => (forall|j: int|
                0 <= j < r.used_bodies@.len() ==> #[trigger] r.used_bodies@[j].index < n)
                && match r.currently_used_player {
                Some(p) => p.index < n,
                None => true,
            },
            RoleState::Journalist(j) => match j.interviewed_target {
                Some(p) => p.index < n,
                None => true,
            },
            RoleState::Medium(m) => match m.seanced_target {
                Some(p) => p.index < n,
                None => true,
            },
            _ => true,
        }
    }

    /// What the state of a player freshly assigned `role` holds.
    pub open spec fn initial_for(role: Role, rs: RoleState) -> bool {
        match role {
            Role::Deputy => rs == RoleState::Deputy(Deputy { bullets_remaining: 1 }),
            Role::Doomsayer => rs matches RoleState::Doomsayer(d) && d.won == false
                && d.guesses@.len() == 3 && forall|i: int|
                0 <= i < 3 ==> d.guesses@[i] == (
                    crate::player_ref::PlayerReference { index: 0 },
                    DoomsayerGuess::Neutral,
                ),
            Role::Forger => rs matches RoleState::Forger(f) && f.forges_remaining == 3
                && f.forged_ref is None && f.fake_role == Role::Jester && f.fake_will@
                == Seq::<char>::empty(),
            Role::Jester => rs == RoleState::Jester(
                Jester { lynched_yesterday: false, won: false },
            ),
            Role::Journalist => rs == RoleState::Journalist(
                Journalist { interviewed_target: None },
            ),
            Role::Medium => rs == RoleState::Medium(Medium { seanced_target: None }),
            Role::Retributionist => rs matches RoleState::Retributionist(r) && r.used_bodies@
                == Seq::<crate::player_ref::PlayerReference>::empty() && r.currently_used_player
                is None,
            _ => rs == RoleState::Other(role),
        }
    }

    /// Builds the state of a player freshly assigned `role`.
    pub fn new_for_role(role: Role) -> (rs: RoleState)
        ensures
            RoleState::initial_for(role, rs),
            rs.role_spec() == role,
    {
        match role {
            Role::Deputy => RoleState::Deputy(Deputy::default()),
            Role::Doomsayer => RoleState::Doomsayer(Doomsayer::default()),
            Role::Forger => RoleState::Forger(Forger::default()),
            Role::Jester => RoleState::Jester(Jester::default()),
            Role::Journalist => RoleState::Journalist(Journalist::default()),
            Role::Medium => RoleState::Medium(Medium::default()),
            Role::Retributionist => RoleState::Retributionist(Retributionist::default()),
            _ => RoleState::Other(role),
        }
    }
}

} // verus!
