//! Factions, faction alignments, and role-list entries used to plan a game.

use vstd::prelude::*;
use crate::role::Role;
use crate::rng::pick_index;

verus! {

/// A top-level team a role belongs to.
#[derive(Clone, Copy, Debug, PartialEq, Eq, Structural)]
pub enum Faction {
    Mafia,
    Town,
    Neutral,
    Coven,
}

/// A sub-category within a faction grouping roles by functional archetype.
#[derive(Clone, Copy, Debug, PartialEq, Eq, Structural)]
pub enum FactionAlignment {
    MafiaKilling,
    MafiaDeception,
    MafiaSupport,

    TownInvestigative,
    TownProtective,
    TownKilling,
    TownSupport,

    NeutralEvil,
    NeutralKilling,
    NeutralBenign,
    NeutralChaos,

    CovenEvil,
}

impl Faction {
    /// The alignments that belong to this faction, in a fixed order.
    pub open spec fn alignments_spec(self) -> Seq<FactionAlignment> {
        match self {
            Faction::Mafia => seq![
                FactionAlignment::MafiaKilling,
                FactionAlignment::MafiaDeception,
                FactionAlignment::MafiaSupport,
            ],
            Faction::Town => seq![
                FactionAlignment::TownInvestigative,
                FactionAlignment::TownProtective,
                FactionAlignment::TownKilling,
                FactionAlignment::TownSupport,
            ],
            Faction::Neutral => seq![
                FactionAlignment::NeutralEvil,
                FactionAlignment::NeutralKilling,
                FactionAlignment::NeutralChaos,
                FactionAlignment::NeutralBenign,
            ],
            Faction::Coven => seq![FactionAlignment::CovenEvil],
        }
    }

    /// Lists every alignment of this faction.
    pub fn all_alignments(&self) -> (r: Vec<FactionAlignment>)
        ensures
            r@ == self.alignments_spec(),
    {
        let mut r: Vec<FactionAlignment> = Vec::new();
        match self {
            Faction::Mafia => {
                r.push(FactionAlignment::MafiaKilling);
                r.push(FactionAlignment::MafiaDeception);
                r.push(FactionAlignment::MafiaSupport);
            }
            Faction::Town => {
                r.push(FactionAlignment::TownInvestigative);
                r.push(FactionAlignment::TownProtective);
                r.push(FactionAlignment::TownKilling);
                r.push(FactionAlignment::TownSupport);
            }
            Faction::Neutral => {
                r.push(FactionAlignment::NeutralEvil);
                r.push(FactionAlignment::NeutralKilling);
                r.push(FactionAlignment::NeutralChaos);
                r.push(FactionAlignment::NeutralBenign);
            }
            Faction::Coven => {
                r.push(FactionAlignment::CovenEvil);
            }
        }
        proof {
            assert(r@ =~= self.alignments_spec());
        }
        r
    }
}

impl FactionAlignment {
    /// The faction an alignment belongs to.
    pub open spec fn faction_spec(self) -> Faction {
        match self {
            FactionAlignment::MafiaKilling
            | FactionAlignment::MafiaDeception
            | FactionAlignment::MafiaSupport => Faction::Mafia,
            FactionAlignment::TownInvestigative
            | FactionAlignment::TownProtective
            | FactionAlignment::TownKilling
            | FactionAlignment::TownSupport => Faction::Town,
            FactionAlignment::NeutralEvil
            | FactionAlignment::NeutralKilling
            | FactionAlignment::NeutralBenign
            | FactionAlignment::NeutralChaos => Faction::Neutral,
            FactionAlignment::CovenEvil => Faction::Coven,
        }
    }

    /// Returns the faction this alignment belongs to.
    pub fn faction(&self) -> (r: Faction)
        ensures
            r == self.faction_spec(),
    {
        match self {
            FactionAlignment::MafiaKilling
            | FactionAlignment::MafiaDeception
            | FactionAlignment::MafiaSupport => Faction::Mafia,
            FactionAlignment::TownInvestigative
            | FactionAlignment::TownProtective
            | FactionAlignment::TownKilling
            | FactionAlignment::TownSupport => Faction::Town,
            FactionAlignment::NeutralEvil
            | FactionAlignment::NeutralKilling
            | FactionAlignment::NeutralBenign
            | FactionAlignment::NeutralChaos => Faction::Neutral,
            FactionAlignment::CovenEvil => Faction::Coven,
        }
    }
}

/// One slot of a role list: how the slot's role is drawn at game start.
#[derive(Clone, Debug, PartialEq, Eq, Structural)]
pub enum RoleListEntry {
    Exact { faction: Faction, faction_alignment: FactionAlignment, role: Role },
    FactionAlignment { faction: Faction, faction_alignment: FactionAlignment },
    Faction { faction: Faction },
    Any,
}

/// A whole game's worth of slots.
pub type RoleList = Vec<RoleListEntry>;

impl RoleListEntry {
    /// Whether a role can fill this slot.
    pub open spec fn matches_spec(self, r: Role) -> bool {
        match self {
            RoleListEntry::Exact { role, .. } => r == role,
            RoleListEntry::FactionAlignment { faction_alignment, .. } =>
                r.faction_alignment_spec() == faction_alignment,
            RoleListEntry::Faction { faction } => r.faction_spec() == faction,
            RoleListEntry::Any => true,
        }
    }

    /// Returns whether a role can fill this slot.
    pub fn matches_entry(&self, r: Role) -> (b: bool)
        ensures
            b == self.matches_spec(r),
    {
        match self {
            RoleListEntry::Exact { role, .. } => *role == r,
            RoleListEntry::FactionAlignment { faction_alignment, .. } =>
                r.get_faction_alignment() == *faction_alignment,
            RoleListEntry::Faction { faction } => r.get_faction_alignment().faction() == *faction,
            RoleListEntry::Any => true,
        }
    }

    /// Lists every role that can fill this slot, in catalog order, each at
    /// most once.
    pub fn get_possible_roles(&self) -> (out: Vec<Role>)
        ensures
            forall|r: Role| #[trigger] out@.contains(r) <==> self.matches_spec(r),
            out@.no_duplicates(),
    {
        let values = Role::values();
        let mut out: Vec<Role> = Vec::new();
        let mut i: usize = 0;
        while i < values.len()
            invariant
                values@ == Role::values_spec(),
                i <= values@.len(),
                forall|r: Role| #[trigger] out@.contains(r) ==> self.matches_spec(r),
                forall|k: int|
                    0 <= k < i && self.matches_spec(#[trigger] values@[k]) ==> out@.contains(
                        values@[k],
                    ),
                out@.no_duplicates(),
            decreases values@.len() - i,
        {
            let role = values[i];
            if self.matches_entry(role) && !contains_role(&out, role) {
                let ghost old_out = out@;
                out.push(role);
                proof {
                    lemma_role_push_distinct(old_out, role);
                }
            }
            i += 1;
        }
        proof {
            Role::lemma_values_complete();
            assert forall|r: Role| #[trigger] out@.contains(r) <==> self.matches_spec(r) by {
                if self.matches_spec(r) {
                    assert(Role::values_spec().contains(r));
                    let k = choose|k: int|
                        0 <= k < Role::values_spec().len() && Role::values_spec()[k] == r;
                    assert(self.matches_spec(values@[k]));
                }
            }
        }
        out
    }

    /// Draws a role that can fill this slot, uniformly among the candidates.
    /// A slot no role can fill falls back to a draw from the whole catalog.
    pub fn get_random_role(&self) -> (r: Role)
        ensures
            (exists|x: Role| self.matches_spec(x)) ==> self.matches_spec(r),
    {
        let roles = self.get_possible_roles();
        if roles.len() > 0 {
            let i = pick_index(roles.len());
            let r = roles[i];
            proof {
                assert(roles@.contains(r));
            }
            r
        } else {
            proof {
                assert forall|x: Role| !self.matches_spec(x) by {
                    assert(!roles@.contains(x));
                }
            }
            let all = Role::values();
            let i = pick_index(all.len());
            all[i]
        }
    }
}

/// Returns whether `r` occurs in `v`.
fn contains_role(v: &Vec<Role>, r: Role) -> (b: bool)
    ensures
        b == v@.contains(r),
{
    let mut i: usize = 0;
    while i < v.len()
        invariant
            i <= v@.len(),
            forall|k: int| 0 <= k < i ==> v@[k] != r,
        decreases v@.len() - i,
    {
        if v[i] == r {
            return true;
        }
        i += 1;
    }
    false
}

/// Pushing a role a list lacks keeps membership exact and keeps the list
/// duplicate-free.
proof fn lemma_role_push_distinct(s: Seq<Role>, x: Role)
    requires
        s.no_duplicates(),
        !s.contains(x),
    ensures
        s.push(x).no_duplicates(),
        forall|r: Role| #[trigger] s.push(x).contains(r) <==> (s.contains(r) || r == x),
{
    let t = s.push(x);
    assert forall|i: int, j: int|
        0 <= i < t.len() && 0 <= j < t.len() && i != j implies t[i] != t[j] by {
        if i < s.len() && j < s.len() {
        } else if i < s.len() {
            assert(t[i] == s[i]);
            assert(s.contains(s[i]));
        } else if j < s.len() {
            assert(t[j] == s[j]);
            assert(s.contains(s[j]));
        }
    }
    assert forall|r: Role| #[trigger] t.contains(r) <==> (s.contains(r) || r == x) by {
        if t.contains(r) {
            let j = choose|j: int| 0 <= j < t.len() && t[j] == r;
            if j < s.len() {
                assert(s[j] == r);
                assert(s.contains(r));
            }
        }
        if s.contains(r) {
            let j = choose|j: int| 0 <= j < s.len() && s[j] == r;
            assert(t[j] == r);
        }
        if r == x {
            assert(t[t.len() - 1] == r);
        }
    }
}

/// Whether some slot of the list can be filled by `r`.
pub open spec fn base_possible(list: Seq<RoleListEntry>, r: Role) -> bool {
    exists|i: int| 0 <= i < list.len() && #[trigger] list[i].matches_spec(r)
}

/// Returns whether some slot of the list can be filled by `r`.
fn list_matches(role_list: &RoleList, r: Role) -> (b: bool)
    ensures
        b == base_possible(role_list@, r),
{
    let mut i: usize = 0;
    while i < role_list.len()
        invariant
            i <= role_list@.len(),
            forall|k: int| 0 <= k < i ==> !(#[trigger] role_list@[k].matches_spec(r)),
        decreases role_list@.len() - i,
    {
        if role_list[i].matches_entry(r) {
            return true;
        }
        i += 1;
    }
    false
}

/// Whether the list could field a Mafia role other than the Godfather.
pub open spec fn mafia_besides_godfather_possible(list: Seq<RoleListEntry>) -> bool {
    exists|m: Role|
        #[trigger] base_possible(list, m) && m.faction_spec() == Faction::Mafia && m
            != Role::Godfather
}

/// Returns whether the list could field a Mafia role other than the Godfather.
fn any_mafia_besides_godfather(role_list: &RoleList) -> (b: bool)
    ensures
        b == mafia_besides_godfather_possible(role_list@),
{
    let values = Role::values();
    let mut i: usize = 0;
    while i < values.len()
        invariant
            values@ == Role::values_spec(),
            i <= values@.len(),
            forall|k: int|
                0 <= k < i ==> !(base_possible(role_list@, #[trigger] values@[k])
                    && values@[k].faction_spec() == Faction::Mafia && values@[k]
                    != Role::Godfather),
        decreases values@.len() - i,
    {
        let m = values[i];
        if list_matches(role_list, m) && m != Role::Godfather && m.faction() == Faction::Mafia {
            return true;
        }
        i += 1;
    }
    proof {
        Role::lemma_values_complete();
        assert forall|m: Role|
            #[trigger] base_possible(role_list@, m) implies !(m.faction_spec() == Faction::Mafia
            && m != Role::Godfather) by {
            let k = choose|k: int|
                0 <= k < Role::values_spec().len() && Role::values_spec()[k] == m;
            assert(values@[k] == m);
        }
    }
    false
}

/// Which roles can appear in a game planned from this list. Beyond the roles
/// the slots themselves can field, three follow-on roles are included:
/// a possible RabbleRouser brings the Jester (its target role on conversion),
/// a possible Mafioso brings the Godfather (promotion), and any possible
/// Mafia role besides the Godfather brings the Mafioso (succession).
pub open spec fn all_possible_spec(list: Seq<RoleListEntry>, r: Role) -> bool {
    base_possible(list, r) || (r == Role::Jester && base_possible(list, Role::RabbleRouser)) || (r
        == Role::Godfather && base_possible(list, Role::Mafioso)) || (r == Role::Mafioso
        && mafia_besides_godfather_possible(list))
}

/// Lists every role that can appear in a game planned from this list,
/// in catalog order, each at most once.
pub fn get_all_possible_roles(role_list: &RoleList) -> (out: Vec<Role>)
    ensures
        forall|r: Role| #[trigger] out@.contains(r) <==> all_possible_spec(role_list@, r),
        out@.no_duplicates(),
{
    let jester_extra = list_matches(role_list, Role::RabbleRouser);
    let godfather_extra = list_matches(role_list, Role::Mafioso);
    let mafioso_extra = any_mafia_besides_godfather(role_list);

    let values = Role::values();
    let mut out: Vec<Role> = Vec::new();
    let mut i: usize = 0;
    while i < values.len()
        invariant
            values@ == Role::values_spec(),
            i <= values@.len(),
            jester_extra == base_possible(role_list@, Role::RabbleRouser),
            godfather_extra == base_possible(role_list@, Role::Mafioso),
            mafioso_extra == mafia_besides_godfather_possible(role_list@),
            forall|r: Role| #[trigger] out@.contains(r) ==> all_possible_spec(role_list@, r),
            forall|k: int|
                0 <= k < i && all_possible_spec(role_list@, #[trigger] values@[k])
                    ==> out@.contains(values@[k]),
            out@.no_duplicates(),
        decreases values@.len() - i,
    {
        let role = values[i];
        let take = list_matches(role_list, role) || (jester_extra && matches!(role, Role::Jester))
            || (godfather_extra && matches!(role, Role::Godfather)) || (mafioso_extra && matches!(
            role,
            Role::Mafioso,
        ));
        if take && !contains_role(&out, role) {
            let ghost old_out = out@;
            out.push(role);
            proof {
                lemma_role_push_distinct(old_out, role);
            }
        }
        i += 1;
    }
    proof {
        Role::lemma_values_complete();
        assert forall|r: Role| all_possible_spec(role_list@, r) implies #[trigger] out@.contains(
            r,
        ) by {
            let k = choose|k: int|
                0 <= k < Role::values_spec().len() && Role::values_spec()[k] == r;
            assert(all_possible_spec(role_list@, values@[k]));
        }
    }
    out
}

/// Draws one role for every slot of a role list.
pub fn create_random_roles(role_list: &RoleList) -> (out: Vec<Role>)
    ensures
        out@.len() == role_list@.len(),
        forall|i: int|
            #![auto]
            0 <= i < role_list@.len() ==> ((exists|x: Role| role_list@[i].matches_spec(x))
                ==> role_list@[i].matches_spec(out@[i])),
{
    let mut out: Vec<Role> = Vec::new();
    let mut i: usize = 0;
    while i < role_list.len()
        invariant
            i <= role_list@.len(),
            out@.len() == i,
            forall|k: int|
                #![auto]
                0 <= k < i ==> ((exists|x: Role| role_list@[k].matches_spec(x))
                    ==> role_list@[k].matches_spec(out@[k])),
        decreases role_list@.len() - i,
    {
        out.push(role_list[i].get_random_role());
        i += 1;
    }
    out
}

} // verus!
