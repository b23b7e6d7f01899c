use mafia_engine::role::Role;
use mafia_engine::role_list::{
    create_random_roles, get_all_possible_roles, Faction, FactionAlignment, RoleListEntry,
};

#[test]
fn all_alignments_of_each_faction() {
    assert_eq!(
        Faction::Mafia.all_alignments(),
        vec![
            FactionAlignment::MafiaKilling,
            FactionAlignment::MafiaDeception,
            FactionAlignment::MafiaSupport
        ]
    );
    assert_eq!(
        Faction::Town.all_alignments(),
        vec![
            FactionAlignment::TownInvestigative,
            FactionAlignment::TownProtective,
            FactionAlignment::TownKilling,
            FactionAlignment::TownSupport
        ]
    );
    assert_eq!(Faction::Coven.all_alignments(), vec![FactionAlignment::CovenEvil]);
    assert_eq!(Faction::Neutral.all_alignments().len(), 4);
}

#[test]
fn alignment_back_to_faction() {
    assert_eq!(FactionAlignment::MafiaDeception.faction(), Faction::Mafia);
    assert_eq!(FactionAlignment::TownSupport.faction(), Faction::Town);
    assert_eq!(FactionAlignment::NeutralKilling.faction(), Faction::Neutral);
    assert_eq!(FactionAlignment::CovenEvil.faction(), Faction::Coven);
}

#[test]
fn role_catalog_is_complete_and_distinct() {
    let values = Role::values();
    assert_eq!(values.len(), 63);
    for i in 0..values.len() {
        for j in (i + 1)..values.len() {
            assert_ne!(values[i], values[j]);
        }
    }
}

#[test]
fn possible_roles_of_exact_entry() {
    let entry = RoleListEntry::Exact {
        faction: Faction::Town,
        faction_alignment: FactionAlignment::TownProtective,
        role: Role::Doctor,
    };
    assert_eq!(entry.get_possible_roles(), vec![Role::Doctor]);
}

#[test]
fn possible_roles_of_alignment_entry() {
    let entry = RoleListEntry::FactionAlignment {
        faction: Faction::Town,
        faction_alignment: FactionAlignment::TownProtective,
    };
    let roles = entry.get_possible_roles();
    assert_eq!(
        roles,
        vec![
            Role::Doctor,
            Role::Bodyguard,
            Role::Cop,
            Role::Bouncer,
            Role::Engineer,
            Role::Armorsmith
        ]
    );
}

#[test]
fn possible_roles_of_faction_entry() {
    let entry = RoleListEntry::Faction { faction: Faction::Mafia };
    let roles = entry.get_possible_roles();
    assert_eq!(roles.len(), 16);
    assert!(roles.contains(&Role::Godfather));
    assert!(roles.contains(&Role::Forger));
    assert!(!roles.contains(&Role::Doctor));
}

#[test]
fn possible_roles_of_any_entry() {
    assert_eq!(RoleListEntry::Any.get_possible_roles().len(), 63);
}

#[test]
fn random_role_of_exact_entry_is_that_role() {
    let entry = RoleListEntry::Exact {
        faction: Faction::Neutral,
        faction_alignment: FactionAlignment::NeutralEvil,
        role: Role::Jester,
    };
    for _ in 0..10 {
        assert_eq!(entry.get_random_role(), Role::Jester);
    }
}

#[test]
fn random_role_of_faction_entry_matches() {
    let entry = RoleListEntry::Faction { faction: Faction::Coven };
    for _ in 0..10 {
        let role = entry.get_random_role();
        assert!(matches!(role, Role::Apostle | Role::Disciple | Role::Zealot));
    }
}

#[test]
fn create_random_roles_fills_every_slot() {
    let list = vec![
        RoleListEntry::Exact {
            faction: Faction::Town,
            faction_alignment: FactionAlignment::TownKilling,
            role: Role::Jailor,
        },
        RoleListEntry::Faction { faction: Faction::Mafia },
        RoleListEntry::Any,
    ];
    let roles = create_random_roles(&list);
    assert_eq!(roles.len(), 3);
    assert_eq!(roles[0], Role::Jailor);
    assert_eq!(roles[1].faction(), Faction::Mafia);
}

#[test]
fn all_possible_roles_adds_jester_for_rabble_rouser() {
    let list = vec![RoleListEntry::Exact {
        faction: Faction::Neutral,
        faction_alignment: FactionAlignment::NeutralEvil,
        role: Role::RabbleRouser,
    }];
    let roles = get_all_possible_roles(&list);
    assert!(roles.contains(&Role::RabbleRouser));
    assert!(roles.contains(&Role::Jester));
    assert_eq!(roles.len(), 2);
}

#[test]
fn all_possible_roles_adds_godfather_for_mafioso() {
    let list = vec![RoleListEntry::Exact {
        faction: Faction::Mafia,
        faction_alignment: FactionAlignment::MafiaKilling,
        role: Role::Mafioso,
    }];
    let roles = get_all_possible_roles(&list);
    assert!(roles.contains(&Role::Mafioso));
    assert!(roles.contains(&Role::Godfather));
    assert_eq!(roles.len(), 2);
}

#[test]
fn all_possible_roles_adds_mafioso_for_other_mafia() {
    let list = vec![RoleListEntry::Exact {
        faction: Faction::Mafia,
        faction_alignment: FactionAlignment::MafiaDeception,
        role: Role::Forger,
    }];
    let roles = get_all_possible_roles(&list);
    assert!(roles.contains(&Role::Forger));
    assert!(roles.contains(&Role::Mafioso));
    assert!(!roles.contains(&Role::Godfather));
    assert_eq!(roles.len(), 2);
}

#[test]
fn all_possible_roles_of_town_list_adds_nothing() {
    let list = vec![RoleListEntry::Faction { faction: Faction::Town }];
    let roles = get_all_possible_roles(&list);
    assert_eq!(roles.len(), 27);
    for role in &roles {
        assert_eq!(role.faction(), Faction::Town);
    }
}
