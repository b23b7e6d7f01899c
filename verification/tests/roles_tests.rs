use mafia_engine::chat::{ChatGroup, ChatMessageVariant};
use mafia_engine::dispatch::{can_night_select_for, do_day_action, do_night_action};
use mafia_engine::game::Game;
use mafia_engine::grave::{GraveDeathCause, GraveKiller};
use mafia_engine::phase::{PhaseState, PhaseType};
use mafia_engine::player_ref::PlayerReference;
use mafia_engine::role::deputy::Deputy;
use mafia_engine::role::doomsayer::{Doomsayer, DoomsayerGuess};
use mafia_engine::role::forger::Forger;
use mafia_engine::role::jester::Jester;
use mafia_engine::role::retributionist::Retributionist;
use mafia_engine::role::{Priority, Role, RoleState};
use mafia_engine::verdict::Verdict;
use mafia_engine::visit::Visit;

fn pr(i: usize) -> PlayerReference {
    PlayerReference::new(i)
}

fn night_game(roles: Vec<Role>) -> Game {
    let mut game = Game::new(&roles, 11);
    game.phase = PhaseState::Night;
    game
}

#[test]
fn guess_table_matches_catalog() {
    assert_eq!(DoomsayerGuess::convert_to_guess(Role::Godfather), Some(DoomsayerGuess::Mafia));
    assert_eq!(DoomsayerGuess::convert_to_guess(Role::Apostle), Some(DoomsayerGuess::Cult));
    assert_eq!(DoomsayerGuess::convert_to_guess(Role::Arsonist), Some(DoomsayerGuess::Fiends));
    assert_eq!(DoomsayerGuess::convert_to_guess(Role::Jester), Some(DoomsayerGuess::Neutral));
    assert_eq!(DoomsayerGuess::convert_to_guess(Role::Doctor), Some(DoomsayerGuess::Doctor));
    assert_eq!(DoomsayerGuess::convert_to_guess(Role::Detective), None);
    assert_eq!(DoomsayerGuess::convert_to_guess(Role::Martyr), None);
    assert!(DoomsayerGuess::Mafia.guess_matches_role(Role::Forger));
    assert!(!DoomsayerGuess::Mafia.guess_matches_role(Role::Doctor));
    assert!(!DoomsayerGuess::Jailor.guess_matches_role(Role::Detective));
}

fn doomsayer_game() -> Game {
    let mut game = night_game(vec![
        Role::Doomsayer,
        Role::Godfather,
        Role::Apostle,
        Role::Arsonist,
        Role::Doctor,
    ]);
    game.players[0].role_state = RoleState::Doomsayer(Doomsayer {
        guesses: [
            (pr(1), DoomsayerGuess::Mafia),
            (pr(2), DoomsayerGuess::Cult),
            (pr(3), DoomsayerGuess::Fiends),
        ],
        won: false,
    });
    game
}

#[test]
fn doomsayer_wins_on_three_correct_guesses() {
    let mut game = doomsayer_game();
    do_night_action(&mut game, pr(0), Priority::TopPriority);
    for i in 1..4 {
        assert!(!game.players[i].alive);
        assert!(game.players[i].night_died);
        let grave = game.players[i].grave.as_ref().unwrap();
        assert_eq!(
            grave.death_cause,
            GraveDeathCause::Killers(vec![GraveKiller::RoleKiller(Role::Doomsayer)])
        );
    }
    assert!(!game.players[0].alive);
    let own_grave = game.players[0].grave.as_ref().unwrap();
    assert_eq!(own_grave.death_cause, GraveDeathCause::Killers(vec![GraveKiller::Suicide]));
    match &game.players[0].role_state {
        RoleState::Doomsayer(d) => assert!(d.won),
        other => panic!("unexpected role state {:?}", other),
    }
    assert!(game.players[0].chat_messages.contains(&ChatMessageVariant::DoomsayerWon));
    assert!(game.players[4].alive);
}

#[test]
fn doomsayer_fails_on_one_wrong_guess() {
    let mut game = doomsayer_game();
    game.players[0].role_state = RoleState::Doomsayer(Doomsayer {
        guesses: [
            (pr(1), DoomsayerGuess::Mafia),
            (pr(2), DoomsayerGuess::Fiends),
            (pr(3), DoomsayerGuess::Fiends),
        ],
        won: false,
    });
    do_night_action(&mut game, pr(0), Priority::TopPriority);
    for i in 0..5 {
        assert!(game.players[i].alive);
    }
    assert!(game.players[0].chat_messages.contains(&ChatMessageVariant::DoomsayerFailed));
}

#[test]
fn doomsayer_fails_on_repeated_target() {
    let mut game = doomsayer_game();
    game.players[0].role_state = RoleState::Doomsayer(Doomsayer {
        guesses: [
            (pr(1), DoomsayerGuess::Mafia),
            (pr(1), DoomsayerGuess::Mafia),
            (pr(3), DoomsayerGuess::Fiends),
        ],
        won: false,
    });
    do_night_action(&mut game, pr(0), Priority::TopPriority);
    assert!(game.players[1].alive);
    assert!(game.players[0].chat_messages.contains(&ChatMessageVariant::DoomsayerFailed));
}

#[test]
fn doomsayer_converts_when_too_few_guessable_players_remain() {
    let mut game = doomsayer_game();
    for i in 1..4 {
        game.players[i].alive = false;
    }
    // alive besides the Doomsayer: only the Doctor
    let state = match &game.players[0].role_state {
        RoleState::Doomsayer(d) => *d,
        _ => unreachable!(),
    };
    Doomsayer::check_and_convert_to_jester(&mut game, state, pr(0));
    assert_eq!(
        game.players[0].role_state,
        RoleState::Jester(Jester { lynched_yesterday: false, won: false })
    );
}

#[test]
fn doomsayer_stays_with_three_guessable_players() {
    let mut game = doomsayer_game();
    game.players[4].alive = false;
    let state = match &game.players[0].role_state {
        RoleState::Doomsayer(d) => *d,
        _ => unreachable!(),
    };
    Doomsayer::check_and_convert_to_jester(&mut game, state, pr(0));
    assert!(matches!(game.players[0].role_state, RoleState::Doomsayer(_)));
}

fn lynched_jester_game() -> Game {
    let mut game = night_game(vec![Role::Jester, Role::Doctor, Role::Escort, Role::Godfather]);
    game.day_number = 2;
    game.players[0].alive = false;
    game.players[0].role_state = RoleState::Jester(Jester { lynched_yesterday: true, won: true });
    game.players[1].verdict = Verdict::Innocent;
    game.players[2].verdict = Verdict::Guilty;
    game.players[3].verdict = Verdict::Abstain;
    game
}

#[test]
fn jester_selection_rules() {
    let game = lynched_jester_game();
    let state = Jester { lynched_yesterday: true, won: true };
    // an Innocent voter cannot be selected
    assert!(!state.can_select(&game, pr(0), pr(1)));
    assert!(state.can_select(&game, pr(0), pr(2)));
    assert!(state.can_select(&game, pr(0), pr(3)));
    // a living Jester cannot select
    let mut alive_game = lynched_jester_game();
    alive_game.players[0].alive = true;
    assert!(!state.can_select(&alive_game, pr(0), pr(2)));
    // without the lynched mark nothing is selectable
    let unlynched = Jester { lynched_yesterday: false, won: false };
    assert!(!unlynched.can_select(&game, pr(0), pr(2)));
}

#[test]
fn dead_lynched_jester_kills_its_selection() {
    let mut game = lynched_jester_game();
    game.players[0].selection = vec![pr(2)];
    do_night_action(&mut game, pr(0), Priority::TopPriority);
    assert!(!game.players[2].alive);
    let grave = game.players[2].grave.as_ref().unwrap();
    assert_eq!(
        grave.death_cause,
        GraveDeathCause::Killers(vec![GraveKiller::RoleKiller(Role::Jester)])
    );
    assert!(game.players[1].alive);
    assert!(game.players[3].alive);
}

#[test]
fn jester_without_selection_kills_a_drawn_eligible_target() {
    let mut game = lynched_jester_game();
    let seed = game.rng_state;
    // eligible, in index order: players 2 and 3 (player 1 voted Innocent)
    let draw = mafia_engine::rng::next_rng(seed);
    let expected = [2usize, 3usize][(draw % 2) as usize];
    do_night_action(&mut game, pr(0), Priority::TopPriority);
    assert!(!game.players[expected].alive);
    assert_eq!(game.rng_state, draw);
}

#[test]
fn jester_with_no_eligible_target_kills_nobody() {
    let mut game = lynched_jester_game();
    game.players[2].alive = false;
    game.players[3].alive = false;
    do_night_action(&mut game, pr(0), Priority::TopPriority);
    assert!(game.players[1].alive);
    assert!(game.players[0].grave.is_none());
}

#[test]
fn jester_defense_floor_on_first_night() {
    let mut game = night_game(vec![Role::Jester, Role::Doctor]);
    do_night_action(&mut game, pr(0), Priority::TopPriority);
    assert_eq!(game.players[0].defense, 2);
}

#[test]
fn jester_marks_itself_on_final_words_and_clears_at_obituary() {
    let mut game = night_game(vec![Role::Jester, Role::Doctor]);
    game.phase = PhaseState::FinalWords { player_on_trial: pr(0) };
    let state = Jester { lynched_yesterday: false, won: false };
    state.on_phase_start(&mut game, pr(0), PhaseType::FinalWords);
    assert_eq!(
        game.players[0].role_state,
        RoleState::Jester(Jester { lynched_yesterday: true, won: true })
    );
    game.phase = PhaseState::Obituary;
    let state = Jester { lynched_yesterday: true, won: true };
    state.on_phase_start(&mut game, pr(0), PhaseType::Obituary);
    assert_eq!(
        game.players[0].role_state,
        RoleState::Jester(Jester { lynched_yesterday: false, won: true })
    );
}

#[test]
fn jester_death_on_final_words_is_announced() {
    let mut game = night_game(vec![Role::Jester, Role::Doctor]);
    game.phase = PhaseState::FinalWords { player_on_trial: pr(0) };
    let state = Jester { lynched_yesterday: true, won: true };
    state.on_any_death(&mut game, pr(0), pr(0));
    assert_eq!(
        game.group_messages,
        vec![(ChatGroup::All, ChatMessageVariant::JesterWon)]
    );
}

fn forger_game() -> Game {
    let mut game = night_game(vec![Role::Forger, Role::Escort, Role::Godfather]);
    game.players[0].role_state = RoleState::Forger(Forger {
        fake_role: Role::Doctor,
        fake_will: "a forged will".to_string(),
        forges_remaining: 3,
        forged_ref: None,
    });
    game.players[1].will = "the true will".to_string();
    game.players[0].night_visits = vec![Visit { target: pr(1), attack: false, astral: false }];
    game
}

#[test]
fn forged_grave_shows_fake_role_and_will() {
    let mut game = forger_game();
    do_night_action(&mut game, pr(0), Priority::Deception);
    assert_eq!(game.players[1].night_grave_role, Some(Role::Doctor));
    match &game.players[0].role_state {
        RoleState::Forger(f) => {
            assert_eq!(f.forges_remaining, 2);
            assert_eq!(f.forged_ref, Some(pr(1)));
        }
        other => panic!("unexpected role state {:?}", other),
    }
    // the target dies this night
    pr(1).try_night_kill(pr(2), &mut game, GraveKiller::RoleKiller(Role::Godfather), 1);
    let grave = game.players[1].grave.as_ref().unwrap();
    assert_eq!(grave.role, Role::Doctor);
    assert_eq!(grave.will, "a forged will");
    // and the Forger privately learns the truth
    do_night_action(&mut game, pr(0), Priority::Investigative);
    assert_eq!(
        game.players[0].night_messages,
        vec![ChatMessageVariant::PlayerRoleAndAlibi {
            player: pr(1),
            role: Role::Escort,
            will: "the true will".to_string(),
        }]
    );
}

#[test]
fn forger_learns_nothing_if_target_survived() {
    let mut game = forger_game();
    do_night_action(&mut game, pr(0), Priority::Deception);
    do_night_action(&mut game, pr(0), Priority::Investigative);
    assert!(game.players[0].night_messages.is_empty());
}

#[test]
fn forger_with_no_forges_left_does_nothing() {
    let mut game = forger_game();
    game.players[0].role_state = RoleState::Forger(Forger {
        fake_role: Role::Doctor,
        fake_will: "a forged will".to_string(),
        forges_remaining: 0,
        forged_ref: None,
    });
    do_night_action(&mut game, pr(0), Priority::Deception);
    assert_eq!(game.players[1].night_grave_role, None);
}

#[test]
fn forger_still_learns_the_truth_after_its_last_forge() {
    let mut game = forger_game();
    game.players[0].role_state = RoleState::Forger(Forger {
        fake_role: Role::Doctor,
        fake_will: "a forged will".to_string(),
        forges_remaining: 1,
        forged_ref: None,
    });
    do_night_action(&mut game, pr(0), Priority::Deception);
    match &game.players[0].role_state {
        RoleState::Forger(f) => {
            assert_eq!(f.forges_remaining, 0);
            assert_eq!(f.forged_ref, Some(pr(1)));
        }
        other => panic!("unexpected role state {:?}", other),
    }
    pr(1).try_night_kill(pr(2), &mut game, GraveKiller::RoleKiller(Role::Godfather), 1);
    do_night_action(&mut game, pr(0), Priority::Investigative);
    assert_eq!(
        game.players[0].night_messages,
        vec![ChatMessageVariant::PlayerRoleAndAlibi {
            player: pr(1),
            role: Role::Escort,
            will: "the true will".to_string(),
        }]
    );
}

#[test]
fn forger_memory_resets_at_phase_start() {
    let mut game = forger_game();
    do_night_action(&mut game, pr(0), Priority::Deception);
    let state = match &game.players[0].role_state {
        RoleState::Forger(f) => Forger {
            fake_role: f.fake_role,
            fake_will: f.fake_will.clone(),
            forges_remaining: f.forges_remaining,
            forged_ref: f.forged_ref,
        },
        _ => unreachable!(),
    };
    state.on_phase_start(&mut game, pr(0), PhaseType::Obituary);
    match &game.players[0].role_state {
        RoleState::Forger(f) => {
            assert_eq!(f.forged_ref, None);
            assert_eq!(f.forges_remaining, 2);
        }
        other => panic!("unexpected role state {:?}", other),
    }
}

fn retributionist_game() -> Game {
    let mut game = night_game(vec![
        Role::Retributionist,
        Role::Doctor,
        Role::Escort,
        Role::Godfather,
    ]);
    game.players[1].alive = false;  // a dead Town body
    game.players[3].alive = false;  // a dead Mafia body
    game
}

#[test]
fn retributionist_rejects_bad_bodies() {
    let game = retributionist_game();
    let state = Retributionist { used_bodies: vec![], currently_used_player: None };
    // a dead non-Town body is rejected
    assert!(!state.can_night_target(&game, pr(0), pr(3)));
    // a dead Town body is accepted
    assert!(state.can_night_target(&game, pr(0), pr(1)));
    // an already-used body is rejected
    let used = Retributionist { used_bodies: vec![pr(1)], currently_used_player: None };
    assert!(!used.can_night_target(&game, pr(0), pr(1)));
    // with one selection standing, a living second target is accepted
    let mut second = retributionist_game();
    second.players[0].selection = vec![pr(1)];
    assert!(state.can_night_target(&second, pr(0), pr(2)));
    // but not a dead one
    assert!(!state.can_night_target(&second, pr(0), pr(3)));
}

#[test]
fn retributionist_reroutes_the_corpse_and_marks_it_used() {
    let mut game = retributionist_game();
    game.players[0].night_visits = vec![
        Visit { target: pr(1), attack: false, astral: false },
        Visit { target: pr(2), attack: false, astral: true },
    ];
    do_night_action(&mut game, pr(0), Priority::Necromancy);
    assert_eq!(
        game.players[1].night_visits,
        vec![Visit { target: pr(2), attack: false, astral: false }]
    );
    match &game.players[0].role_state {
        RoleState::Retributionist(r) => {
            assert_eq!(r.used_bodies, vec![pr(1)]);
            assert_eq!(r.currently_used_player, Some(pr(1)));
            // re-selecting the used body fails from now on
            assert!(!r.can_night_target(&game, pr(0), pr(1)));
        }
        other => panic!("unexpected role state {:?}", other),
    }
}

#[test]
fn retributionist_steals_the_corpse_messages() {
    let mut game = retributionist_game();
    game.players[0].role_state = RoleState::Retributionist(Retributionist {
        used_bodies: vec![pr(1)],
        currently_used_player: Some(pr(1)),
    });
    game.players[0].night_visits = vec![
        Visit { target: pr(1), attack: false, astral: false },
        Visit { target: pr(2), attack: false, astral: true },
    ];
    game.players[0].night_messages = vec![ChatMessageVariant::YouSurvivedAttack];
    game.players[1].night_messages = vec![
        ChatMessageVariant::DoomsayerFailed,
        ChatMessageVariant::JesterWon,
    ];
    do_night_action(&mut game, pr(0), Priority::StealMessages);
    assert_eq!(
        game.players[0].night_messages,
        vec![
            ChatMessageVariant::YouSurvivedAttack,
            ChatMessageVariant::DoomsayerFailed,
            ChatMessageVariant::JesterWon,
        ]
    );
}

fn deputy_game() -> Game {
    let mut game = Game::new(&vec![Role::Deputy, Role::Godfather, Role::Doctor], 3);
    game.phase = PhaseState::Discussion;
    game.day_number = 2;
    game
}

#[test]
fn deputy_day_target_rules() {
    let state = Deputy { bullets_remaining: 1 };
    let game = deputy_game();
    assert!(state.can_day_target(&game, pr(0), pr(1)));
    assert!(!state.can_day_target(&game, pr(0), pr(0)));
    let spent = Deputy { bullets_remaining: 0 };
    assert!(!spent.can_day_target(&game, pr(0), pr(1)));
    let mut night = deputy_game();
    night.phase = PhaseState::Night;
    assert!(!state.can_day_target(&night, pr(0), pr(1)));
    let mut first_day = deputy_game();
    first_day.day_number = 1;
    assert!(!state.can_day_target(&first_day, pr(0), pr(1)));
}

#[test]
fn illegal_day_action_is_never_submitted() {
    let mut game = deputy_game();
    game.day_number = 1;
    let before = game.clone();
    do_day_action(&mut game, pr(0), pr(1));
    assert_eq!(game, before);
}

#[test]
fn deputy_shot_kills_an_undefended_evil() {
    let mut game = deputy_game();
    do_day_action(&mut game, pr(0), pr(1));
    assert!(!game.players[1].alive);
    let grave = game.players[1].grave.as_ref().unwrap();
    assert_eq!(grave.role, Role::Godfather);
    assert_eq!(
        grave.death_cause,
        GraveDeathCause::Killers(vec![GraveKiller::RoleKiller(Role::Deputy)])
    );
    assert!(game.players[0].alive);
    assert_eq!(
        game.players[0].role_state,
        RoleState::Deputy(Deputy { bullets_remaining: 0 })
    );
    assert_eq!(
        game.group_messages,
        vec![(ChatGroup::All, ChatMessageVariant::DeputyKilled { shot_index: 1 })]
    );
}

#[test]
fn deputy_dies_for_shooting_a_town_member() {
    let mut game = deputy_game();
    do_day_action(&mut game, pr(0), pr(2));
    assert!(!game.players[2].alive);
    assert!(!game.players[0].alive);
    let own_grave = game.players[0].grave.as_ref().unwrap();
    assert_eq!(own_grave.death_cause, GraveDeathCause::LeftTown);
}

#[test]
fn deputy_shot_bounces_off_defense() {
    let mut game = deputy_game();
    game.players[1].defense = 1;
    do_day_action(&mut game, pr(0), pr(1));
    assert!(game.players[1].alive);
    assert_eq!(
        game.players[1].chat_messages,
        vec![ChatMessageVariant::DeputyShotYou, ChatMessageVariant::YouSurvivedAttack]
    );
    assert_eq!(
        game.players[0].chat_messages,
        vec![ChatMessageVariant::SomeoneSurvivedYourAttack]
    );
    assert_eq!(
        game.players[0].role_state,
        RoleState::Deputy(Deputy { bullets_remaining: 0 })
    );
}

#[test]
fn blocked_or_dead_doomsayer_does_nothing() {
    let mut game = doomsayer_game();
    game.players[0].night_blocked = true;
    let before = game.clone();
    do_night_action(&mut game, pr(0), Priority::TopPriority);
    assert_eq!(game, before);
    let mut dead = doomsayer_game();
    dead.players[0].alive = false;
    let before = dead.clone();
    do_night_action(&mut dead, pr(0), Priority::TopPriority);
    assert_eq!(dead, before);
}

#[test]
fn jailed_forger_does_nothing() {
    let mut game = forger_game();
    game.players[0].night_jailed = true;
    let before = game.clone();
    do_night_action(&mut game, pr(0), Priority::Deception);
    assert_eq!(game, before);
}

#[test]
fn retributionist_needs_two_visits_and_a_dead_body() {
    let mut game = retributionist_game();
    let before = game.clone();
    do_night_action(&mut game, pr(0), Priority::Necromancy);
    assert_eq!(game, before);
    // a living first target is refused too
    game.players[0].night_visits = vec![
        Visit { target: pr(2), attack: false, astral: false },
        Visit { target: pr(1), attack: false, astral: true },
    ];
    let before = game.clone();
    do_night_action(&mut game, pr(0), Priority::Necromancy);
    assert_eq!(game, before);
}

#[test]
fn default_night_selection_rules() {
    let mut game = night_game(vec![Role::Doctor, Role::Escort, Role::Godfather, Role::Forger]);
    assert!(can_night_select_for(&game, pr(0), pr(1)));
    assert!(!can_night_select_for(&game, pr(0), pr(0)));
    // evil allies cannot select each other by default
    assert!(!can_night_select_for(&game, pr(2), pr(3)));
    assert!(can_night_select_for(&game, pr(2), pr(0)));
    // a jailed actor selects nobody
    game.players[0].night_jailed = true;
    assert!(!can_night_select_for(&game, pr(0), pr(1)));
}
