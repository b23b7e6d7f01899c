use mafia_engine::dispatch::{get_won_game_for, on_phase_start};
use mafia_engine::engine::{commit_night_visits, resolve_night};
use mafia_engine::game::Game;
use mafia_engine::phase::{PhaseState, PhaseType};
use mafia_engine::player_ref::PlayerReference;
use mafia_engine::resolution::ResolutionState;
use mafia_engine::role::common_role::get_won_game;
use mafia_engine::role::doomsayer::{Doomsayer, DoomsayerGuess};
use mafia_engine::role::jester::Jester;
use mafia_engine::role::{Priority, Role, RoleState};
use mafia_engine::verdict::Verdict;
use mafia_engine::visit::Visit;

fn pr(i: usize) -> PlayerReference {
    PlayerReference::new(i)
}

#[test]
fn priority_stages_keep_their_fixed_order() {
    assert_eq!(
        Priority::values(),
        vec![
            Priority::TopPriority,
            Priority::Deception,
            Priority::Necromancy,
            Priority::Protection,
            Priority::Investigative,
            Priority::Kill,
            Priority::StealMessages,
            Priority::Cleanup,
        ]
    );
}

#[test]
fn commit_turns_selections_into_visits() {
    let mut game = Game::new(&vec![Role::Doctor, Role::Retributionist, Role::Escort], 1);
    game.phase = PhaseState::Night;
    game.players[0].selection = vec![pr(2)];
    game.players[1].selection = vec![pr(0), pr(2)];
    commit_night_visits(&mut game);
    assert_eq!(
        game.players[0].night_visits,
        vec![Visit { target: pr(2), attack: false, astral: false }]
    );
    assert_eq!(
        game.players[1].night_visits,
        vec![
            Visit { target: pr(0), attack: false, astral: false },
            Visit { target: pr(2), attack: false, astral: true },
        ]
    );
    assert!(game.players[2].night_visits.is_empty());
}

#[test]
fn full_night_reanimates_and_steals_in_one_pass() {
    let mut game = Game::new(&vec![Role::Retributionist, Role::Doctor, Role::Escort], 2);
    game.phase = PhaseState::Night;
    game.players[1].alive = false;
    game.players[1].night_messages = vec![
        mafia_engine::chat::ChatMessageVariant::DoomsayerFailed,
    ];
    game.players[0].selection = vec![pr(1), pr(2)];
    resolve_night(&mut game);
    // the corpse's visit list was rerouted to the second target
    assert_eq!(
        game.players[1].night_visits,
        vec![Visit { target: pr(2), attack: false, astral: false }]
    );
    // the body is used for good and its messages were stolen
    match &game.players[0].role_state {
        RoleState::Retributionist(r) => {
            assert_eq!(r.used_bodies, vec![pr(1)]);
            assert_eq!(r.currently_used_player, Some(pr(1)));
        }
        other => panic!("unexpected role state {:?}", other),
    }
    assert_eq!(
        game.players[0].night_messages,
        vec![mafia_engine::chat::ChatMessageVariant::DoomsayerFailed]
    );
}

#[test]
fn game_is_over_when_one_team_remains() {
    let mut game = Game::new(&vec![Role::Doctor, Role::Escort, Role::Godfather], 1);
    assert_eq!(ResolutionState::game_is_over(&game), None);
    game.players[2].alive = false;
    assert_eq!(ResolutionState::game_is_over(&game), Some(ResolutionState::Town));
    assert!(ResolutionState::can_win_with(&game, pr(0), ResolutionState::Town));
    assert!(!ResolutionState::can_win_with(&game, pr(2), ResolutionState::Town));
    assert!(get_won_game(&game, pr(0)));
    assert!(!get_won_game(&game, pr(2)));
}

#[test]
fn surviving_neutral_does_not_block_a_town_win() {
    let mut game = Game::new(&vec![Role::Doctor, Role::Jester, Role::Godfather], 1);
    game.players[2].alive = false;
    assert_eq!(ResolutionState::game_is_over(&game), Some(ResolutionState::Town));
    // the Jester wins by its own flag, never through the global resolution
    assert!(!get_won_game(&game, pr(1)));
}

#[test]
fn fiends_need_everyone_else_gone() {
    let mut game = Game::new(&vec![Role::Arsonist, Role::Doctor], 1);
    assert_eq!(ResolutionState::game_is_over(&game), None);
    game.players[1].alive = false;
    assert_eq!(ResolutionState::game_is_over(&game), Some(ResolutionState::Fiends));
}

fn full_game() -> Game {
    let mut game = Game::new(
        &vec![
            Role::Jester,
            Role::Doctor,
            Role::Escort,
            Role::Godfather,
            Role::Forger,
            Role::Doomsayer,
        ],
        99,
    );
    game.phase = PhaseState::Night;
    game.day_number = 2;
    // a dead, freshly lynched Jester with no explicit selection: its target
    // comes from the seeded random source
    game.players[0].alive = false;
    game.players[0].role_state = RoleState::Jester(Jester { lynched_yesterday: true, won: true });
    game.players[1].verdict = Verdict::Guilty;
    game.players[2].verdict = Verdict::Abstain;
    game.players[3].verdict = Verdict::Guilty;
    game.players[4].selection = vec![pr(1)];
    game.players[5].role_state = RoleState::Doomsayer(Doomsayer {
        guesses: [
            (pr(3), DoomsayerGuess::Mafia),
            (pr(4), DoomsayerGuess::Mafia),
            (pr(1), DoomsayerGuess::Doctor),
        ],
        won: false,
    });
    game
}

#[test]
fn two_identical_runs_resolve_identically() {
    let mut first = full_game();
    let mut second = full_game();
    assert_eq!(first, second);
    resolve_night(&mut first);
    resolve_night(&mut second);
    assert_eq!(first, second);
}

#[test]
fn doomsayer_and_jester_resolve_in_one_night() {
    let mut game = full_game();
    // pin the Jester to an explicit target so every death is forced
    game.players[0].selection = vec![pr(2)];
    resolve_night(&mut game);
    // the Jester's selection died to it
    assert!(!game.players[2].alive);
    // the Doomsayer guessed everything right: its targets and itself died
    assert!(!game.players[5].alive);
    assert!(!game.players[3].alive);
    assert!(!game.players[4].alive);
    assert!(!game.players[1].alive);
}

#[test]
fn self_tracked_winners_answer_from_their_flag() {
    let mut game = Game::new(&vec![Role::Jester, Role::Doctor, Role::Godfather], 1);
    assert!(!get_won_game_for(&game, pr(0)));
    game.players[0].role_state = RoleState::Jester(Jester { lynched_yesterday: false, won: true });
    assert!(get_won_game_for(&game, pr(0)));
    // the Doctor still waits on the global resolution
    assert!(!get_won_game_for(&game, pr(1)));
    game.players[2].alive = false;
    assert!(get_won_game_for(&game, pr(1)));
}

#[test]
fn phase_start_hooks_run_for_every_player() {
    let mut game = Game::new(&vec![Role::Doomsayer, Role::Doctor, Role::Escort], 5);
    // two guessable players besides the Doomsayer remain: it converts
    on_phase_start(&mut game, PhaseType::Obituary);
    assert_eq!(
        game.players[0].role_state,
        RoleState::Jester(Jester { lynched_yesterday: false, won: false })
    );
}
