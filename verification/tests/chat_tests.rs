use mafia_engine::chat::ChatGroup;
use mafia_engine::game::Game;
use mafia_engine::phase::PhaseState;
use mafia_engine::player_ref::PlayerReference;
use mafia_engine::role::common_role::{
    get_current_receive_chat_groups, get_current_send_chat_groups,
};
use mafia_engine::role::journalist::Journalist;
use mafia_engine::role::medium::Medium;
use mafia_engine::role::{Role, RoleState};

fn night_game(roles: Vec<Role>) -> Game {
    let mut game = Game::new(&roles, 7);
    game.phase = PhaseState::Night;
    game
}

#[test]
fn jailed_mafia_member_sends_on_jail_only() {
    let mut game = night_game(vec![Role::Godfather, Role::Doctor]);
    game.players[0].night_jailed = true;
    let actor = PlayerReference::new(0);
    let send = get_current_send_chat_groups(&game, actor, &vec![]);
    assert_eq!(send, vec![ChatGroup::Jail]);
    let receive = get_current_receive_chat_groups(&game, actor);
    assert_eq!(receive, vec![ChatGroup::All, ChatGroup::Mafia, ChatGroup::Jail]);
}

#[test]
fn unjailed_mafia_member_sends_on_mafia_channel() {
    let game = night_game(vec![Role::Godfather, Role::Doctor]);
    let send = get_current_send_chat_groups(&game, PlayerReference::new(0), &vec![]);
    assert_eq!(send, vec![ChatGroup::Mafia]);
}

#[test]
fn coven_member_uses_cult_channel() {
    let game = night_game(vec![Role::Apostle, Role::Doctor]);
    let send = get_current_send_chat_groups(&game, PlayerReference::new(0), &vec![]);
    assert_eq!(send, vec![ChatGroup::Cult]);
    let receive = get_current_receive_chat_groups(&game, PlayerReference::new(0));
    assert_eq!(receive, vec![ChatGroup::All, ChatGroup::Cult]);
}

#[test]
fn dead_player_sends_and_receives_on_dead() {
    let mut game = night_game(vec![Role::Doctor, Role::Escort]);
    game.players[0].alive = false;
    let send = get_current_send_chat_groups(&game, PlayerReference::new(0), &vec![]);
    assert_eq!(send, vec![ChatGroup::Dead]);
    let receive = get_current_receive_chat_groups(&game, PlayerReference::new(0));
    assert_eq!(receive, vec![ChatGroup::All, ChatGroup::Dead]);
}

#[test]
fn dead_and_silenced_player_sends_nowhere() {
    let mut game = night_game(vec![Role::Doctor, Role::Escort]);
    game.players[0].alive = false;
    game.players[0].night_silenced = true;
    let send = get_current_send_chat_groups(&game, PlayerReference::new(0), &vec![]);
    assert!(send.is_empty());
    // it still receives the Dead channel: silence gags sending only
    let receive = get_current_receive_chat_groups(&game, PlayerReference::new(0));
    assert_eq!(receive, vec![ChatGroup::All, ChatGroup::Dead]);
}

#[test]
fn silenced_player_sends_nowhere() {
    let mut game = night_game(vec![Role::Doctor, Role::Escort]);
    game.phase = PhaseState::Discussion;
    game.players[0].night_silenced = true;
    let send = get_current_send_chat_groups(&game, PlayerReference::new(0), &vec![]);
    assert!(send.is_empty());
}

#[test]
fn discussion_opens_all_and_briefing_is_silent() {
    let mut game = night_game(vec![Role::Doctor]);
    game.phase = PhaseState::Discussion;
    let send = get_current_send_chat_groups(&game, PlayerReference::new(0), &vec![]);
    assert_eq!(send, vec![ChatGroup::All]);
    game.phase = PhaseState::Briefing;
    let send = get_current_send_chat_groups(&game, PlayerReference::new(0), &vec![]);
    assert!(send.is_empty());
}

#[test]
fn testimony_restricts_all_to_player_on_trial() {
    let mut game = night_game(vec![Role::Doctor, Role::Escort]);
    game.phase = PhaseState::Testimony { player_on_trial: PlayerReference::new(1) };
    let bystander = get_current_send_chat_groups(&game, PlayerReference::new(0), &vec![]);
    assert!(bystander.is_empty());
    let on_trial = get_current_send_chat_groups(&game, PlayerReference::new(1), &vec![]);
    assert_eq!(on_trial, vec![ChatGroup::All]);
}

#[test]
fn seanced_player_reaches_dead_channel_at_night() {
    let mut game = night_game(vec![Role::Doctor, Role::Medium]);
    game.players[1].role_state = RoleState::Medium(Medium {
        seanced_target: Some(PlayerReference::new(0)),
    });
    let send = get_current_send_chat_groups(&game, PlayerReference::new(0), &vec![]);
    assert_eq!(send, vec![ChatGroup::Dead]);
    let receive = get_current_receive_chat_groups(&game, PlayerReference::new(0));
    assert_eq!(receive, vec![ChatGroup::All, ChatGroup::Dead]);
}

#[test]
fn interviewed_player_reaches_interview_channel_at_night() {
    let mut game = night_game(vec![Role::Doctor, Role::Journalist]);
    game.players[1].role_state = RoleState::Journalist(Journalist {
        interviewed_target: Some(PlayerReference::new(0)),
    });
    let send = get_current_send_chat_groups(&game, PlayerReference::new(0), &vec![]);
    assert_eq!(send, vec![ChatGroup::Interview]);
    let receive = get_current_receive_chat_groups(&game, PlayerReference::new(0));
    assert_eq!(receive, vec![ChatGroup::All, ChatGroup::Interview]);
}

#[test]
fn role_night_channels_are_kept_when_not_jailed() {
    let game = night_game(vec![Role::Doctor]);
    let send = get_current_send_chat_groups(
        &game,
        PlayerReference::new(0),
        &vec![ChatGroup::Jail],
    );
    assert_eq!(send, vec![ChatGroup::Jail]);
}
