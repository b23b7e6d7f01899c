//! Chat channels and the closed catalog of message payloads.

use vstd::prelude::*;
use crate::player_ref::PlayerReference;
use crate::role::Role;

verus! {

/// A chat channel a message can be addressed to.
#[derive(Clone, Copy, Debug, PartialEq, Eq, Structural)]
pub enum ChatGroup {
    All,
    Dead,
    Mafia,
    Cult,
    Jail,
    Interview,
    Trial,
}

impl ChatGroup {
    /// The full channel catalog, in a fixed order.
    pub open spec fn values_spec() -> Seq<ChatGroup> {
        seq![
            ChatGroup::All,
            ChatGroup::Dead,
            ChatGroup::Mafia,
            ChatGroup::Cult,
            ChatGroup::Jail,
            ChatGroup::Interview,
            ChatGroup::Trial,
        ]
    }

    /// Every channel appears in the catalog, and none appears twice.
    pub proof fn lemma_values_complete()
        ensures
            forall|g: ChatGroup| #[trigger] ChatGroup::values_spec().contains(g),
            ChatGroup::values_spec().no_duplicates(),
    {
        let s = ChatGroup::values_spec();
        assert forall|g: ChatGroup| #[trigger] s.contains(g) by {
            match g {
                ChatGroup::All => assert(s[0] == g),
                ChatGroup::Dead => assert(s[1] == g),
                ChatGroup::Mafia => assert(s[2] == g),
                ChatGroup::Cult => assert(s[3] == g),
                ChatGroup::Jail => assert(s[4] == g),
                ChatGroup::Interview => assert(s[5] == g),
                ChatGroup::Trial => assert(s[6] == g),
            }
        }
        assert forall|i: int, j: int|
            0 <= i < s.len() && 0 <= j < s.len() && i != j implies s[i] != s[j] by {}
    }

    /// Lists every channel, in catalog order.
    pub fn values() -> (r: Vec<ChatGroup>)
        ensures
            r@ == ChatGroup::values_spec(),
    {
        let mut v: Vec<ChatGroup> = Vec::new();
        v.push(ChatGroup::All);
        v.push(ChatGroup::Dead);
        v.push(ChatGroup::Mafia);
        v.push(ChatGroup::Cult);
        v.push(ChatGroup::Jail);
        v.push(ChatGroup::Interview);
        v.push(ChatGroup::Trial);
        proof {
            assert(v@ =~= ChatGroup::values_spec());
        }
        v
    }
}

/// A message payload, addressed either to one player or to a chat group.
#[derive(Clone, Debug, PartialEq)]
pub enum ChatMessageVariant {
    DeputyShotYou,
    YouSurvivedAttack,
    SomeoneSurvivedYourAttack,
    DeputyKilled { shot_index: usize },
    DoomsayerWon,
    DoomsayerFailed,
    PlayerRoleAndAlibi { player: PlayerReference, role: Role, will: String },
    JesterWon,
}

impl ChatMessageVariant {
    /// Copies a message, payload and all.
    pub fn duplicate(&self) -> (r: ChatMessageVariant)
        ensures
            r == *self,
    {
        match self {
            ChatMessageVariant::DeputyShotYou => ChatMessageVariant::DeputyShotYou,
            ChatMessageVariant::YouSurvivedAttack => ChatMessageVariant::YouSurvivedAttack,
            ChatMessageVariant::SomeoneSurvivedYourAttack =>
                ChatMessageVariant::SomeoneSurvivedYourAttack,
            ChatMessageVariant::DeputyKilled { shot_index } => ChatMessageVariant::DeputyKilled {
                shot_index: *shot_index,
            },
            ChatMessageVariant::DoomsayerWon => ChatMessageVariant::DoomsayerWon,
            ChatMessageVariant::DoomsayerFailed => ChatMessageVariant::DoomsayerFailed,
            ChatMessageVariant::PlayerRoleAndAlibi { player, role, will } =>
                ChatMessageVariant::PlayerRoleAndAlibi {
                player: *player,
                role: *role,
                will: will.clone(),
            },
            ChatMessageVariant::JesterWon => ChatMessageVariant::JesterWon,
        }
    }
}

} // verus!
