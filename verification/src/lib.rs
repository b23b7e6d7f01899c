//! Rules engine for a social-deduction game: role behavior dispatch,
//! night-action resolution in priority order, chat-group visibility,
//! and win/resolution evaluation.

pub mod chat;
pub mod dispatch;
pub mod engine;
pub mod game;
pub mod grave;
pub mod phase;
pub mod player;
pub mod player_ref;
pub mod resolution;
pub mod rng;
pub mod role;
pub mod role_list;
pub mod verdict;
pub mod visit;
