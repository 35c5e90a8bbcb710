//! Core of a chat leveling bot: level arithmetic, the cooldown cache for
//! experience grants, the activity pipeline, rank replies and progress-card
//! values, toy selection, the stateless leaderboard pager, continuation
//! tokens, interaction routing and the reward administration command.
pub mod text;
pub mod error;
pub mod levels;
pub mod cooldown;
pub mod pager;
pub mod rank;
pub mod toy;
pub mod activity;
pub mod dispatch;
pub mod tokens;
pub mod card;
pub mod anvil;
