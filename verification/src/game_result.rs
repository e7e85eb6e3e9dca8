//! The result of a game, shared with the bets.

pub use crate::bet::GameResult;
