//! A bookmaker provides the odds of games; the one set as main by the
//! administrators is the one whose odds are fetched.

use vstd::prelude::*;
use crate::common_api_structs::Bet;

verus! {

/// A bookmaker.
#[derive(Debug, Clone)]
pub struct Model {
    /// Its id at the remote API.
    pub id: u32,
    /// Its name.
    pub name: String,
    /// Whether it is the bookmaker whose odds are fetched; only set when the
    /// odds are fetched, never stored.
    pub is_main_bookmaker: Option<bool>,
    /// The bets it offers on a game.
    pub bets: Option<Vec<Bet>>,
}

} // verus!
