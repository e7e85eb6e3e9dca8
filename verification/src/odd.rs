//! The odds of the games, stored apart from the games when they are fetched
//! and attached to them afterwards: a game gets the home, draw and away odds
//! of the first bet of the first bookmaker that offers odds on it.

use vstd::prelude::*;
use crate::bookmaker;

verus! {

/// The home, draw and away odds, as texts, that a game gets from the
/// bookmakers offering odds on it: those of the first bet of the first
/// bookmaker, when that bet has exactly three outcomes.
pub open spec fn first_bet_odds(bookmakers: Seq<bookmaker::Model>) -> Option<(Seq<char>, Seq<char>, Seq<char>)> {
    match bookmakers[0].bets {
        Some(bets) => {
            let values = bets@[0].values@;
            if values.len() == 3 {
                Some((values[0].odd@, values[1].odd@, values[2].odd@))
            } else {
                None
            }
        },
        None => None,
    }
}

/// The store of odds.
pub struct Entity;

impl Entity {
    /// The home, draw and away odds, as texts, to attach to a game from the
    /// bookmakers offering odds on it; none when the first bookmaker offers
    /// no bet, or its first bet does not have exactly three outcomes.
    pub fn odds_texts(bookmakers: &Vec<bookmaker::Model>) -> (r: Option<(String, String, String)>)
        requires
            bookmakers@.len() > 0,
            bookmakers@[0].bets matches Some(bets) ==> bets@.len() > 0,
        ensures
            match r {
                Some((home, draw, away)) => first_bet_odds(bookmakers@) == Some((home@, draw@, away@)),
                None => first_bet_odds(bookmakers@) is None,
            },
    {
        match &bookmakers[0].bets {
            Some(bets) => {
                let values = &bets[0].values;
                if values.len() == 3 {
                    Some((values[0].odd.clone(), values[1].odd.clone(), values[2].odd.clone()))
                } else {
                    None
                }
            },
            None => None,
        }
    }
}

} // verus!
