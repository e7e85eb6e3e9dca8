//! A bet is a user's stake on the outcome of a game.
//!
//! The outcome of a game is decided from its full time score; the bets of a
//! game are validated once it has finished, and a user may only place or
//! change a bet while the game has not kicked off.

use vstd::prelude::*;
use vstd::string::*;
use crate::cache_manager::{GAMES_PATTERN, SCOREBOARD_PATTERN};
use crate::common_api_structs::{Better, status_finished};
use crate::error::ApplicationError;
use crate::game;
use crate::sql::{SqlParam, SqlQuery};
use crate::transaction_result::{TransactionResult, classify};

verus! {

/// The three outcomes of a finished game.
#[derive(Copy, Clone, Debug, PartialEq, Eq, Hash, Structural)]
pub enum GameResult {
    /// The home team scored more goals than the away one.
    Win,
    /// Both teams scored the same number of goals.
    Draw,
    /// The away team scored more goals than the home one.
    Loss,
}

/// The identifier under which a result is stored: 1, 2 and 3.
pub open spec fn result_id(r: GameResult) -> u32 {
    match r {
        GameResult::Win => 1,
        GameResult::Draw => 2,
        GameResult::Loss => 3,
    }
}

/// The outcome of a game from the goals of each side.
pub open spec fn outcome_of(home: int, away: int) -> GameResult {
    if 0 < home - away {
        GameResult::Win
    } else if home - away < 0 {
        GameResult::Loss
    } else {
        GameResult::Draw
    }
}

impl GameResult {
    /// The stored identifier of the result.
    pub fn id(&self) -> (i: u32)
        ensures
            i == result_id(*self),
    {
        match self {
            GameResult::Win => 1,
            GameResult::Draw => 2,
            GameResult::Loss => 3,
        }
    }

    /// The result stored under an identifier, if any.
    pub fn from_id(i: u32) -> (r: Option<GameResult>)
        ensures
            match r {
                Some(g) => result_id(g) == i,
                None => forall|g: GameResult| result_id(g) != i,
            },
    {
        if i == 1 {
            Some(GameResult::Win)
        } else if i == 2 {
            Some(GameResult::Draw)
        } else if i == 3 {
            Some(GameResult::Loss)
        } else {
            None
        }
    }

    /// The name of the result.
    pub fn name(&self) -> (s: &'static str)
        ensures
            s@ == (match *self {
                GameResult::Win => "Win"@,
                GameResult::Draw => "Draw"@,
                GameResult::Loss => "Loss"@,
            }),
    {
        match self {
            GameResult::Win => "Win",
            GameResult::Draw => "Draw",
            GameResult::Loss => "Loss",
        }
    }

    /// The outcome of a game where the home team scored `home` goals and the
    /// away team `away` goals.
    pub fn from_goals(home: i16, away: i16) -> (r: GameResult)
        ensures
            r == outcome_of(home as int, away as int),
            r == GameResult::Win <==> home > away,
            r == GameResult::Loss <==> home < away,
            r == GameResult::Draw <==> home == away,
    {
        let difference: i32 = home as i32 - away as i32;
        if 0 < difference {
            GameResult::Win
        } else if difference < 0 {
            GameResult::Loss
        } else {
            GameResult::Draw
        }
    }
}

/// Reading back the identifier of a result gives the result.
pub proof fn lemma_result_id_roundtrip(r: GameResult, s: GameResult)
    ensures
        result_id(r) == result_id(s) ==> r == s,
        1 <= result_id(r) <= 3,
{
}

/// Swapping the sides of a game swaps a win and a loss and keeps a draw.
pub proof fn lemma_outcome_symmetric(home: int, away: int)
    ensures
        outcome_of(home, away) == GameResult::Win <==> outcome_of(away, home) == GameResult::Loss,
        outcome_of(home, away) == GameResult::Draw <==> home == away,
{
}

/// The outcome with which the bets of a stored game are validated: its full
/// time score decides it, provided the game has an id and both goals are
/// known.
pub open spec fn game_outcome(g: game::Model) -> Option<GameResult> {
    match (g.id, g.score.fulltime) {
        (Some(_), Some(score)) => match (score.home, score.away) {
            (Some(home), Some(away)) => Some(outcome_of(home as int, away as int)),
            _ => None,
        },
        _ => None,
    }
}

/// The validation of the bets of one game: the game, its fixture and the
/// result the bets are judged against.
#[derive(Debug, Clone)]
pub struct BetValidation {
    /// The id of the game within the document store.
    pub game_id: String,
    /// The fixture the bets were made on.
    pub fixture_id: u32,
    /// The result of the game.
    pub result: GameResult,
}

/// The abstract value of a [`BetValidation`].
pub struct BetValidationView {
    pub game_id: Seq<char>,
    pub fixture_id: u32,
    pub result: GameResult,
}

impl View for BetValidation {
    type V = BetValidationView;

    open spec fn view(&self) -> BetValidationView {
        BetValidationView { game_id: self.game_id@, fixture_id: self.fixture_id, result: self.result }
    }
}

/// Whether the bets of a game are still to be validated: it is open to bets,
/// finished, and its bets were not validated yet.
pub open spec fn awaits_validation(g: game::Model) -> bool {
    &&& g.processed_as is None
    &&& g.season_id is Some
    &&& status_finished(g.status.short)
}

/// The validations to run for a list of games, in their order: one per game
/// that awaits validation and whose outcome is known.
pub open spec fn validations_of(games: Seq<game::Model>) -> Seq<BetValidationView>
    decreases games.len(),
{
    if games.len() == 0 {
        Seq::empty()
    } else {
        let g = games.last();
        let rest = validations_of(games.drop_last());
        match game_outcome(g) {
            Some(r) => if awaits_validation(g) {
                rest.push(BetValidationView { game_id: g.id.unwrap()@, fixture_id: g.fixture_id, result: r })
            } else {
                rest
            },
            None => rest,
        }
    }
}

/// A game as it is stored once its validation has run: marked as processed
/// with its outcome.
pub open spec fn mark_processed(g: game::Model) -> game::Model {
    match game_outcome(g) {
        Some(r) => if awaits_validation(g) { game::Model { processed_as: Some(r), ..g } } else { g },
        None => g,
    }
}

/// The statement that scores the bets made on a fixture: each bet gets 100
/// times its stake when it is on the result of the game, 0 otherwise. Its
/// values are the id of the result, then the fixture.
pub const SCORE_BETS_SQL: &'static str = "UPDATE USER_BET SET outcome=IF(result_id=?, stake*100, 0) WHERE fixture_id=?";

/// The values bound to [`SCORE_BETS_SQL`] for a validation.
pub open spec fn score_bets_params(v: BetValidationView) -> Seq<SqlParam> {
    seq![SqlParam::U32(result_id(v.result)), SqlParam::U32(v.fixture_id)]
}

impl BetValidation {
    /// The statement that scores the bets made on the game of the validation
    /// against its result.
    pub fn scoring_query(&self) -> (q: SqlQuery)
        ensures
            q.sql@ == SCORE_BETS_SQL@,
            q.params@ == score_bets_params(self@),
    {
        let mut params: Vec<SqlParam> = Vec::new();
        params.push(SqlParam::U32(self.result.id()));
        params.push(SqlParam::U32(self.fixture_id));
        assert(params@ =~= score_bets_params(self@));
        SqlQuery { sql: String::from_str(SCORE_BETS_SQL), params }
    }
}

/// A bet being placed, but for its stake: the stake is a decimal amount,
/// which the storage layer binds where the statement asks for it.
#[derive(Debug, Clone, Copy, PartialEq, Eq, Structural)]
pub struct BetRequest {
    /// The user who bets.
    pub user_id: u32,
    /// The fixture he bets on.
    pub fixture_id: u32,
    /// The season the bet counts for.
    pub season_id: u32,
    /// The result he bets on.
    pub result: GameResult,
}

/// The steps of placing a bet: the user's existing bet in the game is
/// updated; failing that he is added to the betters; both only succeed
/// before kickoff; then the bet is stored, the cached game lookups are
/// dropped, and the outcome is that of the store.
#[derive(Debug)]
pub enum UpsertBetStep {
    /// Update the bet of the user among the betters of the game.
    UpdateExistingBetter,
    /// Add the user to the betters of the game.
    AddBetter,
    /// Store the bet with its stake.
    StoreBet,
    /// Drop the cached game lookups; holds the outcome of the store.
    ClearGamesCache(TransactionResult),
    /// The bet is placed, or refused.
    Done(Result<TransactionResult, ApplicationError>),
}

/// The step after `step`, given the count that the storage reported for it:
/// the documents modified by the update, the documents matched by the
/// addition, the rows affected by the store (the clearing reports none).
pub open spec fn next_upsert_step(step: UpsertBetStep, count: u64) -> UpsertBetStep {
    match step {
        UpsertBetStep::UpdateExistingBetter =>
            if count == 0 { UpsertBetStep::AddBetter } else { UpsertBetStep::StoreBet },
        UpsertBetStep::AddBetter =>
            if count == 0 { UpsertBetStep::Done(Err(ApplicationError::FormOutdated)) } else { UpsertBetStep::StoreBet },
        UpsertBetStep::StoreBet => UpsertBetStep::ClearGamesCache(classify(count, 1)),
        UpsertBetStep::ClearGamesCache(r) => UpsertBetStep::Done(Ok(r)),
        UpsertBetStep::Done(r) => UpsertBetStep::Done(r),
    }
}

/// The statement that stores a bet: its values are the user, the fixture,
/// the result id, the season and the stake, then on a bet already made the
/// result id and the stake again.
pub const STORE_BET_SQL: &'static str = "INSERT INTO USER_BET(user_id, fixture_id, result_id, season_id, stake) VALUES(?,?,?,?,?) ON DUPLICATE KEY UPDATE result_id=?, stake=?";

/// The values bound to [`STORE_BET_SQL`] for a request, the stake marked
/// where it goes.
pub open spec fn store_bet_params(req: BetRequest) -> Seq<SqlParam> {
    seq![
        SqlParam::U32(req.user_id),
        SqlParam::U32(req.fixture_id),
        SqlParam::U32(result_id(req.result)),
        SqlParam::U32(req.season_id),
        SqlParam::Stake,
        SqlParam::U32(result_id(req.result)),
        SqlParam::Stake,
    ]
}

/// What the storage layer does at a step of placing a bet, and what it
/// reports back.
#[derive(Debug)]
pub enum UpsertBetAction {
    /// In the fixture `fixture_id`, provided it has not kicked off, set the
    /// result of the entry of `user_id` among the betters; reports how many
    /// documents were modified.
    SetBetterResult { fixture_id: u32, user_id: u32, result: GameResult },
    /// In the fixture `fixture_id`, provided it has not kicked off, add the
    /// entry of `user_id` with `result` to the betters unless that very entry
    /// is there; reports how many documents were matched.
    AddBetter { fixture_id: u32, user_id: u32, result: GameResult },
    /// Run the statement; reports how many rows were affected.
    Execute(SqlQuery),
    /// Delete the cache keys matching the pattern.
    ClearCache(String),
    /// Nothing is left to do.
    Finish,
}

/// The abstract value of an [`UpsertBetAction`].
pub enum UpsertBetActionView {
    SetBetterResult { fixture_id: u32, user_id: u32, result: GameResult },
    AddBetter { fixture_id: u32, user_id: u32, result: GameResult },
    Execute { sql: Seq<char>, params: Seq<SqlParam> },
    ClearCache(Seq<char>),
    Finish,
}

impl View for UpsertBetAction {
    type V = UpsertBetActionView;

    open spec fn view(&self) -> UpsertBetActionView {
        match self {
            UpsertBetAction::SetBetterResult { fixture_id, user_id, result } =>
                UpsertBetActionView::SetBetterResult { fixture_id: *fixture_id, user_id: *user_id, result: *result },
            UpsertBetAction::AddBetter { fixture_id, user_id, result } =>
                UpsertBetActionView::AddBetter { fixture_id: *fixture_id, user_id: *user_id, result: *result },
            UpsertBetAction::Execute(q) => UpsertBetActionView::Execute { sql: q.sql@, params: q.params@ },
            UpsertBetAction::ClearCache(p) => UpsertBetActionView::ClearCache(p@),
            UpsertBetAction::Finish => UpsertBetActionView::Finish,
        }
    }
}

/// What the storage layer does at a step of placing the bet `req`.
pub open spec fn upsert_action(req: BetRequest, step: UpsertBetStep) -> UpsertBetActionView {
    match step {
        UpsertBetStep::UpdateExistingBetter => UpsertBetActionView::SetBetterResult {
            fixture_id: req.fixture_id, user_id: req.user_id, result: req.result },
        UpsertBetStep::AddBetter => UpsertBetActionView::AddBetter {
            fixture_id: req.fixture_id, user_id: req.user_id, result: req.result },
        UpsertBetStep::StoreBet => UpsertBetActionView::Execute { sql: STORE_BET_SQL@, params: store_bet_params(req) },
        UpsertBetStep::ClearGamesCache(_) => UpsertBetActionView::ClearCache(GAMES_PATTERN@),
        UpsertBetStep::Done(_) => UpsertBetActionView::Finish,
    }
}

/// The store of bets.
pub struct Entity;

impl Entity {
    /// The outcome with which the bets of a game are validated, if it is known.
    pub fn outcome_for_game(g: &game::Model) -> (r: Option<GameResult>)
        ensures
            r == game_outcome(*g),
    {
        match (&g.id, &g.score.fulltime) {
            (Some(_), Some(score)) => match (score.home, score.away) {
                (Some(home), Some(away)) => Some(GameResult::from_goals(home, away)),
                _ => None,
            },
            _ => None,
        }
    }

    /// Whether the bets of a game are still to be validated.
    pub fn awaits_validation(g: &game::Model) -> (b: bool)
        ensures
            b == awaits_validation(*g),
    {
        g.processed_as.is_none() && g.season_id.is_some() && g.status.short.is_finished()
    }

    /// The validations to run for the finished games that were not processed
    /// yet: for each game whose full time score is known, the result that its
    /// bets are judged against.
    pub fn validation_plan(games: &Vec<game::Model>) -> (plan: Vec<BetValidation>)
        ensures
            plan@.map_values(|v: BetValidation| v@) == validations_of(games@),
    {
        let mut plan: Vec<BetValidation> = Vec::new();
        let mut i: usize = 0;
        while i < games.len()
            invariant
                i <= games@.len(),
                plan@.map_values(|v: BetValidation| v@) == validations_of(games@.subrange(0, i as int)),
            decreases games@.len() - i,
        {
            let g = &games[i];
            let outcome = if Self::awaits_validation(g) { Self::outcome_for_game(g) } else { None };
            assert(games@.subrange(0, i + 1).drop_last() =~= games@.subrange(0, i as int));
            assert(games@.subrange(0, i + 1).last() == games@[i as int]);
            let ghost before = plan@.map_values(|v: BetValidation| v@);
            match outcome {
                Some(result) => {
                    let game_id = match &g.id {
                        Some(id) => id.clone(),
                        None => String::new(),
                    };
                    plan.push(BetValidation { game_id, fixture_id: g.fixture_id, result });
                    assert(plan@.map_values(|v: BetValidation| v@) =~= before.push(
                        BetValidationView { game_id: g.id.unwrap()@, fixture_id: g.fixture_id, result }));
                },
                None => {},
            }
            i = i + 1;
        }
        assert(games@.subrange(0, games@.len() as int) =~= games@);
        plan
    }

    /// The step of placing a bet that follows `step`, given the count the
    /// storage reported for it.
    pub fn upsert_bet_next(step: UpsertBetStep, count: u64) -> (next: UpsertBetStep)
        ensures
            next == next_upsert_step(step, count),
    {
        match step {
            UpsertBetStep::UpdateExistingBetter =>
                if count == 0 { UpsertBetStep::AddBetter } else { UpsertBetStep::StoreBet },
            UpsertBetStep::AddBetter =>
                if count == 0 { UpsertBetStep::Done(Err(ApplicationError::FormOutdated)) } else { UpsertBetStep::StoreBet },
            UpsertBetStep::StoreBet => UpsertBetStep::ClearGamesCache(TransactionResult::expect_single_result(count)),
            UpsertBetStep::ClearGamesCache(r) => UpsertBetStep::Done(Ok(r)),
            UpsertBetStep::Done(r) => UpsertBetStep::Done(r),
        }
    }

    /// What the storage layer does at the step `step` of placing the bet
    /// `req`.
    pub fn upsert_bet_action(req: &BetRequest, step: &UpsertBetStep) -> (a: UpsertBetAction)
        ensures
            a@ == upsert_action(*req, *step),
    {
        match step {
            UpsertBetStep::UpdateExistingBetter => UpsertBetAction::SetBetterResult {
                fixture_id: req.fixture_id, user_id: req.user_id, result: req.result },
            UpsertBetStep::AddBetter => UpsertBetAction::AddBetter {
                fixture_id: req.fixture_id, user_id: req.user_id, result: req.result },
            UpsertBetStep::StoreBet => {
                let id = req.result.id();
                let mut params: Vec<SqlParam> = Vec::new();
                params.push(SqlParam::U32(req.user_id));
                params.push(SqlParam::U32(req.fixture_id));
                params.push(SqlParam::U32(id));
                params.push(SqlParam::U32(req.season_id));
                params.push(SqlParam::Stake);
                params.push(SqlParam::U32(id));
                params.push(SqlParam::Stake);
                assert(params@ =~= store_bet_params(*req));
                UpsertBetAction::Execute(SqlQuery { sql: String::from_str(STORE_BET_SQL), params })
            },
            UpsertBetStep::ClearGamesCache(_) => UpsertBetAction::ClearCache(String::from_str(GAMES_PATTERN)),
            UpsertBetStep::Done(_) => UpsertBetAction::Finish,
        }
    }

    /// The cache to clear once the bets of the validated games are scored,
    /// given the rows each scoring updated: the scoreboards, exactly when
    /// some bet was updated.
    pub fn scoreboard_cache_to_clear(rows_updated: &Vec<u64>) -> (p: Option<String>)
        ensures
            p is Some <==> exists|i: int| 0 <= i < rows_updated@.len() && rows_updated@[i] > 0,
            p matches Some(pattern) ==> pattern@ == SCOREBOARD_PATTERN@,
    {
        let mut i: usize = 0;
        while i < rows_updated.len()
            invariant
                i <= rows_updated@.len(),
                forall|j: int| 0 <= j < i ==> rows_updated@[j] == 0,
            decreases rows_updated@.len() - i,
        {
            if rows_updated[i] > 0 {
                return Some(String::from_str(SCOREBOARD_PATTERN));
            }
            i = i + 1;
        }
        None
    }
}

/// Placing a bet ends within four steps; it is refused as outdated exactly
/// when neither the update nor the addition touched the game, and then
/// nothing is stored and no cache is dropped; otherwise the bet is stored,
/// the cached game lookups are dropped, and the outcome is the
/// classification of the rows the store affected.
pub proof fn lemma_upsert_bet_run(req: BetRequest, updated: u64, matched: u64, stored: u64)
    ensures
        ({
            let s1 = next_upsert_step(UpsertBetStep::UpdateExistingBetter, updated);
            let s2 = if s1 is AddBetter { next_upsert_step(s1, matched) } else { s1 };
            let s3 = if s2 is StoreBet { next_upsert_step(s2, stored) } else { s2 };
            let s4 = if s3 is ClearGamesCache { next_upsert_step(s3, 0) } else { s3 };
            &&& s4 is Done
            &&& (updated == 0 && matched == 0) ==> s2 == UpsertBetStep::Done(Err(ApplicationError::FormOutdated))
                && upsert_action(req, s2) == UpsertBetActionView::Finish
            &&& !(updated == 0 && matched == 0) ==> s2 == UpsertBetStep::StoreBet
                && upsert_action(req, s2) == (UpsertBetActionView::Execute { sql: STORE_BET_SQL@, params: store_bet_params(req) })
                && s3 == UpsertBetStep::ClearGamesCache(classify(stored, 1))
                && upsert_action(req, s3) == UpsertBetActionView::ClearCache(GAMES_PATTERN@)
                && s4 == UpsertBetStep::Done(Ok(classify(stored, 1)))
        }),
{
}

/// A game awaiting validation whose outcome is known is validated once, with
/// that outcome; any other game is left untouched.
pub proof fn lemma_validation_plan_step(games: Seq<game::Model>, g: game::Model)
    ensures
        !(awaits_validation(g) && game_outcome(g) is Some) ==> validations_of(games.push(g)) == validations_of(games),
        awaits_validation(g) ==> (game_outcome(g) matches Some(r) ==> validations_of(games.push(g)) == validations_of(games).push(
            BetValidationView { game_id: g.id.unwrap()@, fixture_id: g.fixture_id, result: r })),
{
    assert(games.push(g).drop_last() =~= games);
}

/// Validating bets is idempotent: once the games of a run are stored as
/// processed, a second run over them validates nothing.
pub proof fn lemma_validation_idempotent(games: Seq<game::Model>)
    ensures
        validations_of(games.map_values(|g: game::Model| mark_processed(g))) == Seq::<BetValidationView>::empty(),
    decreases games.len(),
{
    let marked = games.map_values(|g: game::Model| mark_processed(g));
    if games.len() > 0 {
        lemma_validation_idempotent(games.drop_last());
        assert(marked.drop_last() =~= games.drop_last().map_values(|g: game::Model| mark_processed(g)));
        assert(marked.last() == mark_processed(games.last()));
    } else {
        assert(marked.len() == 0);
    }
}

/// Whether the betters of a fixture hold at most one entry per user.
pub open spec fn unique_betters(bs: Seq<Better>) -> bool {
    forall|i: int, j: int| 0 <= i < j < bs.len() ==> bs[i].user_id != bs[j].user_id
}

/// The betters of a fixture after [`UpsertBetAction::SetBetterResult`]: the
/// entry of the user gets the result. (The store sets the first entry of the
/// user; in a list with one entry per user that is his only one.)
pub open spec fn set_better_result(bs: Seq<Better>, user_id: u32, result: GameResult) -> Seq<Better> {
    Seq::new(bs.len(), |i: int| if bs[i].user_id == user_id { Better { user_id, game_result: result } } else { bs[i] })
}

/// Whether [`UpsertBetAction::SetBetterResult`] modifies the fixture: the
/// user has an entry with another result.
pub open spec fn set_better_modifies(bs: Seq<Better>, user_id: u32, result: GameResult) -> bool {
    exists|i: int| 0 <= i < bs.len() && bs[i].user_id == user_id && bs[i].game_result != result
}

/// The betters of a fixture after [`UpsertBetAction::AddBetter`]: the entry
/// is added unless that very entry is there.
pub open spec fn add_better(bs: Seq<Better>, user_id: u32, result: GameResult) -> Seq<Better> {
    if bs.contains(Better { user_id, game_result: result }) { bs } else { bs.push(Better { user_id, game_result: result }) }
}

/// The betters of a fixture that has not kicked off after a user bets on
/// it: the update runs, then the addition when the update modified nothing.
pub open spec fn betters_after_bet(bs: Seq<Better>, user_id: u32, result: GameResult) -> Seq<Better> {
    let modified: u64 = if set_better_modifies(bs, user_id, result) { 1 } else { 0 };
    let updated = set_better_result(bs, user_id, result);
    if next_upsert_step(UpsertBetStep::UpdateExistingBetter, modified) is AddBetter {
        add_better(updated, user_id, result)
    } else {
        updated
    }
}

/// Betting keeps one entry per user among the betters of a fixture: betting
/// again replaces the result of the user's entry, and no second entry is
/// ever added for him; afterwards his entry holds the result he bet on.
pub proof fn lemma_bet_keeps_betters_unique(bs: Seq<Better>, user_id: u32, result: GameResult)
    requires
        unique_betters(bs),
    ensures
        unique_betters(betters_after_bet(bs, user_id, result)),
        betters_after_bet(bs, user_id, result).contains(Better { user_id, game_result: result }),
        forall|i: int| 0 <= i < betters_after_bet(bs, user_id, result).len()
            && betters_after_bet(bs, user_id, result)[i].user_id == user_id
            ==> betters_after_bet(bs, user_id, result)[i].game_result == result,
{
    let entry = Better { user_id, game_result: result };
    let updated = set_better_result(bs, user_id, result);
    let after = betters_after_bet(bs, user_id, result);
    assert(unique_betters(updated));
    if set_better_modifies(bs, user_id, result) {
        let k = choose|i: int| 0 <= i < bs.len() && bs[i].user_id == user_id && bs[i].game_result != result;
        assert(after == updated);
        assert(updated[k] == entry);
    } else if exists|i: int| 0 <= i < bs.len() && bs[i].user_id == user_id {
        let k = choose|i: int| 0 <= i < bs.len() && bs[i].user_id == user_id;
        assert(bs[k].game_result == result);
        assert(updated[k] == entry);
        assert(updated.contains(entry));
        assert(after == updated);
    } else {
        assert(updated =~= bs);
        assert(!updated.contains(entry));
        assert(after == updated.push(entry));
        assert(after[after.len() - 1] == entry);
        assert forall|i: int, j: int| 0 <= i < j < after.len() implies after[i].user_id != after[j].user_id by {
            if j == after.len() - 1 {
                assert(after[i] == bs[i]);
            } else {
                assert(after[i] == bs[i] && after[j] == bs[j]);
            }
        }
    }
}

/// How a game's outcome follows from its goals: the home side wins exactly
/// when it scored more, loses exactly when it scored fewer, and the game is
/// drawn exactly when both scored as many.
pub proof fn lemma_outcome_by_goals(home: int, away: int)
    ensures
        outcome_of(home, away) == GameResult::Win <==> home > away,
        outcome_of(home, away) == GameResult::Loss <==> home < away,
        outcome_of(home, away) == GameResult::Draw <==> home == away,
{
}

} // verus!
