//! A game is an opposition between two clubs, the thing users bet on.
//!
//! The stored game is large; this module holds the part of it that the rules
//! read (its identity, its status, its goals and score, its betters) and the
//! lookup builder that turns a search into a query description.

use vstd::prelude::*;
use vstd::string::*;
use crate::bet::GameResult;
use crate::common_api_structs::{Better, Goals, Score, Status, status_finished, status_started};

verus! {

/// The part of a stored game that the rules read.
#[derive(Clone, Debug)]
pub struct Model {
    /// The id within the document store, as text.
    pub id: Option<String>,
    /// The season the game is attached to when it is open to bets.
    pub season_id: Option<u32>,
    /// The result with which the bets on the game were validated.
    pub processed_as: Option<GameResult>,
    /// The users who bet on the game.
    pub betters: Option<Vec<Better>>,
    /// The local league logo.
    pub league_local_logo: Option<String>,
    /// The local home team logo.
    pub home_local_logo: Option<String>,
    /// The local away team logo.
    pub away_local_logo: Option<String>,
    /// The result of the game.
    pub result: Option<GameResult>,
    /// The id of the fixture at the remote API.
    pub fixture_id: u32,
    /// The status of the fixture.
    pub status: Status,
    /// The goals scored during the game.
    pub goals: Goals,
    /// The score of the game.
    pub score: Score,
}

/// The bet of a user among the betters: the result of the first better with
/// that user id.
pub open spec fn first_bet_of(betters: Seq<Better>, user_id: u32) -> Option<GameResult>
    decreases betters.len(),
{
    if betters.len() == 0 {
        None
    } else if betters[0].user_id == user_id {
        Some(betters[0].game_result)
    } else {
        first_bet_of(betters.drop_first(), user_id)
    }
}

proof fn lemma_first_bet_found(betters: Seq<Better>, user_id: u32)
    ensures
        first_bet_of(betters, user_id) is None <==> forall|i: int| 0 <= i < betters.len() ==> betters[i].user_id != user_id,
        first_bet_of(betters, user_id) matches Some(r) ==> exists|i: int| 0 <= i < betters.len()
            && betters[i].user_id == user_id && betters[i].game_result == r,
    decreases betters.len(),
{
    if betters.len() > 0 {
        lemma_first_bet_found(betters.drop_first(), user_id);
        if first_bet_of(betters, user_id) is None {
            assert forall|i: int| 0 <= i < betters.len() implies betters[i].user_id != user_id by {
                if i > 0 {
                    assert(betters[i] == betters.drop_first()[i - 1]);
                }
            }
        }
        if betters[0].user_id != user_id {
            if let Some(r) = first_bet_of(betters, user_id) {
                let j = choose|j: int| 0 <= j < betters.drop_first().len()
                    && betters.drop_first()[j].user_id == user_id && betters.drop_first()[j].game_result == r;
                assert(betters[j + 1] == betters.drop_first()[j]);
            }
        }
    }
}

impl Model {
    /// Whether the game has started; a postponed or cancelled game has not.
    pub fn is_started(&self) -> (b: bool)
        ensures
            b == status_started(self.status.short),
    {
        self.status.short.is_started()
    }

    /// Whether the game is finished: at full time, after extra time or after
    /// penalties.
    pub fn is_finished(&self) -> (b: bool)
        ensures
            b == status_finished(self.status.short),
    {
        self.status.short.is_finished()
    }

    /// The bet of the given user on the game, if he made one.
    pub fn get_bet_for_user(&self, user_id: &u32) -> (r: Option<GameResult>)
        ensures
            r == (match self.betters {
                Some(b) => first_bet_of(b@, *user_id),
                None => None,
            }),
    {
        match &self.betters {
            Some(betters) => {
                let mut i: usize = 0;
                assert(betters@.skip(0) =~= betters@);
                while i < betters.len()
                    invariant
                        self.betters == Some(*betters),
                        i <= betters@.len(),
                        first_bet_of(betters@, *user_id) == first_bet_of(betters@.skip(i as int), *user_id),
                    decreases betters@.len() - i,
                {
                    assert(betters@.skip(i as int)[0] == betters@[i as int]);
                    if betters[i].user_id == *user_id {
                        assert(betters@.skip(i as int).len() > 0);
                        assert(first_bet_of(betters@.skip(i as int), *user_id) == Some(betters@[i as int].game_result));
                        return Some(betters[i].game_result);
                    }
                    assert(betters@.skip(i as int).drop_first() =~= betters@.skip(i + 1));
                    i = i + 1;
                }
                None
            },
            None => None,
        }
    }
}

/// A user has a bet on a game exactly when one of its betters is him, and the
/// bet found is one he made.
pub proof fn lemma_bet_for_user(betters: Seq<Better>, user_id: u32)
    ensures
        first_bet_of(betters, user_id) is Some <==> exists|i: int| 0 <= i < betters.len() && betters[i].user_id == user_id,
        first_bet_of(betters, user_id) matches Some(r) ==> betters.contains(Better { user_id, game_result: r }),
{
    lemma_first_bet_found(betters, user_id);
    if let Some(r) = first_bet_of(betters, user_id) {
        let i = choose|i: int| 0 <= i < betters.len() && betters[i].user_id == user_id && betters[i].game_result == r;
        assert(betters[i] == Better { user_id, game_result: r });
    }
}

/// The store of games.
pub struct Entity;

/// A condition of a game lookup on one property of the game.
#[derive(Debug, Clone)]
pub enum GameCondition {
    /// The game is played in one of these leagues.
    LeagueIn(Vec<u32>),
    /// The home team is one of these clubs.
    HomeTeamIn(Vec<u32>),
    /// The away team is one of these clubs.
    AwayTeamIn(Vec<u32>),
    /// The game is open to bets (attached to a season).
    IsBet,
    /// The game has odds, and may thus become a bet.
    HasOdds,
}

/// The abstract value of a [`GameCondition`].
pub enum GameConditionView {
    LeagueIn(Seq<u32>),
    HomeTeamIn(Seq<u32>),
    AwayTeamIn(Seq<u32>),
    IsBet,
    HasOdds,
}

impl View for GameCondition {
    type V = GameConditionView;

    open spec fn view(&self) -> GameConditionView {
        match self {
            GameCondition::LeagueIn(v) => GameConditionView::LeagueIn(v@),
            GameCondition::HomeTeamIn(v) => GameConditionView::HomeTeamIn(v@),
            GameCondition::AwayTeamIn(v) => GameConditionView::AwayTeamIn(v@),
            GameCondition::IsBet => GameConditionView::IsBet,
            GameCondition::HasOdds => GameConditionView::HasOdds,
        }
    }
}

/// The description of a game lookup, for the storage layer to run.
#[derive(Debug, Clone)]
pub struct GameQuery {
    /// A pattern that the date of the game must match.
    pub date_pattern: Option<String>,
    /// The alternatives, of which a game must match one; no restriction when
    /// empty.
    pub any_of: Vec<GameCondition>,
    /// The conditions that a game must match, all of them.
    pub all_of: Vec<GameCondition>,
    /// The maximum number of games returned.
    pub limit: Option<i64>,
}

/// The abstract value of a game lookup builder.
pub struct EntityBuilderView {
    pub date: Option<Seq<char>>,
    pub leagues: Option<Seq<u32>>,
    pub clubs: Option<Seq<u32>>,
    pub bets: bool,
    pub potential_bets: bool,
    pub limit: Option<i64>,
}

/// Builds a lookup of games.
#[derive(Default, Hash, Debug)]
pub struct EntityBuilder {
    /// Look up for a specific date, as YYYY-MM-DD.
    date: Option<String>,
    /// Restrict results to leagues whose id is contained in this field.
    leagues: Option<Vec<u32>>,
    /// Restrict results to games of these clubs.
    clubs: Option<Vec<u32>>,
    /// Look up only for bets.
    bets: bool,
    /// Look up only for potential bets (games with odds).
    potential_bets: bool,
    /// Limit the results returned.
    limit: Option<i64>,
}

impl View for EntityBuilder {
    type V = EntityBuilderView;

    closed spec fn view(&self) -> EntityBuilderView {
        EntityBuilderView {
            date: match self.date { Some(d) => Some(d@), None => None },
            leagues: match self.leagues { Some(l) => Some(l@), None => None },
            clubs: match self.clubs { Some(c) => Some(c@), None => None },
            bets: self.bets,
            potential_bets: self.potential_bets,
            limit: self.limit,
        }
    }
}

/// The alternatives of the lookup described by a builder: a game played
/// at home or away by one of the clubs matches.
pub open spec fn alternatives_of(b: EntityBuilderView) -> Seq<GameConditionView> {
    match b.clubs {
        Some(c) => seq![GameConditionView::HomeTeamIn(c), GameConditionView::AwayTeamIn(c)],
        None => Seq::empty(),
    }
}

/// The restrictions of the lookup described by a builder, in order, which
/// every game returned meets: being in one of the leagues when leagues are
/// given, being a bet when only bets are asked for, having odds when only
/// potential bets are asked for.
pub open spec fn requirements_of(b: EntityBuilderView) -> Seq<GameConditionView> {
    (match b.leagues { Some(l) => seq![GameConditionView::LeagueIn(l)], None => Seq::empty() })
    + (if b.bets { seq![GameConditionView::IsBet] } else { Seq::empty() })
    + (if b.potential_bets { seq![GameConditionView::HasOdds] } else { Seq::empty() })
}

impl EntityBuilder {
    /// A builder with no restriction.
    pub fn build() -> (b: EntityBuilder)
        ensures
            b@ == (EntityBuilderView { date: None, leagues: None, clubs: None, bets: false, potential_bets: false, limit: None }),
    {
        EntityBuilder { date: None, leagues: None, clubs: None, bets: false, potential_bets: false, limit: None }
    }

    /// Look up for a specific date, passed as YYYY-MM-DD.
    pub fn date(&mut self, date: &str) -> (r: &mut Self)
        ensures
            r@ == (EntityBuilderView { date: Some(date@), ..old(self)@ }),
            final(self)@ == final(r)@,
    {
        self.date = Some(String::from_str(date));
        self
    }

    /// Restrict results to leagues whose id is contained in this field.
    pub fn leagues(&mut self, leagues: Vec<u32>) -> (r: &mut Self)
        ensures
            r@ == (EntityBuilderView { leagues: Some(leagues@), ..old(self)@ }),
            final(self)@ == final(r)@,
    {
        self.leagues = Some(leagues);
        self
    }

    /// Restrict the results to the games of these clubs.
    pub fn clubs(&mut self, clubs: Vec<u32>) -> (r: &mut Self)
        ensures
            r@ == (EntityBuilderView { clubs: Some(clubs@), ..old(self)@ }),
            final(self)@ == final(r)@,
    {
        self.clubs = Some(clubs);
        self
    }

    /// Look up only for bets when true.
    pub fn bets(&mut self, bets: bool) -> (r: &mut Self)
        ensures
            r@ == (EntityBuilderView { bets, ..old(self)@ }),
            final(self)@ == final(r)@,
    {
        self.bets = bets;
        self
    }

    /// Look up only for potential bets when true (the bets included).
    pub fn potential_bets(&mut self, potential_bets: bool) -> (r: &mut Self)
        ensures
            r@ == (EntityBuilderView { potential_bets, ..old(self)@ }),
            final(self)@ == final(r)@,
    {
        self.potential_bets = potential_bets;
        self
    }

    /// Limit the results.
    pub fn limit(&mut self, limit: i64) -> (r: &mut Self)
        ensures
            r@ == (EntityBuilderView { limit: Some(limit), ..old(self)@ }),
            final(self)@ == final(r)@,
    {
        self.limit = Some(limit);
        self
    }

    /// The lookup that the builder describes: the games of the date, in one
    /// of the leagues, played by one of the clubs, restricted to bets or to
    /// potential bets when asked; each filter that is set restricts the
    /// results.
    pub fn query(&self) -> (q: GameQuery)
        ensures
            q.date_pattern.is_some() == self@.date.is_some(),
            q.date_pattern matches Some(d) ==> self@.date == Some(d@),
            q.any_of@.map_values(|c: GameCondition| c@) == alternatives_of(self@),
            q.all_of@.map_values(|c: GameCondition| c@) == requirements_of(self@),
            q.limit == self@.limit,
    {
        let ghost b = self@;
        let mut any_of: Vec<GameCondition> = Vec::new();
        if let Some(clubs) = &self.clubs {
            any_of.push(GameCondition::HomeTeamIn(crate::search::copy_ids(clubs)));
            any_of.push(GameCondition::AwayTeamIn(crate::search::copy_ids(clubs)));
        }
        assert(any_of@.map_values(|c: GameCondition| c@) =~= alternatives_of(b));
        let mut all_of: Vec<GameCondition> = Vec::new();
        if let Some(leagues) = &self.leagues {
            all_of.push(GameCondition::LeagueIn(crate::search::copy_ids(leagues)));
        }
        let ghost after_leagues = all_of@.map_values(|c: GameCondition| c@);
        assert(after_leagues =~= (match b.leagues { Some(l) => seq![GameConditionView::LeagueIn(l)], None => Seq::<GameConditionView>::empty() }));
        if self.bets {
            all_of.push(GameCondition::IsBet);
        }
        let ghost after_bets = all_of@.map_values(|c: GameCondition| c@);
        assert(after_bets =~= after_leagues + (if b.bets { seq![GameConditionView::IsBet] } else { Seq::<GameConditionView>::empty() }));
        if self.potential_bets {
            all_of.push(GameCondition::HasOdds);
        }
        assert(all_of@.map_values(|c: GameCondition| c@) =~= after_bets
            + (if b.potential_bets { seq![GameConditionView::HasOdds] } else { Seq::<GameConditionView>::empty() }));
        let date_pattern = match &self.date {
            Some(d) => Some(d.clone()),
            None => None,
        };
        GameQuery { date_pattern, any_of, all_of, limit: self.limit }
    }
}

/// What a game lookup restricts, whatever the other filters: only bets when
/// bets are asked for, only games with odds when potential bets are asked
/// for, only the given leagues when leagues are given, and, when clubs are
/// given, the games those clubs play at home or away; nothing else.
pub proof fn lemma_lookup_restrictions(b: EntityBuilderView)
    ensures
        b.bets <==> requirements_of(b).contains(GameConditionView::IsBet),
        b.potential_bets <==> requirements_of(b).contains(GameConditionView::HasOdds),
        forall|l: Seq<u32>| requirements_of(b).contains(GameConditionView::LeagueIn(l)) <==> b.leagues == Some(l),
        forall|c: Seq<u32>| alternatives_of(b).contains(GameConditionView::HomeTeamIn(c)) <==> b.clubs == Some(c),
        forall|c: Seq<u32>| alternatives_of(b).contains(GameConditionView::AwayTeamIn(c)) <==> b.clubs == Some(c),
        forall|i: int| 0 <= i < alternatives_of(b).len() ==>
            (#[trigger] alternatives_of(b)[i]) is HomeTeamIn || alternatives_of(b)[i] is AwayTeamIn,
        forall|i: int| 0 <= i < requirements_of(b).len() ==>
            (#[trigger] requirements_of(b)[i]) is LeagueIn || requirements_of(b)[i] is IsBet || requirements_of(b)[i] is HasOdds,
{
    let r = requirements_of(b);
    let lp: Seq<GameConditionView> = match b.leagues { Some(l) => seq![GameConditionView::LeagueIn(l)], None => Seq::empty() };
    let bp: Seq<GameConditionView> = if b.bets { seq![GameConditionView::IsBet] } else { Seq::empty() };
    let op: Seq<GameConditionView> = if b.potential_bets { seq![GameConditionView::HasOdds] } else { Seq::empty() };
    assert(r == lp + bp + op);
    if b.bets {
        assert(r[lp.len() as int] == GameConditionView::IsBet);
    }
    if b.potential_bets {
        assert(r[(lp.len() + bp.len()) as int] == GameConditionView::HasOdds);
    }
    if let Some(l) = b.leagues {
        assert(r[0] == GameConditionView::LeagueIn(l));
    }
    assert forall|i: int| 0 <= i < r.len() implies
        (#[trigger] r[i]) is LeagueIn || r[i] is IsBet || r[i] is HasOdds by {
        if i < lp.len() {
            assert(r[i] == lp[i]);
        } else if i < lp.len() + bp.len() {
            assert(r[i] == bp[i - lp.len()]);
        } else {
            assert(r[i] == op[i - lp.len() - bp.len()]);
        }
    }
    assert forall|l: Seq<u32>| r.contains(GameConditionView::LeagueIn(l)) implies b.leagues == Some(l) by {
        let i = choose|i: int| 0 <= i < r.len() && r[i] == GameConditionView::LeagueIn(l);
        if i < lp.len() {
            assert(r[i] == lp[i]);
        } else if i < lp.len() + bp.len() {
            assert(r[i] == bp[i - lp.len()]);
        } else {
            assert(r[i] == op[i - lp.len() - bp.len()]);
        }
    }
    if r.contains(GameConditionView::IsBet) {
        let i = choose|i: int| 0 <= i < r.len() && r[i] == GameConditionView::IsBet;
        if i < lp.len() {
            assert(r[i] == lp[i]);
        } else if i < lp.len() + bp.len() {
            assert(r[i] == bp[i - lp.len()]);
        } else {
            assert(r[i] == op[i - lp.len() - bp.len()]);
        }
    }
    if r.contains(GameConditionView::HasOdds) {
        let i = choose|i: int| 0 <= i < r.len() && r[i] == GameConditionView::HasOdds;
        if i < lp.len() {
            assert(r[i] == lp[i]);
        } else if i < lp.len() + bp.len() {
            assert(r[i] == bp[i - lp.len()]);
        } else {
            assert(r[i] == op[i - lp.len() - bp.len()]);
        }
    }
    let a = alternatives_of(b);
    if let Some(c) = b.clubs {
        assert(a[0] == GameConditionView::HomeTeamIn(c));
        assert(a[1] == GameConditionView::AwayTeamIn(c));
        assert forall|c2: Seq<u32>| a.contains(GameConditionView::HomeTeamIn(c2)) implies c2 == c by {
            let i = choose|i: int| 0 <= i < a.len() && a[i] == GameConditionView::HomeTeamIn(c2);
            assert(i == 0 || i == 1);
        }
        assert forall|c2: Seq<u32>| a.contains(GameConditionView::AwayTeamIn(c2)) implies c2 == c by {
            let i = choose|i: int| 0 <= i < a.len() && a[i] == GameConditionView::AwayTeamIn(c2);
            assert(i == 0 || i == 1);
        }
    } else {
        assert(a.len() == 0);
    }
}

} // verus!
