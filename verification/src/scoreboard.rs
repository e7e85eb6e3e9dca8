//! The scoreboard ranks the users by the points their bets earned, over one
//! season or over all seasons.

use vstd::prelude::*;
use vstd::string::*;
use crate::sql::{SqlParam, SqlQuery};

verus! {

/// The season a scoreboard covers.
#[derive(Debug, Clone, Copy, PartialEq, Eq, Structural)]
pub enum SeasonSelection {
    /// The given season.
    Season(u32),
    /// Every season.
    AllTime,
    /// The current (main, open) season, to be looked up.
    Current,
}

/// The abstract value of a scoreboard builder.
pub struct EntityBuilderView {
    pub season_id: Option<u32>,
    pub all_time: bool,
    pub limit: Option<u32>,
}

impl EntityBuilderView {
    /// A scoreboard never covers a given season and all seasons at once.
    pub open spec fn wf(self) -> bool {
        !(self.season_id is Some && self.all_time)
    }

    /// The season that the scoreboard covers.
    pub open spec fn selection(self) -> SeasonSelection {
        match (self.season_id, self.all_time) {
            (Some(v), false) => SeasonSelection::Season(v),
            (None, true) => SeasonSelection::AllTime,
            _ => SeasonSelection::Current,
        }
    }
}

/// Builds a scoreboard lookup.
#[derive(Default, Hash, Debug)]
pub struct EntityBuilder {
    season_id: Option<u32>,
    all_time: bool,
    limit: Option<u32>,
}

impl View for EntityBuilder {
    type V = EntityBuilderView;

    closed spec fn view(&self) -> EntityBuilderView {
        EntityBuilderView { season_id: self.season_id, all_time: self.all_time, limit: self.limit }
    }
}

/// The text of the scoreboard statement: the points, bets made and points
/// per bet of each user, restricted to a season when one is given, best
/// first, limited when a limit is given.
pub open spec fn scoreboard_query_text(season: Option<u32>, limit: Option<u32>) -> Seq<char> {
    "SELECT ub.user_id, usr.name as `user_name`, IF(SUM(outcome) IS NULL, 0, SUM(outcome)) AS `points`, COUNT(*) AS `bets_made`, TRUNCATE(IF(SUM(OUTCOME) IS NULL, 0, SUM(OUTCOME))/COUNT(*),2) as `ppb`"@
    + "\nFROM `USER_BET`ub INNER JOIN USER usr ON ub.user_id = usr.id"@
    + (if season is Some { "\nWHERE season_id="@ + "?"@ } else { Seq::empty() })
    + "\nGROUP BY user_id"@
    + "\nORDER BY points DESC"@
    + (if limit is Some { "\nLIMIT "@ + "?"@ } else { Seq::empty() })
}

/// The values bound by the scoreboard statement: the season, then the limit,
/// each when given.
pub open spec fn scoreboard_query_params(season: Option<u32>, limit: Option<u32>) -> Seq<SqlParam> {
    (match season { Some(s) => seq![SqlParam::U32(s)], None => Seq::empty() })
    + (match limit { Some(l) => seq![SqlParam::U32(l)], None => Seq::empty() })
}

impl EntityBuilder {
    /// A builder for the current season, without limit.
    pub fn build() -> (b: EntityBuilder)
        ensures
            b@ == (EntityBuilderView { season_id: None, all_time: false, limit: None }),
            b@.wf(),
    {
        EntityBuilder { season_id: None, all_time: false, limit: None }
    }

    /// Restricts the scoreboard to a season; it then no longer covers all
    /// seasons.
    pub fn season_id(&mut self, season_id: u32) -> (r: &mut Self)
        ensures
            r@ == (EntityBuilderView { season_id: Some(season_id), all_time: false, limit: old(self)@.limit }),
            r@.wf(),
            final(self)@ == final(r)@,
    {
        self.season_id = Some(season_id);
        self.all_time = false;
        self
    }

    /// Makes the scoreboard cover all seasons (or the current one when
    /// false); any given season is dropped.
    pub fn all_time(&mut self, all_time: bool) -> (r: &mut Self)
        ensures
            r@ == (EntityBuilderView { season_id: None, all_time, limit: old(self)@.limit }),
            r@.wf(),
            final(self)@ == final(r)@,
    {
        self.all_time = all_time;
        self.season_id = None;
        self
    }

    /// Limits the number of entries.
    pub fn limit(&mut self, limit: Option<u32>) -> (r: &mut Self)
        ensures
            r@ == (EntityBuilderView { limit, ..old(self)@ }),
            final(self)@ == final(r)@,
    {
        self.limit = limit;
        self
    }

    /// The season the scoreboard covers.
    pub fn selection(&self) -> (s: SeasonSelection)
        ensures
            s == self@.selection(),
    {
        match (self.season_id, self.all_time) {
            (Some(v), false) => SeasonSelection::Season(v),
            (None, true) => SeasonSelection::AllTime,
            _ => SeasonSelection::Current,
        }
    }

    /// The statement that computes the scoreboard, once the season is
    /// resolved (`None` for all seasons).
    pub fn query(&self, season: Option<u32>) -> (q: SqlQuery)
        ensures
            q.sql@ == scoreboard_query_text(season, self@.limit),
            q.params@ == scoreboard_query_params(season, self@.limit),
    {
        let mut sql = String::from_str(
            "SELECT ub.user_id, usr.name as `user_name`, IF(SUM(outcome) IS NULL, 0, SUM(outcome)) AS `points`, COUNT(*) AS `bets_made`, TRUNCATE(IF(SUM(OUTCOME) IS NULL, 0, SUM(OUTCOME))/COUNT(*),2) as `ppb`");
        let mut params: Vec<SqlParam> = Vec::new();
        sql.append("\nFROM `USER_BET`ub INNER JOIN USER usr ON ub.user_id = usr.id");
        if let Some(season_id) = season {
            sql.append("\nWHERE season_id=");
            sql.append("?");
            params.push(SqlParam::U32(season_id));
        }
        sql.append("\nGROUP BY user_id");
        sql.append("\nORDER BY points DESC");
        if let Some(limit) = self.limit {
            sql.append("\nLIMIT ");
            sql.append("?");
            params.push(SqlParam::U32(limit));
        }
        assert(sql@ =~= scoreboard_query_text(season, self@.limit));
        assert(params@ =~= scoreboard_query_params(season, self@.limit));
        SqlQuery { sql, params }
    }
}

/// Whatever was set last decides the season: a given season after
/// `season_id`, all seasons after `all_time(true)`, the current season after
/// `all_time(false)`.
pub proof fn lemma_selection_after_setters(b: EntityBuilderView, v: u32, all: bool)
    ensures
        (EntityBuilderView { season_id: Some(v), all_time: false, limit: b.limit }).selection() == SeasonSelection::Season(v),
        (EntityBuilderView { season_id: None, all_time: all, limit: b.limit }).selection()
            == (if all { SeasonSelection::AllTime } else { SeasonSelection::Current }),
{
}

/// The scoreboard ranks users by the points their bets earned: the
/// statement selects, per user, the sum of the outcomes of his bets (0 when
/// none has an outcome yet) as his points, and orders by those points,
/// highest first; whether a season or a limit is given does not change that.
pub proof fn lemma_scoreboard_ranks_by_points(season: Option<u32>, limit: Option<u32>)
    ensures
        ("SELECT ub.user_id, usr.name as `user_name`, IF(SUM(outcome) IS NULL, 0, SUM(outcome)) AS `points`"@)
            .is_prefix_of(scoreboard_query_text(season, limit)),
        exists|i: int| 0 <= i && #[trigger] scoreboard_query_text(season, limit).subrange(i, i + ("\nORDER BY points DESC"@).len())
            == "\nORDER BY points DESC"@,
{
    let select = "SELECT ub.user_id, usr.name as `user_name`, IF(SUM(outcome) IS NULL, 0, SUM(outcome)) AS `points`, COUNT(*) AS `bets_made`, TRUNCATE(IF(SUM(OUTCOME) IS NULL, 0, SUM(OUTCOME))/COUNT(*),2) as `ppb`"@;
    let points = "SELECT ub.user_id, usr.name as `user_name`, IF(SUM(outcome) IS NULL, 0, SUM(outcome)) AS `points`"@;
    let from = "\nFROM `USER_BET`ub INNER JOIN USER usr ON ub.user_id = usr.id"@;
    let filter = if season is Some { "\nWHERE season_id="@ + "?"@ } else { Seq::<char>::empty() };
    let group = "\nGROUP BY user_id"@;
    let order = "\nORDER BY points DESC"@;
    let lim = if limit is Some { "\nLIMIT "@ + "?"@ } else { Seq::<char>::empty() };
    reveal_strlit("SELECT ub.user_id, usr.name as `user_name`, IF(SUM(outcome) IS NULL, 0, SUM(outcome)) AS `points`, COUNT(*) AS `bets_made`, TRUNCATE(IF(SUM(OUTCOME) IS NULL, 0, SUM(OUTCOME))/COUNT(*),2) as `ppb`");
    reveal_strlit("SELECT ub.user_id, usr.name as `user_name`, IF(SUM(outcome) IS NULL, 0, SUM(outcome)) AS `points`");
    let text = scoreboard_query_text(season, limit);
    assert(text == select + from + filter + group + order + lim);
    assert(points =~= select.subrange(0, points.len() as int));
    assert(points =~= text.subrange(0, points.len() as int));
    let i = (select + from + filter + group).len() as int;
    assert(text.subrange(i, i + order.len()) =~= order);
}

} // verus!
