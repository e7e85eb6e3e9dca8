//! A season gathers the bets users made during a period of time; one season
//! is the main one, and closed seasons take no more bets.

use vstd::prelude::*;
use vstd::string::*;
use crate::sql::{SqlParam, SqlQuery};

verus! {

/// A season.
#[derive(Clone, Debug, PartialEq, Eq, Hash)]
pub struct Model {
    /// Its id.
    pub id: u32,
    /// Its name, unique among the seasons.
    pub name: String,
    /// Whether it is the season new bets are attached to.
    pub is_main: bool,
    /// Whether it is closed to new bets.
    pub is_closed: bool,
}

/// The store of seasons.
pub struct Entity;

/// The abstract value of a season lookup builder.
pub struct EntityBuilderView {
    pub is_main: Option<bool>,
    pub is_closed: Option<bool>,
}

/// Builds a lookup of seasons.
#[derive(Default, Hash, Debug)]
pub struct EntityBuilder {
    /// Whether to include or exclude the main season.
    is_main: Option<bool>,
    /// Whether to include or exclude the closed seasons.
    is_closed: Option<bool>,
}

impl View for EntityBuilder {
    type V = EntityBuilderView;

    closed spec fn view(&self) -> EntityBuilderView {
        EntityBuilderView { is_main: self.is_main, is_closed: self.is_closed }
    }
}

/// The text of the season lookup: the table, then a filter clause when any
/// filter is set, with one placeholder per filter (closed first) and the two
/// joined by `AND`, then the ordering: the main season first, then by name
/// descending.
pub open spec fn season_query_text(b: EntityBuilderView) -> Seq<char> {
    "SELECT * FROM SEASON"@
    + (if b.is_closed is Some || b.is_main is Some {
        "\nWHERE"@
        + (if b.is_closed is Some { "\n\tis_closed="@ + "?"@ } else { Seq::empty() })
        + (if b.is_closed is Some && b.is_main is Some { " AND"@ } else { Seq::empty() })
        + (if b.is_main is Some { "\n\tis_main="@ + "?"@ } else { Seq::empty() })
    } else {
        Seq::empty()
    })
    + "\nORDER BY is_main DESC, name DESC"@
}

/// The values bound by the season lookup: the closed filter, then the main
/// filter, each when set.
pub open spec fn season_query_params(b: EntityBuilderView) -> Seq<SqlParam> {
    (match b.is_closed { Some(c) => seq![SqlParam::Bool(c)], None => Seq::empty() })
    + (match b.is_main { Some(m) => seq![SqlParam::Bool(m)], None => Seq::empty() })
}

impl EntityBuilder {
    /// A builder with no filter.
    pub fn build() -> (b: EntityBuilder)
        ensures
            b@ == (EntityBuilderView { is_main: None, is_closed: None }),
    {
        EntityBuilder { is_main: None, is_closed: None }
    }

    /// Whether to include or exclude the main season.
    pub fn is_main(&mut self, is_main: Option<bool>) -> (r: &mut Self)
        ensures
            r@ == (EntityBuilderView { is_main, ..old(self)@ }),
            final(self)@ == final(r)@,
    {
        self.is_main = is_main;
        self
    }

    /// Whether to include or exclude the closed seasons.
    pub fn is_closed(&mut self, is_closed: Option<bool>) -> (r: &mut Self)
        ensures
            r@ == (EntityBuilderView { is_closed, ..old(self)@ }),
            final(self)@ == final(r)@,
    {
        self.is_closed = is_closed;
        self
    }

    /// The statement that looks the seasons up.
    pub fn query(&self) -> (q: SqlQuery)
        ensures
            q.sql@ == season_query_text(self@),
            q.params@ == season_query_params(self@),
    {
        let mut sql = String::from_str("SELECT * FROM SEASON");
        let mut params: Vec<SqlParam> = Vec::new();
        let ghost b = self@;
        if self.is_closed.is_some() || self.is_main.is_some() {
            sql.append("\nWHERE");
            if let Some(is_closed) = self.is_closed {
                sql.append("\n\tis_closed=");
                sql.append("?");
                params.push(SqlParam::Bool(is_closed));
            }
            if self.is_closed.is_some() && self.is_main.is_some() {
                sql.append(" AND");
            }
            if let Some(is_main) = self.is_main {
                sql.append("\n\tis_main=");
                sql.append("?");
                params.push(SqlParam::Bool(is_main));
            }
        }
        sql.append("\nORDER BY is_main DESC, name DESC");
        assert(sql@ =~= season_query_text(b));
        assert(params@ =~= season_query_params(b));
        SqlQuery { sql, params }
    }
}

/// The season lookup binds exactly one value per filter that is set, so its
/// placeholders and values always agree; it filters at all exactly when some
/// filter is set.
pub proof fn lemma_season_query_params(b: EntityBuilderView)
    ensures
        season_query_params(b).len() == (if b.is_closed is Some { 1int } else { 0 }) + (if b.is_main is Some { 1int } else { 0 }),
        (b.is_closed is None && b.is_main is None) ==> season_query_text(b) == "SELECT * FROM SEASON"@ + "\nORDER BY is_main DESC, name DESC"@,
{
    if b.is_closed is None && b.is_main is None {
        assert(season_query_text(b) =~= "SELECT * FROM SEASON"@ + "\nORDER BY is_main DESC, name DESC"@);
    }
}

} // verus!
