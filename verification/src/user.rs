//! A user of the application: identified by his id, uuid or login, with a
//! role that bounds what he may do and a locale for the texts he reads.
//!
//! The favourite leagues and clubs of a user are cached as JSON lists of
//! ids; the pages of the user list are cached per requester role.

use vstd::prelude::*;
use vstd::string::*;
use crate::error::ApplicationError;
use crate::json::{json_id_list, json_of_id_list, parse_id_list, write_id_list};
use crate::sql::{SqlParam, SqlQuery};
use crate::text::{decimal, push_decimal};

verus! {

/// A user.
#[derive(Clone, Debug, PartialEq, Default)]
pub struct Model {
    /// His id.
    pub id: u32,
    /// His uuid, used for modifications to mitigate right escalation.
    pub uuid: String,
    /// His displayed name.
    pub name: String,
    /// His login.
    pub login: String,
    /// His encrypted password.
    pub password: String,
    /// Whether he may use the application.
    pub is_authorized: bool,
    /// His locale.
    pub locale_id: u32,
    /// His role.
    pub role_id: u32,
}

/// The description of a user: his id, name and login.
pub open spec fn user_description(m: Model) -> Seq<char> {
    "#"@ + decimal(m.id as nat) + " named "@ + m.name@ + " with login "@ + m.login@
}

impl Model {
    /// Describes the user by his id, name and login.
    pub fn describe(&self) -> (s: String)
        ensures
            s@ == user_description(*self),
    {
        let mut s = String::from_str("#");
        push_decimal(&mut s, self.id as u64);
        s.append(" named ");
        s.append(self.name.as_str());
        s.append(" with login ");
        s.append(self.login.as_str());
        s
    }
}

/// The cache key of the favourite leagues of a user.
pub open spec fn fav_leagues_key(id: u32) -> Seq<char> {
    "fav_leagues:"@ + decimal(id as nat)
}

/// The cache key of the favourite clubs of a user.
pub open spec fn fav_clubs_key(id: u32) -> Seq<char> {
    "fav_clubs:"@ + decimal(id as nat)
}

/// The favourites of a user: his leagues or his clubs.
#[derive(Debug, Clone, Copy, PartialEq, Eq, Structural)]
pub enum FavoriteKind {
    /// His favourite leagues.
    League,
    /// His favourite clubs.
    Club,
}

/// The cache key of the favourites of a kind of a user.
pub open spec fn favorites_key(kind: FavoriteKind, id: u32) -> Seq<char> {
    match kind {
        FavoriteKind::League => fav_leagues_key(id),
        FavoriteKind::Club => fav_clubs_key(id),
    }
}

/// The statement reading the favourite leagues of a user.
pub const FAV_LEAGUES_SQL: &'static str = "SELECT league_id FROM USER_LEAGUE WHERE user_id=?";
/// The statement reading the favourite clubs of a user.
pub const FAV_CLUBS_SQL: &'static str = "SELECT club_id FROM USER_CLUB WHERE user_id=?";
/// The statement adding a favourite league to a user.
pub const ADD_FAV_LEAGUE_SQL: &'static str = "INSERT INTO USER_LEAGUE(user_id, league_id) VALUES(?,?)";
/// The statement removing a favourite league from a user.
pub const REMOVE_FAV_LEAGUE_SQL: &'static str = "DELETE FROM USER_LEAGUE WHERE user_id=? AND league_id=?";
/// The statement adding a favourite club to a user.
pub const ADD_FAV_CLUB_SQL: &'static str = "INSERT INTO USER_CLUB(user_id, club_id) VALUES(?,?)";
/// The statement removing a favourite club from a user.
pub const REMOVE_FAV_CLUB_SQL: &'static str = "DELETE FROM USER_CLUB WHERE user_id=? AND club_id=? LIMIT 1";

/// The statement reading the favourites of a kind; its value is the user.
pub open spec fn favorites_read_sql(kind: FavoriteKind) -> Seq<char> {
    match kind {
        FavoriteKind::League => FAV_LEAGUES_SQL@,
        FavoriteKind::Club => FAV_CLUBS_SQL@,
    }
}

/// The statement adding or removing a favourite of a kind; its values are
/// the user, then the league or club.
pub open spec fn favorite_change_sql(kind: FavoriteKind, add: bool) -> Seq<char> {
    match (kind, add) {
        (FavoriteKind::League, true) => ADD_FAV_LEAGUE_SQL@,
        (FavoriteKind::League, false) => REMOVE_FAV_LEAGUE_SQL@,
        (FavoriteKind::Club, true) => ADD_FAV_CLUB_SQL@,
        (FavoriteKind::Club, false) => REMOVE_FAV_CLUB_SQL@,
    }
}

/// A change of the favourites of a user: the statement to run, then the
/// cache key to drop.
#[derive(Debug, Clone)]
pub struct FavoriteChange {
    /// The statement adding or removing the favourite.
    pub query: SqlQuery,
    /// The cache key dropped once the statement has run.
    pub cleared_key: String,
}

/// What a read of the favourites under `key` gives, given what the cache
/// holds and the rows stored: the list cached under the key when there is
/// one (nothing when the cached text is not a list), the rows otherwise.
pub open spec fn favorites_read(cache: Map<Seq<char>, Seq<char>>, key: Seq<char>, rows: Seq<u32>) -> Option<Seq<u32>> {
    if cache.contains_key(key) {
        json_id_list(cache[key])
    } else {
        Some(rows)
    }
}

/// A change of the favourites of a user is seen by the next read: the key
/// that [`Entity::favorite_change`] drops is the one the read looks up, so
/// whatever the cache held, the read gives the rows stored.
pub proof fn lemma_favorite_change_is_seen(kind: FavoriteKind, user_id: u32, cache: Map<Seq<char>, Seq<char>>, rows: Seq<u32>)
    ensures
        favorites_read(cache.remove(favorites_key(kind, user_id)), favorites_key(kind, user_id), rows) == Some(rows),
{
}

/// The cache key of a page of the users listed for a requester role.
pub open spec fn users_page_key(role: u32, per_page: u32, page: u32) -> Seq<char> {
    "users:"@ + decimal(role as nat) + "::"@ + decimal(per_page as nat) + "::"@ + decimal(page as nat)
}

/// The pattern of the cache keys of all user pages, cleared whenever a user
/// changes.
pub const USERS_CACHE_PATTERN: &'static str = "users:*";

/// The store of users.
pub struct Entity;

impl Entity {
    /// The cache key of the favourite leagues of a user.
    pub fn fav_leagues_key(id: u32) -> (k: String)
        ensures
            k@ == fav_leagues_key(id),
    {
        let mut k = String::from_str("fav_leagues:");
        push_decimal(&mut k, id as u64);
        k
    }

    /// The cache key of the favourite clubs of a user.
    pub fn fav_clubs_key(id: u32) -> (k: String)
        ensures
            k@ == fav_clubs_key(id),
    {
        let mut k = String::from_str("fav_clubs:");
        push_decimal(&mut k, id as u64);
        k
    }

    /// The cache key of the favourites of a kind of a user.
    pub fn favorites_key(kind: FavoriteKind, id: u32) -> (k: String)
        ensures
            k@ == favorites_key(kind, id),
    {
        match kind {
            FavoriteKind::League => Self::fav_leagues_key(id),
            FavoriteKind::Club => Self::fav_clubs_key(id),
        }
    }

    /// The statement reading the favourites of a kind of a user.
    pub fn favorites_query(kind: FavoriteKind, id: u32) -> (q: SqlQuery)
        ensures
            q.sql@ == favorites_read_sql(kind),
            q.params@ == seq![SqlParam::U32(id)],
    {
        let sql = match kind {
            FavoriteKind::League => String::from_str(FAV_LEAGUES_SQL),
            FavoriteKind::Club => String::from_str(FAV_CLUBS_SQL),
        };
        let mut params: Vec<SqlParam> = Vec::new();
        params.push(SqlParam::U32(id));
        assert(params@ =~= seq![SqlParam::U32(id)]);
        SqlQuery { sql, params }
    }

    /// Adding (or removing) `other_id` to (from) the favourites of a kind of
    /// a user: the statement, then the cache key of his favourites to drop.
    pub fn favorite_change(kind: FavoriteKind, add: bool, user_id: u32, other_id: u32) -> (c: FavoriteChange)
        ensures
            c.query.sql@ == favorite_change_sql(kind, add),
            c.query.params@ == seq![SqlParam::U32(user_id), SqlParam::U32(other_id)],
            c.cleared_key@ == favorites_key(kind, user_id),
    {
        let sql = match (kind, add) {
            (FavoriteKind::League, true) => String::from_str(ADD_FAV_LEAGUE_SQL),
            (FavoriteKind::League, false) => String::from_str(REMOVE_FAV_LEAGUE_SQL),
            (FavoriteKind::Club, true) => String::from_str(ADD_FAV_CLUB_SQL),
            (FavoriteKind::Club, false) => String::from_str(REMOVE_FAV_CLUB_SQL),
        };
        let mut params: Vec<SqlParam> = Vec::new();
        params.push(SqlParam::U32(user_id));
        params.push(SqlParam::U32(other_id));
        assert(params@ =~= seq![SqlParam::U32(user_id), SqlParam::U32(other_id)]);
        FavoriteChange { query: SqlQuery { sql, params }, cleared_key: Self::favorites_key(kind, user_id) }
    }

    /// The cache key of a page of the users listed for a requester role.
    pub fn users_page_key(role: u32, per_page: u32, page: u32) -> (k: String)
        ensures
            k@ == users_page_key(role, per_page, page),
    {
        let mut k = String::from_str("users:");
        push_decimal(&mut k, role as u64);
        k.append("::");
        push_decimal(&mut k, per_page as u64);
        k.append("::");
        push_decimal(&mut k, page as u64);
        k
    }

    /// The offset of the first user of a page.
    pub fn page_offset(per_page: u32, page: u32) -> (offset: u32)
        requires
            per_page * page <= u32::MAX,
        ensures
            offset == per_page * page,
    {
        per_page * page
    }

    /// Reads a cached list of favourite ids: nothing cached gives `None`, a
    /// cached list its ids, and a cached text that is not a list of ids a
    /// serialisation error.
    pub fn favorites_from_cache(cached: Option<String>) -> (r: Result<Option<Vec<u32>>, ApplicationError>)
        ensures
            match cached {
                None => r matches Ok(None),
                Some(text) => match json_id_list(text@) {
                    Some(ids) => r matches Ok(Some(v)) && v@ == ids,
                    None => r matches Err(ApplicationError::SerialError),
                },
            },
    {
        match cached {
            None => Ok(None),
            Some(text) => match parse_id_list(text.as_str()) {
                Ok(ids) => Ok(Some(ids)),
                Err(e) => Err(ApplicationError::from(e)),
            },
        }
    }

    /// The text cached for a list of favourite ids: its JSON array, which
    /// [`Entity::favorites_from_cache`] reads back as the same list.
    pub fn favorites_cache_value(ids: &Vec<u32>) -> (s: String)
        ensures
            s@ == json_of_id_list(ids@),
            json_id_list(s@) == Some(ids@),
    {
        match write_id_list(ids) {
            Ok(s) => s,
            Err(_) => String::new(),
        }
    }
}

/// The favourite leagues and clubs of a user are cached under different keys.
pub proof fn lemma_favorite_keys_differ(a: u32, b: u32)
    ensures
        fav_leagues_key(a) != fav_clubs_key(b),
{
    reveal_strlit("fav_leagues:");
    reveal_strlit("fav_clubs:");
    assert(fav_leagues_key(a)[4] == 'l');
    assert(fav_clubs_key(b)[4] == 'c');
}

} // verus!
