//! The pieces of a game as the remote API describes them, restricted to what
//! the rules read: the status of a game, its goals and scores, the venue, the
//! bookmakers' bets and the users who bet.

use vstd::prelude::*;
use vstd::string::*;
use crate::bet::GameResult;

verus! {

/// A venue is a place where a game is played.
#[derive(Debug, Clone)]
pub struct Venue {
    /// Its in base id.
    pub id: Option<u32>,
    /// The venue name.
    pub name: Option<String>,
    /// The city of the venue.
    pub city: Option<String>,
}

/// The status of a game, as its short code.
#[derive(Debug, Clone, Copy, PartialEq, Eq, Structural)]
pub enum ShortStatus {
    /// To be defined: the play date is unknown yet.
    Tbd,
    /// Not started: the play date is known.
    Ns,
    /// First half.
    Fh,
    /// Half time.
    Ht,
    /// Second half.
    Sh,
    /// Extra time.
    Et,
    /// Penalties are being taken.
    P,
    /// Finished within the regular time.
    Ft,
    /// Finished after extra time.
    Aet,
    /// Finished on penalties.
    Pen,
    /// Break time.
    Bt,
    /// Suspended.
    Susp,
    /// Interrupted.
    Int,
    /// Postponed.
    Pst,
    /// Cancelled.
    Canc,
    /// Abandoned.
    Abd,
    /// Awarded.
    Awd,
    /// Walk over.
    Wo,
    /// Live.
    Live,
}

/// The code under which the remote API and the store write a status.
pub open spec fn status_code(s: ShortStatus) -> Seq<char> {
    match s {
        ShortStatus::Tbd => "TBD"@,
        ShortStatus::Ns => "NS"@,
        ShortStatus::Fh => "1H"@,
        ShortStatus::Ht => "HT"@,
        ShortStatus::Sh => "2H"@,
        ShortStatus::Et => "ET"@,
        ShortStatus::P => "P"@,
        ShortStatus::Ft => "FT"@,
        ShortStatus::Aet => "AET"@,
        ShortStatus::Pen => "PEN"@,
        ShortStatus::Bt => "BT"@,
        ShortStatus::Susp => "SUSP"@,
        ShortStatus::Int => "INT"@,
        ShortStatus::Pst => "PST"@,
        ShortStatus::Canc => "CANC"@,
        ShortStatus::Abd => "ABD"@,
        ShortStatus::Awd => "AWD"@,
        ShortStatus::Wo => "WO"@,
        ShortStatus::Live => "LIVE"@,
    }
}

/// A game has started unless it is still to be defined, not started,
/// cancelled or postponed.
pub open spec fn status_started(s: ShortStatus) -> bool {
    !(s is Ns || s is Tbd || s is Canc || s is Pst)
}

/// A game is finished at full time, after extra time or after penalties.
pub open spec fn status_finished(s: ShortStatus) -> bool {
    s is Ft || s is Aet || s is Pen
}

fn eq_str(a: &str, b: &str) -> (r: bool)
    ensures
        r == (a@ == b@),
{
    String::from_str(a) == String::from_str(b)
}

impl ShortStatus {
    /// The code of the status.
    pub fn code(&self) -> (c: &'static str)
        ensures
            c@ == status_code(*self),
    {
        match self {
            ShortStatus::Tbd => "TBD",
            ShortStatus::Ns => "NS",
            ShortStatus::Fh => "1H",
            ShortStatus::Ht => "HT",
            ShortStatus::Sh => "2H",
            ShortStatus::Et => "ET",
            ShortStatus::P => "P",
            ShortStatus::Ft => "FT",
            ShortStatus::Aet => "AET",
            ShortStatus::Pen => "PEN",
            ShortStatus::Bt => "BT",
            ShortStatus::Susp => "SUSP",
            ShortStatus::Int => "INT",
            ShortStatus::Pst => "PST",
            ShortStatus::Canc => "CANC",
            ShortStatus::Abd => "ABD",
            ShortStatus::Awd => "AWD",
            ShortStatus::Wo => "WO",
            ShortStatus::Live => "LIVE",
        }
    }

    /// The status written under a code, if any.
    pub fn from_code(code: &str) -> (s: Option<ShortStatus>)
        ensures
            match s {
                Some(st) => status_code(st) == code@,
                None => forall|st: ShortStatus| status_code(st) != code@,
            },
    {
        proof { reveal_codes(); }
        if eq_str(code, "TBD") { Some(ShortStatus::Tbd) }
        else if eq_str(code, "NS") { Some(ShortStatus::Ns) }
        else if eq_str(code, "1H") { Some(ShortStatus::Fh) }
        else if eq_str(code, "HT") { Some(ShortStatus::Ht) }
        else if eq_str(code, "2H") { Some(ShortStatus::Sh) }
        else if eq_str(code, "ET") { Some(ShortStatus::Et) }
        else if eq_str(code, "P") { Some(ShortStatus::P) }
        else if eq_str(code, "FT") { Some(ShortStatus::Ft) }
        else if eq_str(code, "AET") { Some(ShortStatus::Aet) }
        else if eq_str(code, "PEN") { Some(ShortStatus::Pen) }
        else if eq_str(code, "BT") { Some(ShortStatus::Bt) }
        else if eq_str(code, "SUSP") { Some(ShortStatus::Susp) }
        else if eq_str(code, "INT") { Some(ShortStatus::Int) }
        else if eq_str(code, "PST") { Some(ShortStatus::Pst) }
        else if eq_str(code, "CANC") { Some(ShortStatus::Canc) }
        else if eq_str(code, "ABD") { Some(ShortStatus::Abd) }
        else if eq_str(code, "AWD") { Some(ShortStatus::Awd) }
        else if eq_str(code, "WO") { Some(ShortStatus::Wo) }
        else if eq_str(code, "LIVE") { Some(ShortStatus::Live) }
        else { None }
    }

    /// Whether a game with this status has started; a cancelled or
    /// postponed game has not.
    pub fn is_started(&self) -> (b: bool)
        ensures
            b == status_started(*self),
    {
        !matches!(self, ShortStatus::Ns | ShortStatus::Tbd | ShortStatus::Canc | ShortStatus::Pst)
    }

    /// Whether a game with this status is finished.
    pub fn is_finished(&self) -> (b: bool)
        ensures
            b == status_finished(*self),
    {
        matches!(self, ShortStatus::Ft | ShortStatus::Aet | ShortStatus::Pen)
    }

    /// The codes of the statuses under which a game is finished, the ones
    /// that the bet validation looks for.
    pub fn finished_codes() -> (v: Vec<&'static str>)
        ensures
            v@.len() == 3,
            v@[0]@ == status_code(ShortStatus::Ft),
            v@[1]@ == status_code(ShortStatus::Pen),
            v@[2]@ == status_code(ShortStatus::Aet),
            forall|i: int| 0 <= i < 3 ==> exists|st: ShortStatus|
                status_finished(st) && #[trigger] v@[i]@ == status_code(st),
            forall|st: ShortStatus| status_finished(st) ==> exists|i: int|
                0 <= i < 3 && #[trigger] v@[i]@ == status_code(st),
    {
        let v = vec![ShortStatus::Ft.code(), ShortStatus::Pen.code(), ShortStatus::Aet.code()];
        assert(status_finished(ShortStatus::Ft) && v@[0]@ == status_code(ShortStatus::Ft));
        assert(status_finished(ShortStatus::Pen) && v@[1]@ == status_code(ShortStatus::Pen));
        assert(status_finished(ShortStatus::Aet) && v@[2]@ == status_code(ShortStatus::Aet));
        v
    }
}

proof fn reveal_codes()
    ensures
        "TBD"@ == seq!['T', 'B', 'D'],
        "NS"@ == seq!['N', 'S'],
        "1H"@ == seq!['1', 'H'],
        "HT"@ == seq!['H', 'T'],
        "2H"@ == seq!['2', 'H'],
        "ET"@ == seq!['E', 'T'],
        "P"@ == seq!['P'],
        "FT"@ == seq!['F', 'T'],
        "AET"@ == seq!['A', 'E', 'T'],
        "PEN"@ == seq!['P', 'E', 'N'],
        "BT"@ == seq!['B', 'T'],
        "SUSP"@ == seq!['S', 'U', 'S', 'P'],
        "INT"@ == seq!['I', 'N', 'T'],
        "PST"@ == seq!['P', 'S', 'T'],
        "CANC"@ == seq!['C', 'A', 'N', 'C'],
        "ABD"@ == seq!['A', 'B', 'D'],
        "AWD"@ == seq!['A', 'W', 'D'],
        "WO"@ == seq!['W', 'O'],
        "LIVE"@ == seq!['L', 'I', 'V', 'E'],
{
    reveal_strlit("TBD");
    reveal_strlit("NS");
    reveal_strlit("1H");
    reveal_strlit("HT");
    reveal_strlit("2H");
    reveal_strlit("ET");
    reveal_strlit("P");
    reveal_strlit("FT");
    reveal_strlit("AET");
    reveal_strlit("PEN");
    reveal_strlit("BT");
    reveal_strlit("SUSP");
    reveal_strlit("INT");
    reveal_strlit("PST");
    reveal_strlit("CANC");
    reveal_strlit("ABD");
    reveal_strlit("AWD");
    reveal_strlit("WO");
    reveal_strlit("LIVE");
}

/// Two statuses never share a code, so reading a status back from its code
/// gives the status itself.
pub proof fn lemma_codes_distinct(a: ShortStatus, b: ShortStatus)
    ensures
        status_code(a) == status_code(b) ==> a == b,
{
    reveal_codes();
    if status_code(a) == status_code(b) {
        assert(status_code(a).len() == status_code(b).len());
        assert(status_code(a)[0] == status_code(b)[0]);
        if status_code(a).len() > 1 {
            assert(status_code(a)[1] == status_code(b)[1]);
        }
        if status_code(a).len() > 2 {
            assert(status_code(a)[2] == status_code(b)[2]);
        }
        if status_code(a).len() > 3 {
            assert(status_code(a)[3] == status_code(b)[3]);
        }
    }
}

/// A finished game has started.
pub proof fn lemma_finished_is_started(s: ShortStatus)
    ensures
        status_finished(s) ==> status_started(s),
{
}

/// The status of a game.
#[derive(Debug, Clone)]
pub struct Status {
    /// The long status, describing what is happening.
    pub long: String,
    /// The short status.
    pub short: ShortStatus,
    /// How long the game has been going for.
    pub elapsed: Option<u32>,
}

/// The goals of a game.
#[derive(Debug, Clone, Copy, PartialEq, Eq, Structural)]
pub struct Goals {
    /// The home team's goals.
    pub home: Option<i16>,
    /// The away team's goals.
    pub away: Option<i16>,
}

/// The score of a game.
#[derive(Debug, Clone, Copy, PartialEq, Eq, Structural)]
pub struct Score {
    /// The score after 90 minutes of play.
    pub fulltime: Option<Goals>,
    /// The score after extra time, if there was extra time.
    pub extratime: Option<Goals>,
    /// The score after penalties.
    pub penalty: Option<Goals>,
}

/// The country linked to a team, competition or game.
#[derive(Debug, Clone)]
pub struct Country {
    /// The name of the country.
    pub name: String,
    /// Its two letters code.
    pub code: Option<String>,
    /// Its flag.
    pub flag: Option<String>,
}

/// One proposed outcome of a bookmaker's bet, with its odd as written.
#[derive(Debug, Clone)]
pub struct Value {
    /// The outcome.
    pub value: String,
    /// The odd, as text.
    pub odd: String,
}

/// A bet offered by a bookmaker.
#[derive(Debug, Clone)]
pub struct Bet {
    /// Its id.
    pub id: u32,
    /// Its name.
    pub name: String,
    /// The proposed outcomes.
    pub values: Vec<Value>,
}

/// A user's bet on a game, as recorded within the game.
#[derive(Debug, Clone, Copy, PartialEq, Eq, Hash, Structural)]
pub struct Better {
    /// The user who bet.
    pub user_id: u32,
    /// What he bet on.
    pub game_result: GameResult,
}

} // verus!
