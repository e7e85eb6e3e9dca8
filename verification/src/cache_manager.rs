//! The cache keys of the lookups: a lookup is cached under the prefix of its
//! entity and the hash of the lookup, so that clearing the entity's cache
//! (every key matching its pattern) drops all of its lookups.

use vstd::prelude::*;
use vstd::string::*;
use crate::text::{hexadecimal, push_hexadecimal};

verus! {

/// The cache key of a lookup: the entity's prefix, then the hash of the
/// lookup in lower case hexadecimal.
pub open spec fn lookup_key_text(prefix: Seq<char>, hash: u64) -> Seq<char> {
    prefix + hexadecimal(hash as nat)
}

/// The prefix of the cached club lookups.
pub const CLUBS_PREFIX: &'static str = "clubs::";
/// The pattern of the cached club lookups.
pub const CLUBS_PATTERN: &'static str = "clubs::*";
/// The prefix of the cached league lookups.
pub const LEAGUES_PREFIX: &'static str = "leagues::";
/// The pattern of the cached league lookups.
pub const LEAGUES_PATTERN: &'static str = "leagues::*";
/// The prefix of the cached game lookups.
pub const GAMES_PREFIX: &'static str = "games::";
/// The pattern of the cached game lookups.
pub const GAMES_PATTERN: &'static str = "games:*";
/// The prefix of the cached season lookups.
pub const SEASONS_PREFIX: &'static str = "seasons::";
/// The pattern of the cached season lookups.
pub const SEASONS_PATTERN: &'static str = "seasons::*";
/// The prefix of the cached scoreboards.
pub const SCOREBOARD_PREFIX: &'static str = "scoreboard::";
/// The pattern of the cached scoreboards.
pub const SCOREBOARD_PATTERN: &'static str = "scoreboard:*";

/// The cache key of a lookup with the given hash under an entity's prefix.
pub fn lookup_key(prefix: &str, hash: u64) -> (k: String)
    ensures
        k@ == lookup_key_text(prefix@, hash),
{
    let mut k = String::from_str(prefix);
    push_hexadecimal(&mut k, hash);
    k
}

/// Every lookup key of an entity begins with the entity's pattern without
/// its final '*', so clearing the entity's cache drops each of its lookups.
pub proof fn lemma_pattern_covers_lookups(hash: u64)
    ensures
        CLUBS_PATTERN@.drop_last().is_prefix_of(lookup_key_text(CLUBS_PREFIX@, hash)),
        LEAGUES_PATTERN@.drop_last().is_prefix_of(lookup_key_text(LEAGUES_PREFIX@, hash)),
        GAMES_PATTERN@.drop_last().is_prefix_of(lookup_key_text(GAMES_PREFIX@, hash)),
        SEASONS_PATTERN@.drop_last().is_prefix_of(lookup_key_text(SEASONS_PREFIX@, hash)),
        SCOREBOARD_PATTERN@.drop_last().is_prefix_of(lookup_key_text(SCOREBOARD_PREFIX@, hash)),
{
    reveal_strlit("clubs::");
    reveal_strlit("clubs::*");
    reveal_strlit("leagues::");
    reveal_strlit("leagues::*");
    reveal_strlit("games::");
    reveal_strlit("games:*");
    reveal_strlit("seasons::");
    reveal_strlit("seasons::*");
    reveal_strlit("scoreboard::");
    reveal_strlit("scoreboard:*");
    let h = hexadecimal(hash as nat);
    assert(CLUBS_PATTERN@.drop_last() =~= lookup_key_text(CLUBS_PREFIX@, hash).subrange(0, 7));
    assert(LEAGUES_PATTERN@.drop_last() =~= lookup_key_text(LEAGUES_PREFIX@, hash).subrange(0, 9));
    assert(GAMES_PATTERN@.drop_last() =~= lookup_key_text(GAMES_PREFIX@, hash).subrange(0, 6));
    assert(SEASONS_PATTERN@.drop_last() =~= lookup_key_text(SEASONS_PREFIX@, hash).subrange(0, 9));
    assert(SCOREBOARD_PATTERN@.drop_last() =~= lookup_key_text(SCOREBOARD_PREFIX@, hash).subrange(0, 11));
}

} // verus!
