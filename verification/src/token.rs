//! The whitelist of the session tokens of the users, held in the cache: a
//! token is valid while its key exists, for a week after it was registered.
//! A user may hold several tokens (several sessions).

use vstd::prelude::*;
use vstd::string::*;

verus! {

/// How long a registered token stays valid, in seconds.
pub const ONE_WEEK_IN_SECONDS: u32 = 604_800;

/// The cache key of a token of a user.
pub open spec fn token_key(login: Seq<char>, token: Seq<char>) -> Seq<char> {
    "token::"@ + login + "::"@ + token
}

/// The pattern matching the cache keys of all the tokens of a user: the
/// prefix of [`token_key`] up to its first ':' after the login, then '*'.
pub open spec fn tokens_pattern(login: Seq<char>) -> Seq<char> {
    "token::"@ + login + ":*"@
}

/// The session tokens whitelist.
pub struct Entity;

impl Entity {
    /// The cache key under which a token of a user is registered.
    pub fn token_key(login: &str, token: &str) -> (k: String)
        ensures
            k@ == token_key(login@, token@),
    {
        let mut k = String::from_str("token::");
        k.append(login);
        k.append("::");
        k.append(token);
        k
    }

    /// The pattern of the keys of all the tokens of a user, used to revoke
    /// them all.
    pub fn tokens_pattern(login: &str) -> (p: String)
        ensures
            p@ == tokens_pattern(login@),
    {
        let mut p = String::from_str("token::");
        p.append(login);
        p.append(":*");
        p
    }
}

/// Every token key of a user begins with the revocation pattern of that user
/// (without its final '*'), so revoking all the tokens of a user reaches each
/// of his tokens.
pub proof fn lemma_pattern_covers_tokens(login: Seq<char>, token: Seq<char>)
    ensures
        tokens_pattern(login).drop_last().is_prefix_of(token_key(login, token)),
        tokens_pattern(login).last() == '*',
{
    reveal_strlit("token::");
    reveal_strlit("::");
    reveal_strlit(":*");
    let p = tokens_pattern(login);
    let k = token_key(login, token);
    assert(p.drop_last() =~= "token::"@ + login + seq![':']);
    assert(k =~= "token::"@ + login + seq![':'] + (seq![':'] + token));
    assert(p.drop_last() =~= k.subrange(0, p.drop_last().len() as int));
}

/// Whether a login is free of ':' characters.
pub open spec fn colon_free(login: Seq<char>) -> bool {
    forall|i: int| 0 <= i < login.len() ==> login[i] != ':'
}

/// Two users do not share a token key: for logins free of ':', the key of a
/// token determines the login and the token it was registered for.
pub proof fn lemma_token_key_injective(l1: Seq<char>, t1: Seq<char>, l2: Seq<char>, t2: Seq<char>)
    requires
        colon_free(l1),
        colon_free(l2),
        token_key(l1, t1) == token_key(l2, t2),
    ensures
        l1 == l2,
        t1 == t2,
{
    reveal_strlit("token::");
    reveal_strlit("::");
    let k = token_key(l1, t1);
    let p = "token::"@;
    assert(p.len() == 7);
    assert(k =~= p + l1 + seq![':', ':'] + t1);
    assert(k =~= p + l2 + seq![':', ':'] + t2);
    let n1: int = l1.len() as int;
    let n2: int = l2.len() as int;
    if n1 < n2 {
        assert(k[7 + n1] == ':');
        assert(k[7 + n1] == l2[n1]);
        assert(false);
    }
    if n2 < n1 {
        assert(k[7 + n2] == ':');
        assert(k[7 + n2] == l1[n2]);
        assert(false);
    }
    assert(l1 =~= k.subrange(7, 7 + n1));
    assert(l2 =~= k.subrange(7, 7 + n2));
    assert(t1 =~= k.subrange(9 + n1, k.len() as int));
    assert(t2 =~= k.subrange(9 + n2, k.len() as int));
}

/// Whether a login holds none of the characters that a cache key pattern
/// reads specially (`*`, `?`, `[`, `]` and the backslash), so that the revocation pattern
/// of the login matches exactly the keys that begin with it, up to its final
/// '*'.
pub open spec fn glob_free(login: Seq<char>) -> bool {
    forall|i: int| 0 <= i < login.len() ==> login[i] != '*' && login[i] != '?' && login[i] != '['
        && login[i] != ']' && login[i] != '\\'
}

/// Revoking all the tokens of a user spares the tokens of another user
/// whenever the two keys can never share the revocation prefix: when
/// neither `login + ":"` begins `other + "::"` nor the reverse (as for two
/// different logins free of ':'), no token key of `other` begins with the
/// revocation pattern of `login` up to its final '*'. For a login free of
/// pattern characters, the pattern matches exactly the keys that begin with
/// that prefix.
pub proof fn lemma_pattern_spares_other_logins(login: Seq<char>, other: Seq<char>, token: Seq<char>)
    requires
        glob_free(login),
        !(login + seq![':']).is_prefix_of(other + seq![':', ':']),
        !(other + seq![':', ':']).is_prefix_of(login + seq![':']),
    ensures
        !tokens_pattern(login).drop_last().is_prefix_of(token_key(other, token)),
{
    reveal_strlit("token::");
    reveal_strlit("::");
    reveal_strlit(":*");
    let p = login + seq![':'];
    let q = other + seq![':', ':'];
    let pre = tokens_pattern(login).drop_last();
    let k = token_key(other, token);
    assert(pre =~= "token::"@ + p);
    assert(k =~= "token::"@ + q + token);
    let i: int = if p.len() <= q.len() {
        assert(!(p =~= q.subrange(0, p.len() as int)));
        choose|i: int| 0 <= i < p.len() && p[i] != q.subrange(0, p.len() as int)[i]
    } else {
        assert(!(q =~= p.subrange(0, q.len() as int)));
        choose|i: int| 0 <= i < q.len() && q[i] != p.subrange(0, q.len() as int)[i]
    };
    assert(0 <= i < p.len() && i < q.len() && p[i] != q[i]);
    assert(pre[7 + i] == p[i]);
    assert(k[7 + i] == q[i]);
    if pre.is_prefix_of(k) {
        assert(pre[7 + i] == k.subrange(0, pre.len() as int)[7 + i]);
    }
}

/// Two different logins free of ':' meet the conditions under which
/// revoking all the tokens of one spares the other.
pub proof fn lemma_colon_free_logins_apart(login: Seq<char>, other: Seq<char>)
    requires
        colon_free(login),
        colon_free(other),
        login != other,
    ensures
        !(login + seq![':']).is_prefix_of(other + seq![':', ':']),
        !(other + seq![':', ':']).is_prefix_of(login + seq![':']),
{
    let p = login + seq![':'];
    let q = other + seq![':', ':'];
    let n = login.len() as int;
    let m = other.len() as int;
    if p.is_prefix_of(q) {
        assert(p[n] == q[n]);
        if n < m {
            assert(q[n] == other[n]);
        } else if n > m {
            assert(p[m] == login[m]);
            assert(p[m] == q[m]);
        } else {
            assert forall|i: int| 0 <= i < n implies login[i] == other[i] by {
                assert(p[i] == q[i]);
            }
            assert(login =~= other);
        }
    }
    if q.is_prefix_of(p) {
        assert(q.len() <= p.len());
        assert(m + 2 <= n + 1);
        assert(q[m] == p[m]);
        assert(p[m] == login[m]);
    }
}

/// The token whitelist as the cache holds it: a token of a user verifies
/// exactly when the cache holds its key.
pub open spec fn token_verifies(cache: Map<Seq<char>, Seq<char>>, login: Seq<char>, token: Seq<char>) -> bool {
    cache.contains_key(token_key(login, token))
}

/// The cache after a token of a user is registered: its key is set.
pub open spec fn after_register(cache: Map<Seq<char>, Seq<char>>, login: Seq<char>, token: Seq<char>, value: Seq<char>) -> Map<Seq<char>, Seq<char>> {
    cache.insert(token_key(login, token), value)
}

/// The cache after a token of a user is revoked: its key is deleted.
pub open spec fn after_revoke(cache: Map<Seq<char>, Seq<char>>, login: Seq<char>, token: Seq<char>) -> Map<Seq<char>, Seq<char>> {
    cache.remove(token_key(login, token))
}

/// The cache after all the tokens of a user are revoked: the keys that
/// begin with his revocation pattern (up to its final '*') are deleted.
pub open spec fn after_revoke_all(cache: Map<Seq<char>, Seq<char>>, login: Seq<char>) -> Map<Seq<char>, Seq<char>> {
    Map::new(
        |k: Seq<char>| cache.contains_key(k) && !tokens_pattern(login).drop_last().is_prefix_of(k),
        |k: Seq<char>| cache[k],
    )
}

/// A registered token verifies; once revoked it no longer does, and every
/// other key of the cache keeps its value.
pub proof fn lemma_revoked_token(cache: Map<Seq<char>, Seq<char>>, login: Seq<char>, token: Seq<char>, value: Seq<char>)
    ensures
        token_verifies(after_register(cache, login, token, value), login, token),
        !token_verifies(after_revoke(cache, login, token), login, token),
        forall|k: Seq<char>| k != token_key(login, token) ==>
            (#[trigger] after_revoke(cache, login, token).contains_key(k) == cache.contains_key(k))
            && (cache.contains_key(k) ==> after_revoke(cache, login, token)[k] == cache[k]),
{
}

/// Revoking all the tokens of a user: none of his tokens verifies anymore,
/// and the tokens of another user out of reach of his revocation pattern
/// (see [`lemma_pattern_spares_other_logins`]) verify as before.
pub proof fn lemma_revoke_all(
    cache: Map<Seq<char>, Seq<char>>,
    login: Seq<char>,
    token: Seq<char>,
    other: Seq<char>,
    other_token: Seq<char>,
)
    requires
        glob_free(login),
        !(login + seq![':']).is_prefix_of(other + seq![':', ':']),
        !(other + seq![':', ':']).is_prefix_of(login + seq![':']),
    ensures
        !token_verifies(after_revoke_all(cache, login), login, token),
        token_verifies(after_revoke_all(cache, login), other, other_token) == token_verifies(cache, other, other_token),
        token_verifies(cache, other, other_token) ==> after_revoke_all(cache, login)[token_key(other, other_token)]
            == cache[token_key(other, other_token)],
{
    lemma_pattern_covers_tokens(login, token);
    lemma_pattern_spares_other_logins(login, other, other_token);
}

} // verus!
