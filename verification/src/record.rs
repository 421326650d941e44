//! The cache record layout: key `"user:" + username`, value
//! `password_hash + ":" + role`. The digest never contains a colon, so the
//! first colon of the value separates the two fields; everything after it,
//! colons included, is the role.

use vstd::prelude::*;
use vstd::string::StrSliceExecFns;
use vstd::string::StringExecFns;

verus! {

pub open spec fn cache_key_of(username: Seq<char>) -> Seq<char> {
    "user:"@ + username
}

pub open spec fn cache_value_of(hash: Seq<char>, role: Seq<char>) -> Seq<char> {
    hash + ":"@ + role
}

pub open spec fn has_colon(s: Seq<char>) -> bool {
    exists|i: int| 0 <= i < s.len() && s[i] == ':'
}

pub open spec fn is_first_colon(s: Seq<char>, i: int) -> bool {
    &&& 0 <= i < s.len()
    &&& s[i] == ':'
    &&& forall|j: int| 0 <= j < i ==> s[j] != ':'
}

pub open spec fn first_colon(s: Seq<char>) -> int {
    choose|i: int| is_first_colon(s, i)
}

/// What a raw cache value means: split at the first colon into digest and
/// role, or nothing when no colon is present (a malformed record).
pub open spec fn parse_cache_value_spec(s: Seq<char>) -> Option<(Seq<char>, Seq<char>)> {
    if has_colon(s) {
        Some((s.subrange(0, first_colon(s)), s.subrange(first_colon(s) + 1, s.len() as int)))
    } else {
        None
    }
}

pub proof fn lemma_exists_first_colon(s: Seq<char>, k: int)
    requires
        0 <= k < s.len(),
        s[k] == ':',
    ensures
        exists|i: int| is_first_colon(s, i),
    decreases k,
{
    if forall|j: int| 0 <= j < k ==> s[j] != ':' {
        assert(is_first_colon(s, k));
    } else {
        let j = choose|j: int| 0 <= j < k && s[j] == ':';
        lemma_exists_first_colon(s, j);
    }
}

pub proof fn lemma_first_colon_unique(s: Seq<char>, i: int, j: int)
    requires
        is_first_colon(s, i),
        is_first_colon(s, j),
    ensures
        i == j,
{
    if i < j {
        assert(s[i] != ':');
    } else if j < i {
        assert(s[j] != ':');
    }
}

/// Build the cache key for a username.
pub fn cache_key(username: &str) -> (r: String)
    ensures
        r@ == cache_key_of(username@),
{
    String::from_str("user:").concat(username)
}

/// Build the cache value for a digest and a role.
pub fn cache_value(hash: &str, role: &str) -> (r: String)
    ensures
        r@ == cache_value_of(hash@, role@),
{
    let r = hash.to_owned().concat(":").concat(role);
    proof {
        assert(r@ =~= hash@ + ":"@ + role@);
    }
    r
}

/// Split a raw cache value at its first colon.
pub fn parse_cache_value(v: &str) -> (r: Option<(String, String)>)
    ensures
        match r {
            Some(p) => parse_cache_value_spec(v@) == Some((p.0@, p.1@)),
            None => parse_cache_value_spec(v@) is None,
        },
{
    let n = v.unicode_len();
    let mut i: usize = 0;
    while i < n
        invariant
            0 <= i <= n,
            n == v@.len(),
            forall|j: int| 0 <= j < i ==> v@[j] != ':',
        decreases n - i,
    {
        if v.get_char(i) == ':' {
            let hash = v.substring_char(0, i).to_owned();
            let role = v.substring_char(i + 1, n).to_owned();
            proof {
                assert(is_first_colon(v@, i as int));
                lemma_exists_first_colon(v@, i as int);
                lemma_first_colon_unique(v@, i as int, first_colon(v@));
            }
            return Some((hash, role));
        }
        i = i + 1;
    }
    proof {
        assert(!has_colon(v@));
    }
    None
}

/// A value built by `cache_value_of` parses back to exactly its two fields,
/// as long as the digest holds no colon; the role may hold any characters.
pub proof fn lemma_cache_value_round_trip(hash: Seq<char>, role: Seq<char>)
    requires
        crate::hashing::colon_free(hash),
    ensures
        parse_cache_value_spec(cache_value_of(hash, role)) == Some((hash, role)),
{
    reveal_strlit(":");
    let s = cache_value_of(hash, role);
    let hl = hash.len() as int;
    assert(s[hl] == ':');
    assert forall|j: int| 0 <= j < hl implies s[j] != ':' by {
        assert(s[j] == hash[j]);
    }
    assert(is_first_colon(s, hl));
    lemma_first_colon_unique(s, hl, first_colon(s));
    assert(s.subrange(0, hl) =~= hash);
    assert(s.subrange(hl + 1, s.len() as int) =~= role);
}

/// Cache keys are injective: two usernames never share a key.
pub proof fn lemma_cache_key_injective(u1: Seq<char>, u2: Seq<char>)
    requires
        cache_key_of(u1) == cache_key_of(u2),
    ensures
        u1 == u2,
{
    reveal_strlit("user:");
    let p = "user:"@;
    assert(p + u1 == p + u2);
    assert((p + u1).len() == p.len() + u1.len());
    assert((p + u2).len() == p.len() + u2.len());
    assert(u1.len() == u2.len());
    assert forall|i: int| 0 <= i < u1.len() implies u1[i] == u2[i] by {
        assert((p + u1)[p.len() + i] == u1[i]);
        assert((p + u2)[p.len() + i] == u2[i]);
    }
    assert(u1 =~= u2);
}

} // verus!
