//! The credential store facade: cache-aside lookup over a fast cache and a
//! durable relational store, and the model both are held to.
//!
//! The stores themselves live outside this crate; each of their answers
//! arrives here as a plain outcome value, and the functions below decide the
//! next move. The durable store is authoritative: the cache is only an
//! accelerator, and a miss, an unreachable cache or a malformed cache record
//! all fall through to the durable store.

use vstd::prelude::*;
use crate::record::{cache_key_of, parse_cache_value_spec, parse_cache_value, cache_value_of};
use crate::hashing::colon_free;

verus! {

/// A row of the durable `users` table.
pub struct User {
    pub id: i32,
    pub username: String,
    pub password_hash: String,
    pub role: String,
}

/// A credential as the lookup hands it on: digest and role, however found.
pub struct CredRecord {
    pub password_hash: String,
    pub role: String,
}

/// What the cache answered for a key.
pub enum CacheGetOutcome {
    Hit(String),
    Miss,
    Unreachable,
}

/// What the durable store answered for a username.
pub enum DurableFindOutcome {
    Found(User),
    NotFound,
    Unreachable,
}

/// What the durable insert answered. A violated uniqueness constraint is its
/// own outcome: it resolves the registration race and is not an error.
pub enum InsertOutcome {
    Inserted,
    DuplicateUsername,
    StoreError,
}

/// The next move of the cache-aside lookup after the cache answered.
pub enum LookupStep {
    Done(LookupResult),
    QueryDurable,
}

/// Where a lookup ends.
pub enum LookupResult {
    Found(CredRecord),
    NotFound,
    Unavailable,
}

// ---------------------------------------------------------------------------
// The mathematical model: both stores as maps, outcomes held to them.
// ---------------------------------------------------------------------------

/// A stored credential, as the contracts speak of it.
pub ghost struct RecordModel {
    pub password_hash: Seq<char>,
    pub role: Seq<char>,
}

/// The abstract state of the two stores: the durable table keyed by
/// username, the cache keyed by raw cache key.
pub ghost struct StoreModel {
    pub durable: Map<Seq<char>, RecordModel>,
    pub cache: Map<Seq<char>, Seq<char>>,
}

/// Where a lookup ends, at the model level.
pub ghost enum LookupModel {
    Found(RecordModel),
    NotFound,
    Unavailable,
}

pub open spec fn cred_view(c: CredRecord) -> RecordModel {
    RecordModel { password_hash: c.password_hash@, role: c.role@ }
}

pub open spec fn user_view(u: User) -> RecordModel {
    RecordModel { password_hash: u.password_hash@, role: u.role@ }
}

pub open spec fn lookup_result_view(r: LookupResult) -> LookupModel {
    match r {
        LookupResult::Found(c) => LookupModel::Found(cred_view(c)),
        LookupResult::NotFound => LookupModel::NotFound,
        LookupResult::Unavailable => LookupModel::Unavailable,
    }
}

/// A cache answer is consistent with the model.
pub open spec fn cache_get_consistent(m: StoreModel, key: Seq<char>, o: CacheGetOutcome) -> bool {
    match o {
        CacheGetOutcome::Hit(v) => m.cache.contains_key(key) && m.cache[key] == v@,
        CacheGetOutcome::Miss => !m.cache.contains_key(key),
        CacheGetOutcome::Unreachable => true,
    }
}

/// A durable find answer is consistent with the model.
pub open spec fn durable_find_consistent(
    m: StoreModel,
    username: Seq<char>,
    o: DurableFindOutcome,
) -> bool {
    match o {
        DurableFindOutcome::Found(u) => u.username@ == username
            && m.durable.contains_key(username) && m.durable[username] == user_view(u),
        DurableFindOutcome::NotFound => !m.durable.contains_key(username),
        DurableFindOutcome::Unreachable => true,
    }
}

/// A durable insert answer is consistent with the model: the uniqueness
/// constraint admits the row iff the username is absent. This is the one
/// mechanism that resolves concurrent registrations of a name.
pub open spec fn insert_consistent(m: StoreModel, username: Seq<char>, o: InsertOutcome) -> bool {
    match o {
        InsertOutcome::Inserted => !m.durable.contains_key(username),
        InsertOutcome::DuplicateUsername => m.durable.contains_key(username),
        InsertOutcome::StoreError => true,
    }
}

/// The model after a successful durable insert.
pub open spec fn durable_insert_effect(
    m: StoreModel,
    username: Seq<char>,
    r: RecordModel,
) -> StoreModel {
    StoreModel { durable: m.durable.insert(username, r), cache: m.cache }
}

/// The model after a cache write.
pub open spec fn cache_set_effect(m: StoreModel, key: Seq<char>, v: Seq<char>) -> StoreModel {
    StoreModel { durable: m.durable, cache: m.cache.insert(key, v) }
}

/// The store invariant: a cache record, where present, belongs to a durably
/// stored user and parses to exactly that user's digest and role. The
/// reverse is not required — the cache may lag or be absent.
pub open spec fn cache_coherent(m: StoreModel) -> bool {
    forall|u: Seq<char>| #[trigger] m.cache.contains_key(cache_key_of(u)) ==> {
        &&& m.durable.contains_key(u)
        &&& parse_cache_value_spec(m.cache[cache_key_of(u)]) == Some(
            (m.durable[u].password_hash, m.durable[u].role),
        )
    }
}

// ---------------------------------------------------------------------------
// The lookup decisions.
// ---------------------------------------------------------------------------

/// What the cache answer alone decides: a parseable hit ends the lookup;
/// a miss, an unreachable cache or a malformed record go durable.
pub open spec fn lookup_after_cache_spec(o: CacheGetOutcome) -> Option<LookupModel> {
    match o {
        CacheGetOutcome::Hit(v) => match parse_cache_value_spec(v@) {
            Some(p) => Some(LookupModel::Found(RecordModel { password_hash: p.0, role: p.1 })),
            None => None,
        },
        CacheGetOutcome::Miss => None,
        CacheGetOutcome::Unreachable => None,
    }
}

/// Where the lookup ends once the durable store has answered.
pub open spec fn lookup_after_durable_spec(o: DurableFindOutcome) -> LookupModel {
    match o {
        DurableFindOutcome::Found(u) => LookupModel::Found(user_view(u)),
        DurableFindOutcome::NotFound => LookupModel::NotFound,
        DurableFindOutcome::Unreachable => LookupModel::Unavailable,
    }
}

/// The whole read path, given both answers (the second is consulted only
/// when the cache did not settle it).
pub open spec fn lookup_spec(co: CacheGetOutcome, df: DurableFindOutcome) -> LookupModel {
    match lookup_after_cache_spec(co) {
        Some(lm) => lm,
        None => lookup_after_durable_spec(df),
    }
}

/// Decide the next move after the cache answered.
pub fn lookup_after_cache(o: CacheGetOutcome) -> (r: LookupStep)
    ensures
        lookup_after_cache_spec(o) matches Some(lm) ==> r matches LookupStep::Done(lr)
            && lookup_result_view(lr) == lm,
        lookup_after_cache_spec(o) is None ==> r == LookupStep::QueryDurable,
{
    match o {
        CacheGetOutcome::Hit(v) => match parse_cache_value(v.as_str()) {
            Some(p) => LookupStep::Done(
                LookupResult::Found(CredRecord { password_hash: p.0, role: p.1 }),
            ),
            None => LookupStep::QueryDurable,
        },
        CacheGetOutcome::Miss => LookupStep::QueryDurable,
        CacheGetOutcome::Unreachable => LookupStep::QueryDurable,
    }
}

/// Settle the lookup once the durable store answered.
pub fn lookup_after_durable(o: DurableFindOutcome) -> (r: LookupResult)
    ensures
        lookup_result_view(r) == lookup_after_durable_spec(o),
{
    match o {
        DurableFindOutcome::Found(u) => LookupResult::Found(
            CredRecord { password_hash: u.password_hash, role: u.role },
        ),
        DurableFindOutcome::NotFound => LookupResult::NotFound,
        DurableFindOutcome::Unreachable => LookupResult::Unavailable,
    }
}

// ---------------------------------------------------------------------------
// What the read path guarantees against a coherent model.
// ---------------------------------------------------------------------------

/// Against a coherent model, and with both store answers held to it, the
/// lookup finds a stored user — through the cache or around it — and
/// reports a missing user as such. The cache being unreachable or having no
/// entry never by itself fails the lookup.
pub proof fn lemma_lookup_consistent(
    m: StoreModel,
    username: Seq<char>,
    co: CacheGetOutcome,
    df: DurableFindOutcome,
)
    requires
        cache_coherent(m),
        cache_get_consistent(m, cache_key_of(username), co),
        durable_find_consistent(m, username, df),
        !(df is Unreachable),
    ensures
        m.durable.contains_key(username) ==> lookup_spec(co, df) == LookupModel::Found(
            m.durable[username],
        ),
        !m.durable.contains_key(username) ==> lookup_spec(co, df) == LookupModel::NotFound,
{
}

/// A successful durable insert of a fresh username keeps the cache coherent:
/// no cache entry points at it yet, and every other entry is untouched.
pub proof fn lemma_insert_preserves_coherence(
    m: StoreModel,
    username: Seq<char>,
    r: RecordModel,
)
    requires
        cache_coherent(m),
        !m.durable.contains_key(username),
    ensures
        cache_coherent(durable_insert_effect(m, username, r)),
{
    let m2 = durable_insert_effect(m, username, r);
    assert forall|u: Seq<char>| #[trigger] m2.cache.contains_key(cache_key_of(u)) implies {
        &&& m2.durable.contains_key(u)
        &&& parse_cache_value_spec(m2.cache[cache_key_of(u)]) == Some(
            (m2.durable[u].password_hash, m2.durable[u].role),
        )
    } by {
        assert(m.cache.contains_key(cache_key_of(u)));
        assert(u != username);
    }
}

/// The cache write that follows it (durable first, cache second) also keeps
/// coherence: the new entry parses to exactly the new user's record, and
/// cache keys of distinct usernames never collide.
pub proof fn lemma_register_preserves_coherence(
    m: StoreModel,
    username: Seq<char>,
    hash: Seq<char>,
    role: Seq<char>,
)
    requires
        cache_coherent(m),
        !m.durable.contains_key(username),
        colon_free(hash),
    ensures
        cache_coherent(
            cache_set_effect(
                durable_insert_effect(m, username, RecordModel { password_hash: hash, role }),
                cache_key_of(username),
                cache_value_of(hash, role),
            ),
        ),
{
    let m1 = durable_insert_effect(m, username, RecordModel { password_hash: hash, role });
    let m2 = cache_set_effect(m1, cache_key_of(username), cache_value_of(hash, role));
    crate::record::lemma_cache_value_round_trip(hash, role);
    assert forall|u: Seq<char>| #[trigger] m2.cache.contains_key(cache_key_of(u)) implies {
        &&& m2.durable.contains_key(u)
        &&& parse_cache_value_spec(m2.cache[cache_key_of(u)]) == Some(
            (m2.durable[u].password_hash, m2.durable[u].role),
        )
    } by {
        if cache_key_of(u) == cache_key_of(username) {
            crate::record::lemma_cache_key_injective(u, username);
        } else {
            assert(m.cache.contains_key(cache_key_of(u)));
            assert(u != username);
        }
    }
}

} // verus!
