//! The laws of the service, proved across the pipelines: what sequential
//! and concurrent duplicate registration resolve to, the
//! register–authenticate–validate round trip, the indistinguishability of
//! wrong password and unknown user, and the cache-miss fallback.

use vstd::prelude::*;
use crate::errors::AuthError;
use crate::hashing::{colon_free, digest_matches};
use crate::record::{cache_key_of, cache_value_of};
use crate::service::{
    sign_in_spec, sign_in_validation, sign_up_decision, sign_up_finish_decision,
    sign_up_validation,
};
use crate::store::{
    CacheGetOutcome, DurableFindOutcome, InsertOutcome, LookupModel, RecordModel, StoreModel,
    cache_coherent, cache_get_consistent, cache_set_effect, durable_find_consistent,
    durable_insert_effect, insert_consistent, lemma_insert_preserves_coherence,
    lemma_lookup_consistent, lemma_register_preserves_coherence, lookup_after_cache_spec,
    lookup_spec,
};
use crate::token::{jwt_claims_of, jwt_of, validate_token_spec};

verus! {

/// The store state after a registration of `username` landed: the durable
/// row is there; the cache entry is there too when the best-effort cache
/// write went through, and missing when it failed — both are lawful states.
pub open spec fn post_registration_model(
    m: StoreModel,
    username: Seq<char>,
    hash: Seq<char>,
    role: Seq<char>,
    cache_written: bool,
) -> StoreModel {
    let m1 = durable_insert_effect(m, username, RecordModel { password_hash: hash, role });
    if cache_written {
        cache_set_effect(m1, cache_key_of(username), cache_value_of(hash, role))
    } else {
        m1
    }
}

/// Sequential duplicate registration: once a registration of `username` has
/// landed — with or without its cache entry — a second registration of the
/// same name, its store answers held to the new state, resolves to the
/// already-exists conflict, through whichever of cache and durable store
/// reports the name.
pub proof fn lemma_second_registration_conflicts(
    m: StoreModel,
    username: Seq<char>,
    hash: Seq<char>,
    role: Seq<char>,
    cache_written: bool,
    password2: Seq<char>,
    role2: Seq<char>,
    co: CacheGetOutcome,
    df: DurableFindOutcome,
)
    requires
        cache_coherent(m),
        !m.durable.contains_key(username),
        colon_free(hash),
        cache_get_consistent(
            post_registration_model(m, username, hash, role, cache_written),
            cache_key_of(username),
            co,
        ),
        durable_find_consistent(
            post_registration_model(m, username, hash, role, cache_written),
            username,
            df,
        ),
        !(df is Unreachable),
        sign_up_validation(username, password2, role2) is None,
    ensures
        sign_up_decision(username, password2, role2, lookup_spec(co, df)) == Some(
            AuthError::AlreadyExists,
        ),
{
    let m2 = post_registration_model(m, username, hash, role, cache_written);
    if cache_written {
        lemma_register_preserves_coherence(m, username, hash, role);
    } else {
        lemma_insert_preserves_coherence(
            m,
            username,
            RecordModel { password_hash: hash, role },
        );
    }
    lemma_lookup_consistent(m2, username, co, df);
    assert(m2.durable.contains_key(username));
}

/// Concurrent duplicate registration: two registrations of one username
/// both pass the pre-check, and only the durable store's uniqueness
/// constraint resolves the race. With the two inserts serialized by that
/// store and neither failing outright, exactly one is admitted — the first
/// — and finishing maps the pair to one success and one already-exists.
pub proof fn lemma_registration_race_single_winner(
    m: StoreModel,
    username: Seq<char>,
    rec: RecordModel,
    o1: InsertOutcome,
    o2: InsertOutcome,
)
    requires
        !m.durable.contains_key(username),
        insert_consistent(m, username, o1),
        o1 is Inserted ==> insert_consistent(
            durable_insert_effect(m, username, rec),
            username,
            o2,
        ),
        !(o1 is StoreError),
        !(o2 is StoreError),
    ensures
        o1 is Inserted,
        o2 is DuplicateUsername,
        sign_up_finish_decision(o1) is Ok,
        sign_up_finish_decision(o2) == Err::<(), _>(AuthError::AlreadyExists),
{
}

/// The register–authenticate–validate round trip. After a registration of
/// `username` with a digest of `password` lands, an authentication with the
/// same password — its store answers held to the new state — succeeds and
/// issues the token over the stored role, expiring at `now + ttl_seconds`;
/// and that token, decoding under the same secret to what was signed,
/// validates at any earlier clock reading to exactly those claims.
pub proof fn lemma_register_authenticate_round_trip(
    m: StoreModel,
    username: Seq<char>,
    password: Seq<char>,
    role: Seq<char>,
    hash: Seq<char>,
    cache_written: bool,
    co: CacheGetOutcome,
    df: DurableFindOutcome,
    now: u64,
    ttl_seconds: u64,
    secret: Seq<char>,
    now2: u64,
)
    requires
        cache_coherent(m),
        !m.durable.contains_key(username),
        colon_free(hash),
        sign_up_validation(username, password, role) is None,
        cache_get_consistent(
            post_registration_model(m, username, hash, role, cache_written),
            cache_key_of(username),
            co,
        ),
        durable_find_consistent(
            post_registration_model(m, username, hash, role, cache_written),
            username,
            df,
        ),
        !(df is Unreachable),
        now + ttl_seconds <= u64::MAX,
    ensures
        digest_matches(password, hash) ==> sign_in_spec(
            username,
            password,
            lookup_spec(co, df),
            now,
            ttl_seconds,
            secret,
        ) == Ok::<_, AuthError>(jwt_of(username, role, (now + ttl_seconds) as u64, secret)),
        digest_matches(password, hash) && jwt_claims_of(
            jwt_of(username, role, (now + ttl_seconds) as u64, secret),
            secret,
        ) == Some((username, role, (now + ttl_seconds) as u64)) && now2 < now + ttl_seconds
            ==> validate_token_spec(
            jwt_of(username, role, (now + ttl_seconds) as u64, secret),
            now2,
            secret,
        ) == Ok::<_, AuthError>((username, role, (now + ttl_seconds) as u64)),
{
    let m2 = post_registration_model(m, username, hash, role, cache_written);
    if cache_written {
        lemma_register_preserves_coherence(m, username, hash, role);
    } else {
        lemma_insert_preserves_coherence(
            m,
            username,
            RecordModel { password_hash: hash, role },
        );
    }
    lemma_lookup_consistent(m2, username, co, df);
    assert(m2.durable[username] == RecordModel { password_hash: hash, role });
}

/// Wrong password and unknown user are indistinguishable: whenever the
/// password does not verify against the stored digest, authentication
/// returns the very same value — error variant and message — as it does
/// for a username that resolves nowhere.
pub proof fn lemma_wrong_password_indistinguishable(
    username: Seq<char>,
    password: Seq<char>,
    rec: RecordModel,
    now: u64,
    ttl_seconds: u64,
    secret: Seq<char>,
)
    ensures
        !digest_matches(password, rec.password_hash) ==> sign_in_spec(
            username,
            password,
            LookupModel::Found(rec),
            now,
            ttl_seconds,
            secret,
        ) == sign_in_spec(username, password, LookupModel::NotFound, now, ttl_seconds, secret),
        sign_in_validation(username, password) is None ==> sign_in_spec(
            username,
            password,
            LookupModel::NotFound,
            now,
            ttl_seconds,
            secret,
        ) == Err::<Seq<char>, _>(AuthError::Unauthenticated),
{
}

/// Expiry: a token validates only while its embedded expiry lies strictly
/// in the future. Once the clock reading reaches it — a one-second lifetime
/// checked two seconds later, say — validation returns the same invalid-token
/// error that a forged or malformed token gets.
pub proof fn lemma_expired_token_rejected(token: Seq<char>, now: u64, secret: Seq<char>)
    ensures
        (jwt_claims_of(token, secret) matches Some(c) && c.2 <= now) ==> validate_token_spec(
            token,
            now,
            secret,
        ) == Err::<(Seq<char>, Seq<char>, u64), _>(AuthError::InvalidToken),
        jwt_claims_of(token, secret) is None ==> validate_token_spec(token, now, secret) == Err::<
            (Seq<char>, Seq<char>, u64),
            _,
        >(AuthError::InvalidToken),
{
}

/// Cache-miss fallback: with a durable row present and the cache settling
/// nothing — a miss, an unreachable cache, or a malformed record — the
/// lookup still finds the row, and authentication with the right password
/// still succeeds. The cache's absence never itself fails authentication.
pub proof fn lemma_cache_miss_fallback(
    m: StoreModel,
    username: Seq<char>,
    password: Seq<char>,
    co: CacheGetOutcome,
    df: DurableFindOutcome,
    now: u64,
    ttl_seconds: u64,
    secret: Seq<char>,
)
    requires
        m.durable.contains_key(username),
        lookup_after_cache_spec(co) is None,
        durable_find_consistent(m, username, df),
        !(df is Unreachable),
        sign_in_validation(username, password) is None,
        now + ttl_seconds <= u64::MAX,
    ensures
        lookup_spec(co, df) == LookupModel::Found(m.durable[username]),
        digest_matches(password, m.durable[username].password_hash) ==> sign_in_spec(
            username,
            password,
            lookup_spec(co, df),
            now,
            ttl_seconds,
            secret,
        ) == Ok::<_, AuthError>(
            jwt_of(username, m.durable[username].role, (now + ttl_seconds) as u64, secret),
        ),
{
}

} // verus!
