//! End-to-end scenarios for the three pipelines, driving them against a
//! small in-memory pair of stores: a cache map and a durable map with a
//! uniqueness constraint. The real bcrypt hashing and HS256 signing run
//! underneath.

use std::collections::HashMap;

use auth_core::errors::{AuthError, StatusCode};
use auth_core::service::{
    AuthenticationService, SignInResponse, SignInStart, SignUpResponse, SignUpStart,
    SignUpResolve,
};
use auth_core::store::{
    CacheGetOutcome, DurableFindOutcome, InsertOutcome, LookupResult, LookupStep, User,
};

const NOW: u64 = 1_700_000_000;
const TTL: u64 = 20;
const SECRET: &str = "test-signing-secret";

/// The two backing stores, simulated: the durable map is authoritative and
/// enforces username uniqueness; the cache map may be dropped or corrupted
/// by a test between calls.
struct World {
    cache: HashMap<String, String>,
    cache_reachable: bool,
    durable: HashMap<String, (String, String)>,
    cache_reads: usize,
    durable_reads: usize,
}

impl World {
    fn new() -> World {
        World {
            cache: HashMap::new(),
            cache_reachable: true,
            durable: HashMap::new(),
            cache_reads: 0,
            durable_reads: 0,
        }
    }

    fn cache_get(&mut self, key: &str) -> CacheGetOutcome {
        self.cache_reads += 1;
        if !self.cache_reachable {
            return CacheGetOutcome::Unreachable;
        }
        match self.cache.get(key) {
            Some(v) => CacheGetOutcome::Hit(v.clone()),
            None => CacheGetOutcome::Miss,
        }
    }

    fn durable_find(&mut self, username: &str) -> DurableFindOutcome {
        self.durable_reads += 1;
        match self.durable.get(username) {
            Some((hash, role)) => DurableFindOutcome::Found(User {
                id: 0,
                username: username.to_string(),
                password_hash: hash.clone(),
                role: role.clone(),
            }),
            None => DurableFindOutcome::NotFound,
        }
    }

    /// The durable insert, with the uniqueness constraint doing its work.
    fn durable_insert(&mut self, username: &str, hash: &str, role: &str) -> InsertOutcome {
        if self.durable.contains_key(username) {
            return InsertOutcome::DuplicateUsername;
        }
        self.durable
            .insert(username.to_string(), (hash.to_string(), role.to_string()));
        InsertOutcome::Inserted
    }

    fn cache_set(&mut self, key: String, value: String) {
        if self.cache_reachable {
            self.cache.insert(key, value);
        }
    }

    fn lookup(&mut self, key: &str, username: &str) -> LookupResult {
        match auth_core::store::lookup_after_cache(self.cache_get(key)) {
            LookupStep::Done(r) => r,
            LookupStep::QueryDurable => {
                auth_core::store::lookup_after_durable(self.durable_find(username))
            }
        }
    }

    fn register(&mut self, username: &str, password: &str, role: &str) -> Result<SignUpResponse, AuthError> {
        let key = match AuthenticationService::sign_up_start(username, password, role) {
            SignUpStart::Rejected(e) => return Err(e),
            SignUpStart::Lookup(key) => key,
        };
        let looked_up = self.lookup(&key, username);
        let prep = match AuthenticationService::sign_up_resolve(username, password, role, looked_up) {
            SignUpResolve::Rejected(e) => return Err(e),
            SignUpResolve::Insert(prep) => prep,
        };
        // Durable first; the cache write afterwards is best-effort.
        let inserted = self.durable_insert(&prep.username, &prep.password_hash, &prep.role);
        let result = AuthenticationService::sign_up_finish(inserted);
        if result.is_ok() {
            self.cache_set(
                auth_core::record::cache_key(&prep.username),
                auth_core::record::cache_value(&prep.password_hash, &prep.role),
            );
        }
        result
    }

    fn authenticate(&mut self, username: &str, password: &str) -> Result<SignInResponse, AuthError> {
        let key = match AuthenticationService::sign_in_start(username, password) {
            SignInStart::Rejected(e) => return Err(e),
            SignInStart::Lookup(key) => key,
        };
        let looked_up = self.lookup(&key, username);
        AuthenticationService::sign_in_resolve(username, password, looked_up, NOW, TTL, SECRET)
    }
}

#[test]
fn test_register_invalid_role_touches_no_store() {
    let mut w = World::new();
    let r = w.register("alice123", "secret!", "admin");
    assert_eq!(r.unwrap_err(), AuthError::InvalidRole);
    assert_eq!(AuthError::InvalidRole.status(), StatusCode::InvalidArgument);
    assert_eq!(w.cache_reads, 0);
    assert_eq!(w.durable_reads, 0);
    assert!(w.durable.is_empty() && w.cache.is_empty());
}

#[test]
fn test_short_credentials_rejected_before_store_access() {
    let mut w = World::new();
    assert_eq!(w.register("ali", "secret!", "insurance").unwrap_err(), AuthError::InvalidUsername);
    assert_eq!(w.register("alice123", "123", "insurance").unwrap_err(), AuthError::InvalidPassword);
    assert_eq!(w.authenticate("ali", "secret!").unwrap_err(), AuthError::InvalidUsername);
    assert_eq!(w.authenticate("alice123", "123").unwrap_err(), AuthError::InvalidPassword);
    assert_eq!(w.cache_reads, 0);
    assert_eq!(w.durable_reads, 0);
}

#[test]
fn test_register_twice_conflicts() {
    let mut w = World::new();
    let first = w.register("alice123", "secret!", "team_manager").unwrap();
    assert!(first.success);
    assert_eq!(first.message, "User created successfully");
    let second = w.register("alice123", "other-pass", "team_manager");
    assert_eq!(second.unwrap_err(), AuthError::AlreadyExists);
    assert_eq!(AuthError::AlreadyExists.status(), StatusCode::AlreadyExists);
}

#[test]
fn test_registration_race_single_winner() {
    // Two registrations of one name race past the pre-check: both see the
    // username absent, both hash, and only the durable uniqueness
    // constraint decides. Exactly one succeeds; the other conflicts.
    let mut w = World::new();
    let prep_a = match AuthenticationService::sign_up_resolve(
        "carol88", "pass-a", "insurance", LookupResult::NotFound,
    ) {
        SignUpResolve::Insert(p) => p,
        SignUpResolve::Rejected(e) => panic!("unexpected rejection: {:?}", e),
    };
    let prep_b = match AuthenticationService::sign_up_resolve(
        "carol88", "pass-b", "insurance", LookupResult::NotFound,
    ) {
        SignUpResolve::Insert(p) => p,
        SignUpResolve::Rejected(e) => panic!("unexpected rejection: {:?}", e),
    };
    let o1 = w.durable_insert(&prep_a.username, &prep_a.password_hash, &prep_a.role);
    let o2 = w.durable_insert(&prep_b.username, &prep_b.password_hash, &prep_b.role);
    let r1 = AuthenticationService::sign_up_finish(o1);
    let r2 = AuthenticationService::sign_up_finish(o2);
    assert!(r1.unwrap().success);
    assert_eq!(r2.unwrap_err(), AuthError::AlreadyExists);
}

#[test]
fn test_round_trip_register_authenticate_validate() {
    let mut w = World::new();
    let reg = w.register("alice123", "secret!", "team_manager").unwrap();
    assert!(reg.success);
    let auth = w.authenticate("alice123", "secret!").unwrap();
    assert!(auth.success);
    assert_eq!(auth.message, "User signed in successfully");
    assert!(!auth.jwt.is_empty());
    let v = AuthenticationService::validate_token(&auth.jwt, NOW + 1, SECRET).unwrap();
    assert!(v.success);
    assert_eq!(v.message, "JWT is valid");
    assert_eq!(v.username, "alice123");
    assert_eq!(v.role, "team_manager");
    assert_eq!(v.expiration, NOW + TTL);
}

#[test]
fn test_wrong_password_indistinguishable_from_unknown_user() {
    let mut w = World::new();
    w.register("alice123", "secret!", "team_manager").unwrap();
    let wrong = w.authenticate("alice123", "not-the-password").unwrap_err();
    let unknown = w.authenticate("nobody99", "whatever!").unwrap_err();
    assert_eq!(wrong, AuthError::Unauthenticated);
    assert_eq!(wrong, unknown);
    assert_eq!(wrong.message(), unknown.message());
    assert_eq!(wrong.status(), StatusCode::Unauthenticated);
}

#[test]
fn test_token_expired_after_ttl() {
    // A token issued with a one-second lifetime, checked two seconds later.
    let mut w = World::new();
    w.register("alice123", "secret!", "team_manager").unwrap();
    let key = auth_core::record::cache_key("alice123");
    let looked_up = w.lookup(&key, "alice123");
    let auth =
        AuthenticationService::sign_in_resolve("alice123", "secret!", looked_up, NOW, 1, SECRET)
            .unwrap();
    let v = AuthenticationService::validate_token(&auth.jwt, NOW + 2, SECRET);
    assert_eq!(v.unwrap_err(), AuthError::InvalidToken);
    assert_eq!(AuthError::InvalidToken.status(), StatusCode::Unauthenticated);
}

#[test]
fn test_token_valid_until_expiry_boundary() {
    let mut w = World::new();
    w.register("alice123", "secret!", "team_manager").unwrap();
    let auth = w.authenticate("alice123", "secret!").unwrap();
    // Valid strictly before the expiry instant, invalid at it.
    assert!(AuthenticationService::validate_token(&auth.jwt, NOW + TTL - 1, SECRET).is_ok());
    assert!(AuthenticationService::validate_token(&auth.jwt, NOW + TTL, SECRET).is_err());
}

#[test]
fn test_cache_miss_falls_back_to_durable() {
    let mut w = World::new();
    w.register("alice123", "secret!", "team_manager").unwrap();
    // Drop the cache entry: the durable record alone must carry the login.
    w.cache.clear();
    let reads_before = w.durable_reads;
    let auth = w.authenticate("alice123", "secret!").unwrap();
    assert!(auth.success);
    assert!(w.durable_reads > reads_before);
    let v = AuthenticationService::validate_token(&auth.jwt, NOW + 1, SECRET).unwrap();
    assert_eq!(v.username, "alice123");
    assert_eq!(v.role, "team_manager");
}

#[test]
fn test_unreachable_cache_falls_back_to_durable() {
    let mut w = World::new();
    w.register("alice123", "secret!", "team_manager").unwrap();
    w.cache_reachable = false;
    let auth = w.authenticate("alice123", "secret!").unwrap();
    assert!(auth.success);
}

#[test]
fn test_malformed_cache_record_falls_back_to_durable() {
    let mut w = World::new();
    w.register("alice123", "secret!", "team_manager").unwrap();
    // A cache value without a colon does not parse; the durable store decides.
    w.cache
        .insert("user:alice123".to_string(), "garbage-without-separator".to_string());
    let auth = w.authenticate("alice123", "secret!").unwrap();
    assert!(auth.success);
}

#[test]
fn test_tampered_and_garbage_tokens_rejected() {
    let mut w = World::new();
    w.register("alice123", "secret!", "team_manager").unwrap();
    let auth = w.authenticate("alice123", "secret!").unwrap();
    // Wrong secret.
    assert_eq!(
        AuthenticationService::validate_token(&auth.jwt, NOW + 1, "other-secret").unwrap_err(),
        AuthError::InvalidToken,
    );
    // Not a token at all.
    assert_eq!(
        AuthenticationService::validate_token("not.a.jwt", NOW + 1, SECRET).unwrap_err(),
        AuthError::InvalidToken,
    );
    assert_eq!(
        AuthenticationService::validate_token("", NOW + 1, SECRET).unwrap_err(),
        AuthError::InvalidToken,
    );
}

#[test]
fn test_error_messages_and_statuses() {
    assert_eq!(AuthError::InvalidRole.message(), "Invalid user role");
    assert_eq!(AuthError::InvalidUsername.message(), "Invalid username");
    assert_eq!(AuthError::InvalidPassword.message(), "Invalid password");
    assert_eq!(AuthError::AlreadyExists.message(), "User already exists");
    assert_eq!(AuthError::Unauthenticated.message(), "Invalid credentials");
    assert_eq!(AuthError::InvalidToken.message(), "Invalid token");
    assert_eq!(AuthError::Internal.message(), "Internal error");
    assert_eq!(AuthError::InvalidRole.status(), StatusCode::InvalidArgument);
    assert_eq!(AuthError::Internal.status(), StatusCode::Internal);
}

#[test]
fn test_durable_unavailable_is_internal() {
    let r = AuthenticationService::sign_in_resolve(
        "alice123", "secret!", LookupResult::Unavailable, NOW, TTL, SECRET,
    );
    assert_eq!(r.unwrap_err(), AuthError::Internal);
    match AuthenticationService::sign_up_resolve(
        "alice123", "secret!", "insurance", LookupResult::Unavailable,
    ) {
        SignUpResolve::Rejected(e) => assert_eq!(e, AuthError::Internal),
        SignUpResolve::Insert(_) => panic!("insert despite unavailable store"),
    }
}

#[test]
fn test_hash_is_not_plaintext_and_salted() {
    // The stored digest is not the password, and two registrations of the
    // same password store different digests (fresh salt each time).
    let mut w = World::new();
    w.register("alice123", "secret!", "team_manager").unwrap();
    w.register("bobby456", "secret!", "insurance").unwrap();
    let (h1, _) = w.durable.get("alice123").unwrap().clone();
    let (h2, _) = w.durable.get("bobby456").unwrap().clone();
    assert_ne!(h1, "secret!");
    assert_ne!(h1, h2);
    assert!(!h1.contains(':'));
}
