//! The three service operations: registration, authentication and token
//! validation, each a single linear pipeline.
//!
//! The pipelines are pure decisions: every store answer arrives as an
//! outcome value (see `store`), the clock arrives as a seconds reading, and
//! the secret and the token lifetime arrive as configuration values. The
//! caller performs the store actions between the steps — and, per the
//! contracts here, performs none at all when a step already rejected.

use vstd::prelude::*;
use vstd::string::StringExecFns;
use crate::errors::AuthError;
use crate::hashing::{HASH_COST, colon_free, digest_matches, hash_password, verify_password};
use crate::helpers::{
    is_valid_password, is_valid_user_role, is_valid_username, valid_password, valid_role,
    valid_username,
};
use crate::record::{cache_key, cache_key_of};
use crate::store::{LookupModel, LookupResult, InsertOutcome, lookup_result_view};
use crate::token::{check_token, jwt_claims_of, jwt_of, jwt_encode, validate_token_spec};

verus! {

/// The registration response.
#[derive(Debug)]
pub struct SignUpResponse {
    pub success: bool,
    pub message: String,
}

/// The authentication response; `jwt` carries the signed session token.
#[derive(Debug)]
pub struct SignInResponse {
    pub success: bool,
    pub message: String,
    pub jwt: String,
}

/// The token-validation response: the claims of a valid token, verbatim.
#[derive(Debug)]
pub struct TokenValidationResponse {
    pub success: bool,
    pub message: String,
    pub username: String,
    pub role: String,
    pub expiration: u64,
}

/// The first move of a registration: reject bad input outright, or ask for
/// a lookup of the username — role first, then username, then password,
/// each short-circuiting. No store is involved before this step resolves.
pub enum SignUpStart {
    Rejected(AuthError),
    Lookup(String),
}

/// A validated, hashed registration, ready for the durable insert; the
/// plaintext password is gone.
pub struct PreparedUser {
    pub username: String,
    pub password_hash: String,
    pub role: String,
}

/// The second move of a registration, once the lookup has answered.
pub enum SignUpResolve {
    Rejected(AuthError),
    Insert(PreparedUser),
}

/// The first move of an authentication: shape-check the credentials before
/// any store is consulted, or ask for a lookup of the username.
pub enum SignInStart {
    Rejected(AuthError),
    Lookup(String),
}

/// What registration input validation decides, in its fixed order.
pub open spec fn sign_up_validation(u: Seq<char>, p: Seq<char>, r: Seq<char>) -> Option<
    AuthError,
> {
    if !valid_role(r) {
        Some(AuthError::InvalidRole)
    } else if !valid_username(u) {
        Some(AuthError::InvalidUsername)
    } else if !valid_password(p) {
        Some(AuthError::InvalidPassword)
    } else {
        None
    }
}

/// What authentication input validation decides: credentials too short to
/// ever have been registered are rejected before any store access.
pub open spec fn sign_in_validation(u: Seq<char>, p: Seq<char>) -> Option<AuthError> {
    if !valid_username(u) {
        Some(AuthError::InvalidUsername)
    } else if !valid_password(p) {
        Some(AuthError::InvalidPassword)
    } else {
        None
    }
}

/// What the registration pipeline decides once the lookup has answered:
/// an error to reject with, or nothing — meaning the insert may proceed.
pub open spec fn sign_up_decision(
    u: Seq<char>,
    p: Seq<char>,
    r: Seq<char>,
    lk: LookupModel,
) -> Option<AuthError> {
    match sign_up_validation(u, p, r) {
        Some(e) => Some(e),
        None => match lk {
            LookupModel::Found(_) => Some(AuthError::AlreadyExists),
            LookupModel::Unavailable => Some(AuthError::Internal),
            LookupModel::NotFound => None,
        },
    }
}

/// What finishing a registration returns for each durable-insert outcome:
/// success, the conflict (a violated uniqueness constraint maps to the same
/// conflict as the pre-check), or an internal error.
pub open spec fn sign_up_finish_decision(o: InsertOutcome) -> Result<(), AuthError> {
    match o {
        InsertOutcome::Inserted => Ok(()),
        InsertOutcome::DuplicateUsername => Err(AuthError::AlreadyExists),
        InsertOutcome::StoreError => Err(AuthError::Internal),
    }
}

/// What authentication returns, given the lookup's answer: unknown user and
/// wrong password collapse into one error; an unreachable durable store is
/// internal; otherwise a token signed over the stored role, expiring at
/// `now + ttl_seconds`.
pub open spec fn sign_in_spec(
    u: Seq<char>,
    p: Seq<char>,
    lk: LookupModel,
    now: u64,
    ttl_seconds: u64,
    secret: Seq<char>,
) -> Result<Seq<char>, AuthError> {
    match sign_in_validation(u, p) {
        Some(e) => Err(e),
        None => match lk {
            LookupModel::NotFound => Err(AuthError::Unauthenticated),
            LookupModel::Unavailable => Err(AuthError::Internal),
            LookupModel::Found(rec) => if !digest_matches(p, rec.password_hash) {
                Err(AuthError::Unauthenticated)
            } else if now + ttl_seconds <= u64::MAX {
                Ok(jwt_of(u, rec.role, (now + ttl_seconds) as u64, secret))
            } else {
                Err(AuthError::Internal)
            },
        },
    }
}

/// The service: three stateless operations; no state is carried between
/// calls beyond what the two stores hold.
#[derive(Debug, Default)]
pub struct AuthenticationService {}

impl AuthenticationService {
    /// Begin a registration: validate the three fields, in order.
    pub fn sign_up_start(username: &str, password: &str, role: &str) -> (r: SignUpStart)
        ensures
            sign_up_validation(username@, password@, role@) matches Some(e) ==> r
                == SignUpStart::Rejected(e),
            sign_up_validation(username@, password@, role@) is None ==> (r matches
                SignUpStart::Lookup(k) && k@ == cache_key_of(username@)),
    {
        if !is_valid_user_role(role) {
            SignUpStart::Rejected(AuthError::InvalidRole)
        } else if !is_valid_username(username) {
            SignUpStart::Rejected(AuthError::InvalidUsername)
        } else if !is_valid_password(password) {
            SignUpStart::Rejected(AuthError::InvalidPassword)
        } else {
            SignUpStart::Lookup(cache_key(username))
        }
    }

    /// Continue a registration once the lookup has answered: conflict if the
    /// username resolved anywhere, otherwise hash the password and hand back
    /// the row for the durable insert. Hashing failure is internal.
    pub fn sign_up_resolve(
        username: &str,
        password: &str,
        role: &str,
        lookup: LookupResult,
    ) -> (r: SignUpResolve)
        ensures
            sign_up_decision(username@, password@, role@, lookup_result_view(lookup)) matches
                Some(e) ==> r == SignUpResolve::Rejected(e),
            sign_up_decision(username@, password@, role@, lookup_result_view(lookup)) is None
                ==> (r matches SignUpResolve::Insert(prep) && prep.username@ == username@
                && prep.role@ == role@ && digest_matches(password@, prep.password_hash@)
                && colon_free(prep.password_hash@)) || r == SignUpResolve::Rejected(
                AuthError::Internal,
            ),
    {
        if !is_valid_user_role(role) {
            return SignUpResolve::Rejected(AuthError::InvalidRole);
        }
        if !is_valid_username(username) {
            return SignUpResolve::Rejected(AuthError::InvalidUsername);
        }
        if !is_valid_password(password) {
            return SignUpResolve::Rejected(AuthError::InvalidPassword);
        }
        match lookup {
            LookupResult::Found(_) => SignUpResolve::Rejected(AuthError::AlreadyExists),
            LookupResult::Unavailable => SignUpResolve::Rejected(AuthError::Internal),
            LookupResult::NotFound => match hash_password(password, HASH_COST) {
                Some(digest) => SignUpResolve::Insert(
                    PreparedUser {
                        username: username.to_owned(),
                        password_hash: digest,
                        role: role.to_owned(),
                    },
                ),
                None => SignUpResolve::Rejected(AuthError::Internal),
            },
        }
    }

    /// Finish a registration once the durable insert has answered. A
    /// violated uniqueness constraint is the same conflict as the pre-check:
    /// the durable store, not the check, is what resolves a race.
    pub fn sign_up_finish(insert: InsertOutcome) -> (r: Result<SignUpResponse, AuthError>)
        ensures
            sign_up_finish_decision(insert) is Ok ==> (r matches Ok(resp) && resp.success == true
                && resp.message@ == "User created successfully"@),
            sign_up_finish_decision(insert) matches Err(e) ==> r == Err::<SignUpResponse, _>(e),
    {
        match insert {
            InsertOutcome::Inserted => Ok(
                SignUpResponse {
                    success: true,
                    message: String::from_str("User created successfully"),
                },
            ),
            InsertOutcome::DuplicateUsername => Err(AuthError::AlreadyExists),
            InsertOutcome::StoreError => Err(AuthError::Internal),
        }
    }

    /// Begin an authentication: shape-check the credentials before any
    /// store access.
    pub fn sign_in_start(username: &str, password: &str) -> (r: SignInStart)
        ensures
            sign_in_validation(username@, password@) matches Some(e) ==> r
                == SignInStart::Rejected(e),
            sign_in_validation(username@, password@) is None ==> (r matches SignInStart::Lookup(k)
                && k@ == cache_key_of(username@)),
    {
        if !is_valid_username(username) {
            SignInStart::Rejected(AuthError::InvalidUsername)
        } else if !is_valid_password(password) {
            SignInStart::Rejected(AuthError::InvalidPassword)
        } else {
            SignInStart::Lookup(cache_key(username))
        }
    }

    /// Finish an authentication once the lookup has answered: verify the
    /// password against the stored digest and issue the token. On success
    /// the token decodes, under the same secret, to exactly the username,
    /// the stored role, and the expiry `now + ttl_seconds`.
    pub fn sign_in_resolve(
        username: &str,
        password: &str,
        lookup: LookupResult,
        now: u64,
        ttl_seconds: u64,
        secret: &str,
    ) -> (r: Result<SignInResponse, AuthError>)
        ensures
            match r {
                Ok(resp) => sign_in_spec(
                    username@,
                    password@,
                    lookup_result_view(lookup),
                    now,
                    ttl_seconds,
                    secret@,
                ) == Ok::<_, AuthError>(resp.jwt@) && resp.success == true && resp.message@
                    == "User signed in successfully"@ && (lookup_result_view(lookup) matches
                LookupModel::Found(rec) && jwt_claims_of(resp.jwt@, secret@) == Some(
                    (username@, rec.role, (now + ttl_seconds) as u64),
                )),
                Err(e) => sign_in_spec(
                    username@,
                    password@,
                    lookup_result_view(lookup),
                    now,
                    ttl_seconds,
                    secret@,
                ) == Err::<Seq<char>, _>(e),
            },
    {
        if !is_valid_username(username) {
            return Err(AuthError::InvalidUsername);
        }
        if !is_valid_password(password) {
            return Err(AuthError::InvalidPassword);
        }
        match lookup {
            LookupResult::NotFound => Err(AuthError::Unauthenticated),
            LookupResult::Unavailable => Err(AuthError::Internal),
            LookupResult::Found(rec) => {
                if !verify_password(password, rec.password_hash.as_str()) {
                    Err(AuthError::Unauthenticated)
                } else {
                    Self::return_jwt(username, rec.role.as_str(), now, ttl_seconds, secret)
                }
            },
        }
    }

    /// Build and sign the session token: expiry at `now + ttl_seconds`,
    /// claims `{username, role, exp}`, HS256 under the shared secret.
    pub fn return_jwt(
        username: &str,
        role: &str,
        now: u64,
        ttl_seconds: u64,
        secret: &str,
    ) -> (r: Result<SignInResponse, AuthError>)
        ensures
            now + ttl_seconds <= u64::MAX ==> (r matches Ok(resp) && resp.success == true
                && resp.message@ == "User signed in successfully"@ && resp.jwt@ == jwt_of(
                username@,
                role@,
                (now + ttl_seconds) as u64,
                secret@,
            ) && jwt_claims_of(resp.jwt@, secret@) == Some(
                (username@, role@, (now + ttl_seconds) as u64),
            )),
            now + ttl_seconds > u64::MAX ==> r == Err::<SignInResponse, _>(AuthError::Internal),
    {
        match now.checked_add(ttl_seconds) {
            Some(exp) => {
                let token = jwt_encode(username, role, exp, secret);
                Ok(
                    SignInResponse {
                        success: true,
                        message: String::from_str("User signed in successfully"),
                        jwt: token,
                    },
                )
            },
            None => Err(AuthError::Internal),
        }
    }

    /// Validate a session token against the clock reading `now`: on success
    /// the embedded claims, verbatim; on any failure — bad signature,
    /// malformed token, expiry not in the future — one uniform error.
    pub fn validate_token(token: &str, now: u64, secret: &str) -> (r: Result<
        TokenValidationResponse,
        AuthError,
    >)
        ensures
            match r {
                Ok(resp) => validate_token_spec(token@, now, secret@) == Ok::<_, AuthError>(
                    (resp.username@, resp.role@, resp.expiration),
                ) && resp.success == true && resp.message@ == "JWT is valid"@,
                Err(e) => validate_token_spec(token@, now, secret@) == Err::<
                    (Seq<char>, Seq<char>, u64),
                    _,
                >(e),
            },
    {
        match check_token(token, now, secret) {
            Ok(c) => Ok(
                TokenValidationResponse {
                    success: true,
                    message: String::from_str("JWT is valid"),
                    username: c.username,
                    role: c.role,
                    expiration: c.exp,
                },
            ),
            Err(e) => Err(e),
        }
    }
}

} // verus!
