//! The authentication service: registration, login, logout, refresh-token rotation and
//! password reset.
//!
//! Each operation is stated twice. A model function says what the operation does to the
//! state and what it returns, given what the outside world contributed: the reading of the
//! clock, the hash of a password, a random token, the verdict on a token's signature. The
//! functions that take those contributions as arguments meet the model exactly. Those that
//! obtain them themselves meet it for some contribution.

use vstd::prelude::*;
use crate::database::{Database, DatabaseView};
use crate::error::{failure, outcome, AppError, ErrorKind, Failure};
use crate::ledger::RESET_TOKEN_TTL;
use crate::models::{
    AuthResponse, AuthResponseView, LoginRequest, LoginRequestView, User, UserCreate,
    UserCreateView, UserView,
};
use crate::primitives::{
    bcrypt_hash, bcrypt_verdict, bcrypt_verify, clock_reading, current_timestamp, random_token,
};
use crate::store::UserRecordView;
use crate::text::contains_char;
use crate::users::{get_user_profile, profile_of};
use crate::token::{invalid_token_failure, issue_session_tokens, session_tokens, token_subject, verify};

verus! {

/// The shape that an email must have: it holds an `@`.
pub open spec fn valid_email(email: Seq<char>) -> bool {
    email.contains('@')
}

/// The failure reported for an email of the wrong shape.
pub open spec fn invalid_email_failure() -> Failure {
    failure(ErrorKind::Validation, "Invalid email format"@)
}

/// The failure reported for an unknown or inactive account and for a wrong password
/// alike, so that the two cannot be told apart.
pub open spec fn invalid_credentials_failure() -> Failure {
    failure(ErrorKind::Auth, "Invalid credentials"@)
}

/// The failure reported when a password cannot be hashed, with the reason.
pub open spec fn password_hashing_failure(reason: Seq<char>) -> Failure {
    failure(ErrorKind::Internal, "Password hashing failed: "@ + reason)
}

/// The failure reported when a stored hash cannot be checked against a password, with the
/// reason.
pub open spec fn password_verification_failure(reason: Seq<char>) -> Failure {
    failure(ErrorKind::Internal, "Password verification failed: "@ + reason)
}

/// The failure reported for a reset token that is unknown, used or expired.
pub open spec fn invalid_reset_token_failure() -> Failure {
    failure(ErrorKind::Auth, "Invalid or expired reset token"@)
}

/// The failure reported when a reset token's expiry is not representable.
pub open spec fn reset_expiry_failure() -> Failure {
    failure(ErrorKind::Internal, "Reset token expiry is out of range"@)
}

/// Whether `hashed` can be what hashing `password` gave: either hashing failed for some
/// reason, or the hash is one that the password checks out against.
pub open spec fn hashing_of(password: Seq<char>, hashed: Result<Seq<char>, Seq<char>>) -> bool {
    hashed matches Ok(hash) ==> bcrypt_verdict(password, hash) == Ok::<bool, Seq<char>>(true)
}

/// Whether `verified` can be what checking the signature and expiry of this token under
/// this secret gave: the subject that the token names, or, where the token was refused
/// as expired, the failure for an invalid token.
pub open spec fn verification_result(
    token: Seq<char>,
    secret: Seq<char>,
    verified: Result<i64, Failure>,
) -> bool {
    verified == token_subject(token, secret) || verified == Err::<i64, Failure>(
        invalid_token_failure(),
    )
}

/// What stands for a hashing that never took place: a registration or a reset that fails
/// before the password is hashed does not depend on it.
pub open spec fn not_hashed() -> Result<Seq<char>, Seq<char>> {
    Err(Seq::empty())
}

/// Why a registration is refused before the password is hashed, if it is.
pub open spec fn registration_failure(db: DatabaseView, data: UserCreateView) -> Option<
    Failure,
> {
    if !valid_email(data.email) {
        Some(invalid_email_failure())
    } else {
        db.store.insertion_failure(data.email)
    }
}

/// Registration: the state afterwards and the result, where hashing the password gave
/// `hashed` and the clock read `now`.
pub open spec fn register_outcome(
    db: DatabaseView,
    data: UserCreateView,
    hashed: Result<Seq<char>, Seq<char>>,
    now: i64,
) -> (DatabaseView, Result<UserView, Failure>) {
    match registration_failure(db, data) {
        Some(f) => (db, Err(f)),
        None => match hashed {
            Err(reason) => (db, Err(password_hashing_failure(reason))),
            Ok(hash) => (
                DatabaseView { store: db.store.with_inserted(data, hash, now), ..db },
                Ok(db.store.new_record(data, hash, now).snapshot()),
            ),
        },
    }
}

/// Opening a session for an account: the state afterwards and the result.
pub open spec fn session_outcome(db: DatabaseView, user: UserRecordView, now: i64) -> (
    DatabaseView,
    Result<AuthResponseView, Failure>,
) {
    match session_tokens(user.id, now, db.secret) {
        Err(f) => (db, Err(f)),
        Ok(tokens) => (
            DatabaseView {
                ledger: db.ledger.with_refresh_token(
                    user.id,
                    tokens.refresh_token,
                    tokens.refresh_expires_at,
                ),
                ..db
            },
            Ok(
                AuthResponseView {
                    access_token: tokens.access_token,
                    refresh_token: tokens.refresh_token,
                    user: user.snapshot(),
                },
            ),
        ),
    }
}

/// Login: the state afterwards and the result, where the clock read `now`.
pub open spec fn login_outcome(db: DatabaseView, request: LoginRequestView, now: i64) -> (
    DatabaseView,
    Result<AuthResponseView, Failure>,
) {
    match db.store.active_by_email(request.email) {
        None => (db, Err(invalid_credentials_failure())),
        Some(user) => match bcrypt_verdict(request.password, user.password_hash) {
            Err(reason) => (db, Err(password_verification_failure(reason))),
            Ok(false) => (db, Err(invalid_credentials_failure())),
            Ok(true) => session_outcome(db, user, now),
        },
    }
}

/// Logout: the state afterwards.
pub open spec fn logout_outcome(db: DatabaseView, refresh_token: Seq<char>) -> DatabaseView {
    DatabaseView { ledger: db.ledger.without_refresh_token(refresh_token), ..db }
}

/// Rotation of a refresh token whose signature named `user_id`: the state afterwards and
/// the result, where the clock read `now`.
pub open spec fn rotation_outcome(
    db: DatabaseView,
    refresh_token: Seq<char>,
    user_id: i64,
    now: i64,
) -> (DatabaseView, Result<AuthResponseView, Failure>) {
    if !db.ledger.has_live_refresh_token(refresh_token, now) {
        (db, Err(invalid_token_failure()))
    } else {
        match db.store.active_by_id(user_id) {
            None => (db, Err(invalid_token_failure())),
            Some(user) => match session_tokens(user.id, now, db.secret) {
                Err(f) => (db, Err(f)),
                Ok(tokens) => (
                    DatabaseView {
                        ledger: db.ledger.with_rotated(
                            refresh_token,
                            tokens.refresh_token,
                            tokens.refresh_expires_at,
                        ),
                        ..db
                    },
                    Ok(
                        AuthResponseView {
                            access_token: tokens.access_token,
                            refresh_token: tokens.refresh_token,
                            user: user.snapshot(),
                        },
                    ),
                ),
            },
        }
    }
}

/// Refresh: the state afterwards and the result, where checking the token gave `verified`
/// and the clock read `now`.
pub open spec fn refresh_outcome(
    db: DatabaseView,
    refresh_token: Seq<char>,
    verified: Result<i64, Failure>,
    now: i64,
) -> (DatabaseView, Result<AuthResponseView, Failure>) {
    match verified {
        Err(f) => (db, Err(f)),
        Ok(user_id) => rotation_outcome(db, refresh_token, user_id, now),
    }
}

/// A request for a password reset: the state afterwards and the token to deliver, where
/// the random token was `token` and the clock read `now`. An unknown email changes nothing
/// and is no failure.
pub open spec fn forgot_password_outcome(
    db: DatabaseView,
    email: Seq<char>,
    token: Seq<char>,
    now: i64,
) -> (DatabaseView, Result<Option<Seq<char>>, Failure>) {
    match db.store.by_email(email) {
        None => (db, Ok(None)),
        Some(user) => if now + RESET_TOKEN_TTL > i64::MAX {
            (db, Err(reset_expiry_failure()))
        } else {
            (
                DatabaseView {
                    ledger: db.ledger.with_reset_token(
                        user.id,
                        token,
                        (now + RESET_TOKEN_TTL) as i64,
                    ),
                    ..db
                },
                Ok(Some(token)),
            )
        },
    }
}

/// A password reset: the state afterwards and the result, where hashing the new password
/// gave `hashed` and the clock read `now`. On success the account has the new hash, the
/// token is used, and every refresh token of the account is gone.
pub open spec fn reset_password_outcome(
    db: DatabaseView,
    token: Seq<char>,
    hashed: Result<Seq<char>, Seq<char>>,
    now: i64,
) -> (DatabaseView, Result<(), Failure>) {
    match db.ledger.usable_reset_token(token, now) {
        None => (db, Err(invalid_reset_token_failure())),
        Some(row) => match hashed {
            Err(reason) => (db, Err(password_hashing_failure(reason))),
            Ok(hash) => (
                DatabaseView {
                    store: db.store.with_password(row.user_id, hash),
                    ledger: db.ledger.with_reset_token_used(token).without_sessions_of(
                        row.user_id,
                    ),
                    ..db
                },
                Ok(()),
            ),
        },
    }
}

/// The mathematical value of the result of a request for a password reset.
pub open spec fn delivery_outcome(r: Result<Option<String>, AppError>) -> Result<
    Option<Seq<char>>,
    Failure,
> {
    match r {
        Ok(Some(token)) => Ok(Some(token@)),
        Ok(None) => Ok(None),
        Err(e) => Err(e@),
    }
}

/// Registers an account whose password has been hashed to `password_hash`, at the
/// instant `now`.
pub fn register_with_hash(
    db: &mut Database,
    user_data: UserCreate,
    password_hash: String,
    now: i64,
) -> (r: Result<User, AppError>)
    ensures
        register_outcome(old(db)@, user_data@, Ok(password_hash@), now) == (
            final(db)@,
            outcome(r),
        ),
{
    if !contains_char(user_data.email.as_str(), '@') {
        return Err(AppError::Validation(String::from_str("Invalid email format")));
    }
    db.store.insert(user_data, password_hash, now)
}

/// Registers an account: checks the email's shape and that it is not taken, hashes the
/// password and stores the account as active, its email not yet verified.
pub fn register_user(db: &mut Database, user_data: UserCreate) -> (r: Result<User, AppError>)
    ensures
        exists|hashed: Result<Seq<char>, Seq<char>>, now: i64|
            clock_reading(now) && hashing_of(user_data@.password, hashed)
                && #[trigger] register_outcome(old(db)@, user_data@, hashed, now) == (
                final(db)@,
                outcome(r),
            ),
{
    if !contains_char(user_data.email.as_str(), '@') {
        let r = Err(AppError::Validation(String::from_str("Invalid email format")));
        assert(register_outcome(db@, user_data@, not_hashed(), 0) == (db@, outcome(r)));
        return r;
    }
    if let Some(e) = db.store.insertion_error(user_data.email.as_str()) {
        let r = Err(e);
        assert(register_outcome(db@, user_data@, not_hashed(), 0) == (db@, outcome(r)));
        return r;
    }
    let password_hash = match bcrypt_hash(user_data.password.as_str()) {
        Ok(hash) => hash,
        Err(reason) => {
            let r = Err(
                AppError::Internal(
                    String::from_str("Password hashing failed: ").concat(reason.as_str()),
                ),
            );
            assert(register_outcome(db@, user_data@, Err(reason@), 0) == (db@, outcome(r)));
            return r;
        },
    };
    let now = current_timestamp();
    register_with_hash(db, user_data, password_hash, now)
}

/// Logs in at the instant `now`.
pub fn login_at(db: &mut Database, login_data: LoginRequest, now: i64) -> (r: Result<
    AuthResponse,
    AppError,
>)
    ensures
        login_outcome(old(db)@, login_data@, now) == (final(db)@, outcome(r)),
        r matches Ok(response) ==> response.access_token@.len() > 0
            && response.refresh_token@.len() > 0,
{
    let record = match db.store.find_by_email(login_data.email.as_str()) {
        Some(record) => record,
        None => {
            return Err(AppError::Auth(String::from_str("Invalid credentials")));
        },
    };
    if !record.is_active {
        return Err(AppError::Auth(String::from_str("Invalid credentials")));
    }
    match bcrypt_verify(login_data.password.as_str(), record.password_hash.as_str()) {
        Err(reason) => {
            return Err(
                AppError::Internal(
                    String::from_str("Password verification failed: ").concat(reason.as_str()),
                ),
            );
        },
        Ok(false) => {
            return Err(AppError::Auth(String::from_str("Invalid credentials")));
        },
        Ok(true) => {},
    }
    let user = record.snapshot();
    let tokens = match issue_session_tokens(user.id, now, db.secret.as_str()) {
        Ok(tokens) => tokens,
        Err(e) => {
            return Err(e);
        },
    };
    db.ledger.insert_refresh_token(
        user.id,
        tokens.refresh_token.clone(),
        tokens.refresh_expires_at,
    );
    Ok(
        AuthResponse {
            access_token: tokens.access_token,
            refresh_token: tokens.refresh_token,
            user,
        },
    )
}

/// Logs in: finds the active account of that email, checks the password against its hash,
/// issues an access token and a refresh token and records the refresh token in the
/// ledger. An unknown email, an inactive account and a wrong password give the same
/// failure.
pub fn login_user(db: &mut Database, login_data: LoginRequest) -> (r: Result<
    AuthResponse,
    AppError,
>)
    ensures
        exists|now: i64|
            clock_reading(now) && #[trigger] login_outcome(old(db)@, login_data@, now) == (
                final(db)@,
                outcome(r),
            ),
        r matches Ok(response) ==> response.access_token@.len() > 0
            && response.refresh_token@.len() > 0,
{
    let now = current_timestamp();
    login_at(db, login_data, now)
}

/// Logs out: the ledger forgets the refresh token. A token that the ledger does not hold
/// is no failure.
pub fn logout_user(db: &mut Database, refresh_token: String) -> (r: Result<(), AppError>)
    ensures
        r is Ok,
        final(db)@ == logout_outcome(old(db)@, refresh_token@),
{
    db.ledger.remove_refresh_token(refresh_token.as_str());
    Ok(())
}

/// Rotates, at the instant `now`, a refresh token whose signature and expiry checked out
/// and named the account `user_id`: the ledger must hold the token unexpired and the
/// account must be active. The ledger's rows of the old token then hold the new one.
pub fn refresh_verified(db: &mut Database, refresh_token: String, user_id: i64, now: i64) -> (r:
    Result<AuthResponse, AppError>)
    ensures
        rotation_outcome(old(db)@, refresh_token@, user_id, now) == (final(db)@, outcome(r)),
        r matches Ok(response) ==> response.access_token@.len() > 0
            && response.refresh_token@.len() > 0,
{
    if !db.ledger.has_live_refresh_token(refresh_token.as_str(), now) {
        return Err(AppError::Auth(String::from_str("Invalid refresh token")));
    }
    let record = match db.store.find_by_id(user_id) {
        Some(record) => record,
        None => {
            return Err(AppError::Auth(String::from_str("Invalid refresh token")));
        },
    };
    if !record.is_active {
        return Err(AppError::Auth(String::from_str("Invalid refresh token")));
    }
    let user = record.snapshot();
    let tokens = match issue_session_tokens(user.id, now, db.secret.as_str()) {
        Ok(tokens) => tokens,
        Err(e) => {
            return Err(e);
        },
    };
    db.ledger.rotate_refresh_token(
        refresh_token.as_str(),
        tokens.refresh_token.as_str(),
        tokens.refresh_expires_at,
    );
    Ok(
        AuthResponse {
            access_token: tokens.access_token,
            refresh_token: tokens.refresh_token,
            user,
        },
    )
}

/// Exchanges a refresh token for a new pair of tokens: checks the token's signature and
/// expiry under the database's secret, then rotates it in the ledger for the account that
/// the token names. A token that the ledger does not hold fails, whatever its signature
/// says, and so does one that names no active account.
pub fn refresh_token(db: &mut Database, token: String) -> (r: Result<AuthResponse, AppError>)
    ensures
        exists|verified: Result<i64, Failure>, now: i64|
            clock_reading(now) && verification_result(token@, old(db)@.secret, verified)
                && #[trigger] refresh_outcome(old(db)@, token@, verified, now) == (
                final(db)@,
                outcome(r),
            ),
        r matches Ok(response) ==> response.access_token@.len() > 0
            && response.refresh_token@.len() > 0,
{
    let now = current_timestamp();
    match verify(token.as_str(), db.secret.as_str()) {
        Err(e) => {
            let r = Err(e);
            assert(refresh_outcome(db@, token@, Err(e@), now) == (db@, outcome(r)));
            r
        },
        Ok(user_id) => {
            let ghost token_text = token@;
            let r = refresh_verified(db, token, user_id, now);
            assert(refresh_outcome(old(db)@, token_text, Ok(user_id), now) == (db@, outcome(r)));
            r
        },
    }
}

/// Records, at the instant `now`, the reset token `token` for the account of that email
/// and hands it back for delivery. Without such an account nothing is recorded.
pub fn issue_reset_token(db: &mut Database, email: String, token: String, now: i64) -> (r: Result<
    Option<String>,
    AppError,
>)
    ensures
        forgot_password_outcome(old(db)@, email@, token@, now) == (
            final(db)@,
            delivery_outcome(r),
        ),
{
    let user_id = match db.store.find_by_email(email.as_str()) {
        Some(record) => record.id,
        None => {
            return Ok(None);
        },
    };
    let expires_at = match now.checked_add(RESET_TOKEN_TTL) {
        Some(t) => t,
        None => {
            return Err(
                AppError::Internal(String::from_str("Reset token expiry is out of range")),
            );
        },
    };
    db.ledger.insert_reset_token(user_id, token.clone(), expires_at);
    Ok(Some(token))
}

/// Requests a password reset. For a known email a random token is recorded, good for one
/// hour and one use, and handed back so that the caller can deliver it. For an unknown
/// email the result is `Ok(None)` and nothing changes: the caller answers both alike.
pub fn forgot_password(db: &mut Database, email: String) -> (r: Result<Option<String>, AppError>)
    ensures
        exists|token: Seq<char>, now: i64|
            clock_reading(now) && token.len() == 36 && #[trigger] forgot_password_outcome(
                old(db)@,
                email@,
                token,
                now,
            ) == (final(db)@, delivery_outcome(r)),
        old(db)@.store.by_email(email@) is None ==> r == Ok::<Option<String>, AppError>(None)
            && final(db)@ == old(db)@,
{
    if db.store.find_by_email(email.as_str()).is_none() {
        let r = Ok(None);
        let ghost unused = Seq::new(36, |i: int| '0');
        assert(forgot_password_outcome(db@, email@, unused, 0) == (db@, delivery_outcome(r)));
        return r;
    }
    let token = random_token();
    let now = current_timestamp();
    issue_reset_token(db, email, token, now)
}

/// Resets, at the instant `now`, the password of the account that the reset token belongs
/// to, to one that has been hashed to `password_hash`.
pub fn reset_password_with_hash(
    db: &mut Database,
    token: String,
    password_hash: String,
    now: i64,
) -> (r: Result<(), AppError>)
    ensures
        reset_password_outcome(old(db)@, token@, Ok(password_hash@), now) == (
            final(db)@,
            outcome(r),
        ),
{
    let user_id = match db.ledger.find_usable_reset_token(token.as_str(), now) {
        Some(user_id) => user_id,
        None => {
            return Err(AppError::Auth(String::from_str("Invalid or expired reset token")));
        },
    };
    db.store.set_password(user_id, password_hash);
    db.ledger.mark_reset_token_used(token.as_str());
    db.ledger.revoke_sessions_of(user_id);
    Ok(())
}

/// Resets a password with a reset token that is unused and has not expired: stores the
/// hash of the new password, marks the token used and revokes every refresh token of the
/// account.
pub fn reset_password(db: &mut Database, token: String, password: String) -> (r: Result<
    (),
    AppError,
>)
    ensures
        exists|hashed: Result<Seq<char>, Seq<char>>, now: i64|
            clock_reading(now) && hashing_of(password@, hashed)
                && #[trigger] reset_password_outcome(old(db)@, token@, hashed, now) == (
                final(db)@,
                outcome(r),
            ),
{
    let now = current_timestamp();
    if db.ledger.find_usable_reset_token(token.as_str(), now).is_none() {
        let r = Err(AppError::Auth(String::from_str("Invalid or expired reset token")));
        assert(reset_password_outcome(db@, token@, not_hashed(), now) == (db@, outcome(r)));
        return r;
    }
    let password_hash = match bcrypt_hash(password.as_str()) {
        Ok(hash) => hash,
        Err(reason) => {
            let r = Err(
                AppError::Internal(
                    String::from_str("Password hashing failed: ").concat(reason.as_str()),
                ),
            );
            assert(reset_password_outcome(db@, token@, Err(reason@), now) == (db@, outcome(r)));
            return r;
        },
    };
    reset_password_with_hash(db, token, password_hash, now)
}

/// The snapshot of the account that a session belongs to.
pub fn get_current_user(db: &Database, user_id: i64) -> (r: Result<User, AppError>)
    ensures
        outcome(r) == profile_of(db@, user_id),
{
    get_user_profile(db, user_id)
}

} // verus!
