//! The token codec: signed, self-contained claims about a subject. A token carries the
//! subject's id, the instant it was issued, the instant it expires and, for a refresh
//! token, a marker of its kind. Nothing is stored: a token is checked by its signature.

use vstd::prelude::*;
use crate::error::{failure, outcome, AppError, ErrorKind, Failure};
use crate::primitives::{
    int_claims_view, json_integer, json_integers, jwt_decode, jwt_encode, jwt_encoding,
    jwt_integer_claims, text_claims_view,
};

verus! {

/// How long an access token lives: seven days, in seconds.
pub const ACCESS_TOKEN_TTL: i64 = 604_800;

/// How long a refresh token lives: thirty days, in seconds.
pub const REFRESH_TOKEN_TTL: i64 = 2_592_000;

/// The two kinds of token that the codec issues.
#[derive(Clone, Copy, Debug, PartialEq, Eq, Structural)]
pub enum TokenKind {
    /// Short-lived and stateless.
    Access,
    /// Long-lived and tracked by the session ledger.
    Refresh,
}

/// The failure reported when a token cannot be issued, with the reason.
pub open spec fn token_generation_failure(reason: Seq<char>) -> Failure {
    failure(ErrorKind::Internal, "Token generation failed: "@ + reason)
}

/// The reason given for a token whose expiry is not representable.
pub open spec fn expiry_out_of_range() -> Seq<char> {
    "expiry out of range"@
}

/// The failure reported for a token whose signature or expiry does not check out.
pub open spec fn invalid_token_failure() -> Failure {
    failure(ErrorKind::Auth, "Invalid refresh token"@)
}

/// The failure reported for a token that checks out but names no subject.
pub open spec fn token_format_failure() -> Failure {
    failure(ErrorKind::Auth, "Invalid token format"@)
}

/// The integer members of a token's payload.
pub open spec fn int_claims_of(subject_id: i64, issued_at: i64, expires_at: i64) -> Seq<
    (Seq<char>, i64),
> {
    seq![("user_id"@, subject_id), ("exp"@, expires_at), ("iat"@, issued_at)]
}

/// The text members of a token's payload: a refresh token is marked as one, an access
/// token carries no marker.
pub open spec fn text_claims_of(kind: TokenKind) -> Seq<(Seq<char>, Seq<char>)> {
    match kind {
        TokenKind::Access => seq![],
        TokenKind::Refresh => seq![("type"@, "refresh"@)],
    }
}

/// The token issued to a subject at the instant `now` for `ttl` seconds; where the expiry
/// is not representable or signing fails, the reason.
pub open spec fn issued_token(
    subject_id: i64,
    kind: TokenKind,
    ttl: i64,
    now: i64,
    secret: Seq<char>,
) -> Result<Seq<char>, Seq<char>> {
    if i64::MIN <= now + ttl <= i64::MAX {
        jwt_encoding(
            int_claims_of(subject_id, now, (now + ttl) as i64),
            text_claims_of(kind),
            secret,
        )
    } else {
        Err(expiry_out_of_range())
    }
}

/// What issuing a token gives: the token, or the failure with the reason.
pub open spec fn issue_outcome(
    subject_id: i64,
    kind: TokenKind,
    ttl: i64,
    now: i64,
    secret: Seq<char>,
) -> Result<Seq<char>, Failure> {
    match issued_token(subject_id, kind, ttl, now, secret) {
        Ok(token) => Ok(token),
        Err(reason) => Err(token_generation_failure(reason)),
    }
}

/// The mathematical value of the result of issuing a token.
pub open spec fn token_outcome(r: Result<String, AppError>) -> Result<Seq<char>, Failure> {
    match r {
        Ok(token) => Ok(token@),
        Err(e) => Err(e@),
    }
}

/// Issues a token for `subject_id` that is issued at `now` and expires `ttl` seconds
/// later, signed with `secret`.
pub fn issue(subject_id: i64, kind: TokenKind, ttl: i64, now: i64, secret: &str) -> (r: Result<
    String,
    AppError,
>)
    ensures
        token_outcome(r) == issue_outcome(subject_id, kind, ttl, now, secret@),
        r matches Ok(token) ==> token@.len() > 0,
{
    let expires_at = match now.checked_add(ttl) {
        Some(t) => t,
        None => {
            return Err(
                AppError::Internal(
                    String::from_str("Token generation failed: ").concat("expiry out of range"),
                ),
            );
        },
    };
    let mut ints: Vec<(String, i64)> = Vec::new();
    ints.push((String::from_str("user_id"), subject_id));
    ints.push((String::from_str("exp"), expires_at));
    ints.push((String::from_str("iat"), now));
    let mut texts: Vec<(String, String)> = Vec::new();
    match kind {
        TokenKind::Access => {},
        TokenKind::Refresh => {
            texts.push((String::from_str("type"), String::from_str("refresh")));
        },
    }
    proof {
        assert(int_claims_view(ints@) =~= int_claims_of(subject_id, now, expires_at));
        assert(text_claims_view(texts@) =~= text_claims_of(kind));
    }
    match jwt_encode(&ints, &texts, secret) {
        Ok(token) => Ok(token),
        Err(reason) => Err(
            AppError::Internal(
                String::from_str("Token generation failed: ").concat(reason.as_str()),
            ),
        ),
    }
}

/// Issues an access token for a user: seven days from `now`.
pub fn generate_access_token(user_id: i64, now: i64, secret: &str) -> (r: Result<String, AppError>)
    ensures
        token_outcome(r) == issue_outcome(
            user_id,
            TokenKind::Access,
            ACCESS_TOKEN_TTL,
            now,
            secret@,
        ),
        r matches Ok(token) ==> token@.len() > 0,
{
    issue(user_id, TokenKind::Access, ACCESS_TOKEN_TTL, now, secret)
}

/// Issues a refresh token for a user: thirty days from `now`.
pub fn generate_refresh_token(user_id: i64, now: i64, secret: &str) -> (r: Result<String, AppError>)
    ensures
        token_outcome(r) == issue_outcome(
            user_id,
            TokenKind::Refresh,
            REFRESH_TOKEN_TTL,
            now,
            secret@,
        ),
        r matches Ok(token) ==> token@.len() > 0,
{
    issue(user_id, TokenKind::Refresh, REFRESH_TOKEN_TTL, now, secret)
}

/// The two tokens of a session, with the instant at which the refresh token expires.
#[derive(Debug)]
pub struct SessionTokens {
    pub access_token: String,
    pub refresh_token: String,
    pub refresh_expires_at: i64,
}

/// The mathematical value of [`SessionTokens`].
pub struct SessionTokensView {
    pub access_token: Seq<char>,
    pub refresh_token: Seq<char>,
    pub refresh_expires_at: i64,
}

impl View for SessionTokens {
    type V = SessionTokensView;

    open spec fn view(&self) -> SessionTokensView {
        SessionTokensView {
            access_token: self.access_token@,
            refresh_token: self.refresh_token@,
            refresh_expires_at: self.refresh_expires_at,
        }
    }
}

/// The tokens of a session opened for a user at the instant `now`: the access token is
/// issued first, then the refresh token, and the first that cannot be issued is the
/// failure.
pub open spec fn session_tokens(user_id: i64, now: i64, secret: Seq<char>) -> Result<
    SessionTokensView,
    Failure,
> {
    match issue_outcome(user_id, TokenKind::Access, ACCESS_TOKEN_TTL, now, secret) {
        Err(f) => Err(f),
        Ok(access_token) => match issue_outcome(
            user_id,
            TokenKind::Refresh,
            REFRESH_TOKEN_TTL,
            now,
            secret,
        ) {
            Err(f) => Err(f),
            Ok(refresh_token) => Ok(
                SessionTokensView {
                    access_token,
                    refresh_token,
                    refresh_expires_at: (now + REFRESH_TOKEN_TTL) as i64,
                },
            ),
        },
    }
}

/// Issues the access token and the refresh token of a session.
pub fn issue_session_tokens(user_id: i64, now: i64, secret: &str) -> (r: Result<
    SessionTokens,
    AppError,
>)
    ensures
        outcome(r) == session_tokens(user_id, now, secret@),
        r matches Ok(tokens) ==> tokens.access_token@.len() > 0 && tokens.refresh_token@.len()
            > 0,
{
    let access_token = match generate_access_token(user_id, now, secret) {
        Ok(token) => token,
        Err(e) => {
            return Err(e);
        },
    };
    let refresh_token = match generate_refresh_token(user_id, now, secret) {
        Ok(token) => token,
        Err(e) => {
            return Err(e);
        },
    };
    Ok(SessionTokens { access_token, refresh_token, refresh_expires_at: now + REFRESH_TOKEN_TTL })
}

/// The subject that a decoding outcome stands for: a failed decoding is an invalid token,
/// and claims without an integer `user_id` are a token of the wrong format.
pub open spec fn subject_of_decoded(decoded: Option<serde_json::Value>) -> Result<i64, Failure> {
    match decoded {
        None => Err(invalid_token_failure()),
        Some(claims) => if json_integers(claims).contains_key("user_id"@) {
            Ok(json_integers(claims)["user_id"@])
        } else {
            Err(token_format_failure())
        },
    }
}

/// The claims of a decoding outcome, if it has any.
pub open spec fn decoded_claims(
    decoded: Result<serde_json::Value, jsonwebtoken::errors::Error>,
) -> Option<serde_json::Value> {
    match decoded {
        Ok(claims) => Some(claims),
        Err(_) => None,
    }
}

/// Reads the subject out of the outcome of decoding a token.
pub fn subject_of(decoded: Result<serde_json::Value, jsonwebtoken::errors::Error>) -> (r: Result<
    i64,
    AppError,
>)
    ensures
        match r {
            Ok(subject_id) => subject_of_decoded(decoded_claims(decoded)) == Ok::<i64, Failure>(
                subject_id,
            ),
            Err(e) => subject_of_decoded(decoded_claims(decoded)) == Err::<i64, Failure>(e@),
        },
{
    match decoded {
        Err(_) => Err(AppError::Auth(String::from_str("Invalid refresh token"))),
        Ok(claims) => match json_integer(&claims, "user_id") {
            Some(subject_id) => Ok(subject_id),
            None => Err(AppError::Auth(String::from_str("Invalid token format"))),
        },
    }
}

/// Checks a token's signature and expiry and gives the subject it names. Whether a token
/// has expired depends on the clock at the time of the call; what it names does not. So
/// the result is the subject of the token, unless the token is refused as expired.
pub fn verify(token: &str, secret: &str) -> (r: Result<i64, AppError>)
    ensures
        outcome(r) == token_subject(token@, secret@) || outcome(r) == Err::<i64, Failure>(
            invalid_token_failure(),
        ),
{
    subject_of(jwt_decode(token, secret))
}

/// The subject that a token names under a secret: the integer `user_id` among its claims.
/// A token that is malformed or not signed with the secret is an invalid token, and one
/// whose claims hold no integer `user_id` is a token of the wrong format.
pub open spec fn token_subject(token: Seq<char>, secret: Seq<char>) -> Result<i64, Failure> {
    match jwt_integer_claims(token, secret) {
        None => Err(invalid_token_failure()),
        Some(claims) => if claims.contains_key("user_id"@) {
            Ok(claims["user_id"@])
        } else {
            Err(token_format_failure())
        },
    }
}

} // verus!
