//! The outside primitives the service rests on: the clock, password hashing, token signing
//! and random identifiers. Nothing in this file is proved; each contract is a claim about
//! the crate that the body calls.

use vstd::prelude::*;

verus! {

/// The error of `jsonwebtoken`, carried through unopened.
#[verifier::external_type_specification]
#[verifier::external_body]
pub struct ExJwtError(jsonwebtoken::errors::Error);

/// A JSON value of `serde_json`: the claims that a decoded token carries. What the
/// service reads of it is named by [`json_integers`].
#[verifier::external_type_specification]
#[verifier::external_body]
pub struct ExJsonValue(serde_json::Value);

/// The latest instant that `chrono` can represent, in seconds since the Unix epoch: the
/// last second of the year 262142.
pub const LATEST_INSTANT: i64 = 8_210_266_876_799;

/// Whether `now` can be a reading of the clock: an instant from the Unix epoch onwards
/// that `chrono` can represent.
pub open spec fn clock_reading(now: i64) -> bool {
    0 <= now <= LATEST_INSTANT
}

/// What `bcrypt::verify` answers for a password and a stored hash: `Ok(true)` where the
/// hash is one of that password, `Ok(false)` where it is a well-formed hash of another,
/// and where the call reports an error, the text of that error.
pub uninterp spec fn bcrypt_verdict(password: Seq<char>, hash: Seq<char>) -> Result<
    bool,
    Seq<char>,
>;

/// The compact HS256 token that `jsonwebtoken::encode` produces, under the default header,
/// for a payload made of the given integer and text members and signed with the given
/// secret; where the call reports an error, the text of that error.
pub uninterp spec fn jwt_encoding(
    int_claims: Seq<(Seq<char>, i64)>,
    text_claims: Seq<(Seq<char>, Seq<char>)>,
    secret: Seq<char>,
) -> Result<Seq<char>, Seq<char>>;

/// The integer claims, by name, that a token carries where its HS256 signature checks out
/// under the secret and its payload is JSON: what `jsonwebtoken::decode` hands back as
/// claims whenever it hands back any. `None` for a token that is malformed or not signed
/// with the secret. Whether a well-signed token is accepted depends on the clock as well;
/// what it carries does not.
pub uninterp spec fn jwt_integer_claims(token: Seq<char>, secret: Seq<char>) -> Option<
    Map<Seq<char>, i64>,
>;

/// The members of a JSON object whose values are integers in the range of `i64`, by name.
/// The map is empty for a value that is no object.
pub uninterp spec fn json_integers(value: serde_json::Value) -> Map<Seq<char>, i64>;

/// The integer claims as the signing primitive sees them: names by their text.
pub open spec fn int_claims_view(claims: Seq<(String, i64)>) -> Seq<(Seq<char>, i64)> {
    claims.map_values(|c: (String, i64)| (c.0@, c.1))
}

/// The text claims as the signing primitive sees them: names and values by their text.
pub open spec fn text_claims_view(claims: Seq<(String, String)>) -> Seq<(Seq<char>, Seq<char>)> {
    claims.map_values(|c: (String, String)| (c.0@, c.1@))
}

/// `chrono::Utc::now`, as whole seconds since the Unix epoch. The value is whatever the
/// system clock says. chrono measures it from the epoch onwards, so it is not negative,
/// and makes a date of it, so it is no later than the latest date that chrono holds.
/// (With a system clock outside that range chrono panics instead of returning.)
#[verifier::external_body]
pub(crate) fn current_timestamp() -> (now: i64)
    ensures
        clock_reading(now),
{
    chrono::Utc::now().timestamp()
}

/// `uuid::Uuid::new_v4`, written out as text. The identifier is random, so which text
/// comes back is left open; its hyphenated form always has 36 characters.
#[verifier::external_body]
pub(crate) fn random_token() -> (token: String)
    ensures
        token@.len() == 36,
{
    uuid::Uuid::new_v4().to_string()
}

/// `bcrypt::hash` at the crate's default cost; an error comes back as its text. The salt
/// is random, so which hash comes back is left open; what is claimed is that
/// `bcrypt::verify` accepts the same password against it, since verification recomputes
/// the hash from the salt and cost that the hash text carries.
#[verifier::external_body]
pub(crate) fn bcrypt_hash(password: &str) -> (r: Result<String, String>)
    ensures
        r matches Ok(hash) ==> (bcrypt_verdict(password@, hash@) == Ok::<bool, Seq<char>>(true)),
{
    bcrypt::hash(password, bcrypt::DEFAULT_COST).map_err(|e| e.to_string())
}

/// `bcrypt::verify`, a function of the password and the hash text alone; an error comes
/// back as its text.
#[verifier::external_body]
pub(crate) fn bcrypt_verify(password: &str, hash: &str) -> (r: Result<bool, String>)
    ensures
        match r {
            Ok(accepted) => bcrypt_verdict(password@, hash@) == Ok::<bool, Seq<char>>(accepted),
            Err(text) => bcrypt_verdict(password@, hash@) == Err::<bool, Seq<char>>(text@),
        },
{
    bcrypt::verify(password, hash).map_err(|e| e.to_string())
}

/// `jsonwebtoken::encode` with the default header (HS256) and an HMAC key made of the
/// secret's bytes; an error comes back as its text. The claims are handed over as a JSON
/// object with one member per pair. Serialisation and HMAC are deterministic, so the
/// token is a function of the arguments. A token is three parts joined by dots, so it is
/// never empty.
#[verifier::external_body]
pub(crate) fn jwt_encode(
    int_claims: &Vec<(String, i64)>,
    text_claims: &Vec<(String, String)>,
    secret: &str,
) -> (r: Result<String, String>)
    ensures
        match r {
            Ok(token) => token@.len() > 0 && jwt_encoding(
                int_claims_view(int_claims@),
                text_claims_view(text_claims@),
                secret@,
            ) == Ok::<Seq<char>, Seq<char>>(token@),
            Err(text) => jwt_encoding(
                int_claims_view(int_claims@),
                text_claims_view(text_claims@),
                secret@,
            ) == Err::<Seq<char>, Seq<char>>(text@),
        },
{
    let mut payload = serde_json::Map::new();
    for (name, value) in int_claims {
        payload.insert(name.clone(), serde_json::Value::from(*value));
    }
    for (name, value) in text_claims {
        payload.insert(name.clone(), serde_json::Value::from(value.as_str()));
    }
    let key = jsonwebtoken::EncodingKey::from_secret(secret.as_bytes());
    jsonwebtoken::encode(&jsonwebtoken::Header::default(), &payload, &key)
        .map_err(|e| e.to_string())
}

/// `jsonwebtoken::decode` for HS256 with the crate's default validation: the signature is
/// checked against the secret, and the `exp` claim, which must be present, against the
/// system clock with the crate's leeway. Whether claims come back depends on when the call
/// is made, so that is left open. The claims that come back do not: the call fails before
/// it reads them unless the signature checks out, and reads them from the token's payload.
#[verifier::external_body]
pub(crate) fn jwt_decode(token: &str, secret: &str) -> (r: Result<
    serde_json::Value,
    jsonwebtoken::errors::Error,
>)
    ensures
        r matches Ok(claims) ==> jwt_integer_claims(token@, secret@) == Some(
            json_integers(claims),
        ),
{
    let key = jsonwebtoken::DecodingKey::from_secret(secret.as_bytes());
    let validation = jsonwebtoken::Validation::new(jsonwebtoken::Algorithm::HS256);
    jsonwebtoken::decode::<serde_json::Value>(token, &key, &validation).map(|data| data.claims)
}

/// Indexing a `serde_json::Value` by name, then `Value::as_i64`: the member of that name
/// where the value is an object that has one and it is an integer that fits `i64`.
/// Indexing gives the JSON null for a missing member and for a value that is no object,
/// and null is no integer.
#[verifier::external_body]
pub(crate) fn json_integer(value: &serde_json::Value, name: &str) -> (r: Option<i64>)
    ensures
        r == (if json_integers(*value).contains_key(name@) {
            Some(json_integers(*value)[name@])
        } else {
            None::<i64>
        }),
{
    value[name].as_i64()
}

} // verus!
