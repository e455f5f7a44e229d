use vstd::prelude::*;

use crate::models::Claims;

verus! {

/// Seconds a freshly issued token stays valid.
pub const TOKEN_TTL_SECONDS: u64 = 3600;

/// The compact signed encoding (header.payload.signature) that
/// jsonwebtoken::encode produces for the claims {sub, exp} under the default
/// HS256 header with `secret`. Deterministic in its arguments.
pub uninterp spec fn token_of(sub: Seq<char>, exp: int, secret: Seq<u8>) -> Seq<char>;

/// What jsonwebtoken::decode recovers from `token` under HS256 with `secret`
/// once every time-dependent check is disabled: the (sub, exp) claims when the
/// structure and signature check out, and nothing otherwise. Deterministic in
/// its arguments.
pub uninterp spec fn claims_of(token: Seq<char>, secret: Seq<u8>) -> Option<(Seq<char>, int)>;

/// Relies on jsonwebtoken::encode with the default HS256 header: signing
/// with a symmetric secret cannot fail (the HMAC accepts any key length and
/// serializing the two claims cannot error), and the output is the
/// deterministic signed encoding of the claims, is non-empty (three
/// dot-joined parts), and decodes back to the same claims under the same
/// secret.
#[verifier::external_body]
fn jwt_sign(sub: &str, exp: u64, secret: &[u8]) -> (r: Result<String, ()>)
    ensures
        r is Ok,
        r matches Ok(t) ==> t@ == token_of(sub@, exp as int, secret@),
        r matches Ok(t) ==> claims_of(t@, secret@) == Some((sub@, exp as int)),
        r matches Ok(t) ==> t@.len() > 0,
{
    let mut claims = serde_json::Map::new();
    claims.insert("sub".to_string(), serde_json::Value::String(sub.to_string()));
    claims.insert("exp".to_string(), serde_json::Value::from(exp));
    let key = jsonwebtoken::EncodingKey::from_secret(secret);
    let header = jsonwebtoken::Header::default();
    jsonwebtoken::encode(&header, &serde_json::Value::Object(claims), &key).map_err(|_| ())
}

/// Relies on jsonwebtoken::decode under HS256 with the required-claim, expiry
/// and audience checks disabled: the call is then deterministic in
/// (token, secret), accepting exactly the tokens signed with `secret` whose
/// claims carry a string `sub` and an integral `exp`, and yielding those two.
#[verifier::external_body]
fn jwt_parse(token: &str, secret: &[u8]) -> (r: Option<(String, u64)>)
    ensures
        r matches Some(p) ==> claims_of(token@, secret@) == Some((p.0@, p.1 as int)),
        r is None <==> claims_of(token@, secret@) is None,
{
    let mut validation = jsonwebtoken::Validation::new(jsonwebtoken::Algorithm::HS256);
    validation.validate_exp = false;
    validation.validate_aud = false;
    validation.set_required_spec_claims(&[] as &[&str]);
    let key = jsonwebtoken::DecodingKey::from_secret(secret);
    let data = match jsonwebtoken::decode::<serde_json::Value>(token, &key, &validation) {
        Ok(d) => d,
        Err(_) => return None,
    };
    let sub = data.claims.get("sub")?.as_str()?.to_string();
    let exp = data.claims.get("exp")?.as_u64()?;
    Some((sub, exp))
}

/// Relies on chrono's conversion from std::time::SystemTime for the current
/// unix time in whole seconds; the conversion handles a clock set before the
/// epoch by returning a negative timestamp rather than failing. Nothing is
/// assumed of the value.
#[verifier::external_body]
pub(crate) fn now_unix_seconds() -> (r: i64)
{
    chrono::DateTime::<chrono::Utc>::from(std::time::SystemTime::now()).timestamp()
}

/// The expiry stamped on a token issued at time `now`.
pub open spec fn expiry_at(now: u64) -> int {
    now + TOKEN_TTL_SECONDS
}

/// Issues a signed token for `username` as of the given time: the claims are
/// the username as subject and an expiry one hour later. Issuance always
/// succeeds.
pub fn create_token_at(username: &str, secret: &[u8], now: u64) -> (r: Result<String, ()>)
    requires
        now <= u64::MAX - TOKEN_TTL_SECONDS,
    ensures
        r is Ok,
        r matches Ok(t) ==> t@ == token_of(username@, expiry_at(now), secret@),
        r matches Ok(t) ==> claims_of(t@, secret@) == Some((username@, expiry_at(now))),
        r matches Ok(t) ==> t@.len() > 0,
{
    jwt_sign(username, now + TOKEN_TTL_SECONDS, secret)
}

/// Issues a signed token for `username` expiring one hour from the current
/// time. Issuance always succeeds; a clock reading before the epoch or past
/// the counter's end is clamped into range first.
pub fn create_token(username: &str, secret: &[u8]) -> (r: Result<String, ()>)
    ensures
        r is Ok,
        r matches Ok(t) ==> (claims_of(t@, secret@) matches Some(p) && p.0 == username@
            && p.1 >= TOKEN_TTL_SECONDS),
        r matches Ok(t) ==> t@.len() > 0,
{
    let now_signed = now_unix_seconds();
    let now_nonneg: u64 = if now_signed < 0 {
        0
    } else {
        now_signed as u64
    };
    let now: u64 = if now_nonneg > u64::MAX - TOKEN_TTL_SECONDS {
        u64::MAX - TOKEN_TTL_SECONDS
    } else {
        now_nonneg
    };
    create_token_at(username, secret, now)
}

/// Whether `token` is valid under `secret` at time `now`: it decodes with an
/// intact signature and its expiry lies strictly after `now` (a token
/// expiring exactly at `now` counts as expired).
pub open spec fn spec_token_valid_at(token: Seq<char>, secret: Seq<u8>, now: int) -> bool {
    claims_of(token, secret) matches Some(p) && p.1 > now
}

/// Checks a token's signature and expiry against the given time. Every
/// failure, whether a bad signature, a malformed token or expiry, collapses
/// to the one rejection value.
pub fn validate_token_at(token: &str, secret: &[u8], now: u64) -> (r: Result<Claims, ()>)
    ensures
        r matches Ok(c) ==> claims_of(token@, secret@) == Some((c.sub@, c.exp as int))
            && c.exp > now,
        r is Ok <==> spec_token_valid_at(token@, secret@, now as int),
{
    match jwt_parse(token, secret) {
        Some((sub, exp)) => {
            if exp > now {
                Ok(Claims { sub, exp })
            } else {
                Err(())
            }
        },
        None => Err(()),
    }
}

/// Checks a token's signature and expiry against the current time.
pub fn validate_token(token: &str, secret: &[u8]) -> (r: Result<Claims, ()>)
    ensures
        r matches Ok(c) ==> claims_of(token@, secret@) == Some((c.sub@, c.exp as int)),
        claims_of(token@, secret@) is None ==> r is Err,
{
    let now_signed = now_unix_seconds();
    let now: u64 = if now_signed < 0 {
        0
    } else {
        now_signed as u64
    };
    validate_token_at(token, secret, now)
}

} // verus!
