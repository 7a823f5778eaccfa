//! Signed session tokens: minting and verification of `{name, role, exp}`
//! claims under a process-wide symmetric secret.
use crate::types::JwtInfo;
use vstd::prelude::*;

verus! {

/// The number of seconds a freshly minted session token lives.
pub const TOKEN_LIFETIME_SECONDS: i64 = 604800;

/// The claims `(name, role, exp)` a token carries under `secret`: what a
/// decoding with every time-dependent check disabled recovers — `None` for a
/// token it refuses as malformed or mis-signed, or whose payload lacks one
/// of the three fields. Signature checking and payload parsing consult no
/// clock, so this is a fixed function of the token and the secret; whether
/// the token is *expired* is deliberately not part of it.
pub uninterp spec fn jwt_payload(token: Seq<char>, secret: Seq<char>) -> Option<
    (Seq<char>, Seq<char>, int),
>;

/// Relies on `jsonwebtoken::encode` with the default header (HS256) and an
/// HMAC key from `secret`: the token it returns carries exactly the claims
/// it was given, and decoding under the same secret recovers them. The call
/// cannot fail here: the key and the default header share the HMAC family,
/// the header and a JSON object of two strings and an integer serialize
/// infallibly, and HMAC signing returns unconditionally — so a token always
/// comes back.
#[verifier::external_body]
fn jwt_encode(claims: &JwtInfo, secret: &str) -> (r: Option<String>)
    ensures
        r is Some,
        r matches Some(t) ==> jwt_payload(t@, secret@) == Some(claims.deep_view()),
{
    let mut payload = serde_json::Map::new();
    payload.insert("name".to_string(), serde_json::Value::String(claims.name.clone()));
    payload.insert("role".to_string(), serde_json::Value::String(claims.role.clone()));
    payload.insert("exp".to_string(), serde_json::Value::from(claims.exp));
    jsonwebtoken::encode(
        &jsonwebtoken::Header::default(),
        &serde_json::Value::Object(payload),
        &jsonwebtoken::EncodingKey::from_secret(secret.as_bytes()),
    ).ok()
}

/// Relies on `jsonwebtoken::decode` with HS256, every time- and
/// audience-dependent check switched off and no required claims: so
/// restricted, its result is a deterministic function of the token and the
/// secret — the signed claims, or nothing for a malformed or mis-signed
/// token.
#[verifier::external_body]
fn jwt_decode_raw(token: &str, secret: &str) -> (r: Option<JwtInfo>)
    ensures
        match r {
            Some(c) => jwt_payload(token@, secret@) == Some(c.deep_view()),
            None => jwt_payload(token@, secret@) is None,
        },
{
    let mut validation = jsonwebtoken::Validation::new(jsonwebtoken::Algorithm::HS256);
    validation.validate_exp = false;
    validation.validate_aud = false;
    validation.required_spec_claims = std::collections::HashSet::new();
    let key = jsonwebtoken::DecodingKey::from_secret(secret.as_bytes());
    let data = jsonwebtoken::decode::<serde_json::Value>(token, &key, &validation).ok()?;
    let name = data.claims.get("name")?.as_str()?.to_string();
    let role = data.claims.get("role")?.as_str()?.to_string();
    let exp = data.claims.get("exp")?.as_i64()?;
    Some(JwtInfo { name, role, exp })
}

/// What verification accepts at time `now`: the signed claims, provided the
/// expiry lies strictly after `now`. Malformed, mis-signed and expired
/// tokens are all rejected the same way.
pub open spec fn spec_verify(token: Seq<char>, secret: Seq<char>, now: int) -> Option<
    (Seq<char>, Seq<char>, int),
> {
    match jwt_payload(token, secret) {
        Some(c) => if c.2 > now {
            Some(c)
        } else {
            None
        },
        None => None,
    }
}

/// Verifies a session token: checks the signature under `secret` and that
/// the expiry lies strictly after `now`.
pub fn verify(token: &str, secret: &str, now: i64) -> (r: Option<JwtInfo>)
    ensures
        match r {
            Some(c) => spec_verify(token@, secret@, now as int) == Some(c.deep_view()),
            None => spec_verify(token@, secret@, now as int) is None,
        },
{
    match jwt_decode_raw(token, secret) {
        Some(c) => if c.exp > now {
            Some(c)
        } else {
            None
        },
        None => None,
    }
}

/// Mints a session token for `name` with `role_name`, expiring a week after
/// `now`. Always succeeds: HMAC signing with a key from raw secret bytes has
/// no failure path.
pub fn mint(name: &str, role_name: &str, now: i64, secret: &str) -> (r: Option<String>)
    requires
        now <= i64::MAX - 604800,
    ensures
        r is Some,
        r matches Some(t) ==> jwt_payload(t@, secret@) == Some(
            (name@, role_name@, now as int + 604800),
        ),
{
    let claims = JwtInfo {
        name: name.to_owned(),
        role: role_name.to_owned(),
        exp: now + TOKEN_LIFETIME_SECONDS,
    };
    jwt_encode(&claims, secret)
}

/// Law: the token round trip. A token whose payload carries the claims
/// `(name, role, exp)` — in particular one freshly minted with them — is
/// accepted by verification with exactly those claims strictly before
/// `exp`, and rejected once `now` has reached `exp`.
pub proof fn lemma_token_round_trip(
    token: Seq<char>,
    secret: Seq<char>,
    name: Seq<char>,
    role: Seq<char>,
    exp: int,
    now: int,
)
    requires
        jwt_payload(token, secret) == Some((name, role, exp)),
    ensures
        now < exp ==> spec_verify(token, secret, now) == Some((name, role, exp)),
        now >= exp ==> spec_verify(token, secret, now) is None,
{
}

} // verus!
