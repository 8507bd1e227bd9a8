//! Bearer tokens: HS256-signed claims issued for thirty days, and the
//! verifier every service runs locally, without calling the issuer.

use vstd::prelude::*;

use crate::error::AuthError;
use crate::store::same_text;
use crate::store::valid_timestamp;

verus! {

/// How long an issued token is valid: thirty days, in seconds.
pub const TOKEN_LIFETIME_SECS: i64 = 2592000;

/// What jsonwebtoken's HS256 decoding returns for a token under a shared
/// secret, expiry left unchecked: `None` when the token is malformed, its
/// signature does not match the secret, or its payload lacks an integer
/// `sub`, a string `email` or an unsigned `exp`; otherwise those three claims.
pub uninterp spec fn token_claims(token: Seq<char>, secret: Seq<char>) -> Option<(i64, Seq<char>, u64)>;

/// The claims a token carries.
pub struct Claims {
    /// The account identifier.
    pub sub: i32,
    pub email: String,
    /// Expiry, in seconds since the Unix epoch.
    pub exp: u64,
}

/// The identity a verified bearer token establishes for a request.
pub struct AuthenticatedUser {
    pub user_id: i32,
    pub email: String,
}

/// What jsonwebtoken's HS256 encoding returns for the claims `sub`, `email`
/// and `exp` under a shared secret, with the default header.
pub uninterp spec fn signed_token(sub: i64, email: Seq<char>, exp: u64, secret: Seq<char>) -> Seq<char>;

/// Relies on jsonwebtoken::encode with the default header (HS256) and an HMAC
/// key made of the secret's bytes: for these claims it cannot fail (the key
/// family matches the algorithm, a map of strings and numbers always
/// serialises, and HMAC signing has no error path); the token is three
/// base64url segments joined by `.`, so it holds no space; and decoding it
/// under the same secret gives the three claims back.
#[verifier::external_body]
fn encode_claims(sub: i32, email: &str, exp: u64, secret: &str) -> (r: Option<String>)
    ensures
        r matches Some(t) && t@ == signed_token(sub as i64, email@, exp, secret@) && token_claims(t@, secret@) == Some(
            (sub as i64, email@, exp),
        ) && forall|i: int| 0 <= i < t@.len() ==> #[trigger] t@[i] != ' ',
{
    let mut claims = serde_json::Map::new();
    claims.insert("sub".to_string(), serde_json::Value::from(sub));
    claims.insert("email".to_string(), serde_json::Value::from(email));
    claims.insert("exp".to_string(), serde_json::Value::from(exp));
    let key = jsonwebtoken::EncodingKey::from_secret(secret.as_bytes());
    jsonwebtoken::encode(&jsonwebtoken::Header::default(), &claims, &key).ok()
}

/// Relies on jsonwebtoken::decode with HS256 and an HMAC key made of the
/// secret's bytes, the signature checked and the expiry not: the payload's
/// claims `sub`, `email` and `exp` when the token is accepted.
#[verifier::external_body]
fn decode_claims(token: &str, secret: &str) -> (r: Option<(i64, String, u64)>)
    ensures
        match r {
            Some(c) => token_claims(token@, secret@) == Some((c.0, c.1@, c.2)),
            None => token_claims(token@, secret@) is None,
        },
{
    let mut validation = jsonwebtoken::Validation::new(jsonwebtoken::Algorithm::HS256);
    validation.validate_exp = false;
    let key = jsonwebtoken::DecodingKey::from_secret(secret.as_bytes());
    let data = jsonwebtoken::decode::<serde_json::Map<String, serde_json::Value>>(token, &key, &validation).ok()?;
    let sub = data.claims.get("sub")?.as_i64()?;
    let email = data.claims.get("email")?.as_str()?.to_string();
    let exp = data.claims.get("exp")?.as_u64()?;
    Some((sub, email, exp))
}

/// What the verifier accepts: a token signed with the secret whose subject
/// fits an account identifier and whose expiry is not in the past; the
/// subject, email and expiry it carries.
pub open spec fn token_verdict(token: Seq<char>, secret: Seq<char>, now: int) -> Option<(i32, Seq<char>, u64)> {
    match token_claims(token, secret) {
        Some(c) => if i32::MIN <= c.0 <= i32::MAX && now <= c.2 {
            Some((c.0 as i32, c.1, c.2))
        } else {
            None
        },
        None => None,
    }
}

/// The token issued for an account at `now`: signed claims that expire
/// thirty days later.
pub open spec fn issued_token(secret: Seq<char>, user_id: i32, email: Seq<char>, now: i64) -> Seq<char> {
    signed_token(user_id as i64, email, (now + TOKEN_LIFETIME_SECS) as u64, secret)
}

/// Issues a token for an account, valid for thirty days from `now`; issuing
/// always succeeds and depends on its arguments alone.
pub fn create_jwt(secret: &str, user_id: i32, email: &str, now: i64) -> (r: Result<String, AuthError>)
    requires
        valid_timestamp(now),
    ensures
        r matches Ok(t) && t@ == issued_token(secret@, user_id, email@, now),
        token_claims(issued_token(secret@, user_id, email@, now), secret@) == Some(
            (user_id as i64, email@, (now + TOKEN_LIFETIME_SECS) as u64),
        ),
        forall|i: int|
            0 <= i < issued_token(secret@, user_id, email@, now).len() ==> #[trigger] issued_token(
                secret@,
                user_id,
                email@,
                now,
            )[i] != ' ',
{
    let exp = (now + TOKEN_LIFETIME_SECS) as u64;
    match encode_claims(user_id, email, exp, secret) {
        Some(t) => Ok(t),
        None => Err(AuthError::Internal),
    }
}

/// Checks a token's signature and expiry; every failure is `Unauthorized`.
pub fn verify_jwt(secret: &str, token: &str, now: i64) -> (r: Result<Claims, AuthError>)
    ensures
        match token_verdict(token@, secret@, now as int) {
            Some(c) => r matches Ok(claims) && claims.sub == c.0 && claims.email@ == c.1 && claims.exp == c.2,
            None => r == Err::<Claims, AuthError>(AuthError::Unauthorized),
        },
{
    match decode_claims(token, secret) {
        Some((sub, email, exp)) => {
            if sub < i32::MIN as i64 || sub > i32::MAX as i64 {
                return Err(AuthError::Unauthorized);
            }
            if now >= 0 && (now as u64) > exp {
                return Err(AuthError::Unauthorized);
            }
            Ok(Claims { sub: sub as i32, email, exp })
        },
        None => Err(AuthError::Unauthorized),
    }
}

pub open spec fn bearer_prefix() -> Seq<char> {
    seq!['B', 'e', 'a', 'r', 'e', 'r', ' ']
}

/// The header value without its `Bearer ` prefix, when it has one.
pub open spec fn bearer_token(header: Seq<char>) -> Seq<char> {
    if header.len() >= 7 && header.subrange(0, 7) == bearer_prefix() {
        header.subrange(7, header.len() as int)
    } else {
        header
    }
}

/// Strips an optional `Bearer ` prefix from an `Authorization` header value.
pub fn strip_bearer(header: &str) -> (r: &str)
    ensures
        r@ == bearer_token(header@),
{
    let n = header.unicode_len();
    if n >= 7 {
        let head = header.substring_char(0, 7);
        proof {
            reveal_strlit("Bearer ");
        }
        if same_text(head, "Bearer ") {
            assert("Bearer "@ =~= bearer_prefix());
            return header.substring_char(7, n);
        }
        assert("Bearer "@ =~= bearer_prefix());
    }
    assert(header@.subrange(0, header@.len() as int) =~= header@);
    header
}

/// The identity an `Authorization` header establishes: the token after an
/// optional `Bearer ` prefix must pass the verifier; a missing header or any
/// failure is `Unauthorized`.
pub fn authenticate(secret: &str, header: Option<&str>, now: i64) -> (r: Result<AuthenticatedUser, AuthError>)
    ensures
        match header {
            None => r == Err::<AuthenticatedUser, AuthError>(AuthError::Unauthorized),
            Some(h) => match token_verdict(bearer_token(h@), secret@, now as int) {
                Some(c) => r matches Ok(u) && u.user_id == c.0 && u.email@ == c.1,
                None => r == Err::<AuthenticatedUser, AuthError>(AuthError::Unauthorized),
            },
        },
{
    match header {
        None => Err(AuthError::Unauthorized),
        Some(h) => {
            let token = strip_bearer(h);
            match verify_jwt(secret, token, now) {
                Ok(claims) => Ok(AuthenticatedUser { user_id: claims.sub, email: claims.email }),
                Err(e) => Err(e),
            }
        },
    }
}

/// A token issued for an account at some time is accepted by the verifier,
/// with exactly that account's identifier and email, until thirty days later,
/// and refused after that.
pub proof fn lemma_issued_token_round_trip(
    token: Seq<char>,
    secret: Seq<char>,
    user_id: i32,
    email: Seq<char>,
    issued_at: i64,
    now: i64,
)
    requires
        valid_timestamp(issued_at),
        token_claims(token, secret) == Some((user_id as i64, email, (issued_at + TOKEN_LIFETIME_SECS) as u64)),
    ensures
        now <= issued_at + TOKEN_LIFETIME_SECS ==> token_verdict(token, secret, now as int) == Some(
            (user_id, email, (issued_at + TOKEN_LIFETIME_SECS) as u64),
        ),
        now > issued_at + TOKEN_LIFETIME_SECS ==> token_verdict(token, secret, now as int) is None,
{
}

/// A token whose expiry is in the past is refused, whatever its signature.
pub proof fn lemma_expired_token_refused(token: Seq<char>, secret: Seq<char>, now: i64)
    requires
        token_claims(token, secret) matches Some(c) && c.2 < now,
    ensures
        token_verdict(token, secret, now as int) is None,
{
}

/// Issuing depends on the secret, the account, the email and the time alone:
/// two tokens issued from the same inputs are equal.
pub proof fn lemma_issuing_is_deterministic(
    first: Seq<char>,
    second: Seq<char>,
    secret: Seq<char>,
    user_id: i32,
    email: Seq<char>,
    now: i64,
)
    requires
        first == issued_token(secret, user_id, email, now),
        second == issued_token(secret, user_id, email, now),
    ensures
        first == second,
{
}

/// An issued token, sent as `Bearer <token>` or bare, authenticates its
/// account until it expires.
pub proof fn lemma_issued_token_authenticates(secret: Seq<char>, user_id: i32, email: Seq<char>, issued_at: i64, now: i64)
    requires
        valid_timestamp(issued_at),
        token_claims(issued_token(secret, user_id, email, issued_at), secret) == Some(
            (user_id as i64, email, (issued_at + TOKEN_LIFETIME_SECS) as u64),
        ),
        forall|i: int|
            0 <= i < issued_token(secret, user_id, email, issued_at).len() ==> #[trigger] issued_token(
                secret,
                user_id,
                email,
                issued_at,
            )[i] != ' ',
        now <= issued_at + TOKEN_LIFETIME_SECS,
    ensures
        ({
            let t = issued_token(secret, user_id, email, issued_at);
            let exp = (issued_at + TOKEN_LIFETIME_SECS) as u64;
            &&& token_verdict(bearer_token(bearer_prefix() + t), secret, now as int) == Some((user_id, email, exp))
            &&& token_verdict(bearer_token(t), secret, now as int) == Some((user_id, email, exp))
        }),
{
    let t = issued_token(secret, user_id, email, issued_at);
    let h = bearer_prefix() + t;
    assert(h.subrange(0, 7) =~= bearer_prefix());
    assert(h.subrange(7, h.len() as int) =~= t);
    if t.len() >= 7 && t.subrange(0, 7) == bearer_prefix() {
        assert(t.subrange(0, 7)[6] == ' ');
        assert(t[6] == ' ');
    }
}

} // verus!
