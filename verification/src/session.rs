//! Session tokens.
//!
//! A session token is a signed statement of who an account is and until when
//! the statement may be relied on. Tokens are JSON Web Tokens signed with
//! HMAC-SHA256 under a secret that only the server holds; the signing and the
//! checking of signatures is done by the `jsonwebtoken` crate. What is decided
//! here is what goes into a token, how long it lasts, and when a token that
//! carries a good signature is still turned away.

use crate::clock::unix_seconds;
use crate::models::user::{lemma_role_name_round_trip, Role};
use vstd::prelude::*;

verus! {

/// How long a session lasts: seven days, in seconds.
pub const SESSION_LIFETIME_SECS: i64 = 604_800;

/// What a session token states.
#[derive(Debug, PartialEq, Eq)]
pub struct Claims {
    /// The account's identifier in text form.
    pub sub: String,
    pub username: String,
    pub email: String,
    /// The name of the account's role when the token was issued.
    pub role: String,
    /// The instant from which the token is no longer accepted, in seconds since
    /// the Unix epoch.
    pub exp: usize,
}

/// The mathematical content of [`Claims`].
pub struct ClaimsView {
    pub sub: Seq<char>,
    pub username: Seq<char>,
    pub email: Seq<char>,
    pub role: Seq<char>,
    pub exp: nat,
}

impl View for Claims {
    type V = ClaimsView;

    open spec fn view(&self) -> ClaimsView {
        ClaimsView {
            sub: self.sub@,
            username: self.username@,
            email: self.email@,
            role: self.role@,
            exp: self.exp as nat,
        }
    }
}

impl Clone for Claims {
    fn clone(&self) -> (r: Self)
        ensures
            r@ == self@,
    {
        Claims {
            sub: self.sub.clone(),
            username: self.username.clone(),
            email: self.email.clone(),
            role: self.role.clone(),
            exp: self.exp,
        }
    }
}

/// Why no token was issued, or why one was turned away.
#[derive(Clone, Copy, Debug, PartialEq, Eq, Structural, Hash)]
pub enum TokenError {
    /// The time of issue is before the epoch, or so late that the expiry
    /// instant cannot be represented.
    ExpiryOutOfRange,
    /// The signer did not produce a token for the claims.
    SigningFailed,
    /// The token is malformed, carries a signature that does not match, or has
    /// reached its expiry instant.
    InvalidOrExpired,
}

impl TokenError {
    /// A stable name for the error.
    pub open spec fn code(self) -> Seq<char> {
        match self {
            TokenError::ExpiryOutOfRange => "expiry_out_of_range"@,
            TokenError::SigningFailed => "signing_failed"@,
            TokenError::InvalidOrExpired => "invalid_or_expired"@,
        }
    }

    /// A stable name for the error.
    pub fn as_str(&self) -> (r: &'static str)
        ensures
            r@ == self.code(),
    {
        match self {
            TokenError::ExpiryOutOfRange => "expiry_out_of_range",
            TokenError::SigningFailed => "signing_failed",
            TokenError::InvalidOrExpired => "invalid_or_expired",
        }
    }
}

/// The token that `jsonwebtoken::encode` makes of claims under a secret, with
/// the default header; `None` where it makes none.
pub uninterp spec fn signed_token(claims: ClaimsView, secret: Seq<u8>) -> Option<Seq<char>>;

/// The claims that `jsonwebtoken::decode` reads from a token under a secret,
/// without regard to the time; `None` where it rejects the token or the payload
/// does not hold the five claims.
pub uninterp spec fn token_claims(token: Seq<char>, secret: Seq<u8>) -> Option<ClaimsView>;

/// The expiry instant of a token issued at `now`: seven days later, where that
/// is an instant a token can carry.
pub open spec fn expiry_after(now: int) -> Option<nat> {
    if 0 <= now && now + SESSION_LIFETIME_SECS <= usize::MAX {
        Some((now + SESSION_LIFETIME_SECS) as nat)
    } else {
        None
    }
}

/// What a token issued to an account at `now` states, where one can be issued.
pub open spec fn claims_for(
    user_id: Seq<char>,
    username: Seq<char>,
    email: Seq<char>,
    role: Role,
    now: int,
) -> Option<ClaimsView> {
    match expiry_after(now) {
        Some(exp) => Some(
            ClaimsView { sub: user_id, username: username, email: email, role: role.name(), exp: exp },
        ),
        None => None,
    }
}

/// What a token is accepted for at `now`: its claims, as long as the signature
/// holds under the secret and `now` is before the expiry instant. At the
/// expiry instant itself the token is already turned away.
pub open spec fn accepted_claims(token: Seq<char>, secret: Seq<u8>, now: int) -> Option<
    ClaimsView,
> {
    accepted_at(token_claims(token, secret), now)
}

/// What issuing a token at `now` may return.
pub open spec fn issued_at(
    result: Result<String, TokenError>,
    user_id: Seq<char>,
    username: Seq<char>,
    email: Seq<char>,
    role: Role,
    secret: Seq<u8>,
    now: int,
) -> bool {
    match claims_for(user_id, username, email, role, now) {
        None => result == Err::<String, TokenError>(TokenError::ExpiryOutOfRange),
        Some(claims) => match result {
            Ok(token) => {
                &&& signed_token(claims, secret) == Some(token@)
                &&& token_claims(token@, secret) == Some(claims)
            },
            Err(e) => e == TokenError::SigningFailed && signed_token(claims, secret) is None,
        },
    }
}

/// What checking a token at `now` may return.
pub open spec fn checked_at(
    result: Result<Claims, TokenError>,
    token: Seq<char>,
    secret: Seq<u8>,
    now: int,
) -> bool {
    match result {
        Ok(claims) => accepted_claims(token, secret, now) == Some(claims@),
        Err(e) => e == TokenError::InvalidOrExpired && accepted_claims(token, secret, now) is None,
    }
}

/// Issues a session token for an account at the time `now`, given in seconds
/// since the Unix epoch. The token states the account's identifier, username,
/// email and role name, and expires seven days after `now`.
///
/// A token that was issued is accepted, with exactly these claims, at every
/// instant before its expiry, and at none from the expiry on.
pub fn create_jwt_at(
    user_id: &str,
    username: &str,
    email: &str,
    role: &Role,
    secret: &[u8],
    now: i64,
) -> (r: Result<String, TokenError>)
    ensures
        issued_at(r, user_id@, username@, email@, *role, secret@, now as int),
        r matches Ok(token) ==> {
            let claims = claims_for(user_id@, username@, email@, *role, now as int)->0;
            &&& forall|at: int| at < claims.exp ==> accepted_claims(token@, secret@, at) == Some(claims)
            &&& forall|at: int| at >= claims.exp ==> accepted_claims(token@, secret@, at) is None
        },
{
    let claims = match session_claims(user_id, username, email, role, now) {
        Some(claims) => claims,
        None => {
            return Err(TokenError::ExpiryOutOfRange);
        },
    };
    match encode_claims(&claims, secret) {
        Ok(token) => Ok(token),
        Err(_) => Err(TokenError::SigningFailed),
    }
}

/// What a token issued to an account at the time `now` states: the account's
/// identifier, username, email and the name of its role, and the expiry
/// instant seven days after `now`. Nothing where that instant cannot be
/// carried.
pub fn session_claims(user_id: &str, username: &str, email: &str, role: &Role, now: i64) -> (r:
    Option<Claims>)
    ensures
        match r {
            Some(claims) => claims_for(user_id@, username@, email@, *role, now as int) == Some(
                claims@,
            ),
            None => claims_for(user_id@, username@, email@, *role, now as int) is None,
        },
{
    let exp = match expiry_instant(now) {
        Some(exp) => exp,
        None => {
            return None;
        },
    };
    Some(
        Claims {
            sub: user_id.to_owned(),
            username: username.to_owned(),
            email: email.to_owned(),
            role: role.as_str().to_owned(),
            exp,
        },
    )
}

/// Issues a session token for an account, valid for seven days from now.
///
/// The time is read from the clock, so the contract speaks of some instant
/// `now`: the result is what [`create_jwt_at`] returns for it.
pub fn create_jwt(user_id: &str, username: &str, email: &str, role: &Role, secret: &[u8]) -> (r:
    Result<String, TokenError>)
    ensures
        exists|now: int| issued_at(r, user_id@, username@, email@, *role, secret@, now),
        r matches Ok(token) ==> token_claims(token@, secret@) matches Some(claims) && claims.sub
            == user_id@ && claims.username == username@ && claims.email == email@ && claims.role
            == role.name(),
{
    let now = unix_seconds();
    let r = create_jwt_at(user_id, username, email, role, secret, now);
    assert(issued_at(r, user_id@, username@, email@, *role, secret@, now as int));
    r
}

/// Checks a session token at the time `now`, given in seconds since the Unix
/// epoch. The token is accepted when its signature holds under the secret, its
/// payload holds the five claims, and `now` is before its expiry instant; there
/// is no period of grace.
pub fn verify_jwt_at(token: &str, secret: &[u8], now: i64) -> (r: Result<Claims, TokenError>)
    ensures
        checked_at(r, token@, secret@, now as int),
{
    accept_claims(decode_claims(token, secret), now)
}

/// What is accepted at the time `now` of the claims read from a token: the
/// claims, as long as `now` is before their expiry instant.
pub open spec fn accepted_at(decoded: Option<ClaimsView>, now: int) -> Option<ClaimsView> {
    match decoded {
        Some(claims) => if now < claims.exp {
            Some(claims)
        } else {
            None
        },
        None => None,
    }
}

/// Decides at the time `now` on the claims that were read from a token, if
/// any were: a token that could not be read is turned away, and so is one that
/// has reached its expiry instant.
pub fn accept_claims(decoded: Option<Claims>, now: i64) -> (r: Result<Claims, TokenError>)
    ensures
        match r {
            Ok(claims) => decoded matches Some(read) && claims@ == read@ && accepted_at(
                Some(read@),
                now as int,
            ) == Some(claims@),
            Err(e) => e == TokenError::InvalidOrExpired && accepted_at(
                match decoded {
                    Some(read) => Some(read@),
                    None => None,
                },
                now as int,
            ) is None,
        },
{
    match decoded {
        Some(claims) => {
            if now < 0 || (now as u64) < (claims.exp as u64) {
                Ok(claims)
            } else {
                Err(TokenError::InvalidOrExpired)
            }
        },
        None => Err(TokenError::InvalidOrExpired),
    }
}

/// Checks a session token against the current time.
///
/// The time is read from the clock, so the contract speaks of some instant
/// `now`: the result is what [`verify_jwt_at`] returns for it. Whatever the
/// time, a token is only ever accepted for the claims it was signed with.
pub fn verify_jwt(token: &str, secret: &[u8]) -> (r: Result<Claims, TokenError>)
    ensures
        exists|now: int| checked_at(r, token@, secret@, now),
        r matches Ok(claims) ==> token_claims(token@, secret@) == Some(claims@),
        r matches Err(e) ==> e == TokenError::InvalidOrExpired,
        token_claims(token@, secret@) is None ==> r is Err,
{
    let now = unix_seconds();
    let r = verify_jwt_at(token, secret, now);
    assert(checked_at(r, token@, secret@, now as int));
    r
}

/// The expiry instant of a token issued at `now`.
pub fn expiry_instant(now: i64) -> (r: Option<usize>)
    ensures
        match expiry_after(now as int) {
            Some(exp) => r == Some(exp as usize) && exp <= usize::MAX,
            None => r is None,
        },
{
    if now < 0 {
        return None;
    }
    let exp: u64 = now as u64 + SESSION_LIFETIME_SECS as u64;
    if exp > usize::MAX as u64 {
        None
    } else {
        Some(exp as usize)
    }
}

/// A token that is accepted at some instant was accepted at every earlier one,
/// and one that has expired stays expired.
pub proof fn lemma_expiry_is_final(token: Seq<char>, secret: Seq<u8>, earlier: int, later: int)
    requires
        earlier <= later,
    ensures
        accepted_claims(token, secret, later) is Some ==> accepted_claims(token, secret, earlier)
            == accepted_claims(token, secret, later),
        accepted_claims(token, secret, earlier) is None ==> accepted_claims(token, secret, later)
            is None,
{
}

/// A token checked after its expiry instant is turned away, whatever its
/// signature.
pub proof fn lemma_expired_token_rejected(
    result: Result<Claims, TokenError>,
    token: Seq<char>,
    secret: Seq<u8>,
    now: int,
)
    requires
        checked_at(result, token, secret, now),
        token_claims(token, secret) matches Some(claims) && now > claims.exp,
    ensures
        result == Err::<Claims, TokenError>(TokenError::InvalidOrExpired),
{
}

/// A token issued at one instant and checked at a later one before its expiry
/// yields the claims it was issued for.
pub proof fn lemma_token_round_trip(
    issued: Result<String, TokenError>,
    checked: Result<Claims, TokenError>,
    user_id: Seq<char>,
    username: Seq<char>,
    email: Seq<char>,
    role: Role,
    secret: Seq<u8>,
    issue_time: int,
    check_time: int,
)
    requires
        issued_at(issued, user_id, username, email, role, secret, issue_time),
        issued matches Ok(token) && checked_at(checked, token@, secret, check_time),
        check_time < issue_time + SESSION_LIFETIME_SECS,
    ensures
        checked matches Ok(claims) && claims@.sub == user_id && claims@.username == username
            && claims@.email == email && claims@.role == role.name() && claims@.exp == issue_time
            + SESSION_LIFETIME_SECS,
{
}

/// Tokens tell their inputs apart: two issues under one secret that yield the
/// same token were made for the same account, name, email and role, at the
/// same time.
pub proof fn lemma_token_tells_inputs(
    token: String,
    secret: Seq<u8>,
    user_id: Seq<char>,
    username: Seq<char>,
    email: Seq<char>,
    role: Role,
    now: int,
    other_user_id: Seq<char>,
    other_username: Seq<char>,
    other_email: Seq<char>,
    other_role: Role,
    other_now: int,
)
    requires
        issued_at(Ok(token), user_id, username, email, role, secret, now),
        issued_at(
            Ok(token),
            other_user_id,
            other_username,
            other_email,
            other_role,
            secret,
            other_now,
        ),
    ensures
        user_id == other_user_id,
        username == other_username,
        email == other_email,
        role == other_role,
        now == other_now,
{
    lemma_role_name_round_trip(role);
    lemma_role_name_round_trip(other_role);
}

/// The error type of `jsonwebtoken`.
#[verifier::external_type_specification]
#[verifier::external_body]
pub struct ExJwtError(jsonwebtoken::errors::Error);

/// Calls `jsonwebtoken::encode` with the default header (HS256) on the five
/// claims, in the order of the fields, under the HMAC key made of `secret`.
///
/// The result depends on the claims and the secret alone, so it is named. What
/// the crate encodes under a secret it decodes under the same secret to the
/// same claims: the payload is the claims as JSON, and the signature is
/// recomputed from the same bytes when the token is read.
#[verifier::external_body]
fn encode_claims(claims: &Claims, secret: &[u8]) -> (r: Result<String, jsonwebtoken::errors::Error>)
    ensures
        match r {
            Ok(token) => signed_token(claims@, secret@) == Some(token@) && token_claims(
                token@,
                secret@,
            ) == Some(claims@),
            Err(_) => signed_token(claims@, secret@) is None,
        },
{
    let mut payload = serde_json::Map::new();
    payload.insert("sub".to_string(), claims.sub.clone().into());
    payload.insert("username".to_string(), claims.username.clone().into());
    payload.insert("email".to_string(), claims.email.clone().into());
    payload.insert("role".to_string(), claims.role.clone().into());
    payload.insert("exp".to_string(), claims.exp.into());
    let key = jsonwebtoken::EncodingKey::from_secret(secret);
    jsonwebtoken::encode(&jsonwebtoken::Header::default(), &payload, &key)
}

/// Calls `jsonwebtoken::decode` under the HMAC key made of `secret`, with the
/// default validation (HS256, the `exp` claim required) but the comparison of
/// `exp` with the clock switched off, and reads the five claims from the
/// payload.
///
/// With the clock out of it the result depends on the token and the secret
/// alone, so it is named.
#[verifier::external_body]
fn decode_claims(token: &str, secret: &[u8]) -> (r: Option<Claims>)
    ensures
        match r {
            Some(claims) => token_claims(token@, secret@) == Some(claims@),
            None => token_claims(token@, secret@) is None,
        },
{
    let mut rules = jsonwebtoken::Validation::default();
    rules.validate_exp = false;
    let key = jsonwebtoken::DecodingKey::from_secret(secret);
    let payload = jsonwebtoken::decode::<serde_json::Value>(token, &key, &rules).ok()?.claims;
    Some(Claims {
        sub: payload.get("sub")?.as_str()?.to_string(),
        username: payload.get("username")?.as_str()?.to_string(),
        email: payload.get("email")?.as_str()?.to_string(),
        role: payload.get("role")?.as_str()?.to_string(),
        exp: usize::try_from(payload.get("exp")?.as_u64()?).ok()?,
    })
}

} // verus!
