//! Who is calling, and what the caller may do.
//!
//! Two checks guard the routes. Authentication asks for a bearer token, checks
//! it, and looks up the account it names; the identity handed on is built from
//! the stored account, so that a token is no more than a key to the current
//! record. Authorization then lets only administrators through.

use crate::clock::unix_seconds;
use crate::ids::DocId;
use crate::models::user::{Role, User, UserView};
use crate::protocol::{Effect, Outcome, Pending, Reply, Step};
use crate::rejection::Rejection;
use crate::session::{accepted_claims, verify_jwt_at};
use crate::text::str_eq;
use vstd::prelude::*;
use vstd::string::StrSliceExecFns;

verus! {

/// The identity of an authenticated caller: the account behind the token as
/// the store holds it at the time of the call.
#[derive(Debug, PartialEq, Eq)]
pub struct AuthUser {
    /// The account's identifier in text form.
    pub id: String,
    pub username: String,
    pub email: String,
    pub role: Role,
}

/// The mathematical content of an [`AuthUser`].
pub struct AuthUserView {
    pub id: Seq<char>,
    pub username: Seq<char>,
    pub email: Seq<char>,
    pub role: Role,
}

impl View for AuthUser {
    type V = AuthUserView;

    open spec fn view(&self) -> AuthUserView {
        AuthUserView {
            id: self.id@,
            username: self.username@,
            email: self.email@,
            role: self.role,
        }
    }
}

impl Clone for AuthUser {
    fn clone(&self) -> (r: Self)
        ensures
            r@ == self@,
    {
        AuthUser {
            id: self.id.clone(),
            username: self.username.clone(),
            email: self.email.clone(),
            role: self.role,
        }
    }
}

/// The token that an `Authorization` header carries: what follows the prefix
/// `Bearer `, spelled exactly so, and nothing where the prefix is missing.
pub open spec fn bearer_of(header: Seq<char>) -> Option<Seq<char>> {
    if header.len() >= 7 && header.subrange(0, 7) == "Bearer "@ {
        Some(header.subrange(7, header.len() as int))
    } else {
        None
    }
}

/// The token that an `Authorization` header carries.
pub fn bearer_token(header: &str) -> (r: Option<&str>)
    ensures
        match r {
            Some(token) => bearer_of(header@) == Some(token@),
            None => bearer_of(header@) is None,
        },
{
    let n = header.unicode_len();
    if n < 7 {
        return None;
    }
    let head = header.substring_char(0, 7);
    if str_eq(head, "Bearer ") {
        Some(header.substring_char(7, n))
    } else {
        None
    }
}

/// The identity that authentication hands on for a token subject and the
/// account found for it: the subject as identifier, everything else from the
/// account.
pub open spec fn identity_of(subject: Seq<char>, account: UserView) -> AuthUserView {
    AuthUserView {
        id: subject,
        username: account.username,
        email: account.email,
        role: account.role,
    }
}

/// The first step of authentication at the time `now`.
pub open spec fn auth_started(
    header: Option<Seq<char>>,
    secret: Seq<u8>,
    now: int,
    step: Step,
) -> bool {
    match header {
        None => step == Step::rejected(Rejection::MissingToken),
        Some(h) => match bearer_of(h) {
            None => step == Step::rejected(Rejection::MissingToken),
            Some(token) => match accepted_claims(token, secret, now) {
                None => step == Step::rejected(Rejection::InvalidOrExpiredToken),
                Some(claims) => match DocId::parsed(claims.sub) {
                    None => step == Step::rejected(Rejection::MalformedSubject),
                    Some(id) => {
                        &&& step matches Step::Ask(
                            Effect::FindUser { id: asked },
                            Pending::AuthUser { subject },
                        )
                        &&& asked == id
                        &&& subject@ == claims.sub
                    },
                },
            },
        },
    }
}

/// The view of a header that may be absent.
pub open spec fn header_view(header: Option<&str>) -> Option<Seq<char>> {
    match header {
        Some(h) => Some(h@),
        None => None,
    }
}

/// Starts authentication at the time `now`, given in seconds since the Unix
/// epoch: takes the bearer token from the header, checks it, reads the
/// identifier of the account it names, and asks for that account.
pub fn auth_middleware_at(header: Option<&str>, secret: &[u8], now: i64) -> (step: Step)
    ensures
        auth_started(header_view(header), secret@, now as int, step),
{
    let token = match header {
        Some(h) => match bearer_token(h) {
            Some(token) => token,
            None => {
                return Step::reject(Rejection::MissingToken);
            },
        },
        None => {
            return Step::reject(Rejection::MissingToken);
        },
    };
    let claims = match verify_jwt_at(token, secret, now) {
        Ok(claims) => claims,
        Err(_) => {
            return Step::reject(Rejection::InvalidOrExpiredToken);
        },
    };
    match DocId::parse_str(claims.sub.as_str()) {
        Some(id) => Step::Ask(Effect::FindUser { id }, Pending::AuthUser { subject: claims.sub }),
        None => Step::reject(Rejection::MalformedSubject),
    }
}

/// Starts authentication against the current time.
///
/// The time is read from the clock, so the contract speaks of some instant
/// `now`: the step is what [`auth_middleware_at`] returns for it.
pub fn auth_middleware(header: Option<&str>, secret: &[u8]) -> (step: Step)
    ensures
        exists|now: int| auth_started(header_view(header), secret@, now, step),
        match header_view(header) {
            Some(h) => bearer_of(h) is None ==> step == Step::rejected(Rejection::MissingToken),
            None => step == Step::rejected(Rejection::MissingToken),
        },
{
    let now = unix_seconds();
    let step = auth_middleware_at(header, secret, now);
    assert(auth_started(header_view(header), secret@, now as int, step));
    step
}

/// Authentication, once the account was looked up.
pub open spec fn auth_with_user(subject: Seq<char>, reply: Reply, step: Step) -> bool {
    match reply {
        Reply::User(Some(account)) => step matches Step::Done(Outcome::Authenticated(identity))
            && identity@ == identity_of(subject, account@),
        Reply::User(None) => step == Step::rejected(Rejection::AccountGone),
        _ => step == Step::rejected(Rejection::StoreUnavailable),
    }
}

/// Ends authentication with the account that the token names: the caller's
/// identity is the account as it is stored now.
pub fn auth_middleware_user(subject: String, reply: Reply) -> (step: Step)
    ensures
        auth_with_user(subject@, reply, step),
{
    match reply {
        Reply::User(Some(account)) => Step::Done(
            Outcome::Authenticated(
                AuthUser {
                    id: subject,
                    username: account.username,
                    email: account.email,
                    role: account.role,
                },
            ),
        ),
        Reply::User(None) => Step::reject(Rejection::AccountGone),
        _ => Step::reject(Rejection::StoreUnavailable),
    }
}

/// What the check for administrators says of a caller.
pub open spec fn admin_verdict(identity: Option<AuthUserView>) -> Outcome {
    match identity {
        None => Outcome::Rejected(Rejection::AuthenticationRequired),
        Some(caller) => if caller.role == Role::Admin {
            Outcome::Admitted
        } else {
            Outcome::Rejected(Rejection::AdminRequired)
        },
    }
}

/// Lets administrators through. A request without an identity has skipped
/// authentication and is turned away as unauthenticated; a member is turned
/// away as forbidden.
pub fn admin_middleware(identity: Option<&AuthUser>) -> (outcome: Outcome)
    ensures
        outcome == admin_verdict(
            match identity {
                Some(caller) => Some(caller@),
                None => None,
            },
        ),
{
    match identity {
        None => Outcome::Rejected(Rejection::AuthenticationRequired),
        Some(caller) => match caller.role {
            Role::Admin => Outcome::Admitted,
            Role::Member => Outcome::Rejected(Rejection::AdminRequired),
        },
    }
}

} // verus!
