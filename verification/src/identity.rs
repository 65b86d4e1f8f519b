//! Resolving a token to the account behind it.
//!
//! A token is a key to an account, not a copy of it: whatever the token
//! states of name, email and role, the identity that a request proceeds with
//! is read from the store at the time of the request.

use crate::flow::resume;
use crate::gate::{auth_middleware_at, bearer_of, header_view, identity_of, AuthUserView};
use crate::ids::{DocId, ID_LIMIT};
use crate::models::user::{Role, UserView};
use crate::protocol::{Outcome, Step};
use crate::rejection::Rejection;
use crate::seqs::{first_index, is_first, lemma_first_index, lemma_first_index_is};
use crate::session::{accepted_claims, token_claims};
use crate::store::{MemoryStore, StoreView};
use vstd::pervasive::unreached;
use vstd::prelude::*;

verus! {

/// The identity that a request proceeds with at the time `now`, or why the
/// request is turned away. The checks are made in this order, and the first
/// that fails decides.
pub open spec fn resolve_verdict(
    store: StoreView,
    header: Option<Seq<char>>,
    secret: Seq<u8>,
    now: int,
) -> Result<AuthUserView, Rejection> {
    match header {
        None => Err(Rejection::MissingToken),
        Some(h) => match bearer_of(h) {
            None => Err(Rejection::MissingToken),
            Some(token) => match accepted_claims(token, secret, now) {
                None => Err(Rejection::InvalidOrExpiredToken),
                Some(claims) => match DocId::parsed(claims.sub) {
                    None => Err(Rejection::MalformedSubject),
                    Some(id) => match store.user(id) {
                        None => Err(Rejection::AccountGone),
                        Some(account) => Ok(identity_of(claims.sub, account)),
                    },
                },
            },
        },
    }
}

/// What resolving a token comes to.
pub open spec fn resolved(
    store: StoreView,
    header: Option<Seq<char>>,
    secret: Seq<u8>,
    now: int,
    outcome: Outcome,
) -> bool {
    match resolve_verdict(store, header, secret, now) {
        Err(reason) => outcome == Outcome::Rejected(reason),
        Ok(identity) => outcome matches Outcome::Authenticated(caller) && caller@ == identity,
    }
}

/// Resolves the token of an `Authorization` header to the identity of the
/// caller at the time `now`, given in seconds since the Unix epoch.
pub fn resolve(store: &mut MemoryStore, header: Option<&str>, secret: &[u8], now: i64) -> (outcome:
    Outcome)
    requires
        old(store).wf(),
    ensures
        final(store).wf(),
        final(store).exhausted() == old(store).exhausted(),
        final(store)@ == old(store)@,
        resolved(old(store)@, header_view(header), secret@, now as int, outcome),
{
    let (effect, pending) = match auth_middleware_at(header, secret, now) {
        Step::Ask(effect, pending) => (effect, pending),
        Step::Done(outcome) => {
            return outcome;
        },
    };
    let reply = store.answer(effect);
    match resume(pending, reply) {
        Step::Done(outcome) => outcome,
        Step::Ask(..) => {
            assert(false);
            unreached()
        },
    }
}

/// After the role of an account was written, the account is found with the
/// new role and is otherwise as it was.
pub proof fn lemma_role_written(store: StoreView, id: DocId, role: Role)
    ensures
        match store.user(id) {
            Some(account) => store.with_role(id, role).user(id) == Some(
                UserView { role: role, ..account },
            ),
            None => store.with_role(id, role) == store,
        },
{
    let p = |u: UserView| u.id == Some(id);
    lemma_first_index(store.users, p);
    match first_index(store.users, p) {
        Some(i) => {
            let after = store.with_role(id, role);
            assert(after.users[i] == UserView { role: role, ..store.users[i] });
            assert forall|j: int| 0 <= j < i implies !p(#[trigger] after.users[j]) by {
                assert(after.users[j] == store.users[j]);
            }
            lemma_first_index_is(after.users, p, i);
        },
        None => {},
    }
}

/// The identity that a token resolves to carries the role that the store
/// holds for the account, whatever role the token states.
pub proof fn lemma_resolve_reads_stored_role(
    store: StoreView,
    header: Option<Seq<char>>,
    secret: Seq<u8>,
    now: int,
)
    ensures
        resolve_verdict(store, header, secret, now) matches Ok(identity) ==> {
            let claims = accepted_claims(bearer_of(header->0)->0, secret, now)->0;
            let account = store.user(DocId::parsed(claims.sub)->0)->0;
            &&& identity.role == account.role
            &&& identity.username == account.username
            &&& identity.email == account.email
            &&& identity.id == claims.sub
        },
{
}

/// A token that resolved to an account keeps resolving to it after the role
/// of the account was changed, and then yields the new role.
pub proof fn lemma_stale_role_immunity(
    store: StoreView,
    header: Option<Seq<char>>,
    secret: Seq<u8>,
    now: int,
    id: DocId,
    role: Role,
)
    requires
        resolve_verdict(store, header, secret, now) is Ok,
        DocId::parsed(accepted_claims(bearer_of(header->0)->0, secret, now)->0.sub) == Some(id),
    ensures
        resolve_verdict(store.with_role(id, role), header, secret, now) matches Ok(identity)
            && identity.role == role,
{
    lemma_role_written(store, id, role);
}

/// A header made of the prefix `Bearer ` and a token carries that token.
pub proof fn lemma_bearer_carries_token(token: Seq<char>)
    ensures
        bearer_of("Bearer "@ + token) == Some(token),
{
    reveal_strlit("Bearer ");
    let header = "Bearer "@ + token;
    assert(header.subrange(0, 7) =~= "Bearer "@);
    assert(header.subrange(7, header.len() as int) =~= token);
}

/// A token that states an account by its identifier resolves, before its
/// expiry, to that account as the store holds it.
pub proof fn lemma_session_resolves(
    store: StoreView,
    token: Seq<char>,
    secret: Seq<u8>,
    now: int,
    id: DocId,
)
    requires
        id.number() < ID_LIMIT,
        token_claims(token, secret) matches Some(claims) && claims.sub == id.hex() && now
            < claims.exp,
        store.user(id) is Some,
    ensures
        resolve_verdict(store, Some("Bearer "@ + token), secret, now) == Ok::<
            AuthUserView,
            Rejection,
        >(identity_of(id.hex(), store.user(id)->0)),
{
    lemma_bearer_carries_token(token);
    id.lemma_hex_parses_back();
}

} // verus!
