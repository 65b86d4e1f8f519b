use iris_server::gate::{
    admin_middleware, auth_middleware, auth_middleware_at, auth_middleware_user, bearer_token,
    AuthUser,
};
use iris_server::identity::resolve;
use iris_server::ids::DocId;
use iris_server::models::user::{Role, User};
use iris_server::protocol::{Effect, Outcome, Pending, Reply, Step};
use iris_server::rejection::Rejection;
use iris_server::session::{create_jwt, create_jwt_at, SESSION_LIFETIME_SECS};
use iris_server::store::MemoryStore;

const SECRET: &[u8] = b"resolver secret";
const NOW: i64 = 1_700_000_000;

fn account(name: &str, role: Role) -> User {
    User {
        id: None,
        username: name.to_string(),
        full_name: name.to_string(),
        email: format!("{}@example.org", name),
        password_hash: "secret hash".to_string(),
        role,
        coins: 0,
        project_ids: Some(Vec::new()),
        created_at: "c".to_string(),
        updated_at: "u".to_string(),
    }
}

fn bearer(token: &str) -> String {
    format!("Bearer {}", token)
}

fn token_for(id: DocId, name: &str, role: Role) -> String {
    create_jwt_at(&id.to_hex(), name, &format!("{}@example.org", name), &role, SECRET, NOW).unwrap()
}

#[test]
fn bearer_prefix_is_exact() {
    assert_eq!(bearer_token("Bearer abc"), Some("abc"));
    assert_eq!(bearer_token("Bearer "), Some(""));
    assert_eq!(bearer_token("Bearer  two"), Some(" two"));
    assert_eq!(bearer_token("bearer abc"), None);
    assert_eq!(bearer_token("BEARER abc"), None);
    assert_eq!(bearer_token("Bearer"), None);
    assert_eq!(bearer_token("Basic abc"), None);
    assert_eq!(bearer_token(" Bearer abc"), None);
    assert_eq!(bearer_token(""), None);
    assert_eq!(bearer_token("Bearer tökén"), Some("tökén"));
}

#[test]
fn missing_header_is_missing_token() {
    let mut store = MemoryStore::new();
    assert_eq!(resolve(&mut store, None, SECRET, NOW), Outcome::Rejected(Rejection::MissingToken));
    assert_eq!(auth_middleware(None, SECRET), Step::Done(Outcome::Rejected(Rejection::MissingToken)));
}

#[test]
fn missing_prefix_is_missing_token() {
    let mut store = MemoryStore::new();
    let id = store.insert_user(account("ada", Role::Member)).unwrap();
    let token = token_for(id, "ada", Role::Member);
    assert_eq!(
        resolve(&mut store, Some(&token), SECRET, NOW),
        Outcome::Rejected(Rejection::MissingToken)
    );
    assert_eq!(
        auth_middleware(Some(&format!("bearer {}", token)), SECRET),
        Step::Done(Outcome::Rejected(Rejection::MissingToken))
    );
}

#[test]
fn bad_token_is_invalid_or_expired() {
    let mut store = MemoryStore::new();
    assert_eq!(
        resolve(&mut store, Some("Bearer not.a.token"), SECRET, NOW),
        Outcome::Rejected(Rejection::InvalidOrExpiredToken)
    );
    let id = store.insert_user(account("ada", Role::Member)).unwrap();
    let token = token_for(id, "ada", Role::Member);
    assert_eq!(
        resolve(&mut store, Some(&bearer(&token)), b"other secret", NOW),
        Outcome::Rejected(Rejection::InvalidOrExpiredToken)
    );
}

#[test]
fn expired_token_is_invalid_or_expired() {
    let mut store = MemoryStore::new();
    let id = store.insert_user(account("ada", Role::Member)).unwrap();
    let token = token_for(id, "ada", Role::Member);
    assert_eq!(
        resolve(&mut store, Some(&bearer(&token)), SECRET, NOW + SESSION_LIFETIME_SECS),
        Outcome::Rejected(Rejection::InvalidOrExpiredToken)
    );
    assert!(matches!(
        resolve(&mut store, Some(&bearer(&token)), SECRET, NOW + SESSION_LIFETIME_SECS - 1),
        Outcome::Authenticated(_)
    ));
}

#[test]
fn subject_that_is_no_identifier_is_malformed() {
    let mut store = MemoryStore::new();
    let token =
        create_jwt_at("someone", "ada", "ada@example.org", &Role::Admin, SECRET, NOW).unwrap();
    assert_eq!(
        resolve(&mut store, Some(&bearer(&token)), SECRET, NOW),
        Outcome::Rejected(Rejection::MalformedSubject)
    );
}

#[test]
fn vanished_account_is_gone() {
    let mut store = MemoryStore::new();
    let token = token_for(DocId::new(12345).unwrap(), "ada", Role::Admin);
    assert_eq!(
        resolve(&mut store, Some(&bearer(&token)), SECRET, NOW),
        Outcome::Rejected(Rejection::AccountGone)
    );
}

#[test]
fn identity_is_read_from_the_store() {
    let mut store = MemoryStore::new();
    let id = store.insert_user(account("ada", Role::Member)).unwrap();
    let token = create_jwt_at(&id.to_hex(), "old name", "old@example.org", &Role::Member, SECRET, NOW)
        .unwrap();
    assert_eq!(
        resolve(&mut store, Some(&bearer(&token)), SECRET, NOW),
        Outcome::Authenticated(AuthUser {
            id: id.to_hex(),
            username: "ada".to_string(),
            email: "ada@example.org".to_string(),
            role: Role::Member,
        })
    );
}

#[test]
fn role_downgrade_takes_effect_at_once() {
    let mut store = MemoryStore::new();
    let id = store.insert_user(account("ada", Role::Admin)).unwrap();
    let token = token_for(id, "ada", Role::Admin);
    store.set_user_role(id, Role::Member);
    match resolve(&mut store, Some(&bearer(&token)), SECRET, NOW) {
        Outcome::Authenticated(user) => assert_eq!(user.role, Role::Member),
        other => panic!("expected an identity, got {:?}", other),
    }
}

#[test]
fn role_upgrade_takes_effect_at_once() {
    let mut store = MemoryStore::new();
    let id = store.insert_user(account("ada", Role::Member)).unwrap();
    let token = token_for(id, "ada", Role::Member);
    store.set_user_role(id, Role::Admin);
    match resolve(&mut store, Some(&bearer(&token)), SECRET, NOW) {
        Outcome::Authenticated(user) => assert_eq!(user.role, Role::Admin),
        other => panic!("expected an identity, got {:?}", other),
    }
}

#[test]
fn authentication_asks_for_the_account() {
    let id = DocId::new(77).unwrap();
    let token = token_for(id, "ada", Role::Member);
    assert_eq!(
        auth_middleware_at(Some(&bearer(&token)), SECRET, NOW),
        Step::Ask(Effect::FindUser { id }, Pending::AuthUser { subject: id.to_hex() })
    );
}

#[test]
fn authentication_against_the_clock() {
    let id = DocId::new(78).unwrap();
    let token = create_jwt(&id.to_hex(), "ada", "ada@example.org", &Role::Member, SECRET).unwrap();
    assert_eq!(
        auth_middleware(Some(&bearer(&token)), SECRET),
        Step::Ask(Effect::FindUser { id }, Pending::AuthUser { subject: id.to_hex() })
    );
    let old = token_for(id, "ada", Role::Member);
    assert_eq!(
        auth_middleware(Some(&bearer(&old)), SECRET),
        Step::Done(Outcome::Rejected(Rejection::InvalidOrExpiredToken))
    );
}

#[test]
fn a_failing_store_is_unavailable() {
    assert_eq!(
        auth_middleware_user("subject".to_string(), Reply::Failed),
        Step::Done(Outcome::Rejected(Rejection::StoreUnavailable))
    );
    assert_eq!(
        auth_middleware_user("subject".to_string(), Reply::Updated),
        Step::Done(Outcome::Rejected(Rejection::StoreUnavailable))
    );
    assert_eq!(
        auth_middleware_user("subject".to_string(), Reply::User(None)),
        Step::Done(Outcome::Rejected(Rejection::AccountGone))
    );
}

#[test]
fn admin_gate() {
    let admin = AuthUser {
        id: "i".to_string(),
        username: "root".to_string(),
        email: "root@example.org".to_string(),
        role: Role::Admin,
    };
    let member = AuthUser { role: Role::Member, ..admin.clone() };
    assert_eq!(admin_middleware(Some(&admin)), Outcome::Admitted);
    assert_eq!(admin_middleware(Some(&member)), Outcome::Rejected(Rejection::AdminRequired));
    assert_eq!(admin_middleware(None), Outcome::Rejected(Rejection::AuthenticationRequired));
}

#[test]
fn gate_rejections_answer_with_401_and_403() {
    assert_eq!(Rejection::AuthenticationRequired.status(), 401);
    assert_eq!(Rejection::AdminRequired.status(), 403);
    assert_eq!(Rejection::MissingToken.status(), 401);
    assert_eq!(Rejection::InvalidOrExpiredToken.status(), 401);
    assert_eq!(Rejection::MalformedSubject.status(), 401);
    assert_eq!(Rejection::AccountGone.status(), 401);
    assert_eq!(Rejection::StoreUnavailable.status(), 500);
}
