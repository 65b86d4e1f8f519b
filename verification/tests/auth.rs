use iris_server::auth::{
    github_callback, github_login, login_redirect, mint_session, new_account, public_user,
    resolve_email, select_email, test_login, AuthRequest, EmailEntry, GitHubUser, OAuthConfig,
    PublicUser, TestLoginRequest, PROVIDER_DOMAIN,
};
use iris_server::flow::resume;
use iris_server::ids::DocId;
use iris_server::models::user::{Role, User};
use iris_server::protocol::{Effect, Outcome, Pending, Reply, Step};
use iris_server::rejection::Rejection;
use iris_server::session::verify_jwt;
use iris_server::store::MemoryStore;

const SECRET: &[u8] = b"login secret";

fn entry(email: Option<&str>, primary: bool) -> EmailEntry {
    EmailEntry { email: email.map(|e| e.to_string()), primary }
}

fn profile(email: Option<&str>, name: Option<&str>) -> GitHubUser {
    GitHubUser {
        login: "octo".to_string(),
        id: 42,
        email: email.map(|e| e.to_string()),
        name: name.map(|n| n.to_string()),
    }
}

fn ask(step: Step) -> (Effect, Pending) {
    match step {
        Step::Ask(effect, pending) => (effect, pending),
        Step::Done(outcome) => panic!("expected a question, got {:?}", outcome),
    }
}

fn start() -> Pending {
    let query = AuthRequest { code: "the code".to_string(), state: "the state".to_string() };
    let (effect, pending) = ask(github_callback(query, SECRET.to_vec()));
    assert_eq!(effect, Effect::ExchangeCode { code: "the code".to_string() });
    pending
}

fn to_account_lookup(profile: GitHubUser, emails: Option<Reply>) -> (Effect, Pending) {
    let (effect, pending) = ask(resume(start(), Reply::AccessToken("access".to_string())));
    assert_eq!(effect, Effect::FetchProfile { access_token: "access".to_string() });
    let step = resume(pending, Reply::Profile(profile));
    match emails {
        Some(reply) => {
            let (effect, pending) = ask(step);
            assert_eq!(effect, Effect::FetchEmails { access_token: "access".to_string() });
            ask(resume(pending, reply))
        },
        None => ask(step),
    }
}

fn lookup_email(effect: &Effect) -> String {
    match effect {
        Effect::FindUserByEmail { email } => email.clone(),
        other => panic!("expected a lookup by email, got {:?}", other),
    }
}

#[test]
fn primary_address_is_preferred() {
    let entries = vec![entry(Some("first@example.org"), false), entry(Some("main@example.org"), true)];
    assert_eq!(select_email(&entries), Some("main@example.org".to_string()));
}

#[test]
fn first_primary_wins() {
    let entries = vec![
        entry(Some("a@example.org"), false),
        entry(Some("b@example.org"), true),
        entry(Some("c@example.org"), true),
    ];
    assert_eq!(select_email(&entries), Some("b@example.org".to_string()));
}

#[test]
fn first_address_without_primary() {
    let entries = vec![entry(Some("first@example.org"), false), entry(Some("second@example.org"), false)];
    assert_eq!(select_email(&entries), Some("first@example.org".to_string()));
}

#[test]
fn primary_without_address_falls_back_to_first() {
    let entries = vec![entry(Some("first@example.org"), false), entry(None, true)];
    assert_eq!(select_email(&entries), Some("first@example.org".to_string()));
}

#[test]
fn first_entry_without_address_gives_none() {
    let entries = vec![entry(None, false), entry(Some("second@example.org"), false)];
    assert_eq!(select_email(&entries), None);
}

#[test]
fn empty_list_gives_none() {
    assert_eq!(select_email(&Vec::new()), None);
}

#[test]
fn placeholder_is_made_of_the_login() {
    assert_eq!(PROVIDER_DOMAIN, "@github.com");
    assert_eq!(resolve_email(None, "octo"), "octo@github.com");
    assert_eq!(resolve_email(Some("real@example.org".to_string()), "octo"), "real@example.org");
}

#[test]
fn first_account_is_a_plain_member() {
    let user = new_account(
        &profile(None, Some("The Octo")),
        "octo@example.org".to_string(),
        "t1".to_string(),
        "t2".to_string(),
    );
    assert_eq!(
        user,
        User {
            id: None,
            username: "octo".to_string(),
            full_name: "The Octo".to_string(),
            email: "octo@example.org".to_string(),
            password_hash: String::new(),
            role: Role::Member,
            coins: 0,
            project_ids: Some(Vec::new()),
            created_at: "t1".to_string(),
            updated_at: "t2".to_string(),
        }
    );
}

#[test]
fn display_name_falls_back_to_login() {
    let user = new_account(&profile(None, None), "e".to_string(), "a".to_string(), "b".to_string());
    assert_eq!(user.full_name, "octo");
}

#[test]
fn public_projection_hides_credentials() {
    let id = DocId::new(9).unwrap();
    let user = User {
        id: Some(id),
        username: "ada".to_string(),
        full_name: "Ada".to_string(),
        email: "ada@example.org".to_string(),
        password_hash: "very secret".to_string(),
        role: Role::Admin,
        coins: 12,
        project_ids: None,
        created_at: "c".to_string(),
        updated_at: "u".to_string(),
    };
    let shown = public_user(&user);
    assert_eq!(
        shown,
        PublicUser {
            id: Some(id.to_hex()),
            username: "ada".to_string(),
            full_name: "Ada".to_string(),
            email: "ada@example.org".to_string(),
            role: Role::Admin,
            coins: 12,
        }
    );
    assert!(!format!("{:?}", shown).contains("very secret"));
}

#[test]
fn failed_exchange_ends_the_login() {
    assert_eq!(
        resume(start(), Reply::Failed),
        Step::Done(Outcome::Rejected(Rejection::ExchangeFailed))
    );
}

#[test]
fn failed_profile_fetch_ends_the_login() {
    let (_, pending) = ask(resume(start(), Reply::AccessToken("access".to_string())));
    assert_eq!(
        resume(pending, Reply::Failed),
        Step::Done(Outcome::Rejected(Rejection::ProfileFetchFailed))
    );
    let (_, pending) = ask(resume(start(), Reply::AccessToken("access".to_string())));
    assert_eq!(
        resume(pending, Reply::ProfileUnreadable),
        Step::Done(Outcome::Rejected(Rejection::ProfileUnreadable))
    );
}

#[test]
fn public_email_skips_the_address_list() {
    let (effect, _) = to_account_lookup(profile(Some("public@example.org"), None), None);
    assert_eq!(lookup_email(&effect), "public@example.org");
}

#[test]
fn hidden_email_is_taken_from_the_list() {
    let emails = Reply::Emails(vec![entry(Some("x@example.org"), false), entry(Some("p@example.org"), true)]);
    let (effect, _) = to_account_lookup(profile(None, None), Some(emails));
    assert_eq!(lookup_email(&effect), "p@example.org");
}

#[test]
fn no_address_at_all_gives_the_placeholder() {
    let (effect, _) = to_account_lookup(profile(None, None), Some(Reply::Emails(Vec::new())));
    assert_eq!(lookup_email(&effect), "octo@github.com");
    let (effect, _) = to_account_lookup(profile(None, None), Some(Reply::Failed));
    assert_eq!(lookup_email(&effect), "octo@github.com");
}

#[test]
fn existing_account_is_reused() {
    let mut store = MemoryStore::new();
    let existing = User {
        id: None,
        username: "ada".to_string(),
        full_name: "Ada".to_string(),
        email: "public@example.org".to_string(),
        password_hash: "hash".to_string(),
        role: Role::Admin,
        coins: 7,
        project_ids: None,
        created_at: "c".to_string(),
        updated_at: "u".to_string(),
    };
    let id = store.insert_user(existing).unwrap();
    let (effect, pending) = to_account_lookup(profile(Some("public@example.org"), Some("Octo")), None);
    let reply = store.answer(effect);
    match resume(pending, reply) {
        Step::Done(Outcome::LoggedIn(session)) => {
            assert_eq!(session.user.id, Some(id.to_hex()));
            assert_eq!(session.user.username, "ada");
            assert_eq!(session.user.role, Role::Admin);
            assert_eq!(session.user.coins, 7);
            let claims = verify_jwt(&session.token, SECRET).unwrap();
            assert_eq!(claims.sub, id.to_hex());
            assert_eq!(claims.username, "ada");
            assert_eq!(claims.email, "public@example.org");
            assert_eq!(claims.role, "Admin");
        },
        other => panic!("expected a session, got {:?}", other),
    }
    assert_eq!(store.find_user_by_email("public@example.org").unwrap().id, Some(id));
}

#[test]
fn first_login_makes_the_account() {
    let mut store = MemoryStore::new();
    let (effect, pending) = to_account_lookup(profile(Some("new@example.org"), Some("New One")), None);
    let reply = store.answer(effect);
    let (effect, pending) = ask(resume(pending, reply));
    match &effect {
        Effect::InsertUser { user } => {
            assert_eq!(user.id, None);
            assert_eq!(user.username, "octo");
            assert_eq!(user.full_name, "New One");
            assert_eq!(user.email, "new@example.org");
            assert_eq!(user.password_hash, "");
            assert_eq!(user.role, Role::Member);
            assert_eq!(user.coins, 0);
            assert_eq!(user.project_ids, Some(Vec::new()));
            assert!(!user.created_at.is_empty());
        },
        other => panic!("expected an insert, got {:?}", other),
    }
    let reply = store.answer(effect);
    match resume(pending, reply) {
        Step::Done(Outcome::LoggedIn(session)) => {
            let stored = store.find_user_by_email("new@example.org").unwrap();
            assert_eq!(session.user.id, stored.id.map(|id| id.to_hex()));
            assert_eq!(session.user.username, "octo");
            assert_eq!(session.user.full_name, "New One");
            assert_eq!(session.user.role, Role::Member);
            let claims = verify_jwt(&session.token, SECRET).unwrap();
            assert_eq!(Some(claims.sub), session.user.id);
            assert_eq!(claims.role, "Member");
        },
        other => panic!("expected a session, got {:?}", other),
    }
}

#[test]
fn failing_store_ends_the_login() {
    let (_, pending) = to_account_lookup(profile(Some("new@example.org"), None), None);
    assert_eq!(
        resume(pending, Reply::Failed),
        Step::Done(Outcome::Rejected(Rejection::StoreUnavailable))
    );
    let (_, pending) = to_account_lookup(profile(Some("new@example.org"), None), None);
    let (_, pending) = ask(resume(pending, Reply::User(None)));
    assert_eq!(
        resume(pending, Reply::Failed),
        Step::Done(Outcome::Rejected(Rejection::AccountNotSaved))
    );
}

#[test]
fn no_session_without_an_identifier() {
    let user = new_account(&profile(None, None), "e".to_string(), "a".to_string(), "b".to_string());
    assert_eq!(
        mint_session(&user, SECRET, Rejection::TokenNotIssued),
        Step::Done(Outcome::Rejected(Rejection::TokenNotIssued))
    );
}

#[test]
fn development_login() {
    let mut store = MemoryStore::new();
    let user = new_account(&profile(None, None), "e@example.org".to_string(), "a".to_string(), "b".to_string());
    let id = store.insert_user(user).unwrap();
    let (effect, pending) =
        ask(test_login(TestLoginRequest { user_id: id.to_hex() }, SECRET.to_vec()));
    assert_eq!(effect, Effect::FindUser { id });
    let reply = store.answer(effect);
    match resume(pending, reply) {
        Step::Done(Outcome::LoggedIn(session)) => {
            assert_eq!(session.user.id, Some(id.to_hex()));
            assert_eq!(verify_jwt(&session.token, SECRET).unwrap().sub, id.to_hex());
        },
        other => panic!("expected a session, got {:?}", other),
    }
}

#[test]
fn development_login_failures() {
    assert_eq!(
        test_login(TestLoginRequest { user_id: "nope".to_string() }, SECRET.to_vec()),
        Step::Done(Outcome::Rejected(Rejection::InvalidUserIdFormat))
    );
    let id = DocId::new(1).unwrap();
    let (_, pending) = ask(test_login(TestLoginRequest { user_id: id.to_hex() }, SECRET.to_vec()));
    assert_eq!(
        resume(pending, Reply::User(None)),
        Step::Done(Outcome::Rejected(Rejection::UserNotFound))
    );
    let (_, pending) = ask(test_login(TestLoginRequest { user_id: id.to_hex() }, SECRET.to_vec()));
    assert_eq!(resume(pending, Reply::Failed), Step::Done(Outcome::Rejected(Rejection::UserNotFound)));
}

fn config(redirect: &str) -> OAuthConfig {
    OAuthConfig {
        client_id: "client-1".to_string(),
        client_secret: "shh".to_string(),
        redirect_url: redirect.to_string(),
    }
}

#[test]
fn login_redirect_points_to_the_provider() {
    let url = login_redirect(&config("http://localhost:5657/auth/github/callback"), "state-1").unwrap();
    assert!(url.starts_with("https://github.com/login/oauth/authorize?"));
    assert!(url.contains("response_type=code"));
    assert!(url.contains("client_id=client-1"));
    assert!(url.contains("state=state-1"));
    assert!(url.contains("redirect_uri=http%3A%2F%2Flocalhost%3A5657%2Fauth%2Fgithub%2Fcallback"));
    assert!(url.contains("scope=user%3Aemail"));
    assert!(!url.contains("shh"));
    assert_ne!(url, "state-1");
}

#[test]
fn login_redirect_needs_a_redirect_url() {
    assert_eq!(login_redirect(&config("not a url"), "state-1"), None);
    assert_eq!(github_login(&config("not a url")), None);
}

#[test]
fn login_state_is_drawn_anew() {
    let cfg = config("http://localhost:5657/auth/github/callback");
    let first = github_login(&cfg).unwrap();
    let second = github_login(&cfg).unwrap();
    assert!(first.starts_with("https://github.com/login/oauth/authorize?"));
    assert_ne!(first, second);
}
