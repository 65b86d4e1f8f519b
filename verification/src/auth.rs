//! Signing in through the identity provider.

use crate::clock::rfc3339_now;
use crate::ids::DocId;
use crate::text::{copy_text, text_view};
use crate::models::user::{Role, User, UserView};
use crate::protocol::{Effect, Outcome, Pending, Reply, Step};
use crate::rejection::Rejection;
use crate::seqs::{first_match, lemma_first_index_is, lemma_first_index_none};
use crate::session::{create_jwt, token_claims};
use vstd::prelude::*;
use vstd::string::StringExecFns;

verus! {

/// What the identity provider hands back when it redirects the caller to the
/// server.
#[derive(Debug, PartialEq, Eq)]
pub struct AuthRequest {
    /// The authorization code to exchange for an access token.
    pub code: String,
    pub state: String,
}

/// The profile that the identity provider holds of a caller.
#[derive(Debug, PartialEq, Eq)]
pub struct GitHubUser {
    /// The login handle.
    pub login: String,
    pub id: u64,
    /// The public email, where the caller shows one.
    pub email: Option<String>,
    /// The display name, where the caller has set one.
    pub name: Option<String>,
}

/// The mathematical content of a [`GitHubUser`].
pub struct GitHubUserView {
    pub login: Seq<char>,
    pub id: u64,
    pub email: Option<Seq<char>>,
    pub name: Option<Seq<char>>,
}

impl View for GitHubUser {
    type V = GitHubUserView;

    open spec fn view(&self) -> GitHubUserView {
        GitHubUserView {
            login: self.login@,
            id: self.id,
            email: text_view(self.email),
            name: text_view(self.name),
        }
    }
}

/// The body of a development login.
#[derive(Debug, PartialEq, Eq)]
pub struct TestLoginRequest {
    pub user_id: String,
}

/// One entry of the identity provider's list of a caller's email addresses.
#[derive(Debug, PartialEq, Eq)]
pub struct EmailEntry {
    /// The address, where the entry holds one.
    pub email: Option<String>,
    /// Whether the entry is marked as the primary address.
    pub primary: bool,
}

/// The mathematical content of an [`EmailEntry`].
pub struct EmailEntryView {
    pub email: Option<Seq<char>>,
    pub primary: bool,
}

impl View for EmailEntry {
    type V = EmailEntryView;

    open spec fn view(&self) -> EmailEntryView {
        EmailEntryView { email: text_view(self.email), primary: self.primary }
    }
}

/// The views of a list of email entries.
pub open spec fn emails_view(entries: Seq<EmailEntry>) -> Seq<EmailEntryView> {
    entries.map_values(|e: EmailEntry| e@)
}

/// What is shown of an account after a login. Credentials are not part of it.
#[derive(Debug, PartialEq, Eq)]
pub struct PublicUser {
    /// The identifier in text form; absent for an account without one.
    pub id: Option<String>,
    pub username: String,
    pub full_name: String,
    pub email: String,
    pub role: Role,
    pub coins: i32,
}

/// The mathematical content of a [`PublicUser`].
pub struct PublicUserView {
    pub id: Option<Seq<char>>,
    pub username: Seq<char>,
    pub full_name: Seq<char>,
    pub email: Seq<char>,
    pub role: Role,
    pub coins: i32,
}

impl View for PublicUser {
    type V = PublicUserView;

    open spec fn view(&self) -> PublicUserView {
        PublicUserView {
            id: match self.id {
                Some(s) => Some(s@),
                None => None,
            },
            username: self.username@,
            full_name: self.full_name@,
            email: self.email@,
            role: self.role,
            coins: self.coins,
        }
    }
}

/// A session: the token that proves it and the account it belongs to.
#[derive(Debug, PartialEq, Eq)]
pub struct Session {
    pub token: String,
    pub user: PublicUser,
}

/// The domain of the placeholder address of an account whose provider shows
/// no email at all.
pub const PROVIDER_DOMAIN: &'static str = "@github.com";

/// The address picked from the provider's list: that of the entry marked
/// primary, else that of the first entry, else none.
pub open spec fn chosen_email(entries: Seq<EmailEntryView>) -> Option<Seq<char>> {
    match first_match(entries, |e: EmailEntryView| e.primary) {
        Some(EmailEntryView { email: Some(address), .. }) => Some(address),
        _ => if entries.len() > 0 {
            entries[0].email
        } else {
            None
        },
    }
}

/// Picks an address from the provider's list of a caller's email addresses.
pub fn select_email(entries: &Vec<EmailEntry>) -> (r: Option<String>)
    ensures
        text_view(r) == chosen_email(emails_view(entries@)),
{
    let mut i: usize = 0;
    while i < entries.len()
        invariant
            i <= entries@.len(),
            forall|j: int| 0 <= j < i ==> !(#[trigger] entries@[j]).primary,
        decreases entries@.len() - i,
    {
        if entries[i].primary {
            proof {
                let p = |e: EmailEntryView| e.primary;
                let views = emails_view(entries@);
                assert forall|j: int| 0 <= j < i implies !p(#[trigger] views[j]) by {
                    assert(views[j] == entries@[j]@);
                }
                assert(views[i as int] == entries@[i as int]@);
                lemma_first_index_is(views, p, i as int);
                assert(views[0] == entries@[0]@);
            }
            return match &entries[i].email {
                Some(address) => Some(address.clone()),
                None => copy_text(&entries[0].email),
            };
        }
        i += 1;
    }
    proof {
        let p = |e: EmailEntryView| e.primary;
        let views = emails_view(entries@);
        assert forall|j: int| 0 <= j < views.len() implies !p(#[trigger] views[j]) by {
            assert(views[j] == entries@[j]@);
        }
        lemma_first_index_none(views, p);
        if entries@.len() > 0 {
            assert(views[0] == entries@[0]@);
        }
    }
    if entries.len() > 0 {
        copy_text(&entries[0].email)
    } else {
        None
    }
}

/// The placeholder address of an account whose provider shows no email.
pub open spec fn placeholder_email(login: Seq<char>) -> Seq<char> {
    login + PROVIDER_DOMAIN@
}

/// The address under which a caller's account is kept: the one that was
/// found, or the placeholder made of the login handle.
pub open spec fn resolved_email(found: Option<Seq<char>>, login: Seq<char>) -> Seq<char> {
    match found {
        Some(address) => address,
        None => placeholder_email(login),
    }
}

/// The address under which a caller's account is kept.
pub fn resolve_email(found: Option<String>, login: &str) -> (r: String)
    ensures
        r@ == resolved_email(text_view(found), login@),
{
    match found {
        Some(address) => address,
        None => String::from_str(login).concat(PROVIDER_DOMAIN),
    }
}

/// The account made for a caller who signs in for the first time: a member
/// without credentials, coins or projects, named after the provider's profile.
pub open spec fn first_account(
    profile: GitHubUserView,
    email: Seq<char>,
    created_at: Seq<char>,
    updated_at: Seq<char>,
) -> UserView {
    UserView {
        id: None,
        username: profile.login,
        full_name: match profile.name {
            Some(name) => name,
            None => profile.login,
        },
        email: email,
        password_hash: Seq::empty(),
        role: Role::Member,
        coins: 0,
        project_ids: Some(Seq::empty()),
        created_at: created_at,
        updated_at: updated_at,
    }
}

/// Makes the account for a caller who signs in for the first time.
pub fn new_account(profile: &GitHubUser, email: String, created_at: String, updated_at: String) -> (r:
    User)
    ensures
        r@ == first_account(profile@, email@, created_at@, updated_at@),
{
    let full_name = match &profile.name {
        Some(name) => name.clone(),
        None => profile.login.clone(),
    };
    User {
        id: None,
        username: profile.login.clone(),
        full_name,
        email,
        password_hash: String::new(),
        role: Role::Member,
        coins: 0,
        project_ids: Some(Vec::new()),
        created_at,
        updated_at,
    }
}

/// What is shown of an account.
pub open spec fn public_view(user: UserView) -> PublicUserView {
    PublicUserView {
        id: match user.id {
            Some(id) => Some(id.hex()),
            None => None,
        },
        username: user.username,
        full_name: user.full_name,
        email: user.email,
        role: user.role,
        coins: user.coins,
    }
}

/// What is shown of an account: the identifier, the names, the email, the
/// role and the balance, and never the credentials.
pub fn public_user(user: &User) -> (r: PublicUser)
    ensures
        r@ == public_view(user@),
{
    PublicUser {
        id: match user.id {
            Some(id) => Some(id.to_hex()),
            None => None,
        },
        username: user.username.clone(),
        full_name: user.full_name.clone(),
        email: user.email.clone(),
        role: user.role,
        coins: user.coins,
    }
}

/// How a login ends once the account is at hand: with a session whose token
/// states the account, or without one where no token could be issued.
pub open spec fn session_minted(user: UserView, secret: Seq<u8>, failure: Rejection, step: Step) -> bool {
    match step {
        Step::Done(Outcome::LoggedIn(session)) => {
            &&& user.id matches Some(id)
            &&& session.user@ == public_view(user)
            &&& token_claims(session.token@, secret) matches Some(claims)
            &&& claims.sub == id.hex()
            &&& claims.username == user.username
            &&& claims.email == user.email
            &&& claims.role == user.role.name()
        },
        _ => step == Step::rejected(failure),
    }
}

/// Ends a login with a session for the account. An account without an
/// identifier gets none.
pub fn mint_session(user: &User, secret: &[u8], failure: Rejection) -> (step: Step)
    ensures
        session_minted(user@, secret@, failure, step),
        user.id is None ==> step == Step::rejected(failure),
{
    let id = match user.id {
        Some(id) => id,
        None => {
            return Step::reject(failure);
        },
    };
    let subject = id.to_hex();
    match create_jwt(
        subject.as_str(),
        user.username.as_str(),
        user.email.as_str(),
        &user.role,
        secret,
    ) {
        Ok(token) => Step::Done(Outcome::LoggedIn(Session { token, user: public_user(user) })),
        Err(_) => Step::reject(failure),
    }
}

/// The first step of completing a login.
pub open spec fn login_started(code: Seq<char>, secret: Seq<u8>, step: Step) -> bool {
    &&& step matches Step::Ask(Effect::ExchangeCode { code: sent }, Pending::LoginExchange { secret: kept })
    &&& sent@ == code
    &&& kept@ == secret
}

/// Starts completing a login with what the identity provider handed back:
/// asks to exchange the authorization code for an access token.
pub fn github_callback(query: AuthRequest, secret: Vec<u8>) -> (step: Step)
    ensures
        login_started(query.code@, secret@, step),
{
    Step::Ask(Effect::ExchangeCode { code: query.code }, Pending::LoginExchange { secret })
}

/// A login, once the authorization code was exchanged.
pub open spec fn login_with_token(secret: Seq<u8>, reply: Reply, step: Step) -> bool {
    match reply {
        Reply::AccessToken(token) => {
            &&& step matches Step::Ask(
                Effect::FetchProfile { access_token: sent },
                Pending::LoginProfile { secret: kept, access_token },
            )
            &&& sent@ == token@
            &&& access_token@ == token@
            &&& kept@ == secret
        },
        _ => step == Step::rejected(Rejection::ExchangeFailed),
    }
}

/// Goes on with a login after the exchange: asks for the caller's profile.
pub fn github_callback_token(secret: Vec<u8>, reply: Reply) -> (step: Step)
    ensures
        login_with_token(secret@, reply, step),
{
    match reply {
        Reply::AccessToken(token) => Step::Ask(
            Effect::FetchProfile { access_token: token.clone() },
            Pending::LoginProfile { secret, access_token: token },
        ),
        _ => Step::reject(Rejection::ExchangeFailed),
    }
}

/// The step that looks up the account kept under an address.
pub open spec fn asks_for_account(
    secret: Seq<u8>,
    profile: GitHubUserView,
    email: Seq<char>,
    step: Step,
) -> bool {
    &&& step matches Step::Ask(
        Effect::FindUserByEmail { email: sent },
        Pending::LoginAccount { secret: kept, profile: held, email: address },
    )
    &&& sent@ == email
    &&& address@ == email
    &&& held@ == profile
    &&& kept@ == secret
}

/// A login, once the profile was fetched: a profile with a public email goes
/// on to the account, one without asks for the caller's addresses first.
pub open spec fn login_with_profile(
    secret: Seq<u8>,
    access_token: Seq<char>,
    reply: Reply,
    step: Step,
) -> bool {
    match reply {
        Reply::Profile(profile) => match profile@.email {
            Some(address) => asks_for_account(secret, profile@, address, step),
            None => {
                &&& step matches Step::Ask(
                    Effect::FetchEmails { access_token: sent },
                    Pending::LoginEmails { secret: kept, profile: held },
                )
                &&& sent@ == access_token
                &&& held@ == profile@
                &&& kept@ == secret
            },
        },
        Reply::ProfileUnreadable => step == Step::rejected(Rejection::ProfileUnreadable),
        _ => step == Step::rejected(Rejection::ProfileFetchFailed),
    }
}

/// Goes on with a login after the profile was fetched.
pub fn github_callback_profile(secret: Vec<u8>, access_token: String, reply: Reply) -> (step: Step)
    ensures
        login_with_profile(secret@, access_token@, reply, step),
{
    match reply {
        Reply::Profile(profile) => {
            match copy_text(&profile.email) {
                Some(address) => Step::Ask(
                    Effect::FindUserByEmail { email: address.clone() },
                    Pending::LoginAccount { secret, profile, email: address },
                ),
                None => Step::Ask(
                    Effect::FetchEmails { access_token },
                    Pending::LoginEmails { secret, profile },
                ),
            }
        },
        Reply::ProfileUnreadable => Step::reject(Rejection::ProfileUnreadable),
        _ => Step::reject(Rejection::ProfileFetchFailed),
    }
}

/// A login, once the caller's addresses were asked for: the account is kept
/// under the address picked from the list, or under the placeholder where the
/// list gives none or could not be had.
pub open spec fn login_with_emails(
    secret: Seq<u8>,
    profile: GitHubUserView,
    reply: Reply,
    step: Step,
) -> bool {
    asks_for_account(
        secret,
        profile,
        resolved_email(
            match reply {
                Reply::Emails(entries) => chosen_email(emails_view(entries@)),
                _ => None,
            },
            profile.login,
        ),
        step,
    )
}

/// Goes on with a login after the caller's addresses were asked for.
pub fn github_callback_emails(secret: Vec<u8>, profile: GitHubUser, reply: Reply) -> (step: Step)
    ensures
        login_with_emails(secret@, profile@, reply, step),
{
    let found = match reply {
        Reply::Emails(entries) => select_email(&entries),
        _ => None,
    };
    let email = resolve_email(found, profile.login.as_str());
    Step::Ask(
        Effect::FindUserByEmail { email: email.clone() },
        Pending::LoginAccount { secret, profile, email },
    )
}

/// A login, once the account was looked up: an account that exists is signed
/// in, one that does not is made first.
pub open spec fn login_with_account(
    secret: Seq<u8>,
    profile: GitHubUserView,
    email: Seq<char>,
    reply: Reply,
    step: Step,
) -> bool {
    match reply {
        Reply::User(Some(account)) => session_minted(
            account@,
            secret,
            Rejection::TokenNotIssued,
            step,
        ),
        Reply::User(None) => {
            &&& step matches Step::Ask(
                Effect::InsertUser { user: sent },
                Pending::LoginInsert { secret: kept, user: held },
            )
            &&& sent@ == first_account(profile, email, sent.created_at@, sent.updated_at@)
            &&& held@ == sent@
            &&& kept@ == secret
        },
        _ => step == Step::rejected(Rejection::StoreUnavailable),
    }
}

/// Goes on with a login after the account was looked up.
pub fn github_callback_account(secret: Vec<u8>, profile: GitHubUser, email: String, reply: Reply) -> (step:
    Step)
    ensures
        login_with_account(secret@, profile@, email@, reply, step),
{
    match reply {
        Reply::User(Some(account)) => mint_session(
            &account,
            secret.as_slice(),
            Rejection::TokenNotIssued,
        ),
        Reply::User(None) => {
            let created_at = rfc3339_now();
            let updated_at = rfc3339_now();
            let user = new_account(&profile, email, created_at, updated_at);
            Step::Ask(
                Effect::InsertUser { user: user.clone() },
                Pending::LoginInsert { secret, user },
            )
        },
        _ => Step::reject(Rejection::StoreUnavailable),
    }
}

/// A login, once the new account was stored: the caller is signed in to the
/// account under the identifier it was given.
pub open spec fn login_with_insert(secret: Seq<u8>, user: UserView, reply: Reply, step: Step) -> bool {
    match reply {
        Reply::Inserted(id) => session_minted(
            UserView { id: Some(id), ..user },
            secret,
            Rejection::TokenNotIssued,
            step,
        ),
        _ => step == Step::rejected(Rejection::AccountNotSaved),
    }
}

/// Ends a login after the new account was stored.
pub fn github_callback_insert(secret: Vec<u8>, user: User, reply: Reply) -> (step: Step)
    ensures
        login_with_insert(secret@, user@, reply, step),
{
    match reply {
        Reply::Inserted(id) => {
            let mut user = user;
            user.id = Some(id);
            mint_session(&user, secret.as_slice(), Rejection::TokenNotIssued)
        },
        _ => Step::reject(Rejection::AccountNotSaved),
    }
}

/// The first step of a development login.
pub open spec fn test_login_started(user_id: Seq<char>, secret: Seq<u8>, step: Step) -> bool {
    match DocId::parsed(user_id) {
        None => step == Step::rejected(Rejection::InvalidUserIdFormat),
        Some(id) => {
            &&& step matches Step::Ask(
                Effect::FindUser { id: asked },
                Pending::TestLoginAccount { secret: kept },
            )
            &&& asked == id
            &&& kept@ == secret
        },
    }
}

/// Starts a development login: reads the identifier and asks for the account.
pub fn test_login(payload: TestLoginRequest, secret: Vec<u8>) -> (step: Step)
    ensures
        test_login_started(payload.user_id@, secret@, step),
{
    match DocId::parse_str(payload.user_id.as_str()) {
        Some(id) => Step::Ask(Effect::FindUser { id }, Pending::TestLoginAccount { secret }),
        None => Step::reject(Rejection::InvalidUserIdFormat),
    }
}

/// A development login, once the account was looked up.
pub open spec fn test_login_with_account(secret: Seq<u8>, reply: Reply, step: Step) -> bool {
    match reply {
        Reply::User(Some(account)) => session_minted(
            account@,
            secret,
            Rejection::TestTokenNotIssued,
            step,
        ),
        _ => step == Step::rejected(Rejection::UserNotFound),
    }
}

/// Ends a development login: signs the caller in to the account, if there is
/// one.
pub fn test_login_account(secret: Vec<u8>, reply: Reply) -> (step: Step)
    ensures
        test_login_with_account(secret@, reply, step),
{
    match reply {
        Reply::User(Some(account)) => mint_session(
            &account,
            secret.as_slice(),
            Rejection::TestTokenNotIssued,
        ),
        _ => Step::reject(Rejection::UserNotFound),
    }
}

/// What the server needs to know to send callers to the identity provider.
#[derive(Debug, PartialEq, Eq)]
pub struct OAuthConfig {
    pub client_id: String,
    pub client_secret: String,
    /// Where the identity provider sends the caller back to.
    pub redirect_url: String,
}

/// Where the identity provider asks callers to authorize the server.
pub const AUTHORIZE_URL: &'static str = "https://github.com/login/oauth/authorize";

/// Where the identity provider exchanges authorization codes.
pub const TOKEN_URL: &'static str = "https://github.com/login/oauth/access_token";

/// What the server asks to see of a caller: the email addresses.
pub const LOGIN_SCOPE: &'static str = "user:email";

/// The authorization URL that `oauth2` builds for a client, an authorization
/// and a token endpoint, a redirect address, a scope and a state; `None`
/// where one of the three addresses is no URL.
pub uninterp spec fn authorize_url_of(
    client_id: Seq<char>,
    client_secret: Seq<char>,
    auth_url: Seq<char>,
    token_url: Seq<char>,
    redirect_url: Seq<char>,
    scope: Seq<char>,
    state: Seq<char>,
) -> Option<Seq<char>>;

/// The address that a login with the given state sends the caller to.
pub open spec fn login_url(config: OAuthConfig, state: Seq<char>) -> Option<Seq<char>> {
    authorize_url_of(
        config.client_id@,
        config.client_secret@,
        AUTHORIZE_URL@,
        TOKEN_URL@,
        config.redirect_url@,
        LOGIN_SCOPE@,
        state,
    )
}

/// The address to send a caller to who wants to sign in, for a state that
/// the caller will bring back. There is none where the configured redirect
/// address is no URL.
pub fn login_redirect(config: &OAuthConfig, state: &str) -> (r: Option<String>)
    ensures
        text_view(r) == login_url(*config, state@),
{
    authorization_url(config, AUTHORIZE_URL, TOKEN_URL, LOGIN_SCOPE, state)
}

/// The address to send a caller to who wants to sign in, with a state drawn
/// at random.
pub fn github_login(config: &OAuthConfig) -> (r: Option<String>)
    ensures
        exists|state: Seq<char>| text_view(r) == #[trigger] login_url(*config, state),
{
    let state = random_state();
    let r = login_redirect(config, state.as_str());
    assert(text_view(r) == login_url(*config, state@));
    r
}

/// Calls `oauth2::basic::BasicClient::new`, `set_redirect_uri`,
/// `authorize_url`, `add_scope` and `url` to build the address that asks the
/// identity provider for an authorization code.
///
/// The address is the authorization endpoint with the response type, the
/// client identifier, the state, the redirect address and the scope as query
/// parameters; it depends on the arguments alone, so it is named.
#[verifier::external_body]
fn authorization_url(
    config: &OAuthConfig,
    auth_url: &str,
    token_url: &str,
    scope: &str,
    state: &str,
) -> (r: Option<String>)
    ensures
        text_view(r) == authorize_url_of(
            config.client_id@,
            config.client_secret@,
            auth_url@,
            token_url@,
            config.redirect_url@,
            scope@,
            state@,
        ),
{
    let client = oauth2::basic::BasicClient::new(
        oauth2::ClientId::new(config.client_id.clone()),
        Some(oauth2::ClientSecret::new(config.client_secret.clone())),
        oauth2::AuthUrl::new(auth_url.to_string()).ok()?,
        Some(oauth2::TokenUrl::new(token_url.to_string()).ok()?),
    ).set_redirect_uri(oauth2::RedirectUrl::new(config.redirect_url.clone()).ok()?);
    let request = client.authorize_url(|| oauth2::CsrfToken::new(state.to_string()));
    let (url, _) = request.add_scope(oauth2::Scope::new(scope.to_string())).url();
    Some(url.to_string())
}

/// A state for a login, drawn at random.
///
/// Calls `oauth2::CsrfToken::new_random` and takes the text of the token.
/// Nothing is known of a random draw.
#[verifier::external_body]
fn random_state() -> String {
    oauth2::CsrfToken::new_random().secret().clone()
}

} // verus!
