//! How the rules talk to the outside.
//!
//! The rules never reach the store or the identity provider themselves. A
//! request is worked off in steps: each step either names one thing to ask of
//! the outside, together with what to remember while waiting, or ends the
//! request with its outcome. Whoever runs a request performs what is asked
//! and hands the reply to the next step.

use crate::auth::{EmailEntry, GitHubUser, Session};
use crate::gate::AuthUser;
use crate::ids::DocId;
use crate::models::project::Project;
use crate::models::project_join_request::{
    JoinRequestEntry, JoinRequestStatus, ProjectJoinRequest,
};
use crate::models::user::{Role, User};
use crate::rejection::Rejection;
use vstd::prelude::*;

verus! {

/// One thing to ask of the store or of the identity provider.
#[derive(Debug, PartialEq, Eq)]
pub enum Effect {
    /// Look up the account with the identifier.
    FindUser { id: DocId },
    /// Look up the first account with the email.
    FindUserByEmail { email: String },
    /// Add the account.
    InsertUser { user: User },
    /// Look up the project with the identifier.
    FindProject { id: DocId },
    /// Look up the first pending request of the account to join the project.
    FindPendingJoinRequest { project_id: DocId, user_id: DocId },
    /// Look up the join request with the identifier.
    FindJoinRequest { id: DocId },
    /// List the pending requests to join the project.
    ListPendingJoinRequests { project_id: DocId },
    /// Add the join request.
    InsertJoinRequest { request: ProjectJoinRequest },
    /// Write the status of the join request and the time of the change.
    SetJoinRequestStatus { id: DocId, status: JoinRequestStatus, updated_at: i64 },
    /// Add the account to the member list of the project, as to a set.
    AddProjectMember { project_id: DocId, user_id: DocId },
    /// Add the project to the memberships of the account, as to a set.
    AddUserProject { user_id: DocId, project_id: DocId },
    /// Pull the account from the member list of the project and note the time
    /// of the change.
    PullProjectMember { project_id: DocId, user_id: DocId, updated_at: String },
    /// Pull the project from the memberships of the account and note the time
    /// of the change.
    PullUserProject { user_id: DocId, project_id: DocId, updated_at: String },
    /// Exchange the authorization code for an access token.
    ExchangeCode { code: String },
    /// Fetch the caller's profile with the access token.
    FetchProfile { access_token: String },
    /// Fetch the list of the caller's email addresses with the access token.
    FetchEmails { access_token: String },
}

/// What came back.
#[derive(Debug, PartialEq, Eq)]
pub enum Reply {
    /// The account that was looked up, if there is one.
    User(Option<User>),
    /// The project that was looked up, if there is one.
    Project(Option<Project>),
    /// The join request that was looked up, if there is one.
    JoinRequest(Option<ProjectJoinRequest>),
    /// The join requests that were listed.
    JoinRequests(Vec<ProjectJoinRequest>),
    /// The record was added under this identifier.
    Inserted(DocId),
    /// The write went through.
    Updated,
    /// The access token that the authorization code was exchanged for.
    AccessToken(String),
    /// The caller's profile.
    Profile(GitHubUser),
    /// The identity provider answered, but not with a profile.
    ProfileUnreadable,
    /// The caller's email addresses; empty where they could not be had.
    Emails(Vec<EmailEntry>),
    /// The store or the identity provider failed.
    Failed,
}

/// How a request ended.
#[derive(Debug, PartialEq, Eq)]
pub enum Outcome {
    /// The caller is who the token says; the request may proceed with this
    /// identity.
    Authenticated(AuthUser),
    /// The caller is an administrator; the request may proceed.
    Admitted,
    /// The join request was filed under this identifier.
    JoinRequestCreated { request_id: DocId },
    /// The pending join requests of a project, each with its requester.
    PendingJoinRequests(Vec<JoinRequestEntry>),
    /// The join request was decided.
    JoinRequestDecided(JoinRequestStatus),
    /// The member was removed from the project.
    MemberRemoved,
    /// The caller is signed in.
    LoggedIn(Session),
    /// The request was turned away.
    Rejected(Rejection),
}

/// What a request remembers while it waits for a reply.
#[derive(Debug, PartialEq, Eq)]
pub enum Pending {
    /// Authentication waits for the account that the token names.
    AuthUser { subject: String },
    /// A new join request waits for the project.
    JoinProject { user_id: DocId, project_id: DocId, message: String },
    /// A new join request waits to learn whether one is pending already.
    JoinPending { user_id: DocId, project_id: DocId, message: String },
    /// A new join request waits to be stored.
    JoinInsert,
    /// The listing of join requests waits for the project.
    ListProject { user_id: DocId, role: Role, project_id: DocId },
    /// The listing of join requests waits for the requests.
    ListRequests,
    /// The listing of join requests waits for the requester of `current`;
    /// `rest` is still to come, `done` is finished.
    ListRequester {
        current: ProjectJoinRequest,
        rest: Vec<ProjectJoinRequest>,
        done: Vec<JoinRequestEntry>,
    },
    /// A decision waits for the join request.
    DecideRequest { user_id: DocId, role: Role, request_id: DocId, status: String },
    /// A decision waits for the project of the join request.
    DecideProject {
        user_id: DocId,
        role: Role,
        request_id: DocId,
        status: String,
        request: ProjectJoinRequest,
    },
    /// A decision waits for its status to be written.
    DecideStatus { decision: JoinRequestStatus, project_id: DocId, requester: DocId },
    /// An approval waits for the member to be added to the project.
    DecideMember { project_id: DocId, requester: DocId },
    /// An approval waits for the project to be added to the account.
    DecideMembership,
    /// The removal of a member waits for the project.
    RemoveProject { user_id: DocId, role: Role, project_id: DocId, member_id: DocId },
    /// The removal of a member waits for the member to be pulled from the
    /// project.
    RemoveMember { project_id: DocId, member_id: DocId },
    /// The removal of a member waits for the project to be pulled from the
    /// account.
    RemoveMembership,
    /// A login waits for the access token.
    LoginExchange { secret: Vec<u8> },
    /// A login waits for the profile.
    LoginProfile { secret: Vec<u8>, access_token: String },
    /// A login waits for the list of email addresses.
    LoginEmails { secret: Vec<u8>, profile: GitHubUser },
    /// A login waits to learn whether the account exists.
    LoginAccount { secret: Vec<u8>, profile: GitHubUser, email: String },
    /// A login waits for the new account to be stored.
    LoginInsert { secret: Vec<u8>, user: User },
    /// A development login waits for the account.
    TestLoginAccount { secret: Vec<u8> },
}

/// Where a request stands after a step.
#[derive(Debug, PartialEq, Eq)]
pub enum Step {
    /// Perform the effect, then resume with the reply.
    Ask(Effect, Pending),
    /// The request has ended.
    Done(Outcome),
}

impl Step {
    /// The step that ends a request by turning it away.
    pub open spec fn rejected(reason: Rejection) -> Step {
        Step::Done(Outcome::Rejected(reason))
    }

    /// Ends a request by turning it away.
    pub fn reject(reason: Rejection) -> (r: Step)
        ensures
            r == Step::rejected(reason),
    {
        Step::Done(Outcome::Rejected(reason))
    }
}

} // verus!
