//! Why a request is turned away.
//!
//! Every rejection has a kind, which fixes the HTTP status it is answered
//! with, a stable reason code for programs, and a sentence for people. Nothing
//! of the store or of the identity provider shows through.

use vstd::prelude::*;

verus! {

/// The kinds of failure that a caller can tell apart.
#[derive(Clone, Copy, Debug, PartialEq, Eq, Structural, Hash)]
pub enum Kind {
    /// An identifier or another input is malformed.
    Validation,
    /// No token, a bad or expired token, or an account that is gone.
    Unauthenticated,
    /// The caller is known but may not do this.
    Forbidden,
    /// A project, request or account does not exist.
    NotFound,
    /// The request contradicts what is already there.
    Conflict,
    /// The identity provider did not answer as needed.
    UpstreamFailure,
    /// The store could not be reached or refused; the call may be repeated.
    StoreUnavailable,
}

impl Kind {
    /// The HTTP status that answers a failure of this kind.
    pub open spec fn status_of(self) -> u16 {
        match self {
            Kind::Validation => 400,
            Kind::Unauthenticated => 401,
            Kind::Forbidden => 403,
            Kind::NotFound => 404,
            Kind::Conflict => 400,
            Kind::UpstreamFailure => 500,
            Kind::StoreUnavailable => 500,
        }
    }

    /// The HTTP status that answers a failure of this kind.
    pub fn status(&self) -> (r: u16)
        ensures
            r == self.status_of(),
    {
        match self {
            Kind::Validation => 400,
            Kind::Unauthenticated => 401,
            Kind::Forbidden => 403,
            Kind::NotFound => 404,
            Kind::Conflict => 400,
            Kind::UpstreamFailure => 500,
            Kind::StoreUnavailable => 500,
        }
    }

    /// Whether the caller may simply try again.
    pub fn retryable(&self) -> (r: bool)
        ensures
            r == (*self == Kind::StoreUnavailable),
    {
        match self {
            Kind::StoreUnavailable => true,
            _ => false,
        }
    }
}

/// Every way in which a request is turned away.
#[derive(Clone, Copy, Debug, PartialEq, Eq, Structural, Hash)]
pub enum Rejection {
    /// No `Authorization` header, or one that does not start with `Bearer `.
    MissingToken,
    /// The token is malformed, wrongly signed or expired.
    InvalidOrExpiredToken,
    /// The subject of the token is not an identifier.
    MalformedSubject,
    /// The account that the token names no longer exists.
    AccountGone,
    /// The store failed while the account was looked up.
    StoreUnavailable,
    /// A route for administrators was reached without an identity.
    AuthenticationRequired,
    /// A route for administrators was called by a member.
    AdminRequired,
    /// The caller's identifier is malformed.
    InvalidUserId,
    /// The project identifier is malformed.
    InvalidProjectId,
    /// The join request identifier is malformed.
    InvalidRequestId,
    /// There is no such project.
    ProjectNotFound,
    /// The caller already belongs to the project.
    AlreadyMember,
    /// The caller already has a pending request for the project.
    DuplicatePending,
    /// The store failed while the join request was written.
    JoinRequestNotSaved,
    /// Only the project's lead and administrators see its join requests.
    ViewForbidden,
    /// Only the project's lead and administrators decide its join requests.
    ManageForbidden,
    /// There is no such join request.
    RequestNotFound,
    /// The decision is neither "approved" nor "rejected".
    InvalidStatus,
    /// The store failed while the decision was written.
    StatusNotSaved,
    /// The store failed while the member was added to the project.
    MemberNotSaved,
    /// The store failed while the project was added to the account.
    MembershipNotSaved,
    /// The identifier of the member to remove is malformed.
    InvalidMemberId,
    /// Only the project's lead and administrators remove its members.
    RemoveForbidden,
    /// The store failed while the member was pulled from the project.
    ProjectNotUpdated,
    /// The store failed while the project was pulled from the account.
    UserNotUpdated,
    /// The identity provider did not exchange the authorization code.
    ExchangeFailed,
    /// The identity provider could not be asked for the profile.
    ProfileFetchFailed,
    /// The identity provider's profile could not be read.
    ProfileUnreadable,
    /// The store failed while the new account was written.
    AccountNotSaved,
    /// No session token could be issued after a login.
    TokenNotIssued,
    /// The identifier of a development login is malformed.
    InvalidUserIdFormat,
    /// There is no such account.
    UserNotFound,
    /// No session token could be issued for a development login.
    TestTokenNotIssued,
}

impl Rejection {
    /// The kind of failure.
    pub open spec fn kind_of(self) -> Kind {
        match self {
            Rejection::MissingToken => Kind::Unauthenticated,
            Rejection::InvalidOrExpiredToken => Kind::Unauthenticated,
            Rejection::MalformedSubject => Kind::Unauthenticated,
            Rejection::AccountGone => Kind::Unauthenticated,
            Rejection::StoreUnavailable => Kind::StoreUnavailable,
            Rejection::AuthenticationRequired => Kind::Unauthenticated,
            Rejection::AdminRequired => Kind::Forbidden,
            Rejection::InvalidUserId => Kind::Validation,
            Rejection::InvalidProjectId => Kind::Validation,
            Rejection::InvalidRequestId => Kind::Validation,
            Rejection::ProjectNotFound => Kind::NotFound,
            Rejection::AlreadyMember => Kind::Conflict,
            Rejection::DuplicatePending => Kind::Conflict,
            Rejection::JoinRequestNotSaved => Kind::StoreUnavailable,
            Rejection::ViewForbidden => Kind::Forbidden,
            Rejection::ManageForbidden => Kind::Forbidden,
            Rejection::RequestNotFound => Kind::NotFound,
            Rejection::InvalidStatus => Kind::Validation,
            Rejection::StatusNotSaved => Kind::StoreUnavailable,
            Rejection::MemberNotSaved => Kind::StoreUnavailable,
            Rejection::MembershipNotSaved => Kind::StoreUnavailable,
            Rejection::InvalidMemberId => Kind::Validation,
            Rejection::RemoveForbidden => Kind::Forbidden,
            Rejection::ProjectNotUpdated => Kind::StoreUnavailable,
            Rejection::UserNotUpdated => Kind::StoreUnavailable,
            Rejection::ExchangeFailed => Kind::UpstreamFailure,
            Rejection::ProfileFetchFailed => Kind::UpstreamFailure,
            Rejection::ProfileUnreadable => Kind::UpstreamFailure,
            Rejection::AccountNotSaved => Kind::StoreUnavailable,
            Rejection::TokenNotIssued => Kind::UpstreamFailure,
            Rejection::InvalidUserIdFormat => Kind::Validation,
            Rejection::UserNotFound => Kind::NotFound,
            Rejection::TestTokenNotIssued => Kind::UpstreamFailure,
        }
    }

    /// The stable reason code.
    pub open spec fn code_of(self) -> Seq<char> {
        match self {
            Rejection::MissingToken => "missing_token"@,
            Rejection::InvalidOrExpiredToken => "invalid_or_expired"@,
            Rejection::MalformedSubject => "malformed_subject"@,
            Rejection::AccountGone => "account_gone"@,
            Rejection::StoreUnavailable => "store_unavailable"@,
            Rejection::AuthenticationRequired => "unauthenticated"@,
            Rejection::AdminRequired => "forbidden"@,
            Rejection::InvalidUserId => "invalid_user_id"@,
            Rejection::InvalidProjectId => "invalid_project_id"@,
            Rejection::InvalidRequestId => "invalid_request_id"@,
            Rejection::ProjectNotFound => "project_not_found"@,
            Rejection::AlreadyMember => "already_member"@,
            Rejection::DuplicatePending => "duplicate_pending"@,
            Rejection::JoinRequestNotSaved => "store_unavailable"@,
            Rejection::ViewForbidden => "forbidden"@,
            Rejection::ManageForbidden => "forbidden"@,
            Rejection::RequestNotFound => "request_not_found"@,
            Rejection::InvalidStatus => "invalid_status"@,
            Rejection::StatusNotSaved => "store_unavailable"@,
            Rejection::MemberNotSaved => "store_unavailable"@,
            Rejection::MembershipNotSaved => "store_unavailable"@,
            Rejection::InvalidMemberId => "invalid_member_id"@,
            Rejection::RemoveForbidden => "forbidden"@,
            Rejection::ProjectNotUpdated => "store_unavailable"@,
            Rejection::UserNotUpdated => "store_unavailable"@,
            Rejection::ExchangeFailed => "exchange_failed"@,
            Rejection::ProfileFetchFailed => "profile_fetch_failed"@,
            Rejection::ProfileUnreadable => "profile_fetch_failed"@,
            Rejection::AccountNotSaved => "store_unavailable"@,
            Rejection::TokenNotIssued => "token_not_issued"@,
            Rejection::InvalidUserIdFormat => "invalid_user_id"@,
            Rejection::UserNotFound => "user_not_found"@,
            Rejection::TestTokenNotIssued => "token_not_issued"@,
        }
    }

    /// The sentence shown under `error`.
    pub open spec fn error_of(self) -> Seq<char> {
        match self {
            Rejection::MissingToken => "Missing authorization token"@,
            Rejection::InvalidOrExpiredToken => "Invalid or expired token"@,
            Rejection::MalformedSubject => "Invalid user ID in token"@,
            Rejection::AccountGone => "User not found"@,
            Rejection::StoreUnavailable => "Database error"@,
            Rejection::AuthenticationRequired => "Authentication required"@,
            Rejection::AdminRequired => "Insufficient permissions"@,
            Rejection::InvalidUserId => "Invalid user ID"@,
            Rejection::InvalidProjectId => "Invalid project ID"@,
            Rejection::InvalidRequestId => "Invalid request ID"@,
            Rejection::ProjectNotFound => "Project not found"@,
            Rejection::AlreadyMember => "You are already a member of this project"@,
            Rejection::DuplicatePending => "You already have a pending request for this project"@,
            Rejection::JoinRequestNotSaved => "Failed to create join request"@,
            Rejection::ViewForbidden => "You don't have permission to view join requests for this project"@,
            Rejection::ManageForbidden => "You don't have permission to manage join requests for this project"@,
            Rejection::RequestNotFound => "Join request not found"@,
            Rejection::InvalidStatus => "Invalid status. Use 'approved' or 'rejected'"@,
            Rejection::StatusNotSaved => "Failed to update request"@,
            Rejection::MemberNotSaved => "Failed to add member to project"@,
            Rejection::MembershipNotSaved => "Failed to update user projects"@,
            Rejection::InvalidMemberId => "Invalid member ID"@,
            Rejection::RemoveForbidden => "Only project lead or admin can remove members"@,
            Rejection::ProjectNotUpdated => "Failed to update project"@,
            Rejection::UserNotUpdated => "Failed to update user"@,
            Rejection::ExchangeFailed => "Failed to exchange authorization code"@,
            Rejection::ProfileFetchFailed => "Failed to fetch GitHub user info"@,
            Rejection::ProfileUnreadable => "Failed to parse GitHub user info"@,
            Rejection::AccountNotSaved => "Failed to create user"@,
            Rejection::TokenNotIssued => "Failed to create authentication token"@,
            Rejection::InvalidUserIdFormat => "Invalid user ID format"@,
            Rejection::UserNotFound => "User not found"@,
            Rejection::TestTokenNotIssued => "Failed to create token"@,
        }
    }

    /// The advice shown under `message`, for the rejections that carry one.
    pub open spec fn advice_of(self) -> Option<Seq<char>> {
        match self {
            Rejection::MissingToken => Some(
                "Please provide a valid JWT token in Authorization header"@,
            ),
            Rejection::InvalidOrExpiredToken => Some("Please login again to get a new token"@),
            Rejection::AccountGone => Some("User associated with this token no longer exists"@),
            Rejection::AdminRequired => Some("This endpoint requires admin privileges"@),
            _ => None,
        }
    }

    /// The kind of failure.
    pub fn kind(&self) -> (r: Kind)
        ensures
            r == self.kind_of(),
    {
        match self {
            Rejection::MissingToken => Kind::Unauthenticated,
            Rejection::InvalidOrExpiredToken => Kind::Unauthenticated,
            Rejection::MalformedSubject => Kind::Unauthenticated,
            Rejection::AccountGone => Kind::Unauthenticated,
            Rejection::StoreUnavailable => Kind::StoreUnavailable,
            Rejection::AuthenticationRequired => Kind::Unauthenticated,
            Rejection::AdminRequired => Kind::Forbidden,
            Rejection::InvalidUserId => Kind::Validation,
            Rejection::InvalidProjectId => Kind::Validation,
            Rejection::InvalidRequestId => Kind::Validation,
            Rejection::ProjectNotFound => Kind::NotFound,
            Rejection::AlreadyMember => Kind::Conflict,
            Rejection::DuplicatePending => Kind::Conflict,
            Rejection::JoinRequestNotSaved => Kind::StoreUnavailable,
            Rejection::ViewForbidden => Kind::Forbidden,
            Rejection::ManageForbidden => Kind::Forbidden,
            Rejection::RequestNotFound => Kind::NotFound,
            Rejection::InvalidStatus => Kind::Validation,
            Rejection::StatusNotSaved => Kind::StoreUnavailable,
            Rejection::MemberNotSaved => Kind::StoreUnavailable,
            Rejection::MembershipNotSaved => Kind::StoreUnavailable,
            Rejection::InvalidMemberId => Kind::Validation,
            Rejection::RemoveForbidden => Kind::Forbidden,
            Rejection::ProjectNotUpdated => Kind::StoreUnavailable,
            Rejection::UserNotUpdated => Kind::StoreUnavailable,
            Rejection::ExchangeFailed => Kind::UpstreamFailure,
            Rejection::ProfileFetchFailed => Kind::UpstreamFailure,
            Rejection::ProfileUnreadable => Kind::UpstreamFailure,
            Rejection::AccountNotSaved => Kind::StoreUnavailable,
            Rejection::TokenNotIssued => Kind::UpstreamFailure,
            Rejection::InvalidUserIdFormat => Kind::Validation,
            Rejection::UserNotFound => Kind::NotFound,
            Rejection::TestTokenNotIssued => Kind::UpstreamFailure,
        }
    }

    /// The HTTP status that answers the rejection: that of its kind.
    pub fn status(&self) -> (r: u16)
        ensures
            r == self.kind_of().status_of(),
            r == 400 || r == 401 || r == 403 || r == 404 || r == 500,
    {
        self.kind().status()
    }

    /// The stable reason code.
    pub fn code(&self) -> (r: &'static str)
        ensures
            r@ == self.code_of(),
    {
        match self {
            Rejection::MissingToken => "missing_token",
            Rejection::InvalidOrExpiredToken => "invalid_or_expired",
            Rejection::MalformedSubject => "malformed_subject",
            Rejection::AccountGone => "account_gone",
            Rejection::StoreUnavailable => "store_unavailable",
            Rejection::AuthenticationRequired => "unauthenticated",
            Rejection::AdminRequired => "forbidden",
            Rejection::InvalidUserId => "invalid_user_id",
            Rejection::InvalidProjectId => "invalid_project_id",
            Rejection::InvalidRequestId => "invalid_request_id",
            Rejection::ProjectNotFound => "project_not_found",
            Rejection::AlreadyMember => "already_member",
            Rejection::DuplicatePending => "duplicate_pending",
            Rejection::JoinRequestNotSaved => "store_unavailable",
            Rejection::ViewForbidden => "forbidden",
            Rejection::ManageForbidden => "forbidden",
            Rejection::RequestNotFound => "request_not_found",
            Rejection::InvalidStatus => "invalid_status",
            Rejection::StatusNotSaved => "store_unavailable",
            Rejection::MemberNotSaved => "store_unavailable",
            Rejection::MembershipNotSaved => "store_unavailable",
            Rejection::InvalidMemberId => "invalid_member_id",
            Rejection::RemoveForbidden => "forbidden",
            Rejection::ProjectNotUpdated => "store_unavailable",
            Rejection::UserNotUpdated => "store_unavailable",
            Rejection::ExchangeFailed => "exchange_failed",
            Rejection::ProfileFetchFailed => "profile_fetch_failed",
            Rejection::ProfileUnreadable => "profile_fetch_failed",
            Rejection::AccountNotSaved => "store_unavailable",
            Rejection::TokenNotIssued => "token_not_issued",
            Rejection::InvalidUserIdFormat => "invalid_user_id",
            Rejection::UserNotFound => "user_not_found",
            Rejection::TestTokenNotIssued => "token_not_issued",
        }
    }

    /// The sentence shown under `error`.
    pub fn error(&self) -> (r: &'static str)
        ensures
            r@ == self.error_of(),
    {
        match self {
            Rejection::MissingToken => "Missing authorization token",
            Rejection::InvalidOrExpiredToken => "Invalid or expired token",
            Rejection::MalformedSubject => "Invalid user ID in token",
            Rejection::AccountGone => "User not found",
            Rejection::StoreUnavailable => "Database error",
            Rejection::AuthenticationRequired => "Authentication required",
            Rejection::AdminRequired => "Insufficient permissions",
            Rejection::InvalidUserId => "Invalid user ID",
            Rejection::InvalidProjectId => "Invalid project ID",
            Rejection::InvalidRequestId => "Invalid request ID",
            Rejection::ProjectNotFound => "Project not found",
            Rejection::AlreadyMember => "You are already a member of this project",
            Rejection::DuplicatePending => "You already have a pending request for this project",
            Rejection::JoinRequestNotSaved => "Failed to create join request",
            Rejection::ViewForbidden => "You don't have permission to view join requests for this project",
            Rejection::ManageForbidden => "You don't have permission to manage join requests for this project",
            Rejection::RequestNotFound => "Join request not found",
            Rejection::InvalidStatus => "Invalid status. Use 'approved' or 'rejected'",
            Rejection::StatusNotSaved => "Failed to update request",
            Rejection::MemberNotSaved => "Failed to add member to project",
            Rejection::MembershipNotSaved => "Failed to update user projects",
            Rejection::InvalidMemberId => "Invalid member ID",
            Rejection::RemoveForbidden => "Only project lead or admin can remove members",
            Rejection::ProjectNotUpdated => "Failed to update project",
            Rejection::UserNotUpdated => "Failed to update user",
            Rejection::ExchangeFailed => "Failed to exchange authorization code",
            Rejection::ProfileFetchFailed => "Failed to fetch GitHub user info",
            Rejection::ProfileUnreadable => "Failed to parse GitHub user info",
            Rejection::AccountNotSaved => "Failed to create user",
            Rejection::TokenNotIssued => "Failed to create authentication token",
            Rejection::InvalidUserIdFormat => "Invalid user ID format",
            Rejection::UserNotFound => "User not found",
            Rejection::TestTokenNotIssued => "Failed to create token",
        }
    }

    /// The advice shown under `message`, for the rejections that carry one.
    pub fn message(&self) -> (r: Option<&'static str>)
        ensures
            match r {
                Some(text) => self.advice_of() == Some(text@),
                None => self.advice_of() is None,
            },
    {
        match self {
            Rejection::MissingToken => Some(
                "Please provide a valid JWT token in Authorization header",
            ),
            Rejection::InvalidOrExpiredToken => Some("Please login again to get a new token"),
            Rejection::AccountGone => Some("User associated with this token no longer exists"),
            Rejection::AdminRequired => Some("This endpoint requires admin privileges"),
            _ => None,
        }
    }
}

/// Only a failure of the store may be retried, and failures of authentication
/// are all answered with 401, those of authorization with 403.
pub proof fn lemma_rejection_statuses(r: Rejection)
    ensures
        r.kind_of() == Kind::Unauthenticated <==> r.kind_of().status_of() == 401,
        r.kind_of() == Kind::Forbidden <==> r.kind_of().status_of() == 403,
        r.kind_of() == Kind::NotFound <==> r.kind_of().status_of() == 404,
{
}

} // verus!
