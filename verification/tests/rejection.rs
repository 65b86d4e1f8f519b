use iris_server::rejection::{Kind, Rejection};

#[test]
fn kinds_fix_the_status() {
    assert_eq!(Kind::Validation.status(), 400);
    assert_eq!(Kind::Unauthenticated.status(), 401);
    assert_eq!(Kind::Forbidden.status(), 403);
    assert_eq!(Kind::NotFound.status(), 404);
    assert_eq!(Kind::Conflict.status(), 400);
    assert_eq!(Kind::UpstreamFailure.status(), 500);
    assert_eq!(Kind::StoreUnavailable.status(), 500);
}

#[test]
fn only_store_failures_may_be_retried() {
    assert!(Kind::StoreUnavailable.retryable());
    for kind in [
        Kind::Validation,
        Kind::Unauthenticated,
        Kind::Forbidden,
        Kind::NotFound,
        Kind::Conflict,
        Kind::UpstreamFailure,
    ] {
        assert!(!kind.retryable());
    }
}

#[test]
fn join_request_rejections() {
    assert_eq!(Rejection::ProjectNotFound.status(), 404);
    assert_eq!(Rejection::ProjectNotFound.code(), "project_not_found");
    assert_eq!(Rejection::ProjectNotFound.error(), "Project not found");
    assert_eq!(Rejection::AlreadyMember.status(), 400);
    assert_eq!(Rejection::AlreadyMember.code(), "already_member");
    assert_eq!(Rejection::AlreadyMember.error(), "You are already a member of this project");
    assert_eq!(Rejection::DuplicatePending.status(), 400);
    assert_eq!(Rejection::DuplicatePending.code(), "duplicate_pending");
    assert_eq!(
        Rejection::DuplicatePending.error(),
        "You already have a pending request for this project"
    );
    assert_eq!(Rejection::ViewForbidden.status(), 403);
    assert_eq!(Rejection::ManageForbidden.status(), 403);
    assert_eq!(Rejection::ManageForbidden.code(), "forbidden");
    assert_eq!(Rejection::RequestNotFound.status(), 404);
    assert_eq!(Rejection::RequestNotFound.code(), "request_not_found");
    assert_eq!(Rejection::InvalidStatus.status(), 400);
    assert_eq!(Rejection::InvalidStatus.code(), "invalid_status");
    assert_eq!(Rejection::InvalidStatus.error(), "Invalid status. Use 'approved' or 'rejected'");
    assert_eq!(Rejection::InvalidUserId.status(), 400);
    assert_eq!(Rejection::InvalidProjectId.status(), 400);
    assert_eq!(Rejection::InvalidRequestId.status(), 400);
}

#[test]
fn login_rejections() {
    assert_eq!(Rejection::ExchangeFailed.status(), 500);
    assert_eq!(Rejection::ExchangeFailed.code(), "exchange_failed");
    assert_eq!(Rejection::ExchangeFailed.error(), "Failed to exchange authorization code");
    assert_eq!(Rejection::ProfileFetchFailed.code(), "profile_fetch_failed");
    assert_eq!(Rejection::ProfileFetchFailed.error(), "Failed to fetch GitHub user info");
    assert_eq!(Rejection::ProfileUnreadable.error(), "Failed to parse GitHub user info");
    assert_eq!(Rejection::AccountNotSaved.error(), "Failed to create user");
    assert_eq!(Rejection::TokenNotIssued.error(), "Failed to create authentication token");
    assert_eq!(Rejection::InvalidUserIdFormat.status(), 400);
    assert_eq!(Rejection::UserNotFound.status(), 404);
}

#[test]
fn advice_is_given_where_it_helps() {
    assert_eq!(
        Rejection::MissingToken.message(),
        Some("Please provide a valid JWT token in Authorization header")
    );
    assert_eq!(
        Rejection::InvalidOrExpiredToken.message(),
        Some("Please login again to get a new token")
    );
    assert_eq!(
        Rejection::AccountGone.message(),
        Some("User associated with this token no longer exists")
    );
    assert_eq!(Rejection::AdminRequired.message(), Some("This endpoint requires admin privileges"));
    assert_eq!(Rejection::ProjectNotFound.message(), None);
    assert_eq!(Rejection::StoreUnavailable.message(), None);
}

#[test]
fn authentication_failures_are_told_apart() {
    assert_eq!(Rejection::MissingToken.code(), "missing_token");
    assert_eq!(Rejection::InvalidOrExpiredToken.code(), "invalid_or_expired");
    assert_eq!(Rejection::MalformedSubject.code(), "malformed_subject");
    assert_eq!(Rejection::AccountGone.code(), "account_gone");
    assert_eq!(Rejection::StoreUnavailable.code(), "store_unavailable");
    assert!(Rejection::StoreUnavailable.kind().retryable());
    assert!(!Rejection::AccountGone.kind().retryable());
}
