//! Taking up a request where it waits.

use crate::auth::{
    github_callback_account, github_callback_emails, github_callback_insert,
    github_callback_profile, github_callback_token, login_with_account, login_with_emails,
    login_with_insert, login_with_profile, login_with_token, test_login_account,
    test_login_with_account,
};
use crate::gate::{auth_middleware_user, auth_with_user};
use crate::join_requests::{
    create_join_request_insert, create_join_request_pending, create_join_request_project,
    create_with_insert, create_with_pending, create_with_project, decide_with_member,
    decide_with_membership, decide_with_project, decide_with_request, decide_with_status,
    get_project_join_requests_project, get_project_join_requests_requester,
    get_project_join_requests_requests, list_with_project, list_with_requester,
    list_with_requests, update_join_request_status_member,
    update_join_request_status_membership, update_join_request_status_project,
    update_join_request_status_request, update_join_request_status_written,
};
use crate::members::{
    remove_member_by_lead_member, remove_member_by_lead_membership,
    remove_member_by_lead_project, removal_with_member, removal_with_membership,
    removal_with_project,
};
use crate::models::project_join_request::entries_view;
use crate::protocol::{Pending, Reply, Step};
use crate::store::requests_view;
use vstd::prelude::*;

verus! {

/// The step that follows when a waiting request gets its reply.
pub open spec fn resumed(pending: Pending, reply: Reply, step: Step) -> bool {
    match pending {
        Pending::AuthUser { subject } => auth_with_user(subject@, reply, step),
        Pending::JoinProject { user_id, project_id, message } => create_with_project(
            user_id,
            project_id,
            message@,
            reply,
            step,
        ),
        Pending::JoinPending { user_id, project_id, message } => create_with_pending(
            user_id,
            project_id,
            message@,
            reply,
            step,
        ),
        Pending::JoinInsert => create_with_insert(reply, step),
        Pending::ListProject { user_id, role, project_id } => list_with_project(
            user_id,
            role,
            project_id,
            reply,
            step,
        ),
        Pending::ListRequests => list_with_requests(reply, step),
        Pending::ListRequester { current, rest, done } => list_with_requester(
            current@,
            requests_view(rest@),
            entries_view(done@),
            reply,
            step,
        ),
        Pending::DecideRequest { user_id, role, request_id, status } => decide_with_request(
            user_id,
            role,
            request_id,
            status@,
            reply,
            step,
        ),
        Pending::DecideProject { user_id, role, request_id, status, request } => decide_with_project(
            user_id,
            role,
            request_id,
            status@,
            request@,
            reply,
            step,
        ),
        Pending::DecideStatus { decision, project_id, requester } => decide_with_status(
            decision,
            project_id,
            requester,
            reply,
            step,
        ),
        Pending::DecideMember { project_id, requester } => decide_with_member(
            project_id,
            requester,
            reply,
            step,
        ),
        Pending::DecideMembership => decide_with_membership(reply, step),
        Pending::RemoveProject { user_id, role, project_id, member_id } => removal_with_project(
            user_id,
            role,
            project_id,
            member_id,
            reply,
            step,
        ),
        Pending::RemoveMember { project_id, member_id } => removal_with_member(
            project_id,
            member_id,
            reply,
            step,
        ),
        Pending::RemoveMembership => removal_with_membership(reply, step),
        Pending::LoginExchange { secret } => login_with_token(secret@, reply, step),
        Pending::LoginProfile { secret, access_token } => login_with_profile(
            secret@,
            access_token@,
            reply,
            step,
        ),
        Pending::LoginEmails { secret, profile } => login_with_emails(
            secret@,
            profile@,
            reply,
            step,
        ),
        Pending::LoginAccount { secret, profile, email } => login_with_account(
            secret@,
            profile@,
            email@,
            reply,
            step,
        ),
        Pending::LoginInsert { secret, user } => login_with_insert(secret@, user@, reply, step),
        Pending::TestLoginAccount { secret } => test_login_with_account(secret@, reply, step),
    }
}

/// Takes up a waiting request with the reply to what it asked.
pub fn resume(pending: Pending, reply: Reply) -> (step: Step)
    ensures
        resumed(pending, reply, step),
{
    match pending {
        Pending::AuthUser { subject } => auth_middleware_user(subject, reply),
        Pending::JoinProject { user_id, project_id, message } => create_join_request_project(
            user_id,
            project_id,
            message,
            reply,
        ),
        Pending::JoinPending { user_id, project_id, message } => create_join_request_pending(
            user_id,
            project_id,
            message,
            reply,
        ),
        Pending::JoinInsert => create_join_request_insert(reply),
        Pending::ListProject { user_id, role, project_id } => get_project_join_requests_project(
            user_id,
            role,
            project_id,
            reply,
        ),
        Pending::ListRequests => get_project_join_requests_requests(reply),
        Pending::ListRequester { current, rest, done } => get_project_join_requests_requester(
            current,
            rest,
            done,
            reply,
        ),
        Pending::DecideRequest { user_id, role, request_id, status } => {
            update_join_request_status_request(user_id, role, request_id, status, reply)
        },
        Pending::DecideProject { user_id, role, request_id, status, request } => {
            update_join_request_status_project(user_id, role, request_id, status, request, reply)
        },
        Pending::DecideStatus { decision, project_id, requester } => {
            update_join_request_status_written(decision, project_id, requester, reply)
        },
        Pending::DecideMember { project_id, requester } => update_join_request_status_member(
            project_id,
            requester,
            reply,
        ),
        Pending::DecideMembership => update_join_request_status_membership(reply),
        Pending::RemoveProject { user_id, role, project_id, member_id } => {
            remove_member_by_lead_project(user_id, role, project_id, member_id, reply)
        },
        Pending::RemoveMember { project_id, member_id } => remove_member_by_lead_member(
            project_id,
            member_id,
            reply,
        ),
        Pending::RemoveMembership => remove_member_by_lead_membership(reply),
        Pending::LoginExchange { secret } => github_callback_token(secret, reply),
        Pending::LoginProfile { secret, access_token } => github_callback_profile(
            secret,
            access_token,
            reply,
        ),
        Pending::LoginEmails { secret, profile } => github_callback_emails(secret, profile, reply),
        Pending::LoginAccount { secret, profile, email } => github_callback_account(
            secret,
            profile,
            email,
            reply,
        ),
        Pending::LoginInsert { secret, user } => github_callback_insert(secret, user, reply),
        Pending::TestLoginAccount { secret } => test_login_account(secret, reply),
    }
}

} // verus!
