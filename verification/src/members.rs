//! Removing a member from a project.
//!
//! The lead of a project and administrators may remove a member. A removal
//! undoes both sides of membership: the account is pulled from the project's
//! member list and the project from the account's memberships, in two writes
//! of one record each.

use crate::clock::rfc3339_now;
use crate::gate::AuthUser;
use crate::ids::DocId;
use crate::join_requests::{manages, may_manage};
use crate::models::user::Role;
use crate::protocol::{Effect, Outcome, Pending, Reply, Step};
use crate::rejection::Rejection;
use vstd::prelude::*;

verus! {

/// The first step of removing a member.
pub open spec fn removal_started(
    caller: Seq<char>,
    role: Role,
    project: Seq<char>,
    member: Seq<char>,
    step: Step,
) -> bool {
    match DocId::parsed(project) {
        None => step == Step::rejected(Rejection::InvalidProjectId),
        Some(p) => match DocId::parsed(member) {
            None => step == Step::rejected(Rejection::InvalidMemberId),
            Some(m) => match DocId::parsed(caller) {
                None => step == Step::rejected(Rejection::InvalidUserId),
                Some(u) => step == Step::Ask(
                    Effect::FindProject { id: p },
                    Pending::RemoveProject { user_id: u, role: role, project_id: p, member_id: m },
                ),
            },
        },
    }
}

/// Starts removing a member from a project for the caller: reads the three
/// identifiers and asks for the project.
pub fn remove_member_by_lead(auth_user: &AuthUser, project_id: &str, member_id: &str) -> (step: Step)
    ensures
        removal_started(auth_user.id@, auth_user.role, project_id@, member_id@, step),
{
    let project_id = match DocId::parse_str(project_id) {
        Some(id) => id,
        None => {
            return Step::reject(Rejection::InvalidProjectId);
        },
    };
    let member_id = match DocId::parse_str(member_id) {
        Some(id) => id,
        None => {
            return Step::reject(Rejection::InvalidMemberId);
        },
    };
    let user_id = match DocId::parse_str(auth_user.id.as_str()) {
        Some(id) => id,
        None => {
            return Step::reject(Rejection::InvalidUserId);
        },
    };
    Step::Ask(
        Effect::FindProject { id: project_id },
        Pending::RemoveProject { user_id, role: auth_user.role, project_id, member_id },
    )
}

/// Removing a member, once the project was looked up: only a caller who
/// manages the project gets to pull the member.
pub open spec fn removal_with_project(
    user_id: DocId,
    role: Role,
    project_id: DocId,
    member_id: DocId,
    reply: Reply,
    step: Step,
) -> bool {
    match reply {
        Reply::Project(Some(project)) => if manages(project@, user_id, role) {
            &&& step matches Step::Ask(
                Effect::PullProjectMember { project_id: asked_project, user_id: asked_member, .. },
                Pending::RemoveMember { project_id: kept_project, member_id: kept_member },
            )
            &&& asked_project == project_id
            &&& asked_member == member_id
            &&& kept_project == project_id
            &&& kept_member == member_id
        } else {
            step == Step::rejected(Rejection::RemoveForbidden)
        },
        Reply::Project(None) => step == Step::rejected(Rejection::ProjectNotFound),
        _ => step == Step::rejected(Rejection::StoreUnavailable),
    }
}

/// Goes on removing a member with the project.
pub fn remove_member_by_lead_project(
    user_id: DocId,
    role: Role,
    project_id: DocId,
    member_id: DocId,
    reply: Reply,
) -> (step: Step)
    ensures
        removal_with_project(user_id, role, project_id, member_id, reply, step),
{
    match reply {
        Reply::Project(Some(project)) => {
            if may_manage(&project, user_id, role) {
                Step::Ask(
                    Effect::PullProjectMember {
                        project_id,
                        user_id: member_id,
                        updated_at: rfc3339_now(),
                    },
                    Pending::RemoveMember { project_id, member_id },
                )
            } else {
                Step::reject(Rejection::RemoveForbidden)
            }
        },
        Reply::Project(None) => Step::reject(Rejection::ProjectNotFound),
        _ => Step::reject(Rejection::StoreUnavailable),
    }
}

/// Removing a member, once the member was pulled from the project.
pub open spec fn removal_with_member(
    project_id: DocId,
    member_id: DocId,
    reply: Reply,
    step: Step,
) -> bool {
    match reply {
        Reply::Updated => {
            &&& step matches Step::Ask(
                Effect::PullUserProject { user_id, project_id: asked_project, .. },
                Pending::RemoveMembership,
            )
            &&& user_id == member_id
            &&& asked_project == project_id
        },
        _ => step == Step::rejected(Rejection::ProjectNotUpdated),
    }
}

/// Goes on removing a member: asks to pull the project from the account's
/// memberships.
pub fn remove_member_by_lead_member(project_id: DocId, member_id: DocId, reply: Reply) -> (step: Step)
    ensures
        removal_with_member(project_id, member_id, reply, step),
{
    match reply {
        Reply::Updated => Step::Ask(
            Effect::PullUserProject { user_id: member_id, project_id, updated_at: rfc3339_now() },
            Pending::RemoveMembership,
        ),
        _ => Step::reject(Rejection::ProjectNotUpdated),
    }
}

/// Removing a member, once the project was pulled from the account.
pub open spec fn removal_with_membership(reply: Reply, step: Step) -> bool {
    match reply {
        Reply::Updated => step == Step::Done(Outcome::MemberRemoved),
        _ => step == Step::rejected(Rejection::UserNotUpdated),
    }
}

/// Ends removing a member.
pub fn remove_member_by_lead_membership(reply: Reply) -> (step: Step)
    ensures
        removal_with_membership(reply, step),
{
    match reply {
        Reply::Updated => Step::Done(Outcome::MemberRemoved),
        _ => Step::reject(Rejection::UserNotUpdated),
    }
}

} // verus!
