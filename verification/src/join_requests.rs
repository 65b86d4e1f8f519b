//! Asking to join a project, and deciding such requests.
//!
//! A join request is filed as pending and decided once, by the lead of the
//! project or by an administrator. An approval makes the requester a member:
//! the account is added to the project's member list and the project to the
//! account's memberships, in two writes of one record each.

use crate::clock::unix_millis;
use crate::gate::AuthUser;
use crate::ids::DocId;
use crate::models::project::{Project, ProjectView};
use crate::models::project_join_request::{
    entries_view, CreateJoinRequest, JoinRequestEntry, JoinRequestEntryView, JoinRequestStatus,
    ProjectJoinRequest, ProjectJoinRequestView, RequesterProfile, RequesterProfileView,
    UpdateJoinRequestStatus,
};
use crate::models::user::{Role, User, UserView};
use crate::protocol::{Effect, Outcome, Pending, Reply, Step};
use crate::rejection::Rejection;
use crate::store::requests_view;
use vstd::prelude::*;

verus! {

/// Whether an account may see and decide the join requests of a project: its
/// lead may, and so may every administrator.
pub open spec fn manages(project: ProjectView, account: DocId, role: Role) -> bool {
    project.led_by(account) || role == Role::Admin
}

/// Whether an account may see and decide the join requests of a project.
pub fn may_manage(project: &Project, account: DocId, role: Role) -> (r: bool)
    ensures
        r == manages(project@, account, role),
{
    project.led_by(account) || role.is_admin()
}

/// The pending request that an account files for a project at the time `now`.
pub open spec fn filed_request(
    project_id: DocId,
    user_id: DocId,
    message: Seq<char>,
    now: i64,
) -> ProjectJoinRequestView {
    ProjectJoinRequestView {
        id: None,
        project_id: project_id,
        user_id: user_id,
        message: message,
        status: JoinRequestStatus::Pending,
        created_at: now,
        updated_at: now,
    }
}

/// The pending request that an account files for a project at the time `now`,
/// given in milliseconds since the Unix epoch.
pub fn new_join_request(project_id: DocId, user_id: DocId, message: String, now: i64) -> (r:
    ProjectJoinRequest)
    ensures
        r@ == filed_request(project_id, user_id, message@, now),
{
    ProjectJoinRequest {
        id: None,
        project_id,
        user_id,
        message,
        status: JoinRequestStatus::Pending,
        created_at: now,
        updated_at: now,
    }
}

/// What is shown of a requester.
pub open spec fn profile_of(user: UserView) -> RequesterProfileView {
    RequesterProfileView {
        id: user.id,
        username: user.username,
        full_name: user.full_name,
        email: user.email,
    }
}

/// A join request joined with the profile of its requester.
pub open spec fn entry_of(request: ProjectJoinRequestView, user: UserView) -> JoinRequestEntryView {
    JoinRequestEntryView {
        id: request.id,
        project_id: request.project_id,
        user_id: request.user_id,
        message: request.message,
        status: request.status,
        created_at: request.created_at,
        user: profile_of(user),
    }
}

/// Joins a join request with the profile of its requester. Of the account only
/// the identifier, the names and the email are taken.
pub fn join_entry(request: ProjectJoinRequest, user: User) -> (r: JoinRequestEntry)
    ensures
        r@ == entry_of(request@, user@),
{
    JoinRequestEntry {
        id: request.id,
        project_id: request.project_id,
        user_id: request.user_id,
        message: request.message,
        status: request.status,
        created_at: request.created_at,
        user: RequesterProfile {
            id: user.id,
            username: user.username,
            full_name: user.full_name,
            email: user.email,
        },
    }
}

/// The first step of filing a join request.
pub open spec fn create_started(
    caller: Seq<char>,
    project: Seq<char>,
    message: Seq<char>,
    step: Step,
) -> bool {
    match DocId::parsed(caller) {
        None => step == Step::rejected(Rejection::InvalidUserId),
        Some(u) => match DocId::parsed(project) {
            None => step == Step::rejected(Rejection::InvalidProjectId),
            Some(p) => {
                &&& step matches Step::Ask(
                    Effect::FindProject { id },
                    Pending::JoinProject { user_id, project_id, message: kept },
                )
                &&& id == p
                &&& user_id == u
                &&& project_id == p
                &&& kept@ == message
            },
        },
    }
}

/// Starts filing a request of the caller to join a project: reads the two
/// identifiers and asks for the project.
pub fn create_join_request(auth_user: &AuthUser, payload: CreateJoinRequest) -> (step: Step)
    ensures
        create_started(auth_user.id@, payload.project_id@, payload.message@, step),
{
    let user_id = match DocId::parse_str(auth_user.id.as_str()) {
        Some(id) => id,
        None => {
            return Step::reject(Rejection::InvalidUserId);
        },
    };
    let project_id = match DocId::parse_str(payload.project_id.as_str()) {
        Some(id) => id,
        None => {
            return Step::reject(Rejection::InvalidProjectId);
        },
    };
    Step::Ask(
        Effect::FindProject { id: project_id },
        Pending::JoinProject { user_id, project_id, message: payload.message },
    )
}

/// Filing a join request, once the project was looked up.
pub open spec fn create_with_project(
    user_id: DocId,
    project_id: DocId,
    message: Seq<char>,
    reply: Reply,
    step: Step,
) -> bool {
    match reply {
        Reply::Project(Some(project)) => if project@.has_member(user_id) {
            step == Step::rejected(Rejection::AlreadyMember)
        } else {
            &&& step matches Step::Ask(
                Effect::FindPendingJoinRequest { project_id: asked_project, user_id: asked_user },
                Pending::JoinPending { user_id: kept_user, project_id: kept_project, message: kept },
            )
            &&& asked_project == project_id
            &&& asked_user == user_id
            &&& kept_project == project_id
            &&& kept_user == user_id
            &&& kept@ == message
        },
        Reply::Project(None) => step == Step::rejected(Rejection::ProjectNotFound),
        _ => step == Step::rejected(Rejection::StoreUnavailable),
    }
}

/// Goes on filing a join request with the project: a project that does not
/// exist or that the caller belongs to already ends the request; else asks
/// whether a request of the caller is pending.
pub fn create_join_request_project(
    user_id: DocId,
    project_id: DocId,
    message: String,
    reply: Reply,
) -> (step: Step)
    ensures
        create_with_project(user_id, project_id, message@, reply, step),
{
    match reply {
        Reply::Project(Some(project)) => {
            if project.has_member(user_id) {
                Step::reject(Rejection::AlreadyMember)
            } else {
                Step::Ask(
                    Effect::FindPendingJoinRequest { project_id, user_id },
                    Pending::JoinPending { user_id, project_id, message },
                )
            }
        },
        Reply::Project(None) => Step::reject(Rejection::ProjectNotFound),
        _ => Step::reject(Rejection::StoreUnavailable),
    }
}

/// Filing a join request, once it is known whether one is pending.
pub open spec fn create_with_pending(
    user_id: DocId,
    project_id: DocId,
    message: Seq<char>,
    reply: Reply,
    step: Step,
) -> bool {
    match reply {
        Reply::JoinRequest(Some(_)) => step == Step::rejected(Rejection::DuplicatePending),
        Reply::JoinRequest(None) => {
            &&& step matches Step::Ask(Effect::InsertJoinRequest { request }, Pending::JoinInsert)
            &&& request@ == filed_request(project_id, user_id, message, request.created_at)
        },
        _ => step == Step::rejected(Rejection::StoreUnavailable),
    }
}

/// Goes on filing a join request: a pending request of the caller for the
/// project ends the request; else asks to store a new pending request,
/// stamped with the current time.
pub fn create_join_request_pending(
    user_id: DocId,
    project_id: DocId,
    message: String,
    reply: Reply,
) -> (step: Step)
    ensures
        create_with_pending(user_id, project_id, message@, reply, step),
{
    match reply {
        Reply::JoinRequest(Some(_)) => Step::reject(Rejection::DuplicatePending),
        Reply::JoinRequest(None) => {
            let now = unix_millis();
            Step::Ask(
                Effect::InsertJoinRequest {
                    request: new_join_request(project_id, user_id, message, now),
                },
                Pending::JoinInsert,
            )
        },
        _ => Step::reject(Rejection::StoreUnavailable),
    }
}

/// Filing a join request, once the store has answered the insert.
pub open spec fn create_with_insert(reply: Reply, step: Step) -> bool {
    match reply {
        Reply::Inserted(id) => step == Step::Done(Outcome::JoinRequestCreated { request_id: id }),
        _ => step == Step::rejected(Rejection::JoinRequestNotSaved),
    }
}

/// Ends filing a join request: with the identifier of the stored request, or
/// with a failure where the store did not take it.
pub fn create_join_request_insert(reply: Reply) -> (step: Step)
    ensures
        create_with_insert(reply, step),
{
    match reply {
        Reply::Inserted(id) => Step::Done(Outcome::JoinRequestCreated { request_id: id }),
        _ => Step::reject(Rejection::JoinRequestNotSaved),
    }
}

/// The first step of listing the pending join requests of a project.
pub open spec fn list_started(caller: Seq<char>, role: Role, project: Seq<char>, step: Step) -> bool {
    match DocId::parsed(caller) {
        None => step == Step::rejected(Rejection::InvalidUserId),
        Some(u) => match DocId::parsed(project) {
            None => step == Step::rejected(Rejection::InvalidProjectId),
            Some(p) => step == Step::Ask(
                Effect::FindProject { id: p },
                Pending::ListProject { user_id: u, role: role, project_id: p },
            ),
        },
    }
}

/// Starts listing the pending join requests of a project for the caller:
/// reads the two identifiers and asks for the project.
pub fn get_project_join_requests(auth_user: &AuthUser, project_id: &str) -> (step: Step)
    ensures
        list_started(auth_user.id@, auth_user.role, project_id@, step),
{
    let user_id = match DocId::parse_str(auth_user.id.as_str()) {
        Some(id) => id,
        None => {
            return Step::reject(Rejection::InvalidUserId);
        },
    };
    let project_id = match DocId::parse_str(project_id) {
        Some(id) => id,
        None => {
            return Step::reject(Rejection::InvalidProjectId);
        },
    };
    Step::Ask(
        Effect::FindProject { id: project_id },
        Pending::ListProject { user_id, role: auth_user.role, project_id },
    )
}

/// Listing join requests, once the project was looked up.
pub open spec fn list_with_project(
    user_id: DocId,
    role: Role,
    project_id: DocId,
    reply: Reply,
    step: Step,
) -> bool {
    match reply {
        Reply::Project(Some(project)) => if manages(project@, user_id, role) {
            step == Step::Ask(
                Effect::ListPendingJoinRequests { project_id: project_id },
                Pending::ListRequests,
            )
        } else {
            step == Step::rejected(Rejection::ViewForbidden)
        },
        Reply::Project(None) => step == Step::rejected(Rejection::ProjectNotFound),
        _ => step == Step::rejected(Rejection::StoreUnavailable),
    }
}

/// Goes on listing join requests with the project: only its lead and
/// administrators get to ask for the pending requests.
pub fn get_project_join_requests_project(
    user_id: DocId,
    role: Role,
    project_id: DocId,
    reply: Reply,
) -> (step: Step)
    ensures
        list_with_project(user_id, role, project_id, reply, step),
{
    match reply {
        Reply::Project(Some(project)) => {
            if may_manage(&project, user_id, role) {
                Step::Ask(Effect::ListPendingJoinRequests { project_id }, Pending::ListRequests)
            } else {
                Step::reject(Rejection::ViewForbidden)
            }
        },
        Reply::Project(None) => Step::reject(Rejection::ProjectNotFound),
        _ => Step::reject(Rejection::StoreUnavailable),
    }
}

/// Listing join requests with `rest` still to be joined with their requesters
/// and `done` finished: ends with `done` where nothing is left, else asks for
/// the requester of the first of `rest`.
pub open spec fn list_continued(
    rest: Seq<ProjectJoinRequestView>,
    done: Seq<JoinRequestEntryView>,
    step: Step,
) -> bool {
    if rest.len() == 0 {
        step matches Step::Done(Outcome::PendingJoinRequests(entries)) && entries_view(entries@)
            == done
    } else {
        &&& step matches Step::Ask(
            Effect::FindUser { id },
            Pending::ListRequester { current, rest: left, done: kept },
        )
        &&& id == rest[0].user_id
        &&& current@ == rest[0]
        &&& requests_view(left@) == rest.drop_first()
        &&& entries_view(kept@) == done
    }
}

/// Goes on listing join requests: ends the listing where every request has
/// its requester, else asks for the requester of the next one.
pub fn list_advance(rest: Vec<ProjectJoinRequest>, done: Vec<JoinRequestEntry>) -> (step: Step)
    ensures
        list_continued(requests_view(rest@), entries_view(done@), step),
{
    let mut rest = rest;
    if rest.len() == 0 {
        Step::Done(Outcome::PendingJoinRequests(done))
    } else {
        let ghost before = rest@;
        let current = rest.remove(0);
        proof {
            assert(requests_view(rest@) =~= requests_view(before).drop_first());
        }
        Step::Ask(
            Effect::FindUser { id: current.user_id },
            Pending::ListRequester { current, rest, done },
        )
    }
}

/// Listing join requests, once the requests were listed.
pub open spec fn list_with_requests(reply: Reply, step: Step) -> bool {
    match reply {
        Reply::JoinRequests(requests) => list_continued(
            requests_view(requests@),
            Seq::empty(),
            step,
        ),
        _ => step == Step::rejected(Rejection::StoreUnavailable),
    }
}

/// Goes on listing join requests with the pending requests of the project.
pub fn get_project_join_requests_requests(reply: Reply) -> (step: Step)
    ensures
        list_with_requests(reply, step),
{
    match reply {
        Reply::JoinRequests(requests) => {
            let done: Vec<JoinRequestEntry> = Vec::new();
            proof {
                assert(entries_view(done@) =~= Seq::empty());
            }
            list_advance(requests, done)
        },
        _ => Step::reject(Rejection::StoreUnavailable),
    }
}

/// Listing join requests, once the requester of `current` was looked up: a
/// request whose requester exists is listed with the requester's profile, one
/// whose requester is gone is left out.
pub open spec fn list_with_requester(
    current: ProjectJoinRequestView,
    rest: Seq<ProjectJoinRequestView>,
    done: Seq<JoinRequestEntryView>,
    reply: Reply,
    step: Step,
) -> bool {
    match reply {
        Reply::User(Some(user)) => list_continued(rest, done.push(entry_of(current, user@)), step),
        Reply::User(None) => list_continued(rest, done, step),
        _ => step == Step::rejected(Rejection::StoreUnavailable),
    }
}

/// Goes on listing join requests with the requester of the current request.
pub fn get_project_join_requests_requester(
    current: ProjectJoinRequest,
    rest: Vec<ProjectJoinRequest>,
    done: Vec<JoinRequestEntry>,
    reply: Reply,
) -> (step: Step)
    ensures
        list_with_requester(current@, requests_view(rest@), entries_view(done@), reply, step),
{
    match reply {
        Reply::User(Some(user)) => {
            let mut done = done;
            let ghost before = done@;
            let ghost entry = entry_of(current@, user@);
            done.push(join_entry(current, user));
            proof {
                assert(entries_view(done@) =~= entries_view(before).push(entry));
            }
            list_advance(rest, done)
        },
        Reply::User(None) => list_advance(rest, done),
        _ => Step::reject(Rejection::StoreUnavailable),
    }
}

/// The first step of deciding a join request.
pub open spec fn decide_started(
    caller: Seq<char>,
    role: Role,
    request: Seq<char>,
    status: Seq<char>,
    step: Step,
) -> bool {
    match DocId::parsed(caller) {
        None => step == Step::rejected(Rejection::InvalidUserId),
        Some(u) => match DocId::parsed(request) {
            None => step == Step::rejected(Rejection::InvalidRequestId),
            Some(r) => {
                &&& step matches Step::Ask(
                    Effect::FindJoinRequest { id },
                    Pending::DecideRequest { user_id, role: kept_role, request_id, status: kept },
                )
                &&& id == r
                &&& user_id == u
                &&& kept_role == role
                &&& request_id == r
                &&& kept@ == status
            },
        },
    }
}

/// Starts deciding a join request for the caller: reads the two identifiers
/// and asks for the request.
pub fn update_join_request_status(
    auth_user: &AuthUser,
    request_id: &str,
    payload: UpdateJoinRequestStatus,
) -> (step: Step)
    ensures
        decide_started(auth_user.id@, auth_user.role, request_id@, payload.status@, step),
{
    let user_id = match DocId::parse_str(auth_user.id.as_str()) {
        Some(id) => id,
        None => {
            return Step::reject(Rejection::InvalidUserId);
        },
    };
    let request_id = match DocId::parse_str(request_id) {
        Some(id) => id,
        None => {
            return Step::reject(Rejection::InvalidRequestId);
        },
    };
    Step::Ask(
        Effect::FindJoinRequest { id: request_id },
        Pending::DecideRequest {
            user_id,
            role: auth_user.role,
            request_id,
            status: payload.status,
        },
    )
}

/// Deciding a join request, once the request was looked up.
pub open spec fn decide_with_request(
    user_id: DocId,
    role: Role,
    request_id: DocId,
    status: Seq<char>,
    reply: Reply,
    step: Step,
) -> bool {
    match reply {
        Reply::JoinRequest(Some(found)) => {
            &&& step matches Step::Ask(
                Effect::FindProject { id },
                Pending::DecideProject {
                    user_id: u,
                    role: kept_role,
                    request_id: r,
                    status: kept,
                    request,
                },
            )
            &&& id == found.project_id
            &&& u == user_id
            &&& kept_role == role
            &&& r == request_id
            &&& kept@ == status
            &&& request@ == found@
        },
        Reply::JoinRequest(None) => step == Step::rejected(Rejection::RequestNotFound),
        _ => step == Step::rejected(Rejection::StoreUnavailable),
    }
}

/// Goes on deciding a join request with the request: asks for its project.
pub fn update_join_request_status_request(
    user_id: DocId,
    role: Role,
    request_id: DocId,
    status: String,
    reply: Reply,
) -> (step: Step)
    ensures
        decide_with_request(user_id, role, request_id, status@, reply, step),
{
    match reply {
        Reply::JoinRequest(Some(request)) => Step::Ask(
            Effect::FindProject { id: request.project_id },
            Pending::DecideProject { user_id, role, request_id, status, request },
        ),
        Reply::JoinRequest(None) => Step::reject(Rejection::RequestNotFound),
        _ => Step::reject(Rejection::StoreUnavailable),
    }
}

/// Deciding a join request, once its project was looked up. The caller must
/// manage the project, and the decision must be one, before anything is
/// written.
pub open spec fn decide_with_project(
    user_id: DocId,
    role: Role,
    request_id: DocId,
    status: Seq<char>,
    request: ProjectJoinRequestView,
    reply: Reply,
    step: Step,
) -> bool {
    match reply {
        Reply::Project(Some(project)) => if !manages(project@, user_id, role) {
            step == Step::rejected(Rejection::ManageForbidden)
        } else {
            match JoinRequestStatus::decision_named(status) {
                None => step == Step::rejected(Rejection::InvalidStatus),
                Some(decision) => {
                    &&& step matches Step::Ask(
                        Effect::SetJoinRequestStatus { id, status: written, updated_at },
                        Pending::DecideStatus { decision: kept, project_id, requester },
                    )
                    &&& id == request_id
                    &&& written == decision
                    &&& kept == decision
                    &&& project_id == request.project_id
                    &&& requester == request.user_id
                },
            }
        },
        Reply::Project(None) => step == Step::rejected(Rejection::ProjectNotFound),
        _ => step == Step::rejected(Rejection::StoreUnavailable),
    }
}

/// Goes on deciding a join request with its project: turns away callers who
/// do not manage the project and decisions that are none; else asks to write
/// the decision, stamped with the current time.
pub fn update_join_request_status_project(
    user_id: DocId,
    role: Role,
    request_id: DocId,
    status: String,
    request: ProjectJoinRequest,
    reply: Reply,
) -> (step: Step)
    ensures
        decide_with_project(user_id, role, request_id, status@, request@, reply, step),
{
    match reply {
        Reply::Project(Some(project)) => {
            if !may_manage(&project, user_id, role) {
                return Step::reject(Rejection::ManageForbidden);
            }
            match JoinRequestStatus::parse_decision(status.as_str()) {
                None => Step::reject(Rejection::InvalidStatus),
                Some(decision) => {
                    let now = unix_millis();
                    Step::Ask(
                        Effect::SetJoinRequestStatus {
                            id: request_id,
                            status: decision,
                            updated_at: now,
                        },
                        Pending::DecideStatus {
                            decision,
                            project_id: request.project_id,
                            requester: request.user_id,
                        },
                    )
                },
            }
        },
        Reply::Project(None) => Step::reject(Rejection::ProjectNotFound),
        _ => Step::reject(Rejection::StoreUnavailable),
    }
}

/// Deciding a join request, once the decision was written: an approval goes
/// on to add the member, anything else ends here.
pub open spec fn decide_with_status(
    status: JoinRequestStatus,
    project_id: DocId,
    requester: DocId,
    reply: Reply,
    step: Step,
) -> bool {
    match reply {
        Reply::Updated => if status == JoinRequestStatus::Approved {
            step == Step::Ask(
                Effect::AddProjectMember { project_id: project_id, user_id: requester },
                Pending::DecideMember { project_id: project_id, requester: requester },
            )
        } else {
            step == Step::Done(Outcome::JoinRequestDecided(status))
        },
        _ => step == Step::rejected(Rejection::StatusNotSaved),
    }
}

/// Goes on deciding a join request after the decision was written.
pub fn update_join_request_status_written(
    status: JoinRequestStatus,
    project_id: DocId,
    requester: DocId,
    reply: Reply,
) -> (step: Step)
    ensures
        decide_with_status(status, project_id, requester, reply, step),
{
    match reply {
        Reply::Updated => {
            match status {
                JoinRequestStatus::Approved => Step::Ask(
                    Effect::AddProjectMember { project_id, user_id: requester },
                    Pending::DecideMember { project_id, requester },
                ),
                _ => Step::Done(Outcome::JoinRequestDecided(status)),
            }
        },
        _ => Step::reject(Rejection::StatusNotSaved),
    }
}

/// Approving a join request, once the member was added to the project.
pub open spec fn decide_with_member(
    project_id: DocId,
    requester: DocId,
    reply: Reply,
    step: Step,
) -> bool {
    match reply {
        Reply::Updated => step == Step::Ask(
            Effect::AddUserProject { user_id: requester, project_id: project_id },
            Pending::DecideMembership,
        ),
        _ => step == Step::rejected(Rejection::MemberNotSaved),
    }
}

/// Goes on approving a join request: asks to add the project to the
/// requester's memberships.
pub fn update_join_request_status_member(project_id: DocId, requester: DocId, reply: Reply) -> (step:
    Step)
    ensures
        decide_with_member(project_id, requester, reply, step),
{
    match reply {
        Reply::Updated => Step::Ask(
            Effect::AddUserProject { user_id: requester, project_id },
            Pending::DecideMembership,
        ),
        _ => Step::reject(Rejection::MemberNotSaved),
    }
}

/// Approving a join request, once the project was added to the account.
pub open spec fn decide_with_membership(reply: Reply, step: Step) -> bool {
    match reply {
        Reply::Updated => step == Step::Done(
            Outcome::JoinRequestDecided(JoinRequestStatus::Approved),
        ),
        _ => step == Step::rejected(Rejection::MembershipNotSaved),
    }
}

/// Ends approving a join request.
pub fn update_join_request_status_membership(reply: Reply) -> (step: Step)
    ensures
        decide_with_membership(reply, step),
{
    match reply {
        Reply::Updated => Step::Done(Outcome::JoinRequestDecided(JoinRequestStatus::Approved)),
        _ => Step::reject(Rejection::MembershipNotSaved),
    }
}

/// The sentence that confirms a decision.
pub open spec fn decision_message(status: JoinRequestStatus) -> Seq<char> {
    match status {
        JoinRequestStatus::Pending => "Request pending successfully"@,
        JoinRequestStatus::Approved => "Request approved successfully"@,
        JoinRequestStatus::Rejected => "Request rejected successfully"@,
    }
}

/// The sentence that confirms a decision.
pub fn decided_message(status: JoinRequestStatus) -> (r: &'static str)
    ensures
        r@ == decision_message(status),
{
    match status {
        JoinRequestStatus::Pending => "Request pending successfully",
        JoinRequestStatus::Approved => "Request approved successfully",
        JoinRequestStatus::Rejected => "Request rejected successfully",
    }
}

} // verus!
