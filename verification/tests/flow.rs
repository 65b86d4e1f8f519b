use iris_server::flow::resume;
use iris_server::gate::AuthUser;
use iris_server::ids::DocId;
use iris_server::join_requests::{
    create_join_request, decided_message, get_project_join_requests, join_entry, list_advance,
    may_manage, new_join_request, update_join_request_status,
};
use iris_server::models::project::{Project, ProjectStatus};
use iris_server::models::project_join_request::{
    CreateJoinRequest, JoinRequestStatus, ProjectJoinRequest, UpdateJoinRequestStatus,
};
use iris_server::models::user::{Role, User};
use iris_server::protocol::{Effect, Outcome, Pending, Reply, Step};
use iris_server::rejection::Rejection;

fn id(n: u128) -> DocId {
    DocId::new(n).unwrap()
}

fn caller(n: u128, role: Role) -> AuthUser {
    AuthUser {
        id: id(n).to_hex(),
        username: "u".to_string(),
        email: "u@example.org".to_string(),
        role,
    }
}

fn project(lead: Option<DocId>, members: Vec<DocId>) -> Project {
    Project {
        id: Some(id(50)),
        name: "P".to_string(),
        description: "d".to_string(),
        status: ProjectStatus::Active,
        member_ids: Some(members),
        project_lead_id: lead,
        github_link: None,
        files: None,
        created_by: id(1),
        created_at: "c".to_string(),
        updated_at: "u".to_string(),
    }
}

fn request(n: u128, user: u128) -> ProjectJoinRequest {
    ProjectJoinRequest {
        id: Some(id(n)),
        project_id: id(50),
        user_id: id(user),
        message: format!("from {}", user),
        status: JoinRequestStatus::Pending,
        created_at: 5,
        updated_at: 5,
    }
}

fn user(n: u128) -> User {
    User {
        id: Some(id(n)),
        username: format!("user{}", n),
        full_name: format!("User {}", n),
        email: format!("user{}@example.org", n),
        password_hash: "hash".to_string(),
        role: Role::Member,
        coins: 0,
        project_ids: None,
        created_at: "c".to_string(),
        updated_at: "u".to_string(),
    }
}

fn rejected(reason: Rejection) -> Step {
    Step::Done(Outcome::Rejected(reason))
}

#[test]
fn lead_and_admin_manage() {
    let p = project(Some(id(2)), vec![id(3)]);
    assert!(may_manage(&p, id(2), Role::Member));
    assert!(may_manage(&p, id(9), Role::Admin));
    assert!(!may_manage(&p, id(3), Role::Member));
    assert!(!may_manage(&project(None, vec![]), id(2), Role::Member));
}

#[test]
fn new_requests_are_pending() {
    assert_eq!(
        new_join_request(id(50), id(7), "hello".to_string(), 1234),
        ProjectJoinRequest {
            id: None,
            project_id: id(50),
            user_id: id(7),
            message: "hello".to_string(),
            status: JoinRequestStatus::Pending,
            created_at: 1234,
            updated_at: 1234,
        }
    );
}

#[test]
fn create_asks_in_order() {
    let payload = CreateJoinRequest { project_id: id(50).to_hex(), message: "hi".to_string() };
    let step = create_join_request(&caller(7, Role::Member), payload);
    assert_eq!(
        step,
        Step::Ask(
            Effect::FindProject { id: id(50) },
            Pending::JoinProject { user_id: id(7), project_id: id(50), message: "hi".to_string() }
        )
    );
    let pending = match step {
        Step::Ask(_, pending) => pending,
        _ => unreachable!(),
    };
    let step = resume(pending, Reply::Project(Some(project(None, vec![]))));
    assert_eq!(
        step,
        Step::Ask(
            Effect::FindPendingJoinRequest { project_id: id(50), user_id: id(7) },
            Pending::JoinPending { user_id: id(7), project_id: id(50), message: "hi".to_string() }
        )
    );
    let pending = match step {
        Step::Ask(_, pending) => pending,
        _ => unreachable!(),
    };
    match resume(pending, Reply::JoinRequest(None)) {
        Step::Ask(Effect::InsertJoinRequest { request }, Pending::JoinInsert) => {
            assert_eq!(request.id, None);
            assert_eq!(request.project_id, id(50));
            assert_eq!(request.user_id, id(7));
            assert_eq!(request.message, "hi");
            assert_eq!(request.status, JoinRequestStatus::Pending);
            assert_eq!(request.created_at, request.updated_at);
            assert!(request.created_at > 1_600_000_000_000);
        },
        other => panic!("expected an insert, got {:?}", other),
    }
    assert_eq!(
        resume(Pending::JoinInsert, Reply::Inserted(id(99))),
        Step::Done(Outcome::JoinRequestCreated { request_id: id(99) })
    );
}

#[test]
fn create_fails_with_the_store() {
    let waiting = || Pending::JoinProject { user_id: id(7), project_id: id(50), message: "m".to_string() };
    assert_eq!(resume(waiting(), Reply::Failed), rejected(Rejection::StoreUnavailable));
    assert_eq!(resume(waiting(), Reply::Project(None)), rejected(Rejection::ProjectNotFound));
    assert_eq!(
        resume(waiting(), Reply::Project(Some(project(None, vec![id(7)])))),
        rejected(Rejection::AlreadyMember)
    );
    let waiting = || Pending::JoinPending { user_id: id(7), project_id: id(50), message: "m".to_string() };
    assert_eq!(resume(waiting(), Reply::Failed), rejected(Rejection::StoreUnavailable));
    assert_eq!(
        resume(waiting(), Reply::JoinRequest(Some(request(1, 7)))),
        rejected(Rejection::DuplicatePending)
    );
    assert_eq!(resume(Pending::JoinInsert, Reply::Failed), rejected(Rejection::JoinRequestNotSaved));
    assert_eq!(Rejection::JoinRequestNotSaved.error(), "Failed to create join request");
}

#[test]
fn listing_asks_for_each_requester() {
    let step = get_project_join_requests(&caller(2, Role::Member), &id(50).to_hex());
    assert_eq!(
        step,
        Step::Ask(
            Effect::FindProject { id: id(50) },
            Pending::ListProject { user_id: id(2), role: Role::Member, project_id: id(50) }
        )
    );
    let pending = match step {
        Step::Ask(_, pending) => pending,
        _ => unreachable!(),
    };
    let step = resume(pending, Reply::Project(Some(project(Some(id(2)), vec![]))));
    assert_eq!(
        step,
        Step::Ask(Effect::ListPendingJoinRequests { project_id: id(50) }, Pending::ListRequests)
    );
    let step = resume(Pending::ListRequests, Reply::JoinRequests(vec![request(1, 7), request(2, 8), request(3, 9)]));
    let pending = match step {
        Step::Ask(Effect::FindUser { id: asked }, pending) => {
            assert_eq!(asked, id(7));
            pending
        },
        other => panic!("expected a lookup, got {:?}", other),
    };
    let pending = match resume(pending, Reply::User(Some(user(7)))) {
        Step::Ask(Effect::FindUser { id: asked }, pending) => {
            assert_eq!(asked, id(8));
            pending
        },
        other => panic!("expected a lookup, got {:?}", other),
    };
    let pending = match resume(pending, Reply::User(None)) {
        Step::Ask(Effect::FindUser { id: asked }, pending) => {
            assert_eq!(asked, id(9));
            pending
        },
        other => panic!("expected a lookup, got {:?}", other),
    };
    match resume(pending, Reply::User(Some(user(9)))) {
        Step::Done(Outcome::PendingJoinRequests(entries)) => {
            assert_eq!(entries.len(), 2);
            assert_eq!(entries[0], join_entry(request(1, 7), user(7)));
            assert_eq!(entries[1], join_entry(request(3, 9), user(9)));
            assert_eq!(entries[0].user.username, "user7");
            assert_eq!(entries[1].message, "from 9");
        },
        other => panic!("expected a listing, got {:?}", other),
    }
}

#[test]
fn listing_fails_with_the_store() {
    assert_eq!(resume(Pending::ListRequests, Reply::Failed), rejected(Rejection::StoreUnavailable));
    let waiting = Pending::ListRequester { current: request(1, 7), rest: vec![], done: vec![] };
    assert_eq!(resume(waiting, Reply::Failed), rejected(Rejection::StoreUnavailable));
    assert_eq!(list_advance(vec![], vec![]), Step::Done(Outcome::PendingJoinRequests(vec![])));
}

#[test]
fn decision_asks_in_order() {
    let payload = UpdateJoinRequestStatus { status: "approved".to_string() };
    let step = update_join_request_status(&caller(2, Role::Member), &id(1).to_hex(), payload);
    let pending = match step {
        Step::Ask(Effect::FindJoinRequest { id: asked }, pending) => {
            assert_eq!(asked, id(1));
            pending
        },
        other => panic!("expected a lookup, got {:?}", other),
    };
    let pending = match resume(pending, Reply::JoinRequest(Some(request(1, 7)))) {
        Step::Ask(Effect::FindProject { id: asked }, pending) => {
            assert_eq!(asked, id(50));
            pending
        },
        other => panic!("expected a lookup, got {:?}", other),
    };
    let pending = match resume(pending, Reply::Project(Some(project(Some(id(2)), vec![])))) {
        Step::Ask(Effect::SetJoinRequestStatus { id: asked, status, updated_at }, pending) => {
            assert_eq!(asked, id(1));
            assert_eq!(status, JoinRequestStatus::Approved);
            assert!(updated_at > 1_600_000_000_000);
            pending
        },
        other => panic!("expected a write, got {:?}", other),
    };
    let step = resume(pending, Reply::Updated);
    assert_eq!(
        step,
        Step::Ask(
            Effect::AddProjectMember { project_id: id(50), user_id: id(7) },
            Pending::DecideMember { project_id: id(50), requester: id(7) }
        )
    );
    let step = resume(Pending::DecideMember { project_id: id(50), requester: id(7) }, Reply::Updated);
    assert_eq!(
        step,
        Step::Ask(Effect::AddUserProject { user_id: id(7), project_id: id(50) }, Pending::DecideMembership)
    );
    assert_eq!(
        resume(Pending::DecideMembership, Reply::Updated),
        Step::Done(Outcome::JoinRequestDecided(JoinRequestStatus::Approved))
    );
}

#[test]
fn rejection_writes_the_status_only() {
    let waiting = Pending::DecideStatus {
        decision: JoinRequestStatus::Rejected,
        project_id: id(50),
        requester: id(7),
    };
    assert_eq!(
        resume(waiting, Reply::Updated),
        Step::Done(Outcome::JoinRequestDecided(JoinRequestStatus::Rejected))
    );
}

#[test]
fn decision_fails_with_the_store() {
    let waiting = Pending::DecideRequest {
        user_id: id(2),
        role: Role::Member,
        request_id: id(1),
        status: "approved".to_string(),
    };
    assert_eq!(resume(waiting, Reply::Failed), rejected(Rejection::StoreUnavailable));
    let waiting = || Pending::DecideProject {
        user_id: id(2),
        role: Role::Member,
        request_id: id(1),
        status: "approved".to_string(),
        request: request(1, 7),
    };
    assert_eq!(resume(waiting(), Reply::Failed), rejected(Rejection::StoreUnavailable));
    assert_eq!(resume(waiting(), Reply::Project(None)), rejected(Rejection::ProjectNotFound));
    let waiting = Pending::DecideStatus {
        decision: JoinRequestStatus::Approved,
        project_id: id(50),
        requester: id(7),
    };
    assert_eq!(resume(waiting, Reply::Failed), rejected(Rejection::StatusNotSaved));
    assert_eq!(
        resume(Pending::DecideMember { project_id: id(50), requester: id(7) }, Reply::Failed),
        rejected(Rejection::MemberNotSaved)
    );
    assert_eq!(resume(Pending::DecideMembership, Reply::Failed), rejected(Rejection::MembershipNotSaved));
    assert_eq!(Rejection::StatusNotSaved.error(), "Failed to update request");
    assert_eq!(Rejection::MemberNotSaved.error(), "Failed to add member to project");
    assert_eq!(Rejection::MembershipNotSaved.error(), "Failed to update user projects");
}

#[test]
fn decision_messages() {
    assert_eq!(decided_message(JoinRequestStatus::Approved), "Request approved successfully");
    assert_eq!(decided_message(JoinRequestStatus::Rejected), "Request rejected successfully");
}
