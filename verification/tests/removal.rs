use iris_server::flow::resume;
use iris_server::gate::AuthUser;
use iris_server::ids::DocId;
use iris_server::members::remove_member_by_lead;
use iris_server::membership::remove_member;
use iris_server::models::project::{Project, ProjectStatus};
use iris_server::models::user::{Role, User};
use iris_server::protocol::{Effect, Outcome, Pending, Reply, Step};
use iris_server::rejection::Rejection;
use iris_server::store::{pull_from, MemoryStore};

fn account(name: &str, role: Role) -> User {
    User {
        id: None,
        username: name.to_string(),
        full_name: name.to_string(),
        email: format!("{}@example.org", name),
        password_hash: String::new(),
        role,
        coins: 0,
        project_ids: Some(Vec::new()),
        created_at: "c".to_string(),
        updated_at: "u".to_string(),
    }
}

fn project(creator: DocId, lead: Option<DocId>) -> Project {
    Project {
        id: None,
        name: "P".to_string(),
        description: "d".to_string(),
        status: ProjectStatus::Active,
        member_ids: Some(Vec::new()),
        project_lead_id: lead,
        github_link: None,
        files: None,
        created_by: creator,
        created_at: "c".to_string(),
        updated_at: "u".to_string(),
    }
}

fn identity(id: DocId, role: Role) -> AuthUser {
    AuthUser {
        id: id.to_hex(),
        username: "x".to_string(),
        email: "x@example.org".to_string(),
        role,
    }
}

struct World {
    store: MemoryStore,
    member: DocId,
    lead: DocId,
    admin: DocId,
    p: DocId,
    q: DocId,
}

fn world() -> World {
    let mut store = MemoryStore::new();
    let member = store.insert_user(account("ada", Role::Member)).unwrap();
    let lead = store.insert_user(account("bob", Role::Member)).unwrap();
    let admin = store.insert_user(account("root", Role::Admin)).unwrap();
    let p = store.insert_project(project(lead, Some(lead))).unwrap();
    let q = store.insert_project(project(lead, Some(lead))).unwrap();
    for project in [p, q] {
        store.add_project_member(project, member);
        store.add_user_project(member, project);
        store.add_project_member(project, lead);
        store.add_user_project(lead, project);
    }
    World { store, member, lead, admin, p, q }
}

#[test]
fn pulling_removes_every_occurrence() {
    let x = DocId::new(1).unwrap();
    let y = DocId::new(2).unwrap();
    assert_eq!(pull_from(None, x), None);
    assert_eq!(pull_from(Some(vec![]), x), Some(vec![]));
    assert_eq!(pull_from(Some(vec![x]), x), Some(vec![]));
    assert_eq!(pull_from(Some(vec![y, x, y, x]), x), Some(vec![y, y]));
    assert_eq!(pull_from(Some(vec![y]), x), Some(vec![y]));
}

#[test]
fn lead_removes_a_member_on_both_sides() {
    let mut w = world();
    assert_eq!(
        remove_member(&mut w.store, &identity(w.lead, Role::Member), &w.p.to_hex(), &w.member.to_hex()),
        Outcome::MemberRemoved
    );
    assert_eq!(w.store.find_project(w.p).unwrap().member_ids, Some(vec![w.lead]));
    assert_eq!(w.store.find_user(w.member).unwrap().project_ids, Some(vec![w.q]));
    assert_eq!(w.store.find_project(w.q).unwrap().member_ids, Some(vec![w.member, w.lead]));
    assert_eq!(w.store.find_user(w.lead).unwrap().project_ids, Some(vec![w.p, w.q]));
}

#[test]
fn removal_notes_the_time() {
    let mut w = world();
    remove_member(&mut w.store, &identity(w.lead, Role::Member), &w.p.to_hex(), &w.member.to_hex());
    assert_ne!(w.store.find_project(w.p).unwrap().updated_at, "u");
    assert_ne!(w.store.find_user(w.member).unwrap().updated_at, "u");
    assert_eq!(w.store.find_project(w.q).unwrap().updated_at, "u");
}

#[test]
fn admin_removes_a_member() {
    let mut w = world();
    assert_eq!(
        remove_member(&mut w.store, &identity(w.admin, Role::Admin), &w.p.to_hex(), &w.member.to_hex()),
        Outcome::MemberRemoved
    );
    assert_eq!(w.store.find_project(w.p).unwrap().member_ids, Some(vec![w.lead]));
}

#[test]
fn members_do_not_remove_members() {
    let mut w = world();
    assert_eq!(
        remove_member(&mut w.store, &identity(w.member, Role::Member), &w.p.to_hex(), &w.lead.to_hex()),
        Outcome::Rejected(Rejection::RemoveForbidden)
    );
    assert_eq!(w.store.find_project(w.p).unwrap().member_ids, Some(vec![w.member, w.lead]));
    assert_eq!(Rejection::RemoveForbidden.status(), 403);
    assert_eq!(Rejection::RemoveForbidden.error(), "Only project lead or admin can remove members");
}

#[test]
fn removing_someone_who_is_no_member_changes_no_list() {
    let mut w = world();
    assert_eq!(
        remove_member(&mut w.store, &identity(w.lead, Role::Member), &w.p.to_hex(), &w.admin.to_hex()),
        Outcome::MemberRemoved
    );
    assert_eq!(w.store.find_project(w.p).unwrap().member_ids, Some(vec![w.member, w.lead]));
    assert_eq!(w.store.find_user(w.admin).unwrap().project_ids, Some(vec![]));
}

#[test]
fn removal_checks_identifiers_in_order() {
    let mut w = world();
    let lead = identity(w.lead, Role::Member);
    assert_eq!(
        remove_member(&mut w.store, &lead, "bad", "also bad"),
        Outcome::Rejected(Rejection::InvalidProjectId)
    );
    assert_eq!(
        remove_member(&mut w.store, &lead, &w.p.to_hex(), "bad"),
        Outcome::Rejected(Rejection::InvalidMemberId)
    );
    let nobody = AuthUser {
        id: "bad".to_string(),
        username: "x".to_string(),
        email: "x@example.org".to_string(),
        role: Role::Admin,
    };
    assert_eq!(
        remove_member(&mut w.store, &nobody, &w.p.to_hex(), &w.member.to_hex()),
        Outcome::Rejected(Rejection::InvalidUserId)
    );
    assert_eq!(
        remove_member(&mut w.store, &lead, &DocId::new(999_999).unwrap().to_hex(), &w.member.to_hex()),
        Outcome::Rejected(Rejection::ProjectNotFound)
    );
    assert_eq!(Rejection::InvalidMemberId.error(), "Invalid member ID");
}

#[test]
fn removal_asks_in_order() {
    let p = DocId::new(10).unwrap();
    let m = DocId::new(11).unwrap();
    let lead = DocId::new(12).unwrap();
    let step = remove_member_by_lead(&identity(lead, Role::Member), &p.to_hex(), &m.to_hex());
    assert_eq!(
        step,
        Step::Ask(
            Effect::FindProject { id: p },
            Pending::RemoveProject { user_id: lead, role: Role::Member, project_id: p, member_id: m }
        )
    );
    let mut found = project(lead, Some(lead));
    found.id = Some(p);
    let pending = Pending::RemoveProject { user_id: lead, role: Role::Member, project_id: p, member_id: m };
    let pending = match resume(pending, Reply::Project(Some(found))) {
        Step::Ask(Effect::PullProjectMember { project_id, user_id, updated_at }, pending) => {
            assert_eq!(project_id, p);
            assert_eq!(user_id, m);
            assert!(!updated_at.is_empty());
            pending
        },
        other => panic!("expected a write, got {:?}", other),
    };
    assert_eq!(pending, Pending::RemoveMember { project_id: p, member_id: m });
    match resume(pending, Reply::Updated) {
        Step::Ask(Effect::PullUserProject { user_id, project_id, .. }, Pending::RemoveMembership) => {
            assert_eq!(user_id, m);
            assert_eq!(project_id, p);
        },
        other => panic!("expected a write, got {:?}", other),
    }
    assert_eq!(resume(Pending::RemoveMembership, Reply::Updated), Step::Done(Outcome::MemberRemoved));
}

#[test]
fn removal_fails_with_the_store() {
    let p = DocId::new(10).unwrap();
    let m = DocId::new(11).unwrap();
    let waiting = Pending::RemoveProject { user_id: m, role: Role::Admin, project_id: p, member_id: m };
    assert_eq!(resume(waiting, Reply::Failed), Step::Done(Outcome::Rejected(Rejection::StoreUnavailable)));
    assert_eq!(
        resume(Pending::RemoveMember { project_id: p, member_id: m }, Reply::Failed),
        Step::Done(Outcome::Rejected(Rejection::ProjectNotUpdated))
    );
    assert_eq!(
        resume(Pending::RemoveMembership, Reply::Failed),
        Step::Done(Outcome::Rejected(Rejection::UserNotUpdated))
    );
    assert_eq!(Rejection::ProjectNotUpdated.error(), "Failed to update project");
    assert_eq!(Rejection::UserNotUpdated.error(), "Failed to update user");
}
