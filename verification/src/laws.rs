//! What holds of membership, whatever the store holds.

use crate::ids::DocId;
use crate::join_requests::manages;
use crate::membership::{
    carried_out, create_verdict, created, decide_verdict, decided, list_verdict, removal_verdict,
    taken_out, Decision,
};
use crate::models::project::ProjectView;
use crate::models::project_join_request::{JoinRequestStatus, ProjectJoinRequestView};
use crate::models::user::{Role, UserView};
use crate::protocol::Outcome;
use crate::rejection::Rejection;
use crate::seqs::{first_index, lemma_first_index, lemma_first_index_is};
use crate::store::{added_to_set, other_than, pulled, StoreView};
use vstd::prelude::*;

verus! {

/// No two pending requests are of the same account for the same project.
pub open spec fn pending_unique(store: StoreView) -> bool {
    forall|i: int, j: int|
        #![trigger store.join_requests[i], store.join_requests[j]]
        0 <= i < j < store.join_requests.len() && store.join_requests[i].status
            == JoinRequestStatus::Pending && store.join_requests[j].status
            == JoinRequestStatus::Pending ==> store.join_requests[i].project_id
            != store.join_requests[j].project_id || store.join_requests[i].user_id
            != store.join_requests[j].user_id
}

/// No account is listed twice as a member of a project.
pub open spec fn members_listed_once(store: StoreView) -> bool {
    forall|i: int|
        0 <= i < store.projects.len() ==> match (#[trigger] store.projects[i]).member_ids {
            Some(ids) => ids.no_duplicates(),
            None => true,
        }
}

/// Adding to a list as to a set: the item is in the list afterwards, what was
/// in it stays, nothing else comes in, and no item comes to stand twice.
pub proof fn lemma_added_to_set(list: Option<Seq<DocId>>, item: DocId)
    ensures
        added_to_set(list, item) matches Some(ids) && ids.contains(item),
        list matches Some(old_ids) ==> {
            let ids = added_to_set(list, item)->0;
            &&& forall|x: DocId| old_ids.contains(x) ==> ids.contains(x)
            &&& forall|x: DocId| ids.contains(x) ==> old_ids.contains(x) || x == item
            &&& old_ids.contains(item) ==> ids == old_ids
            &&& old_ids.no_duplicates() ==> ids.no_duplicates()
        },
{
    match list {
        Some(old_ids) => {
            if old_ids.contains(item) {
            } else {
                let ids = old_ids.push(item);
                assert(ids[old_ids.len() as int] == item);
                assert forall|x: DocId| old_ids.contains(x) implies ids.contains(x) by {
                    let k = choose|k: int| 0 <= k < old_ids.len() && old_ids[k] == x;
                    assert(ids[k] == x);
                }
                assert forall|x: DocId| ids.contains(x) implies old_ids.contains(x) || x
                    == item by {
                    let k = choose|k: int| 0 <= k < ids.len() && ids[k] == x;
                    if k < old_ids.len() {
                        assert(old_ids[k] == x);
                    }
                }
                if old_ids.no_duplicates() {
                    assert forall|a: int, b: int|
                        0 <= a < ids.len() && 0 <= b < ids.len() && a != b implies ids[a]
                        != ids[b] by {
                        if a < old_ids.len() && b < old_ids.len() {
                        } else if a < old_ids.len() {
                            assert(old_ids[a] == ids[a]);
                        } else {
                            assert(old_ids[b] == ids[b]);
                        }
                    }
                }
            }
        },
        None => {
            assert(seq![item][0] == item);
        },
    }
}

/// After an account was added to the members of a project, the project is
/// found with the account among its members and is otherwise as it was;
/// accounts and join requests are untouched.
pub proof fn lemma_member_written(store: StoreView, project: DocId, account: DocId)
    ensures
        store.with_member(project, account).users == store.users,
        store.with_member(project, account).join_requests == store.join_requests,
        match store.project(project) {
            Some(found) => store.with_member(project, account).project(project) == Some(
                ProjectView { member_ids: added_to_set(found.member_ids, account), ..found },
            ),
            None => store.with_member(project, account) == store,
        },
{
    let p = |x: ProjectView| x.id == Some(project);
    lemma_first_index(store.projects, p);
    match first_index(store.projects, p) {
        Some(i) => {
            let after = store.with_member(project, account);
            assert forall|j: int| 0 <= j < i implies !p(#[trigger] after.projects[j]) by {
                assert(after.projects[j] == store.projects[j]);
            }
            lemma_first_index_is(after.projects, p, i);
        },
        None => {},
    }
}

/// After a project was added to the memberships of an account, the account is
/// found with the project among its memberships and is otherwise as it was;
/// projects and join requests are untouched.
pub proof fn lemma_membership_written(store: StoreView, account: DocId, project: DocId)
    ensures
        store.with_membership(account, project).projects == store.projects,
        store.with_membership(account, project).join_requests == store.join_requests,
        match store.user(account) {
            Some(found) => store.with_membership(account, project).user(account) == Some(
                UserView { project_ids: added_to_set(found.project_ids, project), ..found },
            ),
            None => store.with_membership(account, project) == store,
        },
{
    let p = |x: UserView| x.id == Some(account);
    lemma_first_index(store.users, p);
    match first_index(store.users, p) {
        Some(i) => {
            let after = store.with_membership(account, project);
            assert forall|j: int| 0 <= j < i implies !p(#[trigger] after.users[j]) by {
                assert(after.users[j] == store.users[j]);
            }
            lemma_first_index_is(after.users, p, i);
        },
        None => {},
    }
}

/// Writing the status of a join request touches neither projects nor
/// accounts, and leaves every request with its project and requester.
pub proof fn lemma_status_written(store: StoreView, id: DocId, status: JoinRequestStatus, at: i64)
    ensures
        store.with_request_status(id, status, at).projects == store.projects,
        store.with_request_status(id, status, at).users == store.users,
        store.with_request_status(id, status, at).join_requests.len()
            == store.join_requests.len(),
        forall|k: int|
            0 <= k < store.join_requests.len() ==> {
                let before = store.join_requests[k];
                let after = #[trigger] store.with_request_status(id, status, at).join_requests[k];
                &&& after.project_id == before.project_id
                &&& after.user_id == before.user_id
                &&& after.status == before.status || after.status == status
            },
{
    let p = |x: ProjectJoinRequestView| x.id == Some(id);
    lemma_first_index(store.join_requests, p);
}

/// While a request of an account for a project is pending, a second one is
/// turned away as a duplicate.
pub proof fn lemma_second_request_is_duplicate(
    store: StoreView,
    caller: Seq<char>,
    project: Seq<char>,
)
    requires
        DocId::parsed(caller) matches Some(account) && DocId::parsed(project) matches Some(id)
            && store.project(id) matches Some(found) && !found.has_member(account)
            && store.pending_request(id, account) is Some,
    ensures
        create_verdict(store, caller, project) == Some(Rejection::DuplicatePending),
{
}

/// Filing a join request keeps pending requests unique.
pub proof fn lemma_create_keeps_pending_unique(
    before: StoreView,
    exhausted: bool,
    caller: Seq<char>,
    project: Seq<char>,
    message: Seq<char>,
    after: StoreView,
    outcome: Outcome,
)
    requires
        created(before, exhausted, caller, project, message, after, outcome),
        pending_unique(before),
    ensures
        pending_unique(after),
{
    if create_verdict(before, caller, project) is None && !exhausted {
        let account = DocId::parsed(caller)->0;
        let id = DocId::parsed(project)->0;
        let p = |r: ProjectJoinRequestView| r.pending_for(id, account);
        lemma_first_index(before.join_requests, p);
        let n = before.join_requests.len() as int;
        assert forall|i: int, j: int|
            0 <= i < j < after.join_requests.len() && after.join_requests[i].status
                == JoinRequestStatus::Pending && after.join_requests[j].status
                == JoinRequestStatus::Pending implies after.join_requests[i].project_id
            != after.join_requests[j].project_id || after.join_requests[i].user_id
            != after.join_requests[j].user_id by {
            assert(after.join_requests[i] == before.join_requests[i]);
            if j < n {
                assert(after.join_requests[j] == before.join_requests[j]);
            } else {
                assert(!p(before.join_requests[i]));
            }
        }
    }
}

/// Deciding a join request keeps pending requests unique.
pub proof fn lemma_decide_keeps_pending_unique(
    before: StoreView,
    caller: Seq<char>,
    role: Role,
    request: Seq<char>,
    status: Seq<char>,
    after: StoreView,
    outcome: Outcome,
)
    requires
        decided(before, caller, role, request, status, after, outcome),
        pending_unique(before),
    ensures
        pending_unique(after),
{
    match decide_verdict(before, caller, role, request, status) {
        Ok(decision) => {
            let at = choose|at: i64| after == #[trigger] carried_out(before, decision, at);
            let written = before.with_request_status(
                decision.request_id,
                decision.decision,
                at,
            );
            lemma_status_written(before, decision.request_id, decision.decision, at);
            lemma_member_written(written, decision.project_id, decision.requester);
            lemma_membership_written(
                written.with_member(decision.project_id, decision.requester),
                decision.requester,
                decision.project_id,
            );
            assert(after.join_requests == written.join_requests);
            assert forall|i: int, j: int|
                0 <= i < j < after.join_requests.len() && after.join_requests[i].status
                    == JoinRequestStatus::Pending && after.join_requests[j].status
                    == JoinRequestStatus::Pending implies after.join_requests[i].project_id
                != after.join_requests[j].project_id || after.join_requests[i].user_id
                != after.join_requests[j].user_id by {
                assert(written.join_requests[i].project_id == before.join_requests[i].project_id);
                assert(written.join_requests[j].project_id == before.join_requests[j].project_id);
            }
        },
        Err(_) => {},
    }
}

/// An account that belongs to a project is turned away as a member when it
/// asks to join, whether or not a request of it is pending.
pub proof fn lemma_member_is_turned_away(store: StoreView, caller: Seq<char>, project: Seq<char>)
    requires
        DocId::parsed(caller) matches Some(account) && DocId::parsed(project) matches Some(id)
            && store.is_member(id, account),
    ensures
        create_verdict(store, caller, project) == Some(Rejection::AlreadyMember),
{
}

/// After an approval the project lists the requester as a member, and the
/// requester's account, if there is one, lists the project.
pub proof fn lemma_approval_adds_both(
    before: StoreView,
    caller: Seq<char>,
    role: Role,
    request: Seq<char>,
    status: Seq<char>,
    at: i64,
)
    requires
        decide_verdict(before, caller, role, request, status) matches Ok(decision)
            && decision.decision == JoinRequestStatus::Approved,
    ensures
        ({
            let decision = decide_verdict(before, caller, role, request, status)->Ok_0;
            let after = carried_out(before, decision, at);
            &&& after.is_member(decision.project_id, decision.requester)
            &&& before.user(decision.requester) is Some ==> after.has_membership(
                decision.requester,
                decision.project_id,
            )
        }),
{
    let decision = decide_verdict(before, caller, role, request, status)->Ok_0;
    let written = before.with_request_status(decision.request_id, decision.decision, at);
    lemma_status_written(before, decision.request_id, decision.decision, at);
    let with_member = written.with_member(decision.project_id, decision.requester);
    lemma_member_written(written, decision.project_id, decision.requester);
    lemma_membership_written(with_member, decision.requester, decision.project_id);
    let found = before.project(decision.project_id)->0;
    lemma_added_to_set(found.member_ids, decision.requester);
    if before.user(decision.requester) is Some {
        let account = before.user(decision.requester)->0;
        lemma_added_to_set(account.project_ids, decision.project_id);
        let ids = added_to_set(account.project_ids, decision.project_id)->0;
        assert(ids.to_set().contains(decision.project_id));
    }
}

/// A rejection changes neither the members of any project nor the
/// memberships of any account.
pub proof fn lemma_rejection_changes_no_membership(
    before: StoreView,
    caller: Seq<char>,
    role: Role,
    request: Seq<char>,
    status: Seq<char>,
    at: i64,
)
    requires
        decide_verdict(before, caller, role, request, status) matches Ok(decision)
            && decision.decision == JoinRequestStatus::Rejected,
    ensures
        ({
            let decision = decide_verdict(before, caller, role, request, status)->Ok_0;
            let after = carried_out(before, decision, at);
            after.projects == before.projects && after.users == before.users
        }),
{
    let decision = decide_verdict(before, caller, role, request, status)->Ok_0;
    lemma_status_written(before, decision.request_id, decision.decision, at);
}

/// Adding an account that is a member already changes nothing.
pub proof fn lemma_readding_member_changes_nothing(store: StoreView, project: DocId, account: DocId)
    requires
        store.is_member(project, account),
    ensures
        store.with_member(project, account) == store,
{
    let p = |x: ProjectView| x.id == Some(project);
    lemma_first_index(store.projects, p);
    let i = first_index(store.projects, p)->0;
    assert(store.with_member(project, account).projects =~= store.projects);
}

/// Adding a member never makes an account stand twice in a member list.
pub proof fn lemma_member_added_once(store: StoreView, project: DocId, account: DocId)
    requires
        members_listed_once(store),
    ensures
        members_listed_once(store.with_member(project, account)),
{
    let p = |x: ProjectView| x.id == Some(project);
    lemma_first_index(store.projects, p);
    let after = store.with_member(project, account);
    match first_index(store.projects, p) {
        Some(i) => {
            lemma_added_to_set(store.projects[i].member_ids, account);
            assert forall|k: int| 0 <= k < after.projects.len() implies match (
            #[trigger] after.projects[k]).member_ids {
                Some(ids) => ids.no_duplicates(),
                None => true,
            } by {
                if k != i {
                    assert(after.projects[k] == store.projects[k]);
                } else {
                    assert(store.projects[i].member_ids is Some ==> store.projects[i].member_ids->0.no_duplicates());
                    if store.projects[i].member_ids is None {
                        assert(seq![account].no_duplicates());
                    }
                }
            }
        },
        None => {},
    }
}

/// Approving a request of an account that is a member already leaves the
/// member list of the project as it was, and no decision makes an account
/// stand twice in a member list.
pub proof fn lemma_approval_is_idempotent(
    before: StoreView,
    caller: Seq<char>,
    role: Role,
    request: Seq<char>,
    status: Seq<char>,
    at: i64,
)
    requires
        decide_verdict(before, caller, role, request, status) is Ok,
    ensures
        ({
            let decision = decide_verdict(before, caller, role, request, status)->Ok_0;
            let after = carried_out(before, decision, at);
            &&& before.is_member(decision.project_id, decision.requester) ==> after.projects
                == before.projects
            &&& members_listed_once(before) ==> members_listed_once(after)
        }),
{
    let decision = decide_verdict(before, caller, role, request, status)->Ok_0;
    let written = before.with_request_status(decision.request_id, decision.decision, at);
    lemma_status_written(before, decision.request_id, decision.decision, at);
    if decision.decision == JoinRequestStatus::Approved {
        let with_member = written.with_member(decision.project_id, decision.requester);
        lemma_membership_written(with_member, decision.requester, decision.project_id);
        assert(written.project(decision.project_id) == before.project(decision.project_id));
        if before.is_member(decision.project_id, decision.requester) {
            lemma_readding_member_changes_nothing(
                written,
                decision.project_id,
                decision.requester,
            );
        }
        if members_listed_once(before) {
            assert(members_listed_once(written));
            lemma_member_added_once(written, decision.project_id, decision.requester);
        }
    }
}

/// Join requests are listed and decided only for the lead of the project and
/// for administrators. Any other caller is turned away as forbidden, members
/// of the project included.
pub proof fn lemma_only_managers_pass(
    store: StoreView,
    caller: Seq<char>,
    role: Role,
    project: Seq<char>,
    request: Seq<char>,
    status: Seq<char>,
)
    ensures
        list_verdict(store, caller, role, project) matches Ok(id) ==> manages(
            store.project(id)->0,
            DocId::parsed(caller)->0,
            role,
        ),
        decide_verdict(store, caller, role, request, status) matches Ok(decision) ==> manages(
            store.project(decision.project_id)->0,
            DocId::parsed(caller)->0,
            role,
        ),
        DocId::parsed(caller) matches Some(account) && DocId::parsed(project) matches Some(id)
            && store.project(id) matches Some(found) && !found.led_by(account) && role
            != Role::Admin ==> list_verdict(store, caller, role, project) == Err::<
            DocId,
            Rejection,
        >(Rejection::ViewForbidden),
        DocId::parsed(caller) matches Some(account) && DocId::parsed(request) matches Some(id)
            && store.join_request(id) matches Some(found) && store.project(
            found.project_id,
        ) matches Some(target) && !target.led_by(account) && role != Role::Admin
            ==> decide_verdict(store, caller, role, request, status) == Err::<Decision, Rejection>(
            Rejection::ManageForbidden,
        ),
{
}

/// Whether an account lists a project among its memberships.
pub open spec fn lists_project(account: UserView, project: DocId) -> bool {
    match account.project_ids {
        Some(ids) => ids.contains(project),
        None => false,
    }
}

/// The two sides of membership agree: every member that a project lists is an
/// account that lists the project, and every project that an account lists is
/// a project that lists the account.
pub open spec fn memberships_agree(store: StoreView) -> bool {
    &&& forall|i: int, m: DocId|
        0 <= i < store.projects.len() && #[trigger] store.projects[i].has_member(m) ==> {
            &&& store.projects[i].id matches Some(p)
            &&& store.user(m) matches Some(account)
            &&& lists_project(account, p)
        }
    &&& forall|k: int, q: DocId|
        0 <= k < store.users.len() && #[trigger] lists_project(store.users[k], q) ==> {
            &&& store.users[k].id matches Some(a)
            &&& store.project(q) matches Some(project)
            &&& project.has_member(a)
        }
}

/// Where identifiers are unique, the account at a position is the one found
/// under its identifier.
pub proof fn lemma_user_at(store: StoreView, k: int)
    requires
        store.ids_unique(),
        0 <= k < store.users.len(),
        store.users[k].id is Some,
    ensures
        store.user_index(store.users[k].id->0) == Some(k),
        store.user(store.users[k].id->0) == Some(store.users[k]),
{
    let a = store.users[k].id->0;
    let p = |u: UserView| u.id == Some(a);
    assert forall|j: int| 0 <= j < k implies !p(#[trigger] store.users[j]) by {
        assert(store.users[j].id != store.users[k].id);
    }
    lemma_first_index_is(store.users, p, k);
}

/// Where identifiers are unique, the project at a position is the one found
/// under its identifier.
pub proof fn lemma_project_at(store: StoreView, i: int)
    requires
        store.ids_unique(),
        0 <= i < store.projects.len(),
        store.projects[i].id is Some,
    ensures
        store.project_index(store.projects[i].id->0) == Some(i),
        store.project(store.projects[i].id->0) == Some(store.projects[i]),
{
    let a = store.projects[i].id->0;
    let p = |x: ProjectView| x.id == Some(a);
    assert forall|j: int| 0 <= j < i implies !p(#[trigger] store.projects[j]) by {
        assert(store.projects[j].id != store.projects[i].id);
    }
    lemma_first_index_is(store.projects, p, i);
}

/// An account that is found stands at the position that the search gives,
/// under the identifier that was asked for.
pub proof fn lemma_user_found(store: StoreView, a: DocId)
    ensures
        match store.user_index(a) {
            Some(k) => 0 <= k < store.users.len() && store.users[k].id == Some(a) && store.user(a)
                == Some(store.users[k]),
            None => store.user(a) is None,
        },
{
    lemma_first_index(store.users, |u: UserView| u.id == Some(a));
}

/// A project that is found stands at the position that the search gives,
/// under the identifier that was asked for.
pub proof fn lemma_project_found(store: StoreView, p: DocId)
    ensures
        match store.project_index(p) {
            Some(i) => 0 <= i < store.projects.len() && store.projects[i].id == Some(p)
                && store.project(p) == Some(store.projects[i]),
            None => store.project(p) is None,
        },
{
    lemma_first_index(store.projects, |x: ProjectView| x.id == Some(p));
}

/// Making an account a member of a project on both sides keeps the two sides
/// of membership in agreement, where both the project and the account exist.
pub proof fn lemma_joining_keeps_agreement(store: StoreView, project: DocId, account: DocId)
    requires
        store.ids_unique(),
        memberships_agree(store),
        store.project(project) is Some,
        store.user(account) is Some,
    ensures
        store.with_member(project, account).with_membership(account, project).ids_unique(),
        memberships_agree(store.with_member(project, account).with_membership(account, project)),
{
    lemma_project_found(store, project);
    lemma_user_found(store, account);
    let i = store.project_index(project)->0;
    let k = store.user_index(account)->0;
    let mid = store.with_member(project, account);
    assert(mid.users == store.users);
    assert(mid.user_index(account) == Some(k));
    let after = mid.with_membership(account, project);
    let new_project = ProjectView {
        member_ids: added_to_set(store.projects[i].member_ids, account),
        ..store.projects[i]
    };
    let new_account = UserView {
        project_ids: added_to_set(store.users[k].project_ids, project),
        ..store.users[k]
    };
    assert(after.projects == store.projects.update(i, new_project));
    assert(after.users == store.users.update(k, new_account));
    lemma_added_to_set(store.projects[i].member_ids, account);
    lemma_added_to_set(store.users[k].project_ids, project);
    assert forall|a: int, b: int| 0 <= a < b < after.users.len() implies (
    #[trigger] after.users[a]).id != (#[trigger] after.users[b]).id by {
        assert(after.users[a].id == store.users[a].id);
        assert(after.users[b].id == store.users[b].id);
    }
    assert forall|a: int, b: int| 0 <= a < b < after.projects.len() implies (
    #[trigger] after.projects[a]).id != (#[trigger] after.projects[b]).id by {
        assert(after.projects[a].id == store.projects[a].id);
        assert(after.projects[b].id == store.projects[b].id);
    }
    assert(after.join_requests == store.join_requests);
    assert(after.ids_unique());
    assert forall|j: int, m: DocId|
        0 <= j < after.projects.len() && #[trigger] after.projects[j].has_member(m) implies {
        &&& after.projects[j].id matches Some(p)
        &&& after.user(m) matches Some(found)
        &&& lists_project(found, p)
    } by {
        let listed_before = store.projects[j].has_member(m);
        if j != i {
            assert(after.projects[j] == store.projects[j]);
            assert(listed_before);
        }
        if listed_before {
            let p = store.projects[j].id->0;
            lemma_user_found(store, m);
            let km = store.user_index(m)->0;
            assert(after.users[km].id == Some(m));
            lemma_user_at(after, km);
            if km == k {
                assert(lists_project(new_account, p));
            } else {
                assert(after.users[km] == store.users[km]);
            }
        } else {
            assert(j == i);
            assert(m == account);
            assert(after.users[k].id == Some(account));
            lemma_user_at(after, k);
        }
    }
    assert forall|j: int, q: DocId|
        0 <= j < after.users.len() && #[trigger] lists_project(after.users[j], q) implies {
        &&& after.users[j].id matches Some(a)
        &&& after.project(q) matches Some(found)
        &&& found.has_member(a)
    } by {
        let listed_before = lists_project(store.users[j], q);
        if j != k {
            assert(after.users[j] == store.users[j]);
            assert(listed_before);
        }
        if listed_before {
            let a = store.users[j].id->0;
            lemma_project_found(store, q);
            let iq = store.project_index(q)->0;
            assert(after.projects[iq].id == Some(q));
            lemma_project_at(after, iq);
            if iq == i {
                assert(new_project.has_member(a));
            } else {
                assert(after.projects[iq] == store.projects[iq]);
            }
        } else {
            assert(j == k);
            assert(q == project);
            assert(after.projects[i].id == Some(project));
            lemma_project_at(after, i);
        }
    }
}

/// Filing a join request touches neither side of membership.
pub proof fn lemma_create_keeps_agreement(
    before: StoreView,
    exhausted: bool,
    caller: Seq<char>,
    project: Seq<char>,
    message: Seq<char>,
    after: StoreView,
    outcome: Outcome,
)
    requires
        created(before, exhausted, caller, project, message, after, outcome),
    ensures
        after.users == before.users,
        after.projects == before.projects,
        memberships_agree(before) ==> memberships_agree(after),
{
    assert forall|a: DocId| after.user(a) == before.user(a) by {}
    assert forall|q: DocId| after.project(q) == before.project(q) by {}
}

/// A decision keeps the two sides of membership in agreement. An approval
/// does so where the account that asked to join still exists.
pub proof fn lemma_decision_keeps_agreement(
    before: StoreView,
    caller: Seq<char>,
    role: Role,
    request: Seq<char>,
    status: Seq<char>,
    at: i64,
)
    requires
        before.ids_unique(),
        memberships_agree(before),
        decide_verdict(before, caller, role, request, status) matches Ok(decision) && (
        decision.decision == JoinRequestStatus::Approved ==> before.user(decision.requester)
            is Some),
    ensures
        memberships_agree(
            carried_out(before, decide_verdict(before, caller, role, request, status)->Ok_0, at),
        ),
{
    let decision = decide_verdict(before, caller, role, request, status)->Ok_0;
    let written = before.with_request_status(decision.request_id, decision.decision, at);
    lemma_status_written(before, decision.request_id, decision.decision, at);
    assert(written.users == before.users);
    assert(written.projects == before.projects);
    assert(memberships_agree(written)) by {
        assert forall|a: DocId| written.user(a) == before.user(a) by {}
        assert forall|q: DocId| written.project(q) == before.project(q) by {}
    }
    if decision.decision == JoinRequestStatus::Approved {
        let same_ids = StoreView {
            users: before.users,
            projects: before.projects,
            join_requests: written.join_requests,
        };
        assert(same_ids == written);
        assert(written.ids_unique()) by {
            lemma_request_ids_kept(before, decision.request_id, decision.decision, at);
        }
        lemma_joining_keeps_agreement(written, decision.project_id, decision.requester);
    }
}

/// Writing the status of a join request keeps identifiers unique.
pub proof fn lemma_request_ids_kept(store: StoreView, id: DocId, status: JoinRequestStatus, at: i64)
    requires
        store.ids_unique(),
    ensures
        store.with_request_status(id, status, at).ids_unique(),
{
    lemma_first_index(store.join_requests, |x: ProjectJoinRequestView| x.id == Some(id));
    let after = store.with_request_status(id, status, at);
    assert forall|a: int, b: int| 0 <= a < b < after.join_requests.len() implies (
    #[trigger] after.join_requests[a]).id != (#[trigger] after.join_requests[b]).id by {
        assert(after.join_requests[a].id == store.join_requests[a].id);
        assert(after.join_requests[b].id == store.join_requests[b].id);
    }
}

/// Pulling from a list: the item is gone from the list afterwards, and
/// exactly the other items stay.
pub proof fn lemma_pulled(list: Option<Seq<DocId>>, item: DocId)
    ensures
        match (list, pulled(list, item)) {
            (Some(old_ids), Some(ids)) => {
                &&& !ids.contains(item)
                &&& forall|x: DocId| ids.contains(x) <==> old_ids.contains(x) && x != item
            },
            (None, None) => true,
            _ => false,
        },
{
    match list {
        Some(old_ids) => {
            let p = other_than(item);
            let ids = old_ids.filter(p);
            assert forall|x: DocId| ids.contains(x) implies old_ids.contains(x) && x != item by {
                old_ids.lemma_filter_contains_rev(p, x);
            }
            assert forall|x: DocId| old_ids.contains(x) && x != item implies ids.contains(x) by {
                let k = choose|k: int| 0 <= k < old_ids.len() && old_ids[k] == x;
                assert(p(old_ids[k]));
                old_ids.lemma_filter_contains(p, k);
            }
            if ids.contains(item) {
                old_ids.lemma_filter_contains_rev(p, item);
            }
        },
        None => {},
    }
}

/// After a removal the project does not list the account, and the account
/// does not list the project.
pub proof fn lemma_removal_removes_both(
    before: StoreView,
    project: DocId,
    account: DocId,
    first: Seq<char>,
    second: Seq<char>,
)
    requires
        before.project(project) is Some,
    ensures
        !taken_out(before, project, account, first, second).is_member(project, account),
        !taken_out(before, project, account, first, second).has_membership(account, project),
{
    lemma_project_found(before, project);
    lemma_user_found(before, account);
    let i = before.project_index(project)->0;
    let mid = before.without_member(project, account, first);
    let after = mid.without_membership(account, project, second);
    lemma_pulled(before.projects[i].member_ids, account);
    assert(mid.users == before.users);
    assert(after.projects == mid.projects);
    let p = |x: ProjectView| x.id == Some(project);
    lemma_first_index(before.projects, p);
    assert forall|j: int| 0 <= j < i implies !p(#[trigger] after.projects[j]) by {
        assert(after.projects[j] == before.projects[j]);
    }
    lemma_first_index_is(after.projects, p, i);
    match before.user_index(account) {
        Some(k) => {
            lemma_pulled(before.users[k].project_ids, project);
            let q = |x: UserView| x.id == Some(account);
            lemma_first_index(before.users, q);
            assert forall|j: int| 0 <= j < k implies !q(#[trigger] after.users[j]) by {
                assert(after.users[j] == before.users[j]);
            }
            lemma_first_index_is(after.users, q, k);
            let ids = after.users[k].project_ids;
            if ids is Some {
                assert(ids->0.to_set().contains(project) == ids->0.contains(project));
            }
        },
        None => {
            assert(after.users == before.users);
        },
    }
}

/// Taking an account out of a project on both sides keeps the two sides of
/// membership in agreement.
pub proof fn lemma_removal_keeps_agreement(
    store: StoreView,
    project: DocId,
    account: DocId,
    first: Seq<char>,
    second: Seq<char>,
)
    requires
        store.ids_unique(),
        memberships_agree(store),
        store.project(project) is Some,
    ensures
        taken_out(store, project, account, first, second).ids_unique(),
        memberships_agree(taken_out(store, project, account, first, second)),
{
    lemma_project_found(store, project);
    lemma_user_found(store, account);
    let i = store.project_index(project)->0;
    let mid = store.without_member(project, account, first);
    assert(mid.users == store.users);
    assert(mid.user_index(account) == store.user_index(account));
    let after = mid.without_membership(account, project, second);
    let new_project = ProjectView {
        member_ids: pulled(store.projects[i].member_ids, account),
        updated_at: first,
        ..store.projects[i]
    };
    assert(after.projects == store.projects.update(i, new_project));
    lemma_pulled(store.projects[i].member_ids, account);
    let k = match store.user_index(account) {
        Some(k) => k,
        None => -1,
    };
    if k >= 0 {
        lemma_pulled(store.users[k].project_ids, project);
        assert(after.users == store.users.update(
            k,
            UserView {
                project_ids: pulled(store.users[k].project_ids, project),
                updated_at: second,
                ..store.users[k]
            },
        ));
    } else {
        assert(after.users == store.users);
    }
    assert forall|a: int, b: int| 0 <= a < b < after.users.len() implies (
    #[trigger] after.users[a]).id != (#[trigger] after.users[b]).id by {
        assert(after.users[a].id == store.users[a].id);
        assert(after.users[b].id == store.users[b].id);
    }
    assert forall|a: int, b: int| 0 <= a < b < after.projects.len() implies (
    #[trigger] after.projects[a]).id != (#[trigger] after.projects[b]).id by {
        assert(after.projects[a].id == store.projects[a].id);
        assert(after.projects[b].id == store.projects[b].id);
    }
    assert(after.join_requests == store.join_requests);
    assert(after.ids_unique());
    assert forall|j: int, m: DocId|
        0 <= j < after.projects.len() && #[trigger] after.projects[j].has_member(m) implies {
        &&& after.projects[j].id matches Some(p)
        &&& after.user(m) matches Some(found)
        &&& lists_project(found, p)
    } by {
        if j != i {
            assert(after.projects[j] == store.projects[j]);
        }
        assert(store.projects[j].has_member(m));
        let p = store.projects[j].id->0;
        lemma_user_found(store, m);
        let km = store.user_index(m)->0;
        assert(after.users[km].id == Some(m));
        lemma_user_at(after, km);
        if km == k {
            assert(m == account);
            assert(j != i);
            assert(store.projects[j].id != store.projects[i].id);
            assert(p != project);
        } else {
            assert(after.users[km] == store.users[km]);
        }
    }
    assert forall|j: int, q: DocId|
        0 <= j < after.users.len() && #[trigger] lists_project(after.users[j], q) implies {
        &&& after.users[j].id matches Some(a)
        &&& after.project(q) matches Some(found)
        &&& found.has_member(a)
    } by {
        if j != k {
            assert(after.users[j] == store.users[j]);
        }
        assert(lists_project(store.users[j], q));
        let a = store.users[j].id->0;
        lemma_project_found(store, q);
        let iq = store.project_index(q)->0;
        assert(after.projects[iq].id == Some(q));
        lemma_project_at(after, iq);
        if iq == i {
            assert(q == project);
            if j == k {
                assert(false);
            } else {
                if k >= 0 {
                    assert(store.users[j].id != store.users[k].id);
                } else {
                    assert(store.user(account) is None);
                    if a == account {
                        lemma_user_at(store, j);
                    }
                }
                assert(a != account);
            }
        } else {
            assert(after.projects[iq] == store.projects[iq]);
        }
    }
}

/// Only the lead of a project and administrators remove its members.
pub proof fn lemma_only_managers_remove(
    store: StoreView,
    caller: Seq<char>,
    role: Role,
    project: Seq<char>,
    member: Seq<char>,
)
    ensures
        removal_verdict(store, caller, role, project, member) matches Ok(target) ==> manages(
            store.project(target.0)->0,
            DocId::parsed(caller)->0,
            role,
        ),
{
}

} // verus!
