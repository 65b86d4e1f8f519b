//! The document store as the rules see it.
//!
//! The server keeps its records in a document store that it reaches over the
//! network. The rules of this library only rely on a few things of it: records
//! are found by identifier or by equality on a field, the first match wins,
//! each write touches one record, and adding to a list field adds nothing
//! that is already there. [`StoreView`] states that behaviour, and
//! [`MemoryStore`] is a store that has it, for tests and for running the
//! rules without the network.

use crate::ids::{DocId, ID_LIMIT};
use crate::models::project::{Project, ProjectView};
use crate::models::project_join_request::{
    JoinRequestStatus, ProjectJoinRequest, ProjectJoinRequestView,
};
use crate::models::user::{ids_view, Role, User, UserView};
use crate::protocol::{Effect, Reply};
use crate::seqs::{
    first_index, first_match, is_first, lemma_first_index, lemma_first_index_is,
    lemma_first_index_none,
};
use crate::text::str_eq;
use vstd::prelude::*;

verus! {

/// A list field after `item` was added to it as to a set: a list that holds
/// the item is left alone, any other gets it at the end, and a field that was
/// absent becomes a list of the one item.
pub open spec fn added_to_set(list: Option<Seq<DocId>>, item: DocId) -> Option<Seq<DocId>> {
    match list {
        Some(ids) => if ids.contains(item) {
            Some(ids)
        } else {
            Some(ids.push(item))
        },
        None => Some(seq![item]),
    }
}

/// The property of being another identifier than `item`.
pub open spec fn other_than(item: DocId) -> spec_fn(DocId) -> bool {
    |x: DocId| x != item
}

/// A list field after `item` was pulled from it: every occurrence of the item
/// is gone, the rest stays in order, and a field that was absent stays absent.
pub open spec fn pulled(list: Option<Seq<DocId>>, item: DocId) -> Option<Seq<DocId>> {
    match list {
        Some(ids) => Some(ids.filter(other_than(item))),
        None => None,
    }
}

/// The contents of the store.
pub struct StoreView {
    pub users: Seq<UserView>,
    pub projects: Seq<ProjectView>,
    pub join_requests: Seq<ProjectJoinRequestView>,
}

impl StoreView {
    /// The position of the account with the given identifier.
    pub open spec fn user_index(self, id: DocId) -> Option<int> {
        first_index(self.users, |u: UserView| u.id == Some(id))
    }

    /// The account with the given identifier.
    pub open spec fn user(self, id: DocId) -> Option<UserView> {
        first_match(self.users, |u: UserView| u.id == Some(id))
    }

    /// The first account with the given email.
    pub open spec fn user_by_email(self, email: Seq<char>) -> Option<UserView> {
        first_match(self.users, |u: UserView| u.email == email)
    }

    /// The position of the project with the given identifier.
    pub open spec fn project_index(self, id: DocId) -> Option<int> {
        first_index(self.projects, |p: ProjectView| p.id == Some(id))
    }

    /// The project with the given identifier.
    pub open spec fn project(self, id: DocId) -> Option<ProjectView> {
        first_match(self.projects, |p: ProjectView| p.id == Some(id))
    }

    /// The position of the join request with the given identifier.
    pub open spec fn join_request_index(self, id: DocId) -> Option<int> {
        first_index(self.join_requests, |r: ProjectJoinRequestView| r.id == Some(id))
    }

    /// The join request with the given identifier.
    pub open spec fn join_request(self, id: DocId) -> Option<ProjectJoinRequestView> {
        first_match(self.join_requests, |r: ProjectJoinRequestView| r.id == Some(id))
    }

    /// The first pending request of `account` to join `project`.
    pub open spec fn pending_request(self, project: DocId, account: DocId) -> Option<
        ProjectJoinRequestView,
    > {
        first_match(
            self.join_requests,
            |r: ProjectJoinRequestView| r.pending_for(project, account),
        )
    }

    /// The pending requests to join `project`, in the order of the store.
    pub open spec fn pending_requests(self, project: DocId) -> Seq<ProjectJoinRequestView> {
        self.join_requests.filter(|r: ProjectJoinRequestView| r.pending_in(project))
    }

    /// Whether `account` is listed as a member of `project`.
    pub open spec fn is_member(self, project: DocId, account: DocId) -> bool {
        self.project(project) matches Some(p) && p.has_member(account)
    }

    /// Whether `project` is listed among the memberships of `account`.
    pub open spec fn has_membership(self, account: DocId, project: DocId) -> bool {
        self.user(account) matches Some(u) && u.memberships().contains(project)
    }

    /// No two records of a collection share an identifier.
    pub open spec fn ids_unique(self) -> bool {
        &&& forall|i: int, j: int|
            0 <= i < j < self.users.len() ==> (#[trigger] self.users[i]).id != (
            #[trigger] self.users[j]).id
        &&& forall|i: int, j: int|
            0 <= i < j < self.projects.len() ==> (#[trigger] self.projects[i]).id != (
            #[trigger] self.projects[j]).id
        &&& forall|i: int, j: int|
            0 <= i < j < self.join_requests.len() ==> (#[trigger] self.join_requests[i]).id != (
            #[trigger] self.join_requests[j]).id
    }

    /// The store after `account` was added to the member list of `project`:
    /// unchanged where there is no such project.
    pub open spec fn with_member(self, project: DocId, account: DocId) -> StoreView {
        match self.project_index(project) {
            Some(i) => StoreView {
                projects: self.projects.update(
                    i,
                    ProjectView {
                        member_ids: added_to_set(self.projects[i].member_ids, account),
                        ..self.projects[i]
                    },
                ),
                ..self
            },
            None => self,
        }
    }

    /// The store after `project` was added to the memberships of `account`:
    /// unchanged where there is no such account.
    pub open spec fn with_membership(self, account: DocId, project: DocId) -> StoreView {
        match self.user_index(account) {
            Some(i) => StoreView {
                users: self.users.update(
                    i,
                    UserView {
                        project_ids: added_to_set(self.users[i].project_ids, project),
                        ..self.users[i]
                    },
                ),
                ..self
            },
            None => self,
        }
    }

    /// The store after `account` was pulled from the member list of `project`
    /// at the time `at`: unchanged where there is no such project.
    pub open spec fn without_member(self, project: DocId, account: DocId, at: Seq<char>) -> StoreView {
        match self.project_index(project) {
            Some(i) => StoreView {
                projects: self.projects.update(
                    i,
                    ProjectView {
                        member_ids: pulled(self.projects[i].member_ids, account),
                        updated_at: at,
                        ..self.projects[i]
                    },
                ),
                ..self
            },
            None => self,
        }
    }

    /// The store after `project` was pulled from the memberships of `account`
    /// at the time `at`: unchanged where there is no such account.
    pub open spec fn without_membership(
        self,
        account: DocId,
        project: DocId,
        at: Seq<char>,
    ) -> StoreView {
        match self.user_index(account) {
            Some(i) => StoreView {
                users: self.users.update(
                    i,
                    UserView {
                        project_ids: pulled(self.users[i].project_ids, project),
                        updated_at: at,
                        ..self.users[i]
                    },
                ),
                ..self
            },
            None => self,
        }
    }

    /// The store after the status of a join request was written: unchanged
    /// where there is no such request.
    pub open spec fn with_request_status(
        self,
        id: DocId,
        status: JoinRequestStatus,
        at: i64,
    ) -> StoreView {
        match self.join_request_index(id) {
            Some(i) => StoreView {
                join_requests: self.join_requests.update(
                    i,
                    ProjectJoinRequestView { status: status, updated_at: at, ..self.join_requests[i] },
                ),
                ..self
            },
            None => self,
        }
    }

    /// The store after the role of an account was written: unchanged where
    /// there is no such account.
    pub open spec fn with_role(self, id: DocId, role: Role) -> StoreView {
        match self.user_index(id) {
            Some(i) => StoreView {
                users: self.users.update(i, UserView { role: role, ..self.users[i] }),
                ..self
            },
            None => self,
        }
    }

    /// The store after the lead of a project was appointed: unchanged where
    /// there is no such project.
    pub open spec fn with_lead(self, project: DocId, lead: DocId) -> StoreView {
        match self.project_index(project) {
            Some(i) => StoreView {
                projects: self.projects.update(
                    i,
                    ProjectView { project_lead_id: Some(lead), ..self.projects[i] },
                ),
                ..self
            },
            None => self,
        }
    }
}

/// The views of a list of accounts.
pub open spec fn users_view(users: Seq<User>) -> Seq<UserView> {
    users.map_values(|u: User| u@)
}

/// The views of a list of projects.
pub open spec fn projects_view(projects: Seq<Project>) -> Seq<ProjectView> {
    projects.map_values(|p: Project| p@)
}

/// The views of a list of join requests.
pub open spec fn requests_view(requests: Seq<ProjectJoinRequest>) -> Seq<ProjectJoinRequestView> {
    requests.map_values(|r: ProjectJoinRequest| r@)
}

/// The view of an account that may be absent.
pub open spec fn user_view(user: Option<User>) -> Option<UserView> {
    match user {
        Some(u) => Some(u@),
        None => None,
    }
}

/// The view of a project that may be absent.
pub open spec fn project_view(project: Option<Project>) -> Option<ProjectView> {
    match project {
        Some(p) => Some(p@),
        None => None,
    }
}

/// The view of a join request that may be absent.
pub open spec fn request_view(request: Option<ProjectJoinRequest>) -> Option<
    ProjectJoinRequestView,
> {
    match request {
        Some(r) => Some(r@),
        None => None,
    }
}

/// Whether a record carries an identifier whose number is below `next`.
pub open spec fn assigned_below(id: Option<DocId>, next: u128) -> bool {
    match id {
        Some(x) => x.number() < next,
        None => false,
    }
}

/// A store held in memory.
pub struct MemoryStore {
    users: Vec<User>,
    projects: Vec<Project>,
    join_requests: Vec<ProjectJoinRequest>,
    /// The number of the next identifier to hand out.
    next_id: u128,
}

impl View for MemoryStore {
    type V = StoreView;

    closed spec fn view(&self) -> StoreView {
        StoreView {
            users: users_view(self.users@),
            projects: projects_view(self.projects@),
            join_requests: requests_view(self.join_requests@),
        }
    }
}

impl MemoryStore {
    /// Every stored record has an identifier below the next one to hand out,
    /// and no two records of a collection share one.
    pub closed spec fn wf(&self) -> bool {
        &&& self.next_id <= ID_LIMIT
        &&& forall|i: int|
            0 <= i < self.users@.len() ==> assigned_below((#[trigger] self.users@[i]).id, self.next_id)
        &&& forall|i: int|
            0 <= i < self.projects@.len() ==> assigned_below(
                (#[trigger] self.projects@[i]).id,
                self.next_id,
            )
        &&& forall|i: int|
            0 <= i < self.join_requests@.len() ==> assigned_below(
                (#[trigger] self.join_requests@[i]).id,
                self.next_id,
            )
        &&& self@.ids_unique()
    }

    /// In a well-formed store every record carries an identifier, and no two
    /// records of a collection share one.
    pub proof fn lemma_wf_ids(&self)
        requires
            self.wf(),
        ensures
            self@.ids_unique(),
            forall|i: int| 0 <= i < self@.users.len() ==> (#[trigger] self@.users[i]).id is Some,
            forall|i: int| 0 <= i < self@.projects.len() ==> (#[trigger] self@.projects[i]).id is Some,
            forall|i: int|
                0 <= i < self@.join_requests.len() ==> (#[trigger] self@.join_requests[i]).id is Some,
    {
        assert forall|i: int| 0 <= i < self@.users.len() implies (#[trigger] self@.users[i]).id is Some by {
            assert(self@.users[i] == self.users@[i]@);
            assert(assigned_below(self.users@[i].id, self.next_id));
        }
        assert forall|i: int| 0 <= i < self@.projects.len() implies (
        #[trigger] self@.projects[i]).id is Some by {
            assert(self@.projects[i] == self.projects@[i]@);
            assert(assigned_below(self.projects@[i].id, self.next_id));
        }
        assert forall|i: int| 0 <= i < self@.join_requests.len() implies (
        #[trigger] self@.join_requests[i]).id is Some by {
            assert(self@.join_requests[i] == self.join_requests@[i]@);
            assert(assigned_below(self.join_requests@[i].id, self.next_id));
        }
    }

    /// No more identifiers can be handed out.
    pub closed spec fn exhausted(&self) -> bool {
        self.next_id >= ID_LIMIT
    }

    /// An empty store.
    pub fn new() -> (r: MemoryStore)
        ensures
            r.wf(),
            !r.exhausted(),
            r@.users.len() == 0,
            r@.projects.len() == 0,
            r@.join_requests.len() == 0,
    {
        MemoryStore {
            users: Vec::new(),
            projects: Vec::new(),
            join_requests: Vec::new(),
            next_id: 1,
        }
    }

    /// The position of the account with the given identifier.
    fn user_position(&self, id: DocId) -> (r: Option<usize>)
        ensures
            match r {
                Some(i) => self@.user_index(id) == Some(i as int) && i < self.users@.len(),
                None => self@.user_index(id) is None,
            },
    {
        let mut i: usize = 0;
        while i < self.users.len()
            invariant
                i <= self.users@.len(),
                forall|j: int| 0 <= j < i ==> (#[trigger] self.users@[j]).id != Some(id),
            decreases self.users@.len() - i,
        {
            let hit = match self.users[i].id {
                Some(x) => x == id,
                None => false,
            };
            if hit {
                proof {
                    let p = |u: UserView| u.id == Some(id);
                    assert forall|j: int| 0 <= j < i implies !p(#[trigger] self@.users[j]) by {
                        assert(self@.users[j] == self.users@[j]@);
                    }
                    assert(self@.users[i as int] == self.users@[i as int]@);
                    lemma_first_index_is(self@.users, p, i as int);
                }
                return Some(i);
            }
            i += 1;
        }
        proof {
            let p = |u: UserView| u.id == Some(id);
            assert forall|j: int| 0 <= j < self@.users.len() implies !p(#[trigger] self@.users[j]) by {
                assert(self@.users[j] == self.users@[j]@);
            }
            lemma_first_index_none(self@.users, p);
        }
        None
    }

    /// The position of the project with the given identifier.
    fn project_position(&self, id: DocId) -> (r: Option<usize>)
        ensures
            match r {
                Some(i) => self@.project_index(id) == Some(i as int) && i < self.projects@.len(),
                None => self@.project_index(id) is None,
            },
    {
        let mut i: usize = 0;
        while i < self.projects.len()
            invariant
                i <= self.projects@.len(),
                forall|j: int| 0 <= j < i ==> (#[trigger] self.projects@[j]).id != Some(id),
            decreases self.projects@.len() - i,
        {
            let hit = match self.projects[i].id {
                Some(x) => x == id,
                None => false,
            };
            if hit {
                proof {
                    let p = |x: ProjectView| x.id == Some(id);
                    assert forall|j: int| 0 <= j < i implies !p(#[trigger] self@.projects[j]) by {
                        assert(self@.projects[j] == self.projects@[j]@);
                    }
                    assert(self@.projects[i as int] == self.projects@[i as int]@);
                    lemma_first_index_is(self@.projects, p, i as int);
                }
                return Some(i);
            }
            i += 1;
        }
        proof {
            let p = |x: ProjectView| x.id == Some(id);
            assert forall|j: int| 0 <= j < self@.projects.len() implies !p(#[trigger] self@.projects[j]) by {
                assert(self@.projects[j] == self.projects@[j]@);
            }
            lemma_first_index_none(self@.projects, p);
        }
        None
    }

    /// The position of the join request with the given identifier.
    fn join_request_position(&self, id: DocId) -> (r: Option<usize>)
        ensures
            match r {
                Some(i) => self@.join_request_index(id) == Some(i as int) && i
                    < self.join_requests@.len(),
                None => self@.join_request_index(id) is None,
            },
    {
        let mut i: usize = 0;
        while i < self.join_requests.len()
            invariant
                i <= self.join_requests@.len(),
                forall|j: int| 0 <= j < i ==> (#[trigger] self.join_requests@[j]).id != Some(id),
            decreases self.join_requests@.len() - i,
        {
            let hit = match self.join_requests[i].id {
                Some(x) => x == id,
                None => false,
            };
            if hit {
                proof {
                    let p = |x: ProjectJoinRequestView| x.id == Some(id);
                    assert forall|j: int| 0 <= j < i implies !p(#[trigger] self@.join_requests[j]) by {
                        assert(self@.join_requests[j] == self.join_requests@[j]@);
                    }
                    assert(self@.join_requests[i as int] == self.join_requests@[i as int]@);
                    lemma_first_index_is(self@.join_requests, p, i as int);
                }
                return Some(i);
            }
            i += 1;
        }
        proof {
            let p = |x: ProjectJoinRequestView| x.id == Some(id);
            assert forall|j: int| 0 <= j < self@.join_requests.len() implies !p(#[trigger] self@.join_requests[j]) by {
                assert(self@.join_requests[j] == self.join_requests@[j]@);
            }
            lemma_first_index_none(self@.join_requests, p);
        }
        None
    }

    /// The account with the given identifier.
    pub fn find_user(&self, id: DocId) -> (r: Option<User>)
        ensures
            user_view(r) == self@.user(id),
    {
        match self.user_position(id) {
            Some(i) => Some(self.users[i].clone()),
            None => None,
        }
    }

    /// The project with the given identifier.
    pub fn find_project(&self, id: DocId) -> (r: Option<Project>)
        ensures
            project_view(r) == self@.project(id),
    {
        match self.project_position(id) {
            Some(i) => Some(self.projects[i].clone()),
            None => None,
        }
    }

    /// The join request with the given identifier.
    pub fn find_join_request(&self, id: DocId) -> (r: Option<ProjectJoinRequest>)
        ensures
            request_view(r) == self@.join_request(id),
    {
        match self.join_request_position(id) {
            Some(i) => Some(self.join_requests[i].clone()),
            None => None,
        }
    }

    /// The first account with the given email.
    pub fn find_user_by_email(&self, email: &str) -> (r: Option<User>)
        ensures
            user_view(r) == self@.user_by_email(email@),
    {
        let mut i: usize = 0;
        while i < self.users.len()
            invariant
                i <= self.users@.len(),
                forall|j: int| 0 <= j < i ==> (#[trigger] self.users@[j]).email@ != email@,
            decreases self.users@.len() - i,
        {
            if str_eq(self.users[i].email.as_str(), email) {
                proof {
                    let p = |u: UserView| u.email == email@;
                    assert forall|j: int| 0 <= j < i implies !p(#[trigger] self@.users[j]) by {
                        assert(self@.users[j] == self.users@[j]@);
                    }
                    assert(self@.users[i as int] == self.users@[i as int]@);
                    lemma_first_index_is(self@.users, p, i as int);
                }
                return Some(self.users[i].clone());
            }
            i += 1;
        }
        proof {
            let p = |u: UserView| u.email == email@;
            assert forall|j: int| 0 <= j < self@.users.len() implies !p(#[trigger] self@.users[j]) by {
                assert(self@.users[j] == self.users@[j]@);
            }
            lemma_first_index_none(self@.users, p);
        }
        None
    }

    /// The first pending request of `account` to join `project`.
    pub fn find_pending_join_request(&self, project: DocId, account: DocId) -> (r: Option<
        ProjectJoinRequest,
    >)
        ensures
            request_view(r) == self@.pending_request(project, account),
    {
        let mut i: usize = 0;
        while i < self.join_requests.len()
            invariant
                i <= self.join_requests@.len(),
                forall|j: int|
                    0 <= j < i ==> !(#[trigger] self.join_requests@[j])@.pending_for(
                        project,
                        account,
                    ),
            decreases self.join_requests@.len() - i,
        {
            let r = &self.join_requests[i];
            if r.project_id == project && r.user_id == account && r.status.is_pending() {
                proof {
                    let p = |x: ProjectJoinRequestView| x.pending_for(project, account);
                    assert forall|j: int| 0 <= j < i implies !p(
                        #[trigger] self@.join_requests[j],
                    ) by {
                        assert(self@.join_requests[j] == self.join_requests@[j]@);
                    }
                    assert(self@.join_requests[i as int] == self.join_requests@[i as int]@);
                    lemma_first_index_is(self@.join_requests, p, i as int);
                }
                return Some(self.join_requests[i].clone());
            }
            i += 1;
        }
        proof {
            let p = |x: ProjectJoinRequestView| x.pending_for(project, account);
            assert forall|j: int| 0 <= j < self@.join_requests.len() implies !p(
                #[trigger] self@.join_requests[j],
            ) by {
                assert(self@.join_requests[j] == self.join_requests@[j]@);
            }
            lemma_first_index_none(self@.join_requests, p);
        }
        None
    }

    /// The pending requests to join `project`, in the order of the store.
    pub fn pending_join_requests(&self, project: DocId) -> (r: Vec<ProjectJoinRequest>)
        ensures
            requests_view(r@) == self@.pending_requests(project),
    {
        let mut out: Vec<ProjectJoinRequest> = Vec::new();
        let mut i: usize = 0;
        proof {
            let p = |x: ProjectJoinRequestView| x.pending_in(project);
            assert(self@.join_requests.take(0) =~= Seq::empty());
            reveal(Seq::filter);
            assert(requests_view(out@) =~= self@.join_requests.take(0).filter(p));
        }
        while i < self.join_requests.len()
            invariant
                i <= self.join_requests@.len(),
                requests_view(out@) == self@.join_requests.take(i as int).filter(
                    |x: ProjectJoinRequestView| x.pending_in(project),
                ),
            decreases self.join_requests@.len() - i,
        {
            let r = &self.join_requests[i];
            let ghost before = out@;
            let hit = r.project_id == project && r.status.is_pending();
            if hit {
                out.push(self.join_requests[i].clone());
            }
            proof {
                let p = |x: ProjectJoinRequestView| x.pending_in(project);
                let all = self@.join_requests;
                assert(all[i as int] == self.join_requests@[i as int]@);
                assert(all.take(i as int + 1) =~= all.take(i as int).push(all[i as int]));
                all.take(i as int).lemma_filter_push(all[i as int], p);
                if hit {
                    assert(requests_view(out@) =~= requests_view(before).push(all[i as int]));
                }
            }
            i += 1;
        }
        proof {
            assert(self@.join_requests.take(i as int) =~= self@.join_requests);
        }
        out
    }

    /// Adds an account. One that carries no identifier is given an unused one; one
    /// that carries an identifier is refused where the identifier is taken.
    /// Returns the identifier under which the record is stored.
    pub fn insert_user(&mut self, record: User) -> (r: Option<DocId>)
        requires
            old(self).wf(),
        ensures
            final(self).wf(),
            match r {
                Some(id) => {
                    &&& old(self)@.user(id) is None
                    &&& record.id matches Some(x) ==> x == id
                    &&& record.id is None ==> !old(self).exhausted()
                    &&& final(self)@ == (StoreView {
                        users: old(self)@.users.push(UserView { id: Some(id), ..record@ }),
                        ..old(self)@
                    })
                },
                None => {
                    &&& final(self)@ == old(self)@
                    &&& match record.id {
                        Some(x) => old(self)@.user(x) is Some,
                        None => old(self).exhausted(),
                    }
                },
            },
    {
        let id = match record.id {
            Some(x) => {
                if self.user_position(x).is_some() {
                    proof {
                        lemma_first_index(old(self)@.users, |v: UserView| v.id == Some(x));
                    }
                    return None;
                }
                if x.value() >= self.next_id {
                    self.next_id = x.value() + 1;
                }
                x
            },
            None => {
                match DocId::new(self.next_id) {
                    Some(x) => {
                        self.next_id = self.next_id + 1;
                        x
                    },
                    None => {
                        return None;
                    },
                }
            },
        };
        proof {
            let p = |v: UserView| v.id == Some(id);
            lemma_first_index(old(self)@.users, p);
            if old(self)@.user(id) is Some {
                let k = first_index(old(self)@.users, p)->0;
                assert(old(self)@.users[k] == old(self).users@[k]@);
                assert(assigned_below(old(self).users@[k].id, old(self).next_id));
            }
        }
        let mut stored = record;
        stored.id = Some(id);
        self.users.push(stored);
        proof {
            assert(final(self)@.users =~= old(self)@.users.push(
                UserView { id: Some(id), ..record@ },
            ));
        }
        Some(id)
    }

    /// Adds a project. One that carries no identifier is given an unused one; one
    /// that carries an identifier is refused where the identifier is taken.
    /// Returns the identifier under which the record is stored.
    pub fn insert_project(&mut self, record: Project) -> (r: Option<DocId>)
        requires
            old(self).wf(),
        ensures
            final(self).wf(),
            match r {
                Some(id) => {
                    &&& old(self)@.project(id) is None
                    &&& record.id matches Some(x) ==> x == id
                    &&& record.id is None ==> !old(self).exhausted()
                    &&& final(self)@ == (StoreView {
                        projects: old(self)@.projects.push(ProjectView { id: Some(id), ..record@ }),
                        ..old(self)@
                    })
                },
                None => {
                    &&& final(self)@ == old(self)@
                    &&& match record.id {
                        Some(x) => old(self)@.project(x) is Some,
                        None => old(self).exhausted(),
                    }
                },
            },
    {
        let id = match record.id {
            Some(x) => {
                if self.project_position(x).is_some() {
                    proof {
                        lemma_first_index(old(self)@.projects, |v: ProjectView| v.id == Some(x));
                    }
                    return None;
                }
                if x.value() >= self.next_id {
                    self.next_id = x.value() + 1;
                }
                x
            },
            None => {
                match DocId::new(self.next_id) {
                    Some(x) => {
                        self.next_id = self.next_id + 1;
                        x
                    },
                    None => {
                        return None;
                    },
                }
            },
        };
        proof {
            let p = |v: ProjectView| v.id == Some(id);
            lemma_first_index(old(self)@.projects, p);
            if old(self)@.project(id) is Some {
                let k = first_index(old(self)@.projects, p)->0;
                assert(old(self)@.projects[k] == old(self).projects@[k]@);
                assert(assigned_below(old(self).projects@[k].id, old(self).next_id));
            }
        }
        let mut stored = record;
        stored.id = Some(id);
        self.projects.push(stored);
        proof {
            assert(final(self)@.projects =~= old(self)@.projects.push(
                ProjectView { id: Some(id), ..record@ },
            ));
        }
        Some(id)
    }

    /// Adds a join request. One that carries no identifier is given an unused one; one
    /// that carries an identifier is refused where the identifier is taken.
    /// Returns the identifier under which the record is stored.
    pub fn insert_join_request(&mut self, record: ProjectJoinRequest) -> (r: Option<DocId>)
        requires
            old(self).wf(),
        ensures
            final(self).wf(),
            match r {
                Some(id) => {
                    &&& old(self)@.join_request(id) is None
                    &&& record.id matches Some(x) ==> x == id
                    &&& record.id is None ==> !old(self).exhausted()
                    &&& final(self)@ == (StoreView {
                        join_requests: old(self)@.join_requests.push(ProjectJoinRequestView { id: Some(id), ..record@ }),
                        ..old(self)@
                    })
                },
                None => {
                    &&& final(self)@ == old(self)@
                    &&& match record.id {
                        Some(x) => old(self)@.join_request(x) is Some,
                        None => old(self).exhausted(),
                    }
                },
            },
    {
        let id = match record.id {
            Some(x) => {
                if self.join_request_position(x).is_some() {
                    proof {
                        lemma_first_index(old(self)@.join_requests, |v: ProjectJoinRequestView| v.id == Some(x));
                    }
                    return None;
                }
                if x.value() >= self.next_id {
                    self.next_id = x.value() + 1;
                }
                x
            },
            None => {
                match DocId::new(self.next_id) {
                    Some(x) => {
                        self.next_id = self.next_id + 1;
                        x
                    },
                    None => {
                        return None;
                    },
                }
            },
        };
        proof {
            let p = |v: ProjectJoinRequestView| v.id == Some(id);
            lemma_first_index(old(self)@.join_requests, p);
            if old(self)@.join_request(id) is Some {
                let k = first_index(old(self)@.join_requests, p)->0;
                assert(old(self)@.join_requests[k] == old(self).join_requests@[k]@);
                assert(assigned_below(old(self).join_requests@[k].id, old(self).next_id));
            }
        }
        let mut stored = record;
        stored.id = Some(id);
        self.join_requests.push(stored);
        proof {
            assert(final(self)@.join_requests =~= old(self)@.join_requests.push(
                ProjectJoinRequestView { id: Some(id), ..record@ },
            ));
        }
        Some(id)
    }

    /// Writes the status of a join request and the time of the change. Does
    /// nothing where there is no such request.
    pub fn set_join_request_status(&mut self, id: DocId, status: JoinRequestStatus, at: i64)
        requires
            old(self).wf(),
        ensures
            final(self).wf(),
            final(self).exhausted() == old(self).exhausted(),
            final(self)@ == old(self)@.with_request_status(id, status, at),
    {
        match self.join_request_position(id) {
            Some(i) => {
                let mut changed = self.join_requests[i].clone();
                changed.status = status;
                changed.updated_at = at;
                self.join_requests.set(i, changed);
                proof {
                    assert(final(self)@.join_requests =~= old(self)@.join_requests.update(
                        i as int,
                        ProjectJoinRequestView {
                            status: status,
                            updated_at: at,
                            ..old(self)@.join_requests[i as int]
                        },
                    ));
                }
            },
            None => {},
        }
    }

    /// Adds an account to the member list of a project, as to a set. Does
    /// nothing where there is no such project.
    pub fn add_project_member(&mut self, project: DocId, account: DocId)
        requires
            old(self).wf(),
        ensures
            final(self).wf(),
            final(self).exhausted() == old(self).exhausted(),
            final(self)@ == old(self)@.with_member(project, account),
    {
        match self.project_position(project) {
            Some(i) => {
                let mut changed = self.projects[i].clone();
                changed.member_ids = add_to_set(changed.member_ids, account);
                self.projects.set(i, changed);
                proof {
                    assert(final(self)@.projects =~= old(self)@.projects.update(
                        i as int,
                        ProjectView {
                            member_ids: added_to_set(
                                old(self)@.projects[i as int].member_ids,
                                account,
                            ),
                            ..old(self)@.projects[i as int]
                        },
                    ));
                }
            },
            None => {},
        }
    }

    /// Adds a project to the memberships of an account, as to a set. Does
    /// nothing where there is no such account.
    pub fn add_user_project(&mut self, account: DocId, project: DocId)
        requires
            old(self).wf(),
        ensures
            final(self).wf(),
            final(self).exhausted() == old(self).exhausted(),
            final(self)@ == old(self)@.with_membership(account, project),
    {
        match self.user_position(account) {
            Some(i) => {
                let mut changed = self.users[i].clone();
                changed.project_ids = add_to_set(changed.project_ids, project);
                self.users.set(i, changed);
                proof {
                    assert(final(self)@.users =~= old(self)@.users.update(
                        i as int,
                        UserView {
                            project_ids: added_to_set(
                                old(self)@.users[i as int].project_ids,
                                project,
                            ),
                            ..old(self)@.users[i as int]
                        },
                    ));
                }
            },
            None => {},
        }
    }

    /// Pulls an account from the member list of a project and notes the time
    /// of the change. Does nothing where there is no such project.
    pub fn remove_project_member(&mut self, project: DocId, account: DocId, at: String)
        requires
            old(self).wf(),
        ensures
            final(self).wf(),
            final(self).exhausted() == old(self).exhausted(),
            final(self)@ == old(self)@.without_member(project, account, at@),
    {
        match self.project_position(project) {
            Some(i) => {
                let mut changed = self.projects[i].clone();
                changed.member_ids = pull_from(changed.member_ids, account);
                changed.updated_at = at;
                self.projects.set(i, changed);
                proof {
                    assert(final(self)@.projects =~= old(self)@.projects.update(
                        i as int,
                        ProjectView {
                            member_ids: pulled(old(self)@.projects[i as int].member_ids, account),
                            updated_at: at@,
                            ..old(self)@.projects[i as int]
                        },
                    ));
                    assert forall|a: int, b: int|
                        0 <= a < b < final(self)@.projects.len() implies (
                    #[trigger] final(self)@.projects[a]).id != (
                    #[trigger] final(self)@.projects[b]).id by {
                        assert(final(self)@.projects[a].id == old(self)@.projects[a].id);
                        assert(final(self)@.projects[b].id == old(self)@.projects[b].id);
                    }
                }
            },
            None => {},
        }
    }

    /// Pulls a project from the memberships of an account and notes the time
    /// of the change. Does nothing where there is no such account.
    pub fn remove_user_project(&mut self, account: DocId, project: DocId, at: String)
        requires
            old(self).wf(),
        ensures
            final(self).wf(),
            final(self).exhausted() == old(self).exhausted(),
            final(self)@ == old(self)@.without_membership(account, project, at@),
    {
        match self.user_position(account) {
            Some(i) => {
                let mut changed = self.users[i].clone();
                changed.project_ids = pull_from(changed.project_ids, project);
                changed.updated_at = at;
                self.users.set(i, changed);
                proof {
                    assert(final(self)@.users =~= old(self)@.users.update(
                        i as int,
                        UserView {
                            project_ids: pulled(old(self)@.users[i as int].project_ids, project),
                            updated_at: at@,
                            ..old(self)@.users[i as int]
                        },
                    ));
                    assert forall|a: int, b: int|
                        0 <= a < b < final(self)@.users.len() implies (
                    #[trigger] final(self)@.users[a]).id != (#[trigger] final(self)@.users[b]).id by {
                        assert(final(self)@.users[a].id == old(self)@.users[a].id);
                        assert(final(self)@.users[b].id == old(self)@.users[b].id);
                    }
                }
            },
            None => {},
        }
    }

    /// Writes the role of an account. Does nothing where there is no such
    /// account.
    pub fn set_user_role(&mut self, id: DocId, role: Role)
        requires
            old(self).wf(),
        ensures
            final(self).wf(),
            final(self).exhausted() == old(self).exhausted(),
            final(self)@ == old(self)@.with_role(id, role),
    {
        match self.user_position(id) {
            Some(i) => {
                let mut changed = self.users[i].clone();
                changed.role = role;
                self.users.set(i, changed);
                proof {
                    assert(final(self)@.users =~= old(self)@.users.update(
                        i as int,
                        UserView { role: role, ..old(self)@.users[i as int] },
                    ));
                }
            },
            None => {},
        }
    }

    /// Appoints the lead of a project. Does nothing where there is no such
    /// project.
    pub fn set_project_lead(&mut self, project: DocId, lead: DocId)
        requires
            old(self).wf(),
        ensures
            final(self).wf(),
            final(self).exhausted() == old(self).exhausted(),
            final(self)@ == old(self)@.with_lead(project, lead),
    {
        match self.project_position(project) {
            Some(i) => {
                let mut changed = self.projects[i].clone();
                changed.project_lead_id = Some(lead);
                self.projects.set(i, changed);
                proof {
                    assert(final(self)@.projects =~= old(self)@.projects.update(
                        i as int,
                        ProjectView { project_lead_id: Some(lead), ..old(self)@.projects[i as int] },
                    ));
                }
            },
            None => {},
        }
    }
}

/// Pulls every occurrence of `item` from a list field.
pub fn pull_from(list: Option<Vec<DocId>>, item: DocId) -> (r: Option<Vec<DocId>>)
    ensures
        ids_view(r) == pulled(ids_view(list), item),
{
    match list {
        Some(ids) => {
            let mut out: Vec<DocId> = Vec::new();
            let mut i: usize = 0;
            proof {
                reveal(Seq::filter);
                assert(ids@.take(0) =~= Seq::empty());
            }
            while i < ids.len()
                invariant
                    i <= ids@.len(),
                    ids_view(list) == Some(ids@),
                    out@ == ids@.take(i as int).filter(other_than(item)),
                decreases ids@.len() - i,
            {
                proof {
                    assert(ids@.take(i as int + 1) =~= ids@.take(i as int).push(ids@[i as int]));
                    ids@.take(i as int).lemma_filter_push(ids@[i as int], other_than(item));
                }
                if ids[i] != item {
                    out.push(ids[i]);
                }
                i += 1;
            }
            assert(ids@.take(ids@.len() as int) =~= ids@);
            Some(out)
        },
        None => None,
    }
}

/// Adds `item` to a list field as to a set.
pub fn add_to_set(list: Option<Vec<DocId>>, item: DocId) -> (r: Option<Vec<DocId>>)
    ensures
        ids_view(r) == added_to_set(ids_view(list), item),
{
    let ghost before = ids_view(list);
    match list {
        Some(mut ids) => {
            let mut i: usize = 0;
            while i < ids.len()
                invariant
                    i <= ids@.len(),
                    before == Some(ids@),
                    before == ids_view(list),
                    forall|j: int| 0 <= j < i ==> ids@[j] != item,
                decreases ids@.len() - i,
            {
                if ids[i] == item {
                    assert(ids@.contains(item));
                    return Some(ids);
                }
                i += 1;
            }
            assert(!ids@.contains(item));
            ids.push(item);
            Some(ids)
        },
        None => {
            let mut ids: Vec<DocId> = Vec::new();
            ids.push(item);
            assert(ids@ =~= seq![item]);
            Some(ids)
        },
    }
}

/// What the store does when one thing is asked of it, and what it replies.
/// Lookups leave it as it is and reply with what they find. An insert replies
/// with the identifier of the new record, or fails where the identifier is
/// taken or none is left to give. A write to one record goes through whether
/// or not there is such a record. The store knows nothing of the identity
/// provider and fails what is meant for it.
pub open spec fn answered(
    before: StoreView,
    exhausted: bool,
    effect: Effect,
    after: StoreView,
    reply: Reply,
) -> bool {
    match effect {
        Effect::FindUser { id } => {
            &&& after == before
            &&& reply matches Reply::User(found)
            &&& user_view(found) == before.user(id)
        },
        Effect::FindUserByEmail { email } => {
            &&& after == before
            &&& reply matches Reply::User(found)
            &&& user_view(found) == before.user_by_email(email@)
        },
        Effect::FindProject { id } => {
            &&& after == before
            &&& reply matches Reply::Project(found)
            &&& project_view(found) == before.project(id)
        },
        Effect::FindPendingJoinRequest { project_id, user_id } => {
            &&& after == before
            &&& reply matches Reply::JoinRequest(found)
            &&& request_view(found) == before.pending_request(project_id, user_id)
        },
        Effect::FindJoinRequest { id } => {
            &&& after == before
            &&& reply matches Reply::JoinRequest(found)
            &&& request_view(found) == before.join_request(id)
        },
        Effect::ListPendingJoinRequests { project_id } => {
            &&& after == before
            &&& reply matches Reply::JoinRequests(found)
            &&& requests_view(found@) == before.pending_requests(project_id)
        },
        Effect::InsertUser { user } => match reply {
            Reply::Inserted(id) => {
                &&& before.user(id) is None
                &&& user.id matches Some(x) ==> x == id
                &&& user.id is None ==> !exhausted
                &&& after == (StoreView {
                    users: before.users.push(UserView { id: Some(id), ..user@ }),
                    ..before
                })
            },
            Reply::Failed => after == before && match user.id {
                Some(x) => before.user(x) is Some,
                None => exhausted,
            },
            _ => false,
        },
        Effect::InsertJoinRequest { request } => match reply {
            Reply::Inserted(id) => {
                &&& before.join_request(id) is None
                &&& request.id matches Some(x) ==> x == id
                &&& request.id is None ==> !exhausted
                &&& after == (StoreView {
                    join_requests: before.join_requests.push(
                        ProjectJoinRequestView { id: Some(id), ..request@ },
                    ),
                    ..before
                })
            },
            Reply::Failed => after == before && match request.id {
                Some(x) => before.join_request(x) is Some,
                None => exhausted,
            },
            _ => false,
        },
        Effect::SetJoinRequestStatus { id, status, updated_at } => reply == Reply::Updated && after
            == before.with_request_status(id, status, updated_at),
        Effect::AddProjectMember { project_id, user_id } => reply == Reply::Updated && after
            == before.with_member(project_id, user_id),
        Effect::AddUserProject { user_id, project_id } => reply == Reply::Updated && after
            == before.with_membership(user_id, project_id),
        Effect::PullProjectMember { project_id, user_id, updated_at } => reply == Reply::Updated
            && after == before.without_member(project_id, user_id, updated_at@),
        Effect::PullUserProject { user_id, project_id, updated_at } => reply == Reply::Updated
            && after == before.without_membership(user_id, project_id, updated_at@),
        Effect::ExchangeCode { .. } => reply == Reply::Failed && after == before,
        Effect::FetchProfile { .. } => reply == Reply::Failed && after == before,
        Effect::FetchEmails { .. } => reply == Reply::Failed && after == before,
    }
}

impl MemoryStore {
    /// Does what is asked, and replies.
    pub fn answer(&mut self, effect: Effect) -> (reply: Reply)
        requires
            old(self).wf(),
        ensures
            final(self).wf(),
            effect is InsertUser || effect is InsertJoinRequest || final(self).exhausted() == old(
                self,
            ).exhausted(),
            answered(old(self)@, old(self).exhausted(), effect, final(self)@, reply),
    {
        match effect {
            Effect::FindUser { id } => Reply::User(self.find_user(id)),
            Effect::FindUserByEmail { email } => Reply::User(self.find_user_by_email(email.as_str())),
            Effect::FindProject { id } => Reply::Project(self.find_project(id)),
            Effect::FindPendingJoinRequest { project_id, user_id } => Reply::JoinRequest(
                self.find_pending_join_request(project_id, user_id),
            ),
            Effect::FindJoinRequest { id } => Reply::JoinRequest(self.find_join_request(id)),
            Effect::ListPendingJoinRequests { project_id } => Reply::JoinRequests(
                self.pending_join_requests(project_id),
            ),
            Effect::InsertUser { user } => match self.insert_user(user) {
                Some(id) => Reply::Inserted(id),
                None => Reply::Failed,
            },
            Effect::InsertJoinRequest { request } => match self.insert_join_request(request) {
                Some(id) => Reply::Inserted(id),
                None => Reply::Failed,
            },
            Effect::SetJoinRequestStatus { id, status, updated_at } => {
                self.set_join_request_status(id, status, updated_at);
                Reply::Updated
            },
            Effect::AddProjectMember { project_id, user_id } => {
                self.add_project_member(project_id, user_id);
                Reply::Updated
            },
            Effect::AddUserProject { user_id, project_id } => {
                self.add_user_project(user_id, project_id);
                Reply::Updated
            },
            Effect::PullProjectMember { project_id, user_id, updated_at } => {
                self.remove_project_member(project_id, user_id, updated_at);
                Reply::Updated
            },
            Effect::PullUserProject { user_id, project_id, updated_at } => {
                self.remove_user_project(user_id, project_id, updated_at);
                Reply::Updated
            },
            Effect::ExchangeCode { .. } => Reply::Failed,
            Effect::FetchProfile { .. } => Reply::Failed,
            Effect::FetchEmails { .. } => Reply::Failed,
        }
    }
}

} // verus!
