//! Membership as the store sees it.
//!
//! The functions here run a request to its end against a store held in
//! memory, performing each thing the request asks for and handing back the
//! reply. Their contracts say what a request comes to as a whole: which
//! requests are turned away and why, and what is written for the others. The
//! laws of membership are stated and proved over these contracts.

use crate::flow::resume;
use crate::gate::AuthUser;
use crate::ids::DocId;
use crate::members::remove_member_by_lead;
use crate::join_requests::{
    create_join_request, entry_of, filed_request, get_project_join_requests, manages,
    update_join_request_status,
};
use crate::models::project::ProjectView;
use crate::models::project_join_request::{
    entries_view, CreateJoinRequest, JoinRequestEntryView, JoinRequestStatus,
    ProjectJoinRequestView, UpdateJoinRequestStatus,
};
use crate::models::user::{Role, UserView};
use crate::protocol::{Effect, Outcome, Pending, Reply, Step};
use crate::rejection::Rejection;
use crate::seqs::{first_index, first_match, lemma_first_index};
use crate::store::{added_to_set, requests_view, MemoryStore, StoreView};
use vstd::pervasive::unreached;
use vstd::prelude::*;

verus! {

/// Why a request to join a project is turned away, if it is. The checks are
/// made in this order, and the first that fails decides.
pub open spec fn create_verdict(store: StoreView, caller: Seq<char>, project: Seq<char>) -> Option<
    Rejection,
> {
    match DocId::parsed(caller) {
        None => Some(Rejection::InvalidUserId),
        Some(account) => match DocId::parsed(project) {
            None => Some(Rejection::InvalidProjectId),
            Some(id) => match store.project(id) {
                None => Some(Rejection::ProjectNotFound),
                Some(found) => if found.has_member(account) {
                    Some(Rejection::AlreadyMember)
                } else if store.pending_request(id, account) is Some {
                    Some(Rejection::DuplicatePending)
                } else {
                    None
                },
            },
        },
    }
}

/// What filing a join request comes to: a request that is turned away leaves
/// the store as it is; any other adds one pending request of the caller for
/// the project, under an identifier that no request had.
pub open spec fn created(
    before: StoreView,
    exhausted: bool,
    caller: Seq<char>,
    project: Seq<char>,
    message: Seq<char>,
    after: StoreView,
    outcome: Outcome,
) -> bool {
    match create_verdict(before, caller, project) {
        Some(reason) => outcome == Outcome::Rejected(reason) && after == before,
        None => if exhausted {
            outcome == Outcome::Rejected(Rejection::JoinRequestNotSaved) && after == before
        } else {
            &&& outcome matches Outcome::JoinRequestCreated { request_id }
            &&& before.join_request(request_id) is None
            &&& after.join_requests.len() == before.join_requests.len() + 1
            &&& after == (StoreView {
                join_requests: before.join_requests.push(
                    ProjectJoinRequestView {
                        id: Some(request_id),
                        ..filed_request(
                            DocId::parsed(project)->0,
                            DocId::parsed(caller)->0,
                            message,
                            after.join_requests.last().created_at,
                        )
                    },
                ),
                ..before
            })
        },
    }
}

/// Files a request of the caller to join a project.
pub fn create(store: &mut MemoryStore, requester: &AuthUser, payload: CreateJoinRequest) -> (outcome:
    Outcome)
    requires
        old(store).wf(),
    ensures
        final(store).wf(),
        created(
            old(store)@,
            old(store).exhausted(),
            requester.id@,
            payload.project_id@,
            payload.message@,
            final(store)@,
            outcome,
        ),
{
    let (effect, pending) = match create_join_request(requester, payload) {
        Step::Ask(effect, pending) => (effect, pending),
        Step::Done(outcome) => {
            return outcome;
        },
    };
    let reply = store.answer(effect);
    let (effect, pending) = match resume(pending, reply) {
        Step::Ask(effect, pending) => (effect, pending),
        Step::Done(outcome) => {
            return outcome;
        },
    };
    let reply = store.answer(effect);
    let (effect, pending) = match resume(pending, reply) {
        Step::Ask(effect, pending) => (effect, pending),
        Step::Done(outcome) => {
            return outcome;
        },
    };
    let ghost asked = effect;
    let ghost middle = store@;
    let reply = store.answer(effect);
    proof {
        assert(middle == old(store)@);
        if let Reply::Inserted(id) = reply {
            let request = asked->InsertJoinRequest_request;
            let stored = ProjectJoinRequestView { id: Some(id), ..request@ };
            assert(final(store)@.join_requests == middle.join_requests.push(stored));
            assert(final(store)@.join_requests.last() == stored);
        }
    }
    match resume(pending, reply) {
        Step::Done(outcome) => outcome,
        Step::Ask(..) => {
            assert(false);
            unreached()
        },
    }
}

/// A decision that is carried out.
pub struct Decision {
    /// The join request that is decided.
    pub request_id: DocId,
    /// Approval or rejection.
    pub decision: JoinRequestStatus,
    /// The project that the request asks to join.
    pub project_id: DocId,
    /// The account that made the request.
    pub requester: DocId,
}

/// Whether a decision is carried out, and why not if it is not. The checks
/// are made in this order, and the first that fails decides. Whether the
/// request was decided before is not among them.
pub open spec fn decide_verdict(
    store: StoreView,
    caller: Seq<char>,
    role: Role,
    request: Seq<char>,
    status: Seq<char>,
) -> Result<Decision, Rejection> {
    match DocId::parsed(caller) {
        None => Err(Rejection::InvalidUserId),
        Some(account) => match DocId::parsed(request) {
            None => Err(Rejection::InvalidRequestId),
            Some(id) => match store.join_request(id) {
                None => Err(Rejection::RequestNotFound),
                Some(found) => match store.project(found.project_id) {
                    None => Err(Rejection::ProjectNotFound),
                    Some(project) => if !manages(project, account, role) {
                        Err(Rejection::ManageForbidden)
                    } else {
                        match JoinRequestStatus::decision_named(status) {
                            None => Err(Rejection::InvalidStatus),
                            Some(decision) => Ok(
                                Decision {
                                    request_id: id,
                                    decision: decision,
                                    project_id: found.project_id,
                                    requester: found.user_id,
                                },
                            ),
                        }
                    },
                },
            },
        },
    }
}

/// The store after a decision was carried out at the time `at`: the status is
/// written, and for an approval the requester is added to the project's
/// member list and the project to the requester's memberships.
pub open spec fn carried_out(before: StoreView, decision: Decision, at: i64) -> StoreView {
    let written = before.with_request_status(decision.request_id, decision.decision, at);
    if decision.decision == JoinRequestStatus::Approved {
        written.with_member(decision.project_id, decision.requester).with_membership(
            decision.requester,
            decision.project_id,
        )
    } else {
        written
    }
}

/// What deciding a join request comes to: a decision that is turned away
/// leaves the store as it is; any other is carried out at some time.
pub open spec fn decided(
    before: StoreView,
    caller: Seq<char>,
    role: Role,
    request: Seq<char>,
    status: Seq<char>,
    after: StoreView,
    outcome: Outcome,
) -> bool {
    match decide_verdict(before, caller, role, request, status) {
        Err(reason) => outcome == Outcome::Rejected(reason) && after == before,
        Ok(decision) => outcome == Outcome::JoinRequestDecided(decision.decision) && exists|at: i64|
            after == #[trigger] carried_out(before, decision, at),
    }
}

/// Decides a join request for the caller.
pub fn decide(
    store: &mut MemoryStore,
    acting: &AuthUser,
    request_id: &str,
    payload: UpdateJoinRequestStatus,
) -> (outcome: Outcome)
    requires
        old(store).wf(),
    ensures
        final(store).wf(),
        final(store).exhausted() == old(store).exhausted(),
        decided(
            old(store)@,
            acting.id@,
            acting.role,
            request_id@,
            payload.status@,
            final(store)@,
            outcome,
        ),
{
    let (effect, pending) = match update_join_request_status(acting, request_id, payload) {
        Step::Ask(effect, pending) => (effect, pending),
        Step::Done(outcome) => {
            return outcome;
        },
    };
    let reply = store.answer(effect);
    let (effect, pending) = match resume(pending, reply) {
        Step::Ask(effect, pending) => (effect, pending),
        Step::Done(outcome) => {
            return outcome;
        },
    };
    let reply = store.answer(effect);
    let (effect, pending) = match resume(pending, reply) {
        Step::Ask(effect, pending) => (effect, pending),
        Step::Done(outcome) => {
            return outcome;
        },
    };
    let ghost verdict = decide_verdict(
        old(store)@,
        acting.id@,
        acting.role,
        request_id@,
        payload.status@,
    )->Ok_0;
    let ghost at = effect->SetJoinRequestStatus_updated_at;
    let reply = store.answer(effect);
    let (effect, pending) = match resume(pending, reply) {
        Step::Ask(effect, pending) => (effect, pending),
        Step::Done(outcome) => {
            assert(final(store)@ == carried_out(old(store)@, verdict, at));
            return outcome;
        },
    };
    let reply = store.answer(effect);
    let (effect, pending) = match resume(pending, reply) {
        Step::Ask(effect, pending) => (effect, pending),
        Step::Done(outcome) => {
            assert(false);
            return outcome;
        },
    };
    let reply = store.answer(effect);
    match resume(pending, reply) {
        Step::Done(outcome) => {
            assert(final(store)@ == carried_out(old(store)@, verdict, at));
            outcome
        },
        Step::Ask(..) => {
            assert(false);
            unreached()
        },
    }
}

/// Join requests joined with the profiles of their requesters, in order. A
/// request whose requester is gone is left out.
pub open spec fn joined(store: StoreView, requests: Seq<ProjectJoinRequestView>) -> Seq<
    JoinRequestEntryView,
>
    decreases requests.len(),
{
    if requests.len() == 0 {
        Seq::empty()
    } else {
        let rest = joined(store, requests.drop_first());
        match store.user(requests[0].user_id) {
            Some(account) => seq![entry_of(requests[0], account)] + rest,
            None => rest,
        }
    }
}

/// The project whose join requests are listed for the caller, or why the
/// caller is turned away.
pub open spec fn list_verdict(
    store: StoreView,
    caller: Seq<char>,
    role: Role,
    project: Seq<char>,
) -> Result<DocId, Rejection> {
    match DocId::parsed(caller) {
        None => Err(Rejection::InvalidUserId),
        Some(account) => match DocId::parsed(project) {
            None => Err(Rejection::InvalidProjectId),
            Some(id) => match store.project(id) {
                None => Err(Rejection::ProjectNotFound),
                Some(found) => if manages(found, account, role) {
                    Ok(id)
                } else {
                    Err(Rejection::ViewForbidden)
                },
            },
        },
    }
}

/// What listing the join requests of a project comes to: the pending
/// requests of the project in the order of the store, each with the profile of
/// its requester.
pub open spec fn listed(
    store: StoreView,
    caller: Seq<char>,
    role: Role,
    project: Seq<char>,
    outcome: Outcome,
) -> bool {
    match list_verdict(store, caller, role, project) {
        Err(reason) => outcome == Outcome::Rejected(reason),
        Ok(id) => outcome matches Outcome::PendingJoinRequests(entries) && entries_view(entries@)
            == joined(store, store.pending_requests(id)),
    }
}

/// Where the listing stands while it looks up one requester after the other:
/// what is done, and what the rest will add, make up the whole listing.
pub open spec fn listing(store: StoreView, whole: Seq<JoinRequestEntryView>, step: Step) -> bool {
    match step {
        Step::Done(Outcome::PendingJoinRequests(entries)) => entries_view(entries@) == whole,
        Step::Ask(Effect::FindUser { id }, Pending::ListRequester { current, rest, done }) => {
            &&& id == current.user_id
            &&& entries_view(done@) + joined(store, seq![current@] + requests_view(rest@)) == whole
        },
        _ => false,
    }
}

/// How many requesters the listing has yet to look up.
pub open spec fn listing_left(step: Step) -> nat {
    match step {
        Step::Ask(_, Pending::ListRequester { rest, .. }) => rest@.len() + 1,
        _ => 0,
    }
}

/// A listing that is continued with `rest` and `done` stands where `done` and
/// what `rest` will add make up the whole.
proof fn lemma_listing_continued(
    store: StoreView,
    rest: Seq<ProjectJoinRequestView>,
    done: Seq<JoinRequestEntryView>,
    step: Step,
)
    requires
        crate::join_requests::list_continued(rest, done, step),
    ensures
        listing(store, done + joined(store, rest), step),
        listing_left(step) == rest.len(),
{
    if rest.len() == 0 {
        assert(done + joined(store, rest) =~= done);
    } else {
        let current = step->Ask_1->ListRequester_current;
        let left = step->Ask_1->ListRequester_rest;
        assert(seq![current@] + requests_view(left@) =~= rest);
        assert(requests_view(left@).len() == left@.len());
    }
}

/// Lists the pending join requests of a project for the caller.
pub fn list_pending(store: &mut MemoryStore, acting: &AuthUser, project_id: &str) -> (outcome:
    Outcome)
    requires
        old(store).wf(),
    ensures
        final(store).wf(),
        final(store).exhausted() == old(store).exhausted(),
        final(store)@ == old(store)@,
        listed(old(store)@, acting.id@, acting.role, project_id@, outcome),
{
    let (effect, pending) = match get_project_join_requests(acting, project_id) {
        Step::Ask(effect, pending) => (effect, pending),
        Step::Done(outcome) => {
            return outcome;
        },
    };
    let reply = store.answer(effect);
    let (effect, pending) = match resume(pending, reply) {
        Step::Ask(effect, pending) => (effect, pending),
        Step::Done(outcome) => {
            return outcome;
        },
    };
    let ghost project = DocId::parsed(project_id@)->0;
    let ghost whole = joined(old(store)@, old(store)@.pending_requests(project));
    let reply = store.answer(effect);
    let mut step = resume(pending, reply);
    proof {
        let requests = reply->JoinRequests_0;
        lemma_listing_continued(old(store)@, requests_view(requests@), Seq::empty(), step);
        assert(Seq::<JoinRequestEntryView>::empty() + whole =~= whole);
    }
    loop
        invariant
            store.wf(),
            store.exhausted() == old(store).exhausted(),
            store@ == old(store)@,
            list_verdict(old(store)@, acting.id@, acting.role, project_id@) == Ok::<
                DocId,
                Rejection,
            >(project),
            whole == joined(old(store)@, old(store)@.pending_requests(project)),
            listing(store@, whole, step),
        decreases listing_left(step),
    {
        match step {
            Step::Done(outcome) => {
                return outcome;
            },
            Step::Ask(effect, pending) => {
                let ghost current = pending->ListRequester_current;
                let ghost rest = pending->ListRequester_rest;
                let ghost done = pending->ListRequester_done;
                let reply = store.answer(effect);
                step = resume(pending, reply);
                proof {
                    let all = seq![current@] + requests_view(rest@);
                    assert(all.drop_first() =~= requests_view(rest@));
                    assert(all[0] == current@);
                    let found = reply->User_0;
                    match found {
                        Some(account) => {
                            let grown = entries_view(done@).push(entry_of(current@, account@));
                            lemma_listing_continued(store@, requests_view(rest@), grown, step);
                            assert(grown + joined(store@, requests_view(rest@)) =~= entries_view(
                                done@,
                            ) + joined(store@, all));
                        },
                        None => {
                            lemma_listing_continued(
                                store@,
                                requests_view(rest@),
                                entries_view(done@),
                                step,
                            );
                        },
                    }
                    assert(requests_view(rest@).len() == rest@.len());
                }
            },
        }
    }
}

/// The project and the member of a removal that is carried out, or why the
/// removal is turned away. The checks are made in this order, and the first
/// that fails decides.
pub open spec fn removal_verdict(
    store: StoreView,
    caller: Seq<char>,
    role: Role,
    project: Seq<char>,
    member: Seq<char>,
) -> Result<(DocId, DocId), Rejection> {
    match DocId::parsed(project) {
        None => Err(Rejection::InvalidProjectId),
        Some(id) => match DocId::parsed(member) {
            None => Err(Rejection::InvalidMemberId),
            Some(account) => match DocId::parsed(caller) {
                None => Err(Rejection::InvalidUserId),
                Some(acting) => match store.project(id) {
                    None => Err(Rejection::ProjectNotFound),
                    Some(found) => if manages(found, acting, role) {
                        Ok((id, account))
                    } else {
                        Err(Rejection::RemoveForbidden)
                    },
                },
            },
        },
    }
}

/// The store after an account was taken out of a project on both sides, with
/// the times of the two changes.
pub open spec fn taken_out(
    before: StoreView,
    project: DocId,
    account: DocId,
    first: Seq<char>,
    second: Seq<char>,
) -> StoreView {
    before.without_member(project, account, first).without_membership(account, project, second)
}

/// What removing a member comes to: a removal that is turned away leaves the
/// store as it is; any other takes the account out of the project on both
/// sides.
pub open spec fn removed(
    before: StoreView,
    caller: Seq<char>,
    role: Role,
    project: Seq<char>,
    member: Seq<char>,
    after: StoreView,
    outcome: Outcome,
) -> bool {
    match removal_verdict(before, caller, role, project, member) {
        Err(reason) => outcome == Outcome::Rejected(reason) && after == before,
        Ok((id, account)) => outcome == Outcome::MemberRemoved && exists|
            first: Seq<char>,
            second: Seq<char>,
        | after == #[trigger] taken_out(before, id, account, first, second),
    }
}

/// Removes a member from a project for the caller.
pub fn remove_member(
    store: &mut MemoryStore,
    acting: &AuthUser,
    project_id: &str,
    member_id: &str,
) -> (outcome: Outcome)
    requires
        old(store).wf(),
    ensures
        final(store).wf(),
        final(store).exhausted() == old(store).exhausted(),
        removed(
            old(store)@,
            acting.id@,
            acting.role,
            project_id@,
            member_id@,
            final(store)@,
            outcome,
        ),
{
    let (effect, pending) = match remove_member_by_lead(acting, project_id, member_id) {
        Step::Ask(effect, pending) => (effect, pending),
        Step::Done(outcome) => {
            return outcome;
        },
    };
    let reply = store.answer(effect);
    let (effect, pending) = match resume(pending, reply) {
        Step::Ask(effect, pending) => (effect, pending),
        Step::Done(outcome) => {
            return outcome;
        },
    };
    let ghost first = effect->PullProjectMember_updated_at@;
    let reply = store.answer(effect);
    let (effect, pending) = match resume(pending, reply) {
        Step::Ask(effect, pending) => (effect, pending),
        Step::Done(outcome) => {
            assert(false);
            return outcome;
        },
    };
    let ghost second = effect->PullUserProject_updated_at@;
    let reply = store.answer(effect);
    match resume(pending, reply) {
        Step::Done(outcome) => {
            proof {
                let target = removal_verdict(
                    old(store)@,
                    acting.id@,
                    acting.role,
                    project_id@,
                    member_id@,
                )->Ok_0;
                assert(final(store)@ == taken_out(old(store)@, target.0, target.1, first, second));
            }
            outcome
        },
        Step::Ask(..) => {
            assert(false);
            unreached()
        },
    }
}

} // verus!
