//! Requests to join a project.

use crate::ids::DocId;
use crate::text::str_eq;
use vstd::prelude::*;

verus! {

/// Where a join request stands. A request starts out pending and is decided
/// once, by approval or rejection.
#[derive(Clone, Copy, Debug, PartialEq, Eq, Structural, Hash)]
pub enum JoinRequestStatus {
    Pending,
    Approved,
    Rejected,
}

impl JoinRequestStatus {
    /// The lower-case name under which a status is stored.
    pub open spec fn name(self) -> Seq<char> {
        match self {
            JoinRequestStatus::Pending => "pending"@,
            JoinRequestStatus::Approved => "approved"@,
            JoinRequestStatus::Rejected => "rejected"@,
        }
    }

    /// The decision that a status word of a request stands for: "approved" or
    /// "rejected", and nothing else.
    pub open spec fn decision_named(word: Seq<char>) -> Option<JoinRequestStatus> {
        if word == "approved"@ {
            Some(JoinRequestStatus::Approved)
        } else if word == "rejected"@ {
            Some(JoinRequestStatus::Rejected)
        } else {
            None
        }
    }

    /// The lower-case name under which the status is stored.
    pub fn as_str(&self) -> (r: &'static str)
        ensures
            r@ == self.name(),
    {
        match self {
            JoinRequestStatus::Pending => "pending",
            JoinRequestStatus::Approved => "approved",
            JoinRequestStatus::Rejected => "rejected",
        }
    }

    /// Reads the decision of a request. Only the exact words "approved" and
    /// "rejected" are decisions.
    pub fn parse_decision(word: &str) -> (r: Option<JoinRequestStatus>)
        ensures
            r == JoinRequestStatus::decision_named(word@),
    {
        if str_eq(word, "approved") {
            Some(JoinRequestStatus::Approved)
        } else if str_eq(word, "rejected") {
            Some(JoinRequestStatus::Rejected)
        } else {
            None
        }
    }

    /// Whether the request still awaits its decision.
    pub fn is_pending(&self) -> (r: bool)
        ensures
            r == (*self == JoinRequestStatus::Pending),
    {
        match self {
            JoinRequestStatus::Pending => true,
            _ => false,
        }
    }
}

/// A decision is never the pending status, and its name reads back as itself.
pub proof fn lemma_decision_names(word: Seq<char>)
    ensures
        JoinRequestStatus::decision_named(word) matches Some(status) ==> status
            != JoinRequestStatus::Pending && status.name() == word,
{
}

/// A join request as the store holds it.
#[derive(Debug, PartialEq, Eq)]
pub struct ProjectJoinRequest {
    /// Absent until the store has assigned one.
    pub id: Option<DocId>,
    pub project_id: DocId,
    pub user_id: DocId,
    pub message: String,
    pub status: JoinRequestStatus,
    /// Milliseconds since the Unix epoch.
    pub created_at: i64,
    /// Milliseconds since the Unix epoch.
    pub updated_at: i64,
}

/// The mathematical content of a [`ProjectJoinRequest`].
pub struct ProjectJoinRequestView {
    pub id: Option<DocId>,
    pub project_id: DocId,
    pub user_id: DocId,
    pub message: Seq<char>,
    pub status: JoinRequestStatus,
    pub created_at: i64,
    pub updated_at: i64,
}

impl ProjectJoinRequestView {
    /// Whether this is a pending request of `account` to join `project`.
    pub open spec fn pending_for(self, project: DocId, account: DocId) -> bool {
        self.project_id == project && self.user_id == account && self.status
            == JoinRequestStatus::Pending
    }

    /// Whether this is a pending request to join `project`.
    pub open spec fn pending_in(self, project: DocId) -> bool {
        self.project_id == project && self.status == JoinRequestStatus::Pending
    }
}

impl View for ProjectJoinRequest {
    type V = ProjectJoinRequestView;

    open spec fn view(&self) -> ProjectJoinRequestView {
        ProjectJoinRequestView {
            id: self.id,
            project_id: self.project_id,
            user_id: self.user_id,
            message: self.message@,
            status: self.status,
            created_at: self.created_at,
            updated_at: self.updated_at,
        }
    }
}

impl Clone for ProjectJoinRequest {
    fn clone(&self) -> (r: Self)
        ensures
            r@ == self@,
    {
        ProjectJoinRequest {
            id: self.id,
            project_id: self.project_id,
            user_id: self.user_id,
            message: self.message.clone(),
            status: self.status,
            created_at: self.created_at,
            updated_at: self.updated_at,
        }
    }
}

/// The body of a request to join a project.
#[derive(Debug, PartialEq, Eq)]
pub struct CreateJoinRequest {
    pub project_id: String,
    pub message: String,
}

/// The body of a request that decides a join request.
#[derive(Debug, PartialEq, Eq)]
pub struct UpdateJoinRequestStatus {
    /// "approved" or "rejected".
    pub status: String,
}

/// What others may see of the account behind a join request. Credentials are
/// not part of it.
#[derive(Debug, PartialEq, Eq)]
pub struct RequesterProfile {
    pub id: Option<DocId>,
    pub username: String,
    pub full_name: String,
    pub email: String,
}

/// The mathematical content of a [`RequesterProfile`].
pub struct RequesterProfileView {
    pub id: Option<DocId>,
    pub username: Seq<char>,
    pub full_name: Seq<char>,
    pub email: Seq<char>,
}

impl View for RequesterProfile {
    type V = RequesterProfileView;

    open spec fn view(&self) -> RequesterProfileView {
        RequesterProfileView {
            id: self.id,
            username: self.username@,
            full_name: self.full_name@,
            email: self.email@,
        }
    }
}

/// A join request together with the profile of the account that made it.
#[derive(Debug, PartialEq, Eq)]
pub struct JoinRequestEntry {
    pub id: Option<DocId>,
    pub project_id: DocId,
    pub user_id: DocId,
    pub message: String,
    pub status: JoinRequestStatus,
    /// Milliseconds since the Unix epoch.
    pub created_at: i64,
    pub user: RequesterProfile,
}

/// The mathematical content of a [`JoinRequestEntry`].
pub struct JoinRequestEntryView {
    pub id: Option<DocId>,
    pub project_id: DocId,
    pub user_id: DocId,
    pub message: Seq<char>,
    pub status: JoinRequestStatus,
    pub created_at: i64,
    pub user: RequesterProfileView,
}

impl View for JoinRequestEntry {
    type V = JoinRequestEntryView;

    open spec fn view(&self) -> JoinRequestEntryView {
        JoinRequestEntryView {
            id: self.id,
            project_id: self.project_id,
            user_id: self.user_id,
            message: self.message@,
            status: self.status,
            created_at: self.created_at,
            user: self.user@,
        }
    }
}

/// The views of a list of entries.
pub open spec fn entries_view(entries: Seq<JoinRequestEntry>) -> Seq<JoinRequestEntryView> {
    entries.map_values(|e: JoinRequestEntry| e@)
}

} // verus!
