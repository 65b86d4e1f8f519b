//! Projects as administrators manage them.

use crate::ids::DocId;
use crate::models::project::{Project, ProjectStatus, ProjectView};
use crate::text::text_view;
use vstd::prelude::*;

verus! {

/// The body of a request that opens a project.
#[derive(Debug, PartialEq, Eq)]
pub struct CreateProjectRequest {
    pub name: String,
    pub description: String,
    /// The identifier of the account that opens the project.
    pub created_by: String,
    pub status: Option<String>,
    pub github_link: Option<String>,
    /// The identifier of the account that leads the project.
    pub project_lead_id: Option<String>,
}

/// The body of a request that changes a project. Only the fields that are
/// given are changed.
#[derive(Debug, PartialEq, Eq)]
pub struct UpdateProjectRequest {
    pub project_id: String,
    pub name: Option<String>,
    pub description: Option<String>,
    pub status: Option<String>,
    pub github_link: Option<String>,
}

/// The lead that a request to open a project names: the account whose
/// identifier it gives, and none where it gives none or none that reads as an
/// identifier.
pub open spec fn named_lead(lead: Option<Seq<char>>) -> Option<DocId> {
    match lead {
        Some(text) => DocId::parsed(text),
        None => None,
    }
}

/// The project that a request to open one describes, for a creator whose
/// identifier was read: without members or files, active unless the request
/// names another status.
pub open spec fn opened_project(
    name: Seq<char>,
    description: Seq<char>,
    creator: DocId,
    status: Option<Seq<char>>,
    github_link: Option<Seq<char>>,
    lead: Option<Seq<char>>,
    created_at: Seq<char>,
    updated_at: Seq<char>,
) -> ProjectView {
    ProjectView {
        id: None,
        name: name,
        description: description,
        status: ProjectStatus::named(status),
        member_ids: Some(Seq::empty()),
        project_lead_id: named_lead(lead),
        github_link: github_link,
        files: Some(Seq::empty()),
        created_by: creator,
        created_at: created_at,
        updated_at: updated_at,
    }
}

/// Makes the project that a request to open one describes. There is none
/// where the creator's identifier does not read as one.
pub fn new_project(payload: CreateProjectRequest, created_at: String, updated_at: String) -> (r:
    Option<Project>)
    ensures
        match DocId::parsed(payload.created_by@) {
            Some(creator) => r matches Some(project) && project@ == opened_project(
                payload.name@,
                payload.description@,
                creator,
                text_view(payload.status),
                text_view(payload.github_link),
                text_view(payload.project_lead_id),
                created_at@,
                updated_at@,
            ),
            None => r is None,
        },
{
    let creator = match DocId::parse_str(payload.created_by.as_str()) {
        Some(id) => id,
        None => {
            return None;
        },
    };
    let status = match &payload.status {
        Some(word) => ProjectStatus::parse(Some(word.as_str())),
        None => ProjectStatus::parse(None),
    };
    let lead = match &payload.project_lead_id {
        Some(text) => DocId::parse_str(text.as_str()),
        None => None,
    };
    let files: Vec<crate::models::project::ProjectFile> = Vec::new();
    proof {
        assert(files@.map_values(|f: crate::models::project::ProjectFile| f@) =~= Seq::empty());
    }
    Some(
        Project {
            id: None,
            name: payload.name,
            description: payload.description,
            status,
            member_ids: Some(Vec::new()),
            project_lead_id: lead,
            github_link: payload.github_link,
            files: Some(files),
            created_by: creator,
            created_at,
            updated_at,
        },
    )
}

/// The name under which the status of a request to change a project is
/// stored: that of the status which the word names.
pub fn stored_status(word: &str) -> (r: &'static str)
    ensures
        r@ == ProjectStatus::named(Some(word@)).name(),
{
    ProjectStatus::parse(Some(word)).as_str()
}

} // verus!
