//! Projects and their member lists.

use crate::ids::DocId;
use crate::models::user::{copy_ids, ids_view};
use crate::text::{copy_text, str_eq, text_view};
use vstd::prelude::*;

verus! {

/// Where a project stands.
#[derive(Clone, Copy, Debug, PartialEq, Eq, Structural, Hash)]
pub enum ProjectStatus {
    Active,
    Completed,
    OnHold,
}

impl ProjectStatus {
    /// The status that a status word of a request stands for: "completed" and
    /// "onhold" name their status, anything else, or no word at all, is `Active`.
    pub open spec fn named(word: Option<Seq<char>>) -> ProjectStatus {
        match word {
            Some(w) => if w == "completed"@ {
                ProjectStatus::Completed
            } else if w == "onhold"@ {
                ProjectStatus::OnHold
            } else {
                ProjectStatus::Active
            },
            None => ProjectStatus::Active,
        }
    }

    /// The name under which a status is stored.
    pub open spec fn name(self) -> Seq<char> {
        match self {
            ProjectStatus::Active => "Active"@,
            ProjectStatus::Completed => "Completed"@,
            ProjectStatus::OnHold => "OnHold"@,
        }
    }

    /// Reads the status word of a request.
    pub fn parse(word: Option<&str>) -> (r: ProjectStatus)
        ensures
            r == ProjectStatus::named(
                match word {
                    Some(w) => Some(w@),
                    None => None,
                },
            ),
    {
        match word {
            Some(w) => {
                if str_eq(w, "completed") {
                    ProjectStatus::Completed
                } else if str_eq(w, "onhold") {
                    ProjectStatus::OnHold
                } else {
                    ProjectStatus::Active
                }
            },
            None => ProjectStatus::Active,
        }
    }

    /// The name under which the status is stored.
    pub fn as_str(&self) -> (r: &'static str)
        ensures
            r@ == self.name(),
    {
        match self {
            ProjectStatus::Active => "Active",
            ProjectStatus::Completed => "Completed",
            ProjectStatus::OnHold => "OnHold",
        }
    }
}

/// A file attached to a project.
#[derive(Debug, PartialEq, Eq)]
pub struct ProjectFile {
    pub id: DocId,
    pub name: String,
    pub url: String,
    pub file_type: String,
    /// Size in bytes.
    pub size: i64,
    pub uploaded_by: DocId,
    pub uploaded_at: String,
}

/// The mathematical content of a [`ProjectFile`].
pub struct ProjectFileView {
    pub id: DocId,
    pub name: Seq<char>,
    pub url: Seq<char>,
    pub file_type: Seq<char>,
    pub size: i64,
    pub uploaded_by: DocId,
    pub uploaded_at: Seq<char>,
}

impl View for ProjectFile {
    type V = ProjectFileView;

    open spec fn view(&self) -> ProjectFileView {
        ProjectFileView {
            id: self.id,
            name: self.name@,
            url: self.url@,
            file_type: self.file_type@,
            size: self.size,
            uploaded_by: self.uploaded_by,
            uploaded_at: self.uploaded_at@,
        }
    }
}

impl Clone for ProjectFile {
    fn clone(&self) -> (r: Self)
        ensures
            r@ == self@,
    {
        ProjectFile {
            id: self.id,
            name: self.name.clone(),
            url: self.url.clone(),
            file_type: self.file_type.clone(),
            size: self.size,
            uploaded_by: self.uploaded_by,
            uploaded_at: self.uploaded_at.clone(),
        }
    }
}

/// The view of an optional list of files.
pub open spec fn files_view(files: Option<Vec<ProjectFile>>) -> Option<Seq<ProjectFileView>> {
    match files {
        Some(v) => Some(v@.map_values(|f: ProjectFile| f@)),
        None => None,
    }
}

/// Copies an optional list of files.
pub fn copy_files(files: &Option<Vec<ProjectFile>>) -> (r: Option<Vec<ProjectFile>>)
    ensures
        files_view(r) == files_view(*files),
{
    match files {
        Some(v) => {
            let mut out: Vec<ProjectFile> = Vec::new();
            let mut i: usize = 0;
            while i < v.len()
                invariant
                    i <= v.len(),
                    out@.len() == i,
                    forall|j: int| 0 <= j < i ==> (#[trigger] out@[j])@ == v@[j]@,
                decreases v.len() - i,
            {
                out.push(v[i].clone());
                i += 1;
            }
            assert(out@.map_values(|f: ProjectFile| f@) =~= v@.map_values(|f: ProjectFile| f@));
            Some(out)
        },
        None => None,
    }
}

/// A project as the store holds it.
#[derive(Debug, PartialEq, Eq)]
pub struct Project {
    /// Absent until the store has assigned one.
    pub id: Option<DocId>,
    pub name: String,
    pub description: String,
    pub status: ProjectStatus,
    /// The accounts that belong to the project.
    pub member_ids: Option<Vec<DocId>>,
    /// The account that leads the project, if one is appointed.
    pub project_lead_id: Option<DocId>,
    pub github_link: Option<String>,
    pub files: Option<Vec<ProjectFile>>,
    pub created_by: DocId,
    pub created_at: String,
    pub updated_at: String,
}

/// The mathematical content of a [`Project`].
pub struct ProjectView {
    pub id: Option<DocId>,
    pub name: Seq<char>,
    pub description: Seq<char>,
    pub status: ProjectStatus,
    pub member_ids: Option<Seq<DocId>>,
    pub project_lead_id: Option<DocId>,
    pub github_link: Option<Seq<char>>,
    pub files: Option<Seq<ProjectFileView>>,
    pub created_by: DocId,
    pub created_at: Seq<char>,
    pub updated_at: Seq<char>,
}

impl ProjectView {
    /// The accounts that belong to the project, as a set.
    pub open spec fn members(self) -> Set<DocId> {
        match self.member_ids {
            Some(ids) => ids.to_set(),
            None => Set::empty(),
        }
    }

    /// Whether `account` is listed as a member.
    pub open spec fn has_member(self, account: DocId) -> bool {
        match self.member_ids {
            Some(ids) => ids.contains(account),
            None => false,
        }
    }

    /// Whether `account` leads the project.
    pub open spec fn led_by(self, account: DocId) -> bool {
        self.project_lead_id == Some(account)
    }
}

impl View for Project {
    type V = ProjectView;

    open spec fn view(&self) -> ProjectView {
        ProjectView {
            id: self.id,
            name: self.name@,
            description: self.description@,
            status: self.status,
            member_ids: ids_view(self.member_ids),
            project_lead_id: self.project_lead_id,
            github_link: text_view(self.github_link),
            files: files_view(self.files),
            created_by: self.created_by,
            created_at: self.created_at@,
            updated_at: self.updated_at@,
        }
    }
}

impl Clone for Project {
    fn clone(&self) -> (r: Self)
        ensures
            r@ == self@,
    {
        Project {
            id: self.id,
            name: self.name.clone(),
            description: self.description.clone(),
            status: self.status,
            member_ids: copy_ids(&self.member_ids),
            project_lead_id: self.project_lead_id,
            github_link: copy_text(&self.github_link),
            files: copy_files(&self.files),
            created_by: self.created_by,
            created_at: self.created_at.clone(),
            updated_at: self.updated_at.clone(),
        }
    }
}

impl Project {
    /// Whether `account` is listed as a member.
    pub fn has_member(&self, account: DocId) -> (r: bool)
        ensures
            r == self@.has_member(account),
    {
        match &self.member_ids {
            Some(ids) => {
                let mut i: usize = 0;
                while i < ids.len()
                    invariant
                        i <= ids.len(),
                        self.member_ids == Some(*ids),
                        forall|j: int| 0 <= j < i ==> ids@[j] != account,
                    decreases ids.len() - i,
                {
                    if ids[i] == account {
                        assert(ids@[i as int] == account);
                        return true;
                    }
                    i += 1;
                }
                false
            },
            None => false,
        }
    }

    /// Whether `account` leads the project.
    pub fn led_by(&self, account: DocId) -> (r: bool)
        ensures
            r == self@.led_by(account),
    {
        match self.project_lead_id {
            Some(lead) => lead == account,
            None => false,
        }
    }
}

} // verus!
