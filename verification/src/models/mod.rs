//! The records that the document store holds.

pub mod project;
pub mod project_join_request;
pub mod user;

pub use project::{Project, ProjectFile, ProjectStatus};
pub use project_join_request::{
    CreateJoinRequest, JoinRequestEntry, JoinRequestStatus, ProjectJoinRequest, RequesterProfile,
    UpdateJoinRequestStatus,
};
pub use user::{Role, User};
