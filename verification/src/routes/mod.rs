//! What the routes beside identity and membership decide before they reach
//! the store.

pub mod blogs;
pub mod coins;
pub mod events;
pub mod messages;
pub mod projects;
pub mod users;
