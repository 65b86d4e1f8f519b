//! Identity, authorization and project membership of the IRIS member server,
//! with their proofs.
//!
//! The server keeps accounts, projects and requests to join projects in a
//! document store and signs callers in through an identity provider. This
//! library holds what the server decides: what a session token states and
//! when it is accepted ([`session`]), who a caller is and what the caller may
//! do ([`gate`], [`identity`]), how a login proceeds ([`auth`]), and how
//! accounts come to belong to projects and cease to ([`join_requests`],
//! [`members`]).
//!
//! Nothing here reaches the store or the network. A request is worked off in
//! steps ([`protocol`], [`flow`]): each step names one thing to ask of the
//! outside and is resumed with the reply. [`store`] states how the store
//! behaves and offers one that is held in memory; [`membership`] runs whole
//! requests against it, and [`laws`] proves what holds of membership whatever
//! the store holds.

pub mod auth;
pub mod clock;
pub mod flow;
pub mod gate;
pub mod identity;
pub mod ids;
pub mod join_requests;
pub mod laws;
pub mod members;
pub mod membership;
pub mod models;
pub mod protocol;
pub mod rejection;
pub mod routes;
pub mod seqs;
pub mod session;
pub mod store;
pub mod text;
