//! Indexing, dispatch, and access-control layer of a social-graph application
//! built over a content-addressed entry store with a typed link graph.
//!
//! The store and link graph themselves are external collaborators of this
//! layer. They are modelled by [`store::Store`], an in-memory state with the
//! collaborator contract as its observable behaviour: content-addressed
//! commits (identical content yields an identical address), append-only
//! typed tagged links, and per-commit revision timestamps. Every operation
//! of the layer is verified against that model.

pub mod records;
pub mod strutil;
pub mod store;
pub mod links;
pub mod time;
pub mod auth;
pub mod indexing;
pub mod dispatch;
pub mod aggregate;
