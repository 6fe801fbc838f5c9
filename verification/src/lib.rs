//! Version-controlled text artifacts over a commit-graph store.
//!
//! The heart of the crate is path-scoped history reconstruction: walking the
//! commit graph and returning exactly the commits that changed a given path,
//! with tree-diff decisions for additions, deletions, modifications, merge
//! commits and the root commit. The decision logic is verified; the object
//! store itself (git2) is reached through a small trusted interface.

pub mod artifacts;
pub mod git_ops;
pub mod history;
pub mod status;
pub mod store;
