//! Workspace administration, room state and sync-derive planning for omeet.
//!
//! The `workspace` module holds the workspace domain: typed identifiers,
//! users, memberships, workspaces, guards that mint permissions, and the
//! services that orchestrate repository ports. The `room` module holds the
//! collaborative-room vocabulary, and `derive_plan` holds the decisions behind
//! the `SyncableState` derive.

pub mod text;
pub mod workspace;
pub mod derive_plan;
pub mod room;
