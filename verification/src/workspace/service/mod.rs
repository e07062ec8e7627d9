//! Workspace-domain orchestration services live here.

pub mod rules;
pub mod workspace_service;
pub mod sync_service;
