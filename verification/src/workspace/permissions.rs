//! Typed permissions minted by verified domain guards.

use vstd::prelude::*;
use crate::workspace::ids::WorkspaceId;

verus! {

/// Read-all workspace access minted by verified domain guards for sync flows.
///
/// Trusted integration guards should mint this only after verifying an
/// internal service-to-service request.
#[derive(Debug, Clone, Copy, PartialEq, Eq)]
pub struct WorkspacesReadPermission {
    verified: (),
}

impl WorkspacesReadPermission {
    pub fn new() -> (r: Self) {
        WorkspacesReadPermission { verified: () }
    }
}

/// There is one read-all permission: any two are equal.
pub proof fn lemma_read_all_permissions_are_equal(a: WorkspacesReadPermission, b: WorkspacesReadPermission)
    ensures
        a == b,
{
}

/// Workspace read access minted by verified domain guards.
#[derive(Debug)]
pub struct WorkspaceReadPermission {
    workspace_id: WorkspaceId,
}

impl View for WorkspaceReadPermission {
    /// The workspace the permission is scoped to.
    type V = WorkspaceId;

    closed spec fn view(&self) -> WorkspaceId {
        self.workspace_id
    }
}

impl WorkspaceReadPermission {
    pub fn new(workspace_id: WorkspaceId) -> (r: Self)
        ensures
            r@ == workspace_id,
    {
        WorkspaceReadPermission { workspace_id }
    }

    pub fn workspace_id(&self) -> (r: &WorkspaceId)
        ensures
            *r == self@,
    {
        &self.workspace_id
    }
}

impl Clone for WorkspaceReadPermission {
    fn clone(&self) -> (r: Self)
        ensures
            r == *self,
    {
        WorkspaceReadPermission { workspace_id: self.workspace_id.clone() }
    }
}

impl PartialEq for WorkspaceReadPermission {
    fn eq(&self, other: &Self) -> (r: bool) {
        self.workspace_id == other.workspace_id
    }
}

impl vstd::std_specs::cmp::PartialEqSpecImpl for WorkspaceReadPermission {
    open spec fn obeys_eq_spec() -> bool {
        true
    }

    open spec fn eq_spec(&self, other: &Self) -> bool {
        self@@ == other@@
    }
}

impl Eq for WorkspaceReadPermission {}

/// Workspace write access minted by verified domain guards.
#[derive(Debug)]
pub struct WorkspaceWritePermission {
    workspace_id: WorkspaceId,
}

impl View for WorkspaceWritePermission {
    /// The workspace the permission is scoped to.
    type V = WorkspaceId;

    closed spec fn view(&self) -> WorkspaceId {
        self.workspace_id
    }
}

impl WorkspaceWritePermission {
    pub fn new(workspace_id: WorkspaceId) -> (r: Self)
        ensures
            r@ == workspace_id,
    {
        WorkspaceWritePermission { workspace_id }
    }

    pub fn workspace_id(&self) -> (r: &WorkspaceId)
        ensures
            *r == self@,
    {
        &self.workspace_id
    }
}

impl Clone for WorkspaceWritePermission {
    fn clone(&self) -> (r: Self)
        ensures
            r == *self,
    {
        WorkspaceWritePermission { workspace_id: self.workspace_id.clone() }
    }
}

impl PartialEq for WorkspaceWritePermission {
    fn eq(&self, other: &Self) -> (r: bool) {
        self.workspace_id == other.workspace_id
    }
}

impl vstd::std_specs::cmp::PartialEqSpecImpl for WorkspaceWritePermission {
    open spec fn obeys_eq_spec() -> bool {
        true
    }

    open spec fn eq_spec(&self, other: &Self) -> bool {
        self@@ == other@@
    }
}

impl Eq for WorkspaceWritePermission {}

} // verus!
