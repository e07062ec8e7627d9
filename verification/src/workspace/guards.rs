//! Guards turn verified actor or integration context into typed permissions.

use vstd::prelude::*;
use crate::workspace::ids::{UserId, WorkspaceId};
use crate::workspace::permissions::{
    WorkspaceReadPermission, WorkspaceWritePermission, WorkspacesReadPermission,
};
use crate::workspace::role::WorkspaceRole;
use crate::workspace::user::User;
use crate::workspace::user_types::{GlobalUserRole, UserStatus};

verus! {

/// A trusted internal caller whose service-to-service channel is already
/// verified outside actor-scoped admin authorization.
#[derive(Debug, Clone, Copy, PartialEq, Eq)]
pub struct IntegrationGuard {
    verified: (),
}

impl IntegrationGuard {
    /// Callers must only mint this guard after verifying a trusted internal
    /// service-to-service request outside the domain layer.
    pub fn new_verified() -> (r: Self) {
        IntegrationGuard { verified: () }
    }

    /// Read access to every workspace.
    pub fn workspaces_read_permission(&self) -> (r: WorkspacesReadPermission) {
        WorkspacesReadPermission::new()
    }
}

/// There is one integration guard: any two are equal.
pub proof fn lemma_integration_guards_are_equal(a: IntegrationGuard, b: IntegrationGuard)
    ensures
        a == b,
{
}

/// A caller whose global role has already been verified as super admin.
#[derive(Debug, Clone, Copy, PartialEq, Eq)]
pub struct SuperAdminGuard {
    verified: (),
}

impl SuperAdminGuard {
    /// A guard exists exactly for the super admin role.
    pub fn try_from_role(role: GlobalUserRole) -> (r: Option<Self>)
        ensures
            r is Some <==> role == GlobalUserRole::SuperAdmin,
    {
        match role {
            GlobalUserRole::SuperAdmin => Some(SuperAdminGuard { verified: () }),
            GlobalUserRole::Member => None,
        }
    }

    pub fn read_permission(&self, workspace_id: WorkspaceId) -> (r: WorkspaceReadPermission)
        ensures
            r@ == workspace_id,
    {
        WorkspaceReadPermission::new(workspace_id)
    }

    pub fn write_permission(&self, workspace_id: WorkspaceId) -> (r: WorkspaceWritePermission)
        ensures
            r@ == workspace_id,
    {
        WorkspaceWritePermission::new(workspace_id)
    }
}

/// A caller verified to bootstrap a brand new workspace, before any
/// workspace-scoped permission can exist.
#[derive(Debug, PartialEq, Eq)]
pub struct WorkspaceCreatorGuard {
    actor_user_id: UserId,
}

impl View for WorkspaceCreatorGuard {
    /// The verified actor.
    type V = UserId;

    closed spec fn view(&self) -> UserId {
        self.actor_user_id
    }
}

impl Clone for WorkspaceCreatorGuard {
    fn clone(&self) -> (r: Self)
        ensures
            r == *self,
    {
        WorkspaceCreatorGuard { actor_user_id: self.actor_user_id.clone() }
    }
}

impl WorkspaceCreatorGuard {
    /// Only an active super admin may create workspaces.
    pub fn try_from_actor(actor: &User) -> (r: Option<Self>)
        ensures
            r is Some <==> (actor@.role == GlobalUserRole::SuperAdmin && actor@.status
                == UserStatus::Active),
            r matches Some(guard) ==> guard@ == actor@.id,
    {
        match (actor.role(), actor.status()) {
            (GlobalUserRole::SuperAdmin, UserStatus::Active) => Some(
                WorkspaceCreatorGuard { actor_user_id: actor.id().clone() },
            ),
            _ => None,
        }
    }

    pub fn actor_user_id(&self) -> (r: &UserId)
        ensures
            *r == self@,
    {
        &self.actor_user_id
    }
}

/// The fields of a member guard.
pub struct MemberGuardModel {
    pub workspace_id: WorkspaceId,
    pub role: WorkspaceRole,
}

/// A caller whose membership in a specific workspace is already verified.
#[derive(Debug, PartialEq, Eq)]
pub struct WorkspaceMemberGuard {
    workspace_id: WorkspaceId,
    role: WorkspaceRole,
}

impl View for WorkspaceMemberGuard {
    type V = MemberGuardModel;

    closed spec fn view(&self) -> MemberGuardModel {
        MemberGuardModel { workspace_id: self.workspace_id, role: self.role }
    }
}

impl Clone for WorkspaceMemberGuard {
    fn clone(&self) -> (r: Self)
        ensures
            r == *self,
    {
        WorkspaceMemberGuard { workspace_id: self.workspace_id.clone(), role: self.role }
    }
}

impl WorkspaceMemberGuard {
    pub fn new(workspace_id: WorkspaceId, role: WorkspaceRole) -> (r: Self)
        ensures
            r@ == (MemberGuardModel { workspace_id, role }),
    {
        WorkspaceMemberGuard { workspace_id, role }
    }

    pub fn workspace_id(&self) -> (r: &WorkspaceId)
        ensures
            *r == self@.workspace_id,
    {
        &self.workspace_id
    }

    pub fn role(&self) -> (r: WorkspaceRole)
        ensures
            r == self@.role,
    {
        self.role
    }

    /// Every member may read the workspace.
    pub fn read_permission(&self) -> (r: WorkspaceReadPermission)
        ensures
            r@ == self@.workspace_id,
    {
        WorkspaceReadPermission::new(self.workspace_id.clone())
    }

    /// Only owners may write the workspace.
    pub fn write_permission(&self) -> (r: Option<WorkspaceWritePermission>)
        ensures
            r is Some <==> self@.role == WorkspaceRole::Owner,
            r matches Some(p) ==> p@ == self@.workspace_id,
    {
        match self.role {
            WorkspaceRole::Owner => Some(WorkspaceWritePermission::new(self.workspace_id.clone())),
            WorkspaceRole::Member => None,
        }
    }
}

} // verus!
